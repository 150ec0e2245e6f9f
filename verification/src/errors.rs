//! The error taxonomy of the host.
//!
//! Four kinds of failure exist, with different blast radii:
//! - `ProtocolError`: the platform API answered outside its contract; fatal,
//!   the invocation loop aborts.
//! - `ConfigurationError`: the deployment is broken (missing environment,
//!   missing script, missing entry point); fatal at startup or first dispatch.
//! - `HandlerError::ClientError`: the handler classified the failure as a
//!   caller/input fault; reported to the platform as-is, the loop continues.
//! - `HandlerError::ServerError`: a handler or internal fault with a
//!   human-readable description; reported, the loop continues.

use vstd::prelude::*;

verus! {

/// A fatal protocol failure: the platform API response did not match the
/// wire contract (bad status, missing or malformed request-id header, or a
/// body that is not valid JSON).
#[derive(Debug, PartialEq, Eq)]
pub struct ProtocolError {
    pub message: String,
}

/// A fatal deployment defect: missing configuration, an unloadable script,
/// or an entry point that is absent or not callable.
#[derive(Debug, PartialEq, Eq)]
pub struct ConfigurationError {
    pub message: String,
}

/// A per-invocation handler failure, already classified.
///
/// `ClientError` marks a caller/input fault and is forwarded unchanged;
/// `ServerError` carries a human-readable description of a handler or
/// internal fault.
#[derive(Debug, Clone, PartialEq, Eq)]
pub enum HandlerError {
    ClientError,
    ServerError(String),
}

/// Mathematical image of a `HandlerError`.
pub enum HandlerErrorData {
    ClientError,
    ServerError(Seq<char>),
}

impl View for HandlerError {
    type V = HandlerErrorData;

    open spec fn view(&self) -> HandlerErrorData {
        match self {
            HandlerError::ClientError => HandlerErrorData::ClientError,
            HandlerError::ServerError(m) => HandlerErrorData::ServerError(m@),
        }
    }
}

impl ProtocolError {
    /// Builds a protocol failure from its description.
    pub fn new(message: String) -> (r: ProtocolError)
        ensures
            r.message@ == message@,
    {
        ProtocolError { message }
    }
}

impl ConfigurationError {
    /// Builds a configuration failure from its description.
    pub fn new(message: String) -> (r: ConfigurationError)
        ensures
            r.message@ == message@,
    {
        ConfigurationError { message }
    }
}

impl HandlerError {
    /// The textual description carried by the error: empty for a bare
    /// client fault, the stored description for a server fault.
    pub fn description(&self) -> (r: String)
        ensures
            self@ matches HandlerErrorData::ServerError(m) ==> r@ == m,
            self@ is ClientError ==> r@ == Seq::<char>::empty(),
    {
        match self {
            HandlerError::ClientError => String::new(),
            HandlerError::ServerError(m) => m.clone(),
        }
    }
}

} // verus!
