//! A verified core for a function-as-a-service execution host.
//!
//! The host repeatedly fetches a unit of work from a platform invocation API,
//! runs a user-supplied script against the work's payload inside an isolated
//! per-invocation sandbox, and reports the result (or a classified error)
//! back over the same API.
//!
//! This crate holds the verified logic of that cycle: the JSON-like data
//! model and the value bridge between host and sandbox representations, the
//! sandbox session model and its dispatch decisions, the invocation-API
//! protocol interpretation, the error taxonomy with its classification rules,
//! and the invocation-loop state machine. The unverifiable edges — HTTP
//! transport, process environment, and the embedded script engine itself —
//! live outside and hand this crate plain values.

pub mod bridge;
pub mod errors;
pub mod protocol;
pub mod runtime;
pub mod sandbox;
pub mod value;
pub mod wire;
