//! The invocation API's wire protocol, interpreted.
//!
//! One cycle against the platform is: fetch the next unit of work from
//! `{base}/runtime/invocation/next`, then post the outcome to
//! `{base}/runtime/invocation/{request_id}/response` or `.../error`. The
//! transport performs the HTTP round trips and hands this module the plain
//! observations — status code, raw request-id header bytes, body bytes —
//! and this module decides, with exact contracts, what they mean.

use vstd::prelude::*;
use vstd::string::{StrSliceExecFns, StringExecFns};

use crate::errors::ProtocolError;
use crate::value::HostValue;
use crate::wire::{json_document, parse_json};

verus! {

/// The response header that carries the request identifier on a fetch.
pub open spec fn request_id_header_name() -> Seq<char> {
    "Lambda-Runtime-Aws-Request-Id"@
}

/// The exact name of the response header that carries the request
/// identifier.
pub fn request_id_header() -> (r: String)
    ensures
        r@ == request_id_header_name(),
{
    String::from_str("Lambda-Runtime-Aws-Request-Id")
}

/// An opaque token identifying one invocation; supplied by the platform on
/// fetch and required on the report call of the same invocation.
pub struct RequestId(pub String);

impl View for RequestId {
    type V = Seq<char>;

    open spec fn view(&self) -> Seq<char> {
        self.0@
    }
}

/// One fetched unit of work: the request identifier paired with the
/// payload, consumed exactly once by the handler.
pub struct Invocation<T> {
    pub request_id: RequestId,
    pub payload: T,
}

/// Whether every byte is visible ASCII — the bytes a request-id header may
/// carry and still parse as text.
pub open spec fn visible_ascii(b: Seq<u8>) -> bool {
    forall|i: int| 0 <= i < b.len() ==> 32 <= #[trigger] b[i] <= 126
}

/// The characters spelled by a sequence of ASCII bytes.
pub open spec fn chars_of_bytes(b: Seq<u8>) -> Seq<char> {
    Seq::new(b.len(), |i: int| b[i] as char)
}

/// Whether an HTTP status code indicates success.
pub open spec fn is_success_status(status: u16) -> bool {
    200 <= status < 300
}

/// The description of a fetch response that lacks the request-id header.
pub open spec fn missing_header_text() -> Seq<char> {
    "missing request id header"@
}

/// The description of a request-id header whose bytes are not text.
pub open spec fn malformed_header_text() -> Seq<char> {
    "malformed request id header"@
}

/// The description of a response status outside the success range.
pub open spec fn bad_status_text() -> Seq<char> {
    "unexpected response status"@
}

/// The description of a fetch body that is not one JSON document.
pub open spec fn bad_body_text() -> Seq<char> {
    "response body is not valid JSON"@
}

/// Relies on String::from_utf8: bytes that are visible ASCII are valid
/// UTF-8 and decode to the string of exactly those characters.
#[verifier::external_body]
fn bytes_to_string(b: Vec<u8>) -> (r: Option<String>)
    ensures
        r is None ==> !visible_ascii(b@),
        r matches Some(s) ==> (visible_ascii(b@) ==> s@ == chars_of_bytes(b@)),
{
    String::from_utf8(b).ok()
}

impl RequestId {
    /// Reads the request identifier out of the fetch response's header:
    /// absent or non-textual header bytes are a protocol failure.
    #[verifier::loop_isolation(false)]
    pub fn from_header(header: Option<Vec<u8>>) -> (r: Result<RequestId, ProtocolError>)
        ensures
            header is None ==> (r matches Err(e) && e.message@ == missing_header_text()),
            header matches Some(b) ==> (!visible_ascii(b@) ==> (r matches Err(e) && e.message@
                == malformed_header_text())),
            header matches Some(b) ==> (visible_ascii(b@) ==> (r matches Ok(id) && id@
                == chars_of_bytes(b@))),
    {
        match header {
            None => Err(ProtocolError::new(String::from_str("missing request id header"))),
            Some(bytes) => {
                let mut k: usize = 0;
                let n = bytes.len();
                while k < n
                    invariant
                        k <= n,
                        n == bytes@.len(),
                        forall|i: int| 0 <= i < k ==> 32 <= #[trigger] bytes@[i] <= 126,
                    decreases n - k,
                {
                    let byte = bytes[k];
                    if byte < 32 || byte > 126 {
                        return Err(
                            ProtocolError::new(String::from_str("malformed request id header")),
                        );
                    }
                    k = k + 1;
                }
                match bytes_to_string(bytes) {
                    Some(s) => Ok(RequestId(s)),
                    None => Err(
                        ProtocolError::new(String::from_str("malformed request id header")),
                    ),
                }
            }
        }
    }
}

/// Interprets the fetch response: a success status, a textual request-id
/// header and a JSON body yield the invocation; anything else is the
/// protocol failure that names the first rule broken. No retry happens at
/// this layer — a protocol failure is fatal to the loop.
pub fn interpret_fetch_response(status: u16, header: Option<Vec<u8>>, body: &Vec<u8>) -> (r: Result<
    Invocation<HostValue>,
    ProtocolError,
>)
    ensures
        !is_success_status(status) ==> (r matches Err(e) && e.message@ == bad_status_text()),
        is_success_status(status) && header is None ==> (r matches Err(e) && e.message@
            == missing_header_text()),
        is_success_status(status) ==> (header matches Some(b) ==> (!visible_ascii(b@) ==> (
        r matches Err(e) && e.message@ == malformed_header_text()))),
        is_success_status(status) ==> (header matches Some(b) ==> (visible_ascii(b@) ==> (
        json_document(body@) is None ==> (r matches Err(e) && e.message@ == bad_body_text())))),
        is_success_status(status) ==> (header matches Some(b) ==> (visible_ascii(b@) ==> (
        json_document(body@) matches Some(d) ==> (r matches Ok(inv) && inv.request_id@
            == chars_of_bytes(b@) && inv.payload@ == d)))),
{
    if status < 200 || status >= 300 {
        return Err(ProtocolError::new(String::from_str("unexpected response status")));
    }
    let request_id = match RequestId::from_header(header) {
        Ok(id) => id,
        Err(e) => {
            return Err(e);
        }
    };
    match parse_json(body) {
        Some(payload) => Ok(Invocation { request_id, payload }),
        None => Err(ProtocolError::new(String::from_str("response body is not valid JSON"))),
    }
}

/// The path fetched for the next unit of work.
pub fn next_invocation_path(base: &String) -> (r: String)
    ensures
        r@ == base@ + "/runtime/invocation/next"@,
{
    base.clone().concat("/runtime/invocation/next")
}

/// The path a successful result is posted to for the given invocation.
pub fn response_path(base: &String, id: &RequestId) -> (r: String)
    ensures
        r@ == base@ + "/runtime/invocation/"@ + id@ + "/response"@,
{
    base.clone().concat("/runtime/invocation/").concat(id.0.as_str()).concat("/response")
}

/// The path an error report is posted to for the given invocation.
pub fn error_path(base: &String, id: &RequestId) -> (r: String)
    ensures
        r@ == base@ + "/runtime/invocation/"@ + id@ + "/error"@,
{
    base.clone().concat("/runtime/invocation/").concat(id.0.as_str()).concat("/error")
}

/// Checks the status a report call came back with: only a success status
/// upholds the protocol, and any other is fatal.
pub fn check_report_status(status: u16) -> (r: Result<(), ProtocolError>)
    ensures
        is_success_status(status) <==> r is Ok,
        r matches Err(e) ==> e.message@ == bad_status_text(),
{
    if status >= 200 && status < 300 {
        Ok(())
    } else {
        Err(ProtocolError::new(String::from_str("unexpected response status")))
    }
}

} // verus!
