use lambda_host::errors::{ConfigurationError, HandlerError};
use lambda_host::protocol::RequestId;
use lambda_host::sandbox::{conclude_dispatch, ScriptOutcome};
use lambda_host::value::GuestValue;
use lambda_host::protocol::interpret_fetch_response;
use lambda_host::runtime::{
    build_report, classify_failure, Handler, HandlerFailure, LambdaRuntime, ReportPayload,
};
use lambda_host::value::HostValue;
use lambda_host::wire::{encode_json, error_report_value};

/// The trivial in-process handler: reads `x` out of the payload and
/// returns `x * 2`, the way the doubling handler script would.
struct Doubler;

impl Handler<HostValue, HostValue> for Doubler {
    fn handle(&self, input: &HostValue) -> Result<HostValue, HandlerFailure> {
        if let HostValue::Obj(fields) = input {
            for (name, value) in fields {
                if name == "x" {
                    if let HostValue::Int(n) = value {
                        return Ok(HostValue::Int(n * 2));
                    }
                }
            }
        }
        Err(HandlerFailure::Unclassified("payload had no integer x".to_string()))
    }
}

struct AlwaysBroken;

impl Handler<HostValue, HostValue> for AlwaysBroken {
    fn handle(&self, _input: &HostValue) -> Result<HostValue, HandlerFailure> {
        Err(HandlerFailure::Broken(ConfigurationError {
            message: "entry point not found".to_string(),
        }))
    }
}

#[test]
fn a_fetched_payload_is_doubled_and_reported_for_its_request_id() {
    let body = br#"{"x": 1}"#.to_vec();
    let inv = interpret_fetch_response(200, Some(b"abc".to_vec()), &body).unwrap();

    let mut runtime = LambdaRuntime::new(Doubler);
    assert!(runtime.is_idle());

    let report = runtime.process_invocation(inv).unwrap();
    assert!(!runtime.is_idle());
    assert_eq!(report.request_id.0, "abc".to_string());
    match report.payload {
        ReportPayload::Success(v) => assert_eq!(v, HostValue::Int(2)),
        ReportPayload::Failure(e) => panic!("expected success, got {:?}", e),
    }

    runtime.report_delivered();
    assert!(runtime.is_idle());
}

#[test]
fn a_setup_defect_aborts_dispatch_without_a_report() {
    let body = br#"{"x": 1}"#.to_vec();
    let inv = interpret_fetch_response(200, Some(b"abc".to_vec()), &body).unwrap();

    let mut runtime = LambdaRuntime::new(AlwaysBroken);
    let r = runtime.process_invocation(inv);
    match r {
        Err(c) => assert_eq!(c.message, "entry point not found"),
        Ok(_) => panic!("a broken handler must not produce a report"),
    }
}

/// A handler whose entry point throws a plain exception carrying the
/// message `bad input`, as the script sandbox would observe it.
struct Thrower;

impl Handler<HostValue, HostValue> for Thrower {
    fn handle(&self, _input: &HostValue) -> Result<HostValue, HandlerFailure> {
        let thrown = GuestValue::Obj(vec![(
            "message".to_string(),
            GuestValue::Str("bad input".to_string()),
        )]);
        conclude_dispatch(ScriptOutcome::Threw(thrown)).map_err(HandlerFailure::Fault)
    }
}

#[test]
fn a_thrown_exception_is_reported_as_a_server_error_for_its_request_id() {
    let body = br#"{"x": 1}"#.to_vec();
    let inv = interpret_fetch_response(200, Some(b"abc".to_vec()), &body).unwrap();

    let mut runtime = LambdaRuntime::new(Thrower);
    let report = runtime.process_invocation(inv).unwrap();
    assert_eq!(report.request_id.0, "abc".to_string());
    match report.payload {
        ReportPayload::Failure(e) => {
            assert_eq!(e, HandlerError::ServerError("bad input".to_string()))
        }
        ReportPayload::Success(_) => panic!("a thrown exception must be reported as an error"),
    }
    runtime.report_delivered();
}

#[test]
fn a_tagged_client_fault_is_forwarded_unchanged() {
    let r = classify_failure(HandlerFailure::Fault(HandlerError::ClientError));
    assert_eq!(r, Ok(HandlerError::ClientError));
}

#[test]
fn an_opaque_failure_is_normalized_to_a_server_error() {
    let r = classify_failure(HandlerFailure::Unclassified("boom".to_string()));
    assert_eq!(r, Ok(HandlerError::ServerError("boom".to_string())));
}

#[test]
fn a_classified_server_fault_keeps_its_description() {
    let r = classify_failure(HandlerFailure::Fault(HandlerError::ServerError(
        "oops".to_string(),
    )));
    assert_eq!(r, Ok(HandlerError::ServerError("oops".to_string())));
}

#[test]
fn build_report_keeps_the_request_id_through_failure() {
    let r = build_report::<HostValue>(
        RequestId("id-1".to_string()),
        Err(HandlerFailure::Fault(HandlerError::ClientError)),
    )
    .unwrap();
    assert_eq!(r.request_id.0, "id-1".to_string());
    match r.payload {
        ReportPayload::Failure(e) => assert_eq!(e, HandlerError::ClientError),
        ReportPayload::Success(_) => panic!("a failure must be reported as a failure"),
    }
}

#[test]
fn an_error_report_is_encoded_in_the_wire_shape() {
    let bytes = encode_json(&error_report_value(&HandlerError::ServerError(
        "bad input".to_string(),
    )));
    assert_eq!(bytes, br#"{"ServerError":"bad input"}"#.to_vec());

    let bytes = encode_json(&error_report_value(&HandlerError::ClientError));
    assert_eq!(bytes, br#""ClientError""#.to_vec());
}

#[test]
fn a_success_report_is_encoded_as_plain_json() {
    let bytes = encode_json(&HostValue::Obj(vec![(
        "doubled".to_string(),
        HostValue::Int(4),
    )]));
    assert_eq!(bytes, br#"{"doubled":4}"#.to_vec());
}
