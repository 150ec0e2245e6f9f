use lambda_host::protocol::{
    check_report_status, error_path, interpret_fetch_response, next_invocation_path,
    request_id_header, response_path, RequestId,
};
use lambda_host::value::HostValue;

#[test]
fn the_request_id_header_name_matches_the_platform_contract() {
    assert_eq!(request_id_header(), "Lambda-Runtime-Aws-Request-Id".to_string());
}

#[test]
fn a_successful_fetch_yields_the_invocation() {
    let body = br#"{"x": 1}"#.to_vec();
    let r = interpret_fetch_response(200, Some(b"abc".to_vec()), &body);
    let inv = r.expect("a well-formed fetch response must yield work");
    assert_eq!(inv.request_id.0, "abc".to_string());
    assert_eq!(
        inv.payload,
        HostValue::Obj(vec![("x".to_string(), HostValue::Int(1))])
    );
}

#[test]
fn a_nested_body_parses_into_the_host_data_model() {
    let body = br#"{"a": [1, true, null, "s"], "b": {"c": -2}}"#.to_vec();
    let inv = interpret_fetch_response(202, Some(b"id-9".to_vec()), &body).unwrap();
    assert_eq!(
        inv.payload,
        HostValue::Obj(vec![
            (
                "a".to_string(),
                HostValue::Arr(vec![
                    HostValue::Int(1),
                    HostValue::Bool(true),
                    HostValue::Null,
                    HostValue::Str("s".to_string()),
                ]),
            ),
            (
                "b".to_string(),
                HostValue::Obj(vec![("c".to_string(), HostValue::Int(-2))]),
            ),
        ])
    );
}

#[test]
fn a_missing_request_id_header_is_a_protocol_error() {
    let body = br#"{"x": 1}"#.to_vec();
    let r = interpret_fetch_response(200, None, &body);
    match r {
        Err(e) => assert_eq!(e.message, "missing request id header"),
        Ok(_) => panic!("a fetch without a request id must fail"),
    }
}

#[test]
fn a_non_textual_request_id_header_is_a_protocol_error() {
    let body = br#"{}"#.to_vec();
    let r = interpret_fetch_response(200, Some(vec![0xff, 0x00]), &body);
    match r {
        Err(e) => assert_eq!(e.message, "malformed request id header"),
        Ok(_) => panic!("a non-textual request id must fail"),
    }
}

#[test]
fn a_failure_status_is_a_protocol_error() {
    let body = br#"{}"#.to_vec();
    let r = interpret_fetch_response(500, Some(b"abc".to_vec()), &body);
    match r {
        Err(e) => assert_eq!(e.message, "unexpected response status"),
        Ok(_) => panic!("a failure status must fail"),
    }
}

#[test]
fn a_body_that_is_not_json_is_a_protocol_error() {
    let body = b"not json".to_vec();
    let r = interpret_fetch_response(200, Some(b"abc".to_vec()), &body);
    match r {
        Err(e) => assert_eq!(e.message, "response body is not valid JSON"),
        Ok(_) => panic!("a non-JSON body must fail"),
    }
}

#[test]
fn endpoint_paths_follow_the_wire_contract() {
    let base = "http://127.0.0.1:9001".to_string();
    let id = RequestId("abc".to_string());
    assert_eq!(
        next_invocation_path(&base),
        "http://127.0.0.1:9001/runtime/invocation/next".to_string()
    );
    assert_eq!(
        response_path(&base, &id),
        "http://127.0.0.1:9001/runtime/invocation/abc/response".to_string()
    );
    assert_eq!(
        error_path(&base, &id),
        "http://127.0.0.1:9001/runtime/invocation/abc/error".to_string()
    );
}

#[test]
fn only_success_statuses_uphold_a_report() {
    assert!(check_report_status(200).is_ok());
    assert!(check_report_status(202).is_ok());
    assert!(check_report_status(299).is_ok());
    match check_report_status(404) {
        Err(e) => assert_eq!(e.message, "unexpected response status"),
        Ok(_) => panic!("a failed report must be a protocol error"),
    }
    assert!(check_report_status(199).is_err());
    assert!(check_report_status(300).is_err());
}
