use lambda_host::errors::HandlerError;
use lambda_host::sandbox::{
    classify_thrown, conclude_dispatch, prepare_dispatch, ScriptOutcome, Session,
};
use lambda_host::value::{GuestValue, HostValue};

#[test]
fn a_fresh_session_never_observes_an_earlier_sessions_global() {
    let mut first = Session::fresh();
    first.set_global("leak".to_string(), GuestValue::Bool(true));
    assert!(first.get_global(&"leak".to_string()).is_some());

    let second = Session::fresh();
    assert!(second.get_global(&"leak".to_string()).is_none());
}

#[test]
fn a_later_binding_shadows_an_earlier_one() {
    let mut s = Session::fresh();
    s.set_global("x".to_string(), GuestValue::Num(1));
    s.set_global("x".to_string(), GuestValue::Num(2));
    assert_eq!(s.get_global(&"x".to_string()), Some(&GuestValue::Num(2)));
}

#[test]
fn client_fault_signal_classifies_as_client_error() {
    let thrown = GuestValue::Obj(vec![("clientError".to_string(), GuestValue::Bool(true))]);
    assert_eq!(classify_thrown(&thrown), HandlerError::ClientError);
}

#[test]
fn other_thrown_values_classify_as_server_error_with_text() {
    let thrown = GuestValue::Obj(vec![("clientError".to_string(), GuestValue::Bool(false))]);
    match classify_thrown(&thrown) {
        HandlerError::ServerError(m) => assert!(!m.is_empty()),
        other => panic!("expected a server error, got {:?}", other),
    }

    assert_eq!(
        classify_thrown(&GuestValue::Str("boom".to_string())),
        HandlerError::ServerError("boom".to_string())
    );
    assert_eq!(
        classify_thrown(&GuestValue::Str(String::new())),
        HandlerError::ServerError("uncaught script exception".to_string())
    );
    assert_eq!(
        classify_thrown(&GuestValue::Num(5)),
        HandlerError::ServerError("uncaught script exception".to_string())
    );
}

#[test]
fn a_plain_exception_with_a_message_keeps_its_message() {
    let thrown = GuestValue::Obj(vec![(
        "message".to_string(),
        GuestValue::Str("bad input".to_string()),
    )]);
    let r = conclude_dispatch(ScriptOutcome::Threw(thrown));
    assert_eq!(r, Err(HandlerError::ServerError("bad input".to_string())));
}

#[test]
fn a_settled_value_bridges_back_to_host_data() {
    let r = conclude_dispatch(ScriptOutcome::Returned(GuestValue::Num(2)));
    assert_eq!(r, Ok(HostValue::Int(2)));
}

#[test]
fn an_unsettled_result_is_a_server_fault() {
    let r = conclude_dispatch(ScriptOutcome::Unsettled);
    assert_eq!(
        r,
        Err(HandlerError::ServerError("handler result never settled".to_string()))
    );
}

#[test]
fn a_missing_entry_point_is_a_configuration_error() {
    let session = Session::fresh();
    let entry = "handler".to_string();
    let r = prepare_dispatch(&session, &entry, &HostValue::Null);
    match r {
        Err(c) => assert_eq!(c.message, "entry point not found"),
        Ok(_) => panic!("dispatch must not proceed without an entry point"),
    }
}

#[test]
fn a_non_callable_entry_point_is_a_configuration_error() {
    let mut session = Session::fresh();
    session.set_global("handler".to_string(), GuestValue::Num(3));
    let r = prepare_dispatch(&session, &"handler".to_string(), &HostValue::Null);
    match r {
        Err(c) => assert_eq!(c.message, "entry point is not callable"),
        Ok(_) => panic!("dispatch must not call a non-function"),
    }
}

#[test]
fn a_callable_entry_point_admits_dispatch_and_bridges_the_input() {
    let mut session = Session::fresh();
    session.set_global("handler".to_string(), GuestValue::Function);
    let input = HostValue::Obj(vec![("x".to_string(), HostValue::Int(1))]);
    let r = prepare_dispatch(&session, &"handler".to_string(), &input);
    assert_eq!(
        r,
        Ok(GuestValue::Obj(vec![("x".to_string(), GuestValue::Num(1))]))
    );
}

#[test]
fn an_error_describes_itself_in_text() {
    assert_eq!(
        HandlerError::ServerError("boom".to_string()).description(),
        "boom".to_string()
    );
    assert_eq!(HandlerError::ClientError.description(), String::new());
}
