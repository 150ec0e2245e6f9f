use lambda_host::bridge::{bridge_to_guest, bridge_to_host};
use lambda_host::value::{GuestValue, HostValue};

fn sample_tree() -> HostValue {
    HostValue::Obj(vec![
        ("null".to_string(), HostValue::Null),
        ("flag".to_string(), HostValue::Bool(true)),
        ("count".to_string(), HostValue::Int(42)),
        ("name".to_string(), HostValue::Str("sandbox".to_string())),
        (
            "items".to_string(),
            HostValue::Arr(vec![
                HostValue::Int(1),
                HostValue::Bool(false),
                HostValue::Str("two".to_string()),
                HostValue::Arr(vec![HostValue::Null]),
            ]),
        ),
        (
            "nested".to_string(),
            HostValue::Obj(vec![("inner".to_string(), HostValue::Int(-7))]),
        ),
    ])
}

#[test]
fn round_trip_is_identity_on_a_nested_tree() {
    let v = sample_tree();
    let back = bridge_to_host(&bridge_to_guest(&v));
    assert_eq!(back, v);
}

#[test]
fn round_trip_is_identity_at_safe_integer_bounds() {
    let v = HostValue::Arr(vec![
        HostValue::Int(9007199254740992),
        HostValue::Int(-9007199254740992),
        HostValue::Int(0),
    ]);
    let back = bridge_to_host(&bridge_to_guest(&v));
    assert_eq!(back, v);
}

#[test]
fn host_values_map_to_their_guest_shapes() {
    assert_eq!(bridge_to_guest(&HostValue::Null), GuestValue::Null);
    assert_eq!(bridge_to_guest(&HostValue::Bool(false)), GuestValue::Bool(false));
    assert_eq!(bridge_to_guest(&HostValue::Int(3)), GuestValue::Num(3));
    assert_eq!(
        bridge_to_guest(&HostValue::Str("s".to_string())),
        GuestValue::Str("s".to_string())
    );
}

#[test]
fn undefined_joins_null_on_the_way_back() {
    assert_eq!(bridge_to_host(&GuestValue::Undefined), HostValue::Null);
    assert_eq!(bridge_to_host(&GuestValue::Null), HostValue::Null);
}

#[test]
fn a_function_bridges_to_the_unrepresentable_marker() {
    assert_eq!(
        bridge_to_host(&GuestValue::Function),
        HostValue::Str("<unrepresentable>".to_string())
    );
    let nested = GuestValue::Arr(vec![GuestValue::Num(1), GuestValue::Function]);
    assert_eq!(
        bridge_to_host(&nested),
        HostValue::Arr(vec![
            HostValue::Int(1),
            HostValue::Str("<unrepresentable>".to_string()),
        ])
    );
}
