use lamp_control::model::AttributePayload;

#[test]
fn json_is_compact_and_ordered() {
    let p = AttributePayload { lamp_state: true, sensor_state: false };
    assert_eq!(p.to_json(), "{\"lamp_state\":true,\"sensor_state\":false}");
}

#[test]
fn json_all_combinations() {
    let cases = [
        (false, false, "{\"lamp_state\":false,\"sensor_state\":false}"),
        (false, true, "{\"lamp_state\":false,\"sensor_state\":true}"),
        (true, false, "{\"lamp_state\":true,\"sensor_state\":false}"),
        (true, true, "{\"lamp_state\":true,\"sensor_state\":true}"),
    ];
    for (lamp, sensor, expected) in cases {
        let p = AttributePayload { lamp_state: lamp, sensor_state: sensor };
        assert_eq!(p.to_json(), expected);
    }
}

#[test]
fn json_parses_back_with_serde() {
    let p = AttributePayload { lamp_state: true, sensor_state: true };
    let v: serde_json::Value = serde_json::from_str(&p.to_json()).unwrap();
    assert_eq!(v.get("lamp_state"), Some(&serde_json::Value::Bool(true)));
    assert_eq!(v.get("sensor_state"), Some(&serde_json::Value::Bool(true)));
    assert_eq!(v.as_object().unwrap().len(), 2);
}
