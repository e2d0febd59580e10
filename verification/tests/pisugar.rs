use can_telemetry::pisugar::response_field;

#[test]
fn response_field_extracts_after_the_colon() {
    assert_eq!(response_field(b"battery: 85.25\n"), Some(b"85.25".to_vec()));
    assert_eq!(
        response_field(b"battery_power_plugged: true\n"),
        Some(b"true".to_vec())
    );
    assert_eq!(response_field(b"battery:85.25"), Some(b"85.25".to_vec()));
    assert_eq!(response_field(b"battery:\t 85.25 \r\n"), Some(b"85.25".to_vec()));
}

#[test]
fn response_field_stops_at_a_second_colon() {
    assert_eq!(response_field(b"a: b : c"), Some(b"b".to_vec()));
    assert_eq!(response_field(b"x:y:z"), Some(b"y".to_vec()));
}

#[test]
fn response_field_without_a_colon_is_nothing() {
    assert_eq!(response_field(b""), None);
    assert_eq!(response_field(b"no separator here"), None);
    assert_eq!(response_field(b"battery:"), Some(b"".to_vec()));
    assert_eq!(response_field(b"battery:  "), Some(b"".to_vec()));
}
