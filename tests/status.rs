use silverscreen::status::{parse_ready_line, readiness_of, StatusMessage};

#[test]
fn ready_line_gives_port() {
    assert_eq!(parse_ready_line(br#"{"ready": true, "port": 54321}"#), Some(54321));
}

#[test]
fn compact_ready_line_with_newline_gives_port() {
    assert_eq!(parse_ready_line(b"{\"ready\":true,\"port\":8080}\n"), Some(8080));
}

#[test]
fn not_ready_line_gives_nothing() {
    assert_eq!(parse_ready_line(br#"{"ready": false}"#), None);
}

#[test]
fn false_flag_with_port_gives_nothing() {
    assert_eq!(parse_ready_line(br#"{"ready": false, "port": 8080}"#), None);
}

#[test]
fn plain_text_gives_nothing() {
    assert_eq!(parse_ready_line(b"starting up..."), None);
}

#[test]
fn ready_without_port_gives_nothing() {
    assert_eq!(parse_ready_line(br#"{"ready": true}"#), None);
}

#[test]
fn non_boolean_flag_gives_nothing() {
    assert_eq!(parse_ready_line(br#"{"ready": "true", "port": 8080}"#), None);
    assert_eq!(parse_ready_line(br#"{"ready": 1, "port": 8080}"#), None);
}

#[test]
fn negative_or_fractional_port_gives_nothing() {
    assert_eq!(parse_ready_line(br#"{"ready": true, "port": -1}"#), None);
    assert_eq!(parse_ready_line(br#"{"ready": true, "port": 80.5}"#), None);
}

#[test]
fn json_that_is_no_object_gives_nothing() {
    assert_eq!(parse_ready_line(b"42"), None);
    assert_eq!(parse_ready_line(b"[true, 8080]"), None);
    assert_eq!(parse_ready_line(b""), None);
}

#[test]
fn wide_port_is_narrowed_as_a_cast() {
    assert_eq!(parse_ready_line(br#"{"ready": true, "port": 70000}"#), Some(4464));
    assert_eq!(parse_ready_line(br#"{"ready": true, "port": 65535}"#), Some(65535));
}

#[test]
fn readiness_of_decoded_values() {
    let ready = StatusMessage { ready: Some(true), port: Some(54321) };
    assert_eq!(readiness_of(Some(ready)), Some(54321));
    let waiting = StatusMessage { ready: Some(false), port: Some(54321) };
    assert_eq!(readiness_of(Some(waiting)), None);
    let bare = StatusMessage { ready: None, port: None };
    assert_eq!(readiness_of(Some(bare)), None);
    assert_eq!(readiness_of(None), None);
    let wide = StatusMessage { ready: Some(true), port: Some(65536 + 443) };
    assert_eq!(readiness_of(Some(wide)), Some(443));
}
