use multiroom::protocol::{command_line, read_inbound, CommandArg, Correlator, ProtocolError, Route};

#[test]
fn command_line_quotes_names_and_numbers() {
    let line = command_line(
        "set_property",
        &vec![CommandArg::Name("volume".to_string()), CommandArg::Number("55.5".to_string())],
        17,
    );
    assert_eq!(line, "{\"command\":[\"set_property\",\"volume\",55.5],\"request_id\":17}\n");
    let line = command_line("get_property", &vec![CommandArg::Name("time-pos".to_string())], 0);
    assert_eq!(line, "{\"command\":[\"get_property\",\"time-pos\"],\"request_id\":0}\n");
}

#[test]
fn command_line_escapes_names() {
    let line = command_line("loadfile", &vec![CommandArg::Name("a\"b".to_string())], 1234567890);
    assert_eq!(line, "{\"command\":[\"loadfile\",\"a\\\"b\"],\"request_id\":1234567890}\n");
}

#[test]
fn request_ids_increase_and_are_not_reused() {
    let mut c = Correlator::new();
    let a = c.register().unwrap();
    let b = c.register().unwrap();
    assert_eq!(a, 1);
    assert_eq!(b, 2);
    assert!(c.is_pending(a) && c.is_pending(b));
    let r = c.conclude(a, None);
    assert!(matches!(r, Err(ProtocolError::Timeout)));
    assert!(!c.is_pending(a));
    assert!(c.is_pending(b));
    let d = c.register().unwrap();
    assert_eq!(d, 3);
}

#[test]
fn timed_out_request_is_forgotten() {
    let mut c = Correlator::new();
    let id = c.register().unwrap();
    assert!(matches!(c.conclude(id, None), Err(ProtocolError::Timeout)));
    assert!(!c.is_pending(id));
    let late = read_inbound(format!("{{\"request_id\":{},\"error\":\"success\",\"data\":1}}", id).as_bytes()).unwrap();
    assert!(matches!(c.route(&late), Route::Ignored));
}

#[test]
fn reply_is_routed_to_its_request() {
    let mut c = Correlator::new();
    let id = c.register().unwrap();
    let line = read_inbound(b"{\"request_id\":1,\"error\":\"success\",\"data\":42.5}").unwrap();
    assert_eq!(line.request_id, Some(1));
    assert_eq!(line.error.as_deref(), Some("success"));
    assert!(matches!(c.route(&line), Route::Reply(1)));
    assert!(!c.is_pending(id));
    let r = c.conclude(id, Some(line)).unwrap();
    assert_eq!(r["data"].as_f64(), Some(42.5));
}

#[test]
fn player_failure_is_distinguished() {
    let mut c = Correlator::new();
    let id = c.register().unwrap();
    let line = read_inbound(b"{\"request_id\":1,\"error\":\"property unavailable\"}").unwrap();
    assert!(matches!(c.route(&line), Route::Reply(1)));
    match c.conclude(id, Some(line)) {
        Err(ProtocolError::PlayerFailure(e)) => assert_eq!(e, "property unavailable"),
        _ => panic!("expected a player failure"),
    }
    let id = c.register().unwrap();
    let line = read_inbound(b"{\"request_id\":2}").unwrap();
    assert!(matches!(c.conclude(id, Some(line)), Err(ProtocolError::MalformedReply)));
}

#[test]
fn events_are_dispatched() {
    let mut c = Correlator::new();
    let seek = read_inbound(b"{\"event\":\"seek\"}").unwrap();
    assert!(matches!(c.route(&seek), Route::Seek));
    let end = read_inbound(b"{\"event\":\"end-file\",\"reason\":\"eof\"}").unwrap();
    assert_eq!(end.event.as_deref(), Some("end-file"));
    assert!(matches!(c.route(&end), Route::FileEnded));
    let other = read_inbound(b"{\"event\":\"playback-restart\"}").unwrap();
    assert!(matches!(c.route(&other), Route::Ignored));
    let stray = read_inbound(b"{\"request_id\":99,\"error\":\"success\"}").unwrap();
    assert!(matches!(c.route(&stray), Route::Ignored));
}

#[test]
fn reply_wins_over_event_member() {
    let mut c = Correlator::new();
    let id = c.register().unwrap();
    let both = read_inbound(b"{\"request_id\":1,\"event\":\"end-file\",\"error\":\"success\"}").unwrap();
    assert!(matches!(c.route(&both), Route::Reply(1)));
    assert!(!c.is_pending(id));
}

#[test]
fn garbage_lines_are_not_parsed() {
    assert!(read_inbound(b"not json").is_none());
    assert!(read_inbound(b"").is_none());
    let odd = read_inbound(b"[1,2]").unwrap();
    assert_eq!(odd.request_id, None);
    assert_eq!(odd.event, None);
}

#[test]
fn protocol_errors_describe_themselves() {
    assert_eq!(ProtocolError::Timeout.describe(), "Timed out waiting for reply");
    assert_eq!(ProtocolError::PlayerFailure("bad".to_string()).describe(), "Player reported failure: bad");
    assert_eq!(ProtocolError::MalformedReply.describe(), "Malformed reply");
}

#[test]
fn command_line_escapes_control_characters() {
    let line = command_line("x", &vec![CommandArg::Name("a\tb\u{1}c\\".to_string())], 2);
    assert_eq!(line, "{\"command\":[\"x\",\"a\\tb\\u0001c\\\\\"],\"request_id\":2}\n");
    assert_eq!(multiroom::protocol::quote("\u{1f}\n\u{8}\u{c}\r"), "\"\\u001f\\n\\b\\f\\r\"");
    assert_eq!(multiroom::protocol::quote("é ü"), "\"é ü\"");
    assert_eq!(multiroom::protocol::quote("a\"b"), serde_json::to_string("a\"b").unwrap());
}
