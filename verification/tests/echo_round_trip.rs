use adi_server::echo::{echoed_value, new_echo_request, parse_echo_reply, record_for_echoed};

#[test]
fn echo_requests_stay_below_ten() {
    for _ in 0..500 {
        let request = new_echo_request();
        assert!((0..10).contains(&request.value));
    }
}

#[test]
fn echo_reply_value_is_read() {
    let reply = r#"{"args": {}, "json": {"value": 7}, "url": "https://httpbin.org/post"}"#;
    assert_eq!(parse_echo_reply(reply), Some(7));
}

#[test]
fn echo_reply_value_is_truncated_to_eight_bits() {
    assert_eq!(parse_echo_reply(r#"{"json": {"value": 300}}"#), Some(44));
    assert_eq!(parse_echo_reply(r#"{"json": {"value": -129}}"#), Some(127));
    assert_eq!(echoed_value(Some(256)), Some(0));
    assert_eq!(echoed_value(None), None);
}

#[test]
fn echo_reply_without_integer_gives_nothing() {
    assert_eq!(parse_echo_reply("not json"), None);
    assert_eq!(parse_echo_reply(r#"{"json": null}"#), None);
    assert_eq!(parse_echo_reply(r#"{"json": {"other": 1}}"#), None);
    assert_eq!(parse_echo_reply(r#"{"json": {"value": 1.5}}"#), None);
    assert_eq!(parse_echo_reply(r#"{"json": {"value": "3"}}"#), None);
    assert_eq!(parse_echo_reply(r#"{"json": {"value": 18446744073709551615}}"#), None);
    assert_eq!(parse_echo_reply(r#"[1, 2]"#), None);
}

#[test]
fn echoed_value_is_recorded() {
    assert_eq!(record_for_echoed(5).num, Some(5));
}

#[test]
fn echo_service_settings() {
    assert_eq!(adi_server::echo::echo_service_url(), "https://httpbin.org/post");
    assert_eq!(adi_server::echo::ECHO_ROUNDS, 30);
}
