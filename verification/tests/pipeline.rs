use gugugaga::listener::after_enqueue;
use gugugaga::listener::find_delimiter;
use gugugaga::listener::handle_bus_event;
use gugugaga::listener::handle_notification;
use gugugaga::listener::split_body;
use gugugaga::listener::BusEvent;
use gugugaga::listener::ListenerFlow;
use gugugaga::listener::ListenerReaction;
use gugugaga::model::Notification;

fn b(s: &str) -> Vec<u8> {
    s.as_bytes().to_vec()
}

fn notification(app_name: &str, summary: &str, body: &str) -> Notification {
    Notification {
        app_name: b(app_name),
        id: 7,
        icon: b("icon-path"),
        summary: b(summary),
        body: b(body),
        actions: vec![b("default")],
        timeout: -1,
    }
}

#[test]
fn scenario_matching_notification_produces_packet() {
    let n = notification("QQ", "Group1", "Alice：hello");
    let packet = handle_notification(&n, &b("QQ")).expect("packet expected");
    assert_eq!(packet.group, b("Group1"));
    assert_eq!(packet.danmaku.text, b("hello"));
    assert_eq!(packet.danmaku.sender, Some(b("Alice")));
    assert_eq!(packet.danmaku.color, None);
}

#[test]
fn scenario_filter_mismatch_produces_nothing() {
    let n = notification("QQ", "Group1", "Alice：hello");
    assert!(handle_notification(&n, &b("WeChat")).is_none());
}

#[test]
fn scenario_missing_delimiter_produces_nothing() {
    let n = notification("QQ", "G", "no-delimiter-here");
    assert!(handle_notification(&n, &b("QQ")).is_none());
}

#[test]
fn decode_failure_is_skipped() {
    let r = handle_bus_event(BusEvent::DecodeFailed, &b("QQ"));
    assert!(matches!(r, ListenerReaction::Skip));
}

#[test]
fn decoded_matching_notification_is_forwarded() {
    let n = notification("QQ", "Group1", "Alice：hello");
    let r = handle_bus_event(BusEvent::Decoded(n), &b("QQ"));
    match r {
        ListenerReaction::Forward(p) => {
            assert_eq!(p.group, b("Group1"));
            assert_eq!(p.danmaku.text, b("hello"));
            assert_eq!(p.danmaku.sender, Some(b("Alice")));
        }
        ListenerReaction::Skip => panic!("expected a packet"),
    }
}

#[test]
fn decoded_mismatched_notification_is_skipped() {
    let n = notification("QQ", "Group1", "Alice：hello");
    let r = handle_bus_event(BusEvent::Decoded(n), &b("WeChat"));
    assert!(matches!(r, ListenerReaction::Skip));
}

#[test]
fn split_uses_first_delimiter_occurrence() {
    let body = b("a：b：c");
    let (sender, text) = split_body(&body).expect("delimiter expected");
    assert_eq!(sender, b("a"));
    assert_eq!(text, b("b：c"));
}

#[test]
fn split_with_leading_delimiter_gives_empty_sender() {
    let body = b("：hello");
    let (sender, text) = split_body(&body).expect("delimiter expected");
    assert_eq!(sender, b(""));
    assert_eq!(text, b("hello"));
}

#[test]
fn split_with_trailing_delimiter_gives_empty_text() {
    let body = b("Alice：");
    let (sender, text) = split_body(&body).expect("delimiter expected");
    assert_eq!(sender, b("Alice"));
    assert_eq!(text, b(""));
}

#[test]
fn split_of_empty_body_gives_nothing() {
    assert!(split_body(&b("")).is_none());
}

#[test]
fn ascii_colon_is_not_the_delimiter() {
    assert!(split_body(&b("Alice:hello")).is_none());
}

#[test]
fn find_delimiter_reports_byte_position() {
    // "：" is the three bytes ef bc 9a.
    assert_eq!(find_delimiter(&vec![0xef, 0xbc, 0x9a]), Some(0));
    assert_eq!(find_delimiter(&b("ab：cd")), Some(2));
    assert_eq!(find_delimiter(&b("abcd")), None);
    assert_eq!(find_delimiter(&vec![0xef, 0xbc]), None);
}

#[test]
fn listener_continues_while_queue_accepts() {
    assert_eq!(after_enqueue(true), ListenerFlow::Continue);
}

#[test]
fn listener_stops_cleanly_when_queue_closed() {
    assert_eq!(after_enqueue(false), ListenerFlow::StopClean);
}
