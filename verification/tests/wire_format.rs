use gugugaga::model::Danmaku;
use gugugaga::model::DanmakuPacket;
use gugugaga::wire::encode_packet;

fn b(s: &str) -> Vec<u8> {
    s.as_bytes().to_vec()
}

fn packet(group: &str, text: &str, color: Option<&str>, sender: Option<&str>) -> DanmakuPacket {
    DanmakuPacket {
        group: b(group),
        danmaku: Danmaku {
            text: b(text),
            color: color.map(b),
            sender: sender.map(b),
        },
    }
}

#[test]
fn plain_packet_encodes_to_the_canonical_record() {
    let p = packet("Group1", "hello", None, Some("Alice"));
    let frame = encode_packet(&p);
    assert_eq!(
        frame,
        b(r#"{"group":"Group1","danmaku":{"text":"hello","color":null,"size":null,"sender":"Alice"}}"#)
    );
}

#[test]
fn unset_sender_encodes_as_null() {
    let p = packet("G", "t", None, None);
    let frame = encode_packet(&p);
    assert_eq!(frame, b(r#"{"group":"G","danmaku":{"text":"t","color":null,"size":null,"sender":null}}"#));
}

#[test]
fn set_color_encodes_as_a_string() {
    let p = packet("G", "t", Some("red"), Some("s"));
    let frame = encode_packet(&p);
    assert_eq!(
        frame,
        b(r#"{"group":"G","danmaku":{"text":"t","color":"red","size":null,"sender":"s"}}"#)
    );
}

#[test]
fn quotes_and_backslashes_are_escaped() {
    let p = packet("G", r#"say "hi" \now"#, None, Some("A"));
    let frame = encode_packet(&p);
    assert_eq!(
        frame,
        b(r#"{"group":"G","danmaku":{"text":"say \"hi\" \\now","color":null,"size":null,"sender":"A"}}"#)
    );
}

#[test]
fn named_control_characters_use_short_escapes() {
    let p = packet("G", "a\u{08}b\tc\nd\u{0c}e\rf", None, None);
    let frame = encode_packet(&p);
    assert_eq!(
        frame,
        b(r#"{"group":"G","danmaku":{"text":"a\bb\tc\nd\fe\rf","color":null,"size":null,"sender":null}}"#)
    );
}

#[test]
fn other_control_characters_use_lowercase_hex_escapes() {
    let p = packet("G", "\u{01}\u{1f}", None, None);
    let frame = encode_packet(&p);
    assert_eq!(
        frame,
        b(r#"{"group":"G","danmaku":{"text":"\u0001\u001f","color":null,"size":null,"sender":null}}"#)
    );
}

#[test]
fn multi_byte_text_passes_through_unescaped() {
    let p = packet("群组", "你好", None, Some("张三"));
    let frame = encode_packet(&p);
    assert_eq!(
        frame,
        b(r#"{"group":"群组","danmaku":{"text":"你好","color":null,"size":null,"sender":"张三"}}"#)
    );
}

#[test]
fn escaping_touches_the_group_too() {
    let p = packet("a\"b", "t", None, None);
    let frame = encode_packet(&p);
    assert_eq!(frame, b(r#"{"group":"a\"b","danmaku":{"text":"t","color":null,"size":null,"sender":null}}"#));
}
