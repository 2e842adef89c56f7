//! The wire format of the delivery sink: each packet is sent as one text
//! frame holding a JSON record
//! `{"group":…,"danmaku":{"text":…,"color":…,"size":null,"sender":…}}`,
//! where every string is escaped the canonical JSON way (`"` and `\` by a
//! backslash, the five control characters with short escapes by their short
//! escape, every other control byte as `\u00..` with lowercase hex digits)
//! and an unset optional field is encoded as `null`. The `size` field is
//! reserved for future use, never set by this pipeline, and thus always
//! `null`. Text is UTF-8, so bytes outside the ASCII range pass through
//! unchanged.

use vstd::prelude::*;

use crate::model::DanmakuPacket;
use crate::model::DanmakuPacketView;
use crate::model::view_opt_bytes;

verus! {

/// The lowercase hex digit for a nibble.
pub open spec fn hex_digit(n: u8) -> u8 {
    if n < 10 {
        (0x30 + n) as u8
    } else {
        (0x57 + n) as u8
    }
}

/// The JSON escape of one byte of a UTF-8 string.
pub open spec fn escaped_byte(b: u8) -> Seq<u8> {
    if b == 0x22 {
        seq![0x5cu8, 0x22u8]  // \"
    } else if b == 0x5c {
        seq![0x5cu8, 0x5cu8]  // \\
    } else if b == 0x08 {
        seq![0x5cu8, 0x62u8]  // \b
    } else if b == 0x09 {
        seq![0x5cu8, 0x74u8]  // \t
    } else if b == 0x0a {
        seq![0x5cu8, 0x6eu8]  // \n
    } else if b == 0x0c {
        seq![0x5cu8, 0x66u8]  // \f
    } else if b == 0x0d {
        seq![0x5cu8, 0x72u8]  // \r
    } else if b < 0x20 {
        seq![0x5cu8, 0x75u8, 0x30u8, 0x30u8, hex_digit(b / 16), hex_digit(b % 16)]
    } else {
        seq![b]
    }
}

/// The JSON escape of a whole string, byte by byte.
pub open spec fn escape_bytes(s: Seq<u8>) -> Seq<u8>
    decreases s.len(),
{
    if s.len() == 0 {
        Seq::empty()
    } else {
        escape_bytes(s.drop_last()) + escaped_byte(s.last())
    }
}

/// A JSON string literal: the escaped bytes between two quotes.
pub open spec fn json_string(s: Seq<u8>) -> Seq<u8> {
    seq![0x22u8] + escape_bytes(s) + seq![0x22u8]
}

/// The JSON literal `null`.
pub open spec fn null_bytes() -> Seq<u8> {
    seq![0x6eu8, 0x75u8, 0x6cu8, 0x6cu8]
}

/// An optional string: a JSON string when set, `null` when not.
pub open spec fn json_opt_string(o: Option<Seq<u8>>) -> Seq<u8> {
    match o {
        Some(s) => json_string(s),
        None => null_bytes(),
    }
}

/// The bytes of `{"group":`.
pub open spec fn group_key() -> Seq<u8> {
    seq![0x7bu8, 0x22u8, 0x67u8, 0x72u8, 0x6fu8, 0x75u8, 0x70u8, 0x22u8, 0x3au8]
}

/// The bytes of `,"danmaku":{"text":`.
pub open spec fn text_key() -> Seq<u8> {
    seq![
        0x2cu8, 0x22u8, 0x64u8, 0x61u8, 0x6eu8, 0x6du8, 0x61u8, 0x6bu8, 0x75u8, 0x22u8, 0x3au8,
        0x7bu8, 0x22u8, 0x74u8, 0x65u8, 0x78u8, 0x74u8, 0x22u8, 0x3au8,
    ]
}

/// The bytes of `,"color":`.
pub open spec fn color_key() -> Seq<u8> {
    seq![0x2cu8, 0x22u8, 0x63u8, 0x6fu8, 0x6cu8, 0x6fu8, 0x72u8, 0x22u8, 0x3au8]
}

/// The bytes of `,"size":null,"sender":`.
pub open spec fn sender_key() -> Seq<u8> {
    seq![
        0x2cu8, 0x22u8, 0x73u8, 0x69u8, 0x7au8, 0x65u8, 0x22u8, 0x3au8, 0x6eu8, 0x75u8, 0x6cu8,
        0x6cu8, 0x2cu8, 0x22u8, 0x73u8, 0x65u8, 0x6eu8, 0x64u8, 0x65u8, 0x72u8, 0x22u8, 0x3au8,
    ]
}

/// The bytes of `}}`.
pub open spec fn close_braces() -> Seq<u8> {
    seq![0x7du8, 0x7du8]
}

/// The complete JSON text frame for one packet.
pub open spec fn packet_json(p: DanmakuPacketView) -> Seq<u8> {
    group_key() + json_string(p.group) + text_key() + json_string(p.danmaku.text) + color_key()
        + json_opt_string(p.danmaku.color) + sender_key() + json_opt_string(p.danmaku.sender)
        + close_braces()
}

/// The lowercase hex digit for a nibble.
fn hex_digit_exec(n: u8) -> (r: u8)
    requires
        n < 16,
    ensures
        r == hex_digit(n),
{
    if n < 10 {
        0x30 + n
    } else {
        0x57 + n
    }
}

/// Append the JSON escape of `s` to `out`.
pub fn escape_into(out: &mut Vec<u8>, s: &Vec<u8>)
    ensures
        final(out)@ == old(out)@ + escape_bytes(s@),
{
    let ghost start = out@;
    let n = s.len();
    let mut i: usize = 0;
    while i < n
        invariant
            n == s@.len(),
            i <= n,
            out@ == start + escape_bytes(s@.take(i as int)),
        decreases n - i,
    {
        let b = s[i];
        proof {
            assert(s@.take(i + 1 as int).drop_last() =~= s@.take(i as int));
            assert(s@.take(i + 1 as int).last() == s@[i as int]);
        }
        if b == 0x22 {
            out.push(0x5c);
            out.push(0x22);
        } else if b == 0x5c {
            out.push(0x5c);
            out.push(0x5c);
        } else if b == 0x08 {
            out.push(0x5c);
            out.push(0x62);
        } else if b == 0x09 {
            out.push(0x5c);
            out.push(0x74);
        } else if b == 0x0a {
            out.push(0x5c);
            out.push(0x6e);
        } else if b == 0x0c {
            out.push(0x5c);
            out.push(0x66);
        } else if b == 0x0d {
            out.push(0x5c);
            out.push(0x72);
        } else if b < 0x20 {
            out.push(0x5c);
            out.push(0x75);
            out.push(0x30);
            out.push(0x30);
            out.push(hex_digit_exec(b / 16));
            out.push(hex_digit_exec(b % 16));
        } else {
            out.push(b);
        }
        assert(out@ =~= start + escape_bytes(s@.take(i + 1 as int)));
        i += 1;
    }
    assert(s@.take(n as int) =~= s@);
}

/// Append the JSON string literal for `s` to `out`.
pub fn json_string_into(out: &mut Vec<u8>, s: &Vec<u8>)
    ensures
        final(out)@ == old(out)@ + json_string(s@),
{
    let ghost start = out@;
    out.push(0x22);
    escape_into(out, s);
    out.push(0x22);
    assert(out@ =~= start + json_string(s@));
}

/// Append `null` to `out`.
fn null_into(out: &mut Vec<u8>)
    ensures
        final(out)@ == old(out)@ + null_bytes(),
{
    let ghost start = out@;
    out.push(0x6e);
    out.push(0x75);
    out.push(0x6c);
    out.push(0x6c);
    assert(out@ =~= start + null_bytes());
}

/// Append the encoding of an optional string to `out`.
pub fn json_opt_string_into(out: &mut Vec<u8>, o: &Option<Vec<u8>>)
    ensures
        final(out)@ == old(out)@ + json_opt_string(view_opt_bytes(*o)),
{
    match o {
        Some(s) => json_string_into(out, s),
        None => null_into(out),
    }
}

/// Append the bytes of `{"group":` to `out`.
fn group_key_into(out: &mut Vec<u8>)
    ensures
        final(out)@ == old(out)@ + group_key(),
{
    let ghost start = out@;
    out.push(0x7b);
    out.push(0x22);
    out.push(0x67);
    out.push(0x72);
    out.push(0x6f);
    out.push(0x75);
    out.push(0x70);
    out.push(0x22);
    out.push(0x3a);
    assert(out@ =~= start + group_key());
}

/// Append the bytes of `,"danmaku":{"text":` to `out`.
fn text_key_into(out: &mut Vec<u8>)
    ensures
        final(out)@ == old(out)@ + text_key(),
{
    let ghost start = out@;
    out.push(0x2c);
    out.push(0x22);
    out.push(0x64);
    out.push(0x61);
    out.push(0x6e);
    out.push(0x6d);
    out.push(0x61);
    out.push(0x6b);
    out.push(0x75);
    out.push(0x22);
    out.push(0x3a);
    out.push(0x7b);
    out.push(0x22);
    out.push(0x74);
    out.push(0x65);
    out.push(0x78);
    out.push(0x74);
    out.push(0x22);
    out.push(0x3a);
    assert(out@ =~= start + text_key());
}

/// Append the bytes of `,"color":` to `out`.
fn color_key_into(out: &mut Vec<u8>)
    ensures
        final(out)@ == old(out)@ + color_key(),
{
    let ghost start = out@;
    out.push(0x2c);
    out.push(0x22);
    out.push(0x63);
    out.push(0x6f);
    out.push(0x6c);
    out.push(0x6f);
    out.push(0x72);
    out.push(0x22);
    out.push(0x3a);
    assert(out@ =~= start + color_key());
}

/// Append the bytes of `,"size":null,"sender":` to `out`.
fn sender_key_into(out: &mut Vec<u8>)
    ensures
        final(out)@ == old(out)@ + sender_key(),
{
    let ghost start = out@;
    out.push(0x2c);
    out.push(0x22);
    out.push(0x73);
    out.push(0x69);
    out.push(0x7a);
    out.push(0x65);
    out.push(0x22);
    out.push(0x3a);
    out.push(0x6e);
    out.push(0x75);
    out.push(0x6c);
    out.push(0x6c);
    out.push(0x2c);
    out.push(0x22);
    out.push(0x73);
    out.push(0x65);
    out.push(0x6e);
    out.push(0x64);
    out.push(0x65);
    out.push(0x72);
    out.push(0x22);
    out.push(0x3a);
    assert(out@ =~= start + sender_key());
}

/// Encode one packet as its canonical JSON text frame.
pub fn encode_packet(p: &DanmakuPacket) -> (r: Vec<u8>)
    ensures
        r@ == packet_json(p@),
{
    let mut out: Vec<u8> = Vec::new();
    group_key_into(&mut out);
    json_string_into(&mut out, &p.group);
    text_key_into(&mut out);
    json_string_into(&mut out, &p.danmaku.text);
    color_key_into(&mut out);
    json_opt_string_into(&mut out, &p.danmaku.color);
    sender_key_into(&mut out);
    json_opt_string_into(&mut out, &p.danmaku.sender);
    out.push(0x7d);
    out.push(0x7d);
    assert(out@ =~= packet_json(p@));
    out
}

} // verus!
