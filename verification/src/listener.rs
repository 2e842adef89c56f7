//! The notification-listener stage: filtering decoded notifications by
//! application name and translating them into danmaku packets.
//!
//! A notification body is expected to hold a sender/text pair separated by
//! the first occurrence of the full-width colon "：" (UTF-8 bytes
//! `ef bc 9a`). Everything here is stated over the byte sequences of the
//! model views.

use vstd::prelude::*;

use crate::bytes::bytes_eq;
use crate::bytes::copy_bytes;
use crate::model::Danmaku;
use crate::model::DanmakuPacket;
use crate::model::DanmakuPacketView;
use crate::model::DanmakuView;
use crate::model::Notification;
use crate::model::NotificationView;
use crate::model::view_opt_packet;

verus! {

/// The delimiter "：" starts at position `i` of `s`.
pub open spec fn delim_at(s: Seq<u8>, i: int) -> bool {
    &&& 0 <= i
    &&& i + 3 <= s.len()
    &&& s[i] == 0xefu8
    &&& s[i + 1] == 0xbcu8
    &&& s[i + 2] == 0x9au8
}

/// `s` contains the delimiter somewhere.
pub open spec fn has_delim(s: Seq<u8>) -> bool {
    exists|i: int| delim_at(s, i)
}

/// `i` is the position of the first delimiter occurrence in `s`.
pub open spec fn is_first_delim(s: Seq<u8>, i: int) -> bool {
    &&& delim_at(s, i)
    &&& forall|j: int| 0 <= j < i ==> !delim_at(s, j)
}

/// The position of the first delimiter occurrence in `s` (meaningful only
/// when `has_delim(s)`).
pub open spec fn first_delim(s: Seq<u8>) -> int {
    choose|i: int| is_first_delim(s, i)
}

/// Any delimiter occurrence yields a first one.
proof fn lemma_first_exists_from(s: Seq<u8>, k: int)
    requires
        delim_at(s, k),
    ensures
        exists|i: int| is_first_delim(s, i),
    decreases k,
{
    if forall|j: int| 0 <= j < k ==> !delim_at(s, j) {
        assert(is_first_delim(s, k));
    } else {
        let j = choose|j: int| 0 <= j < k && delim_at(s, j);
        lemma_first_exists_from(s, j);
    }
}

/// A first delimiter occurrence is unique and agrees with `first_delim`.
pub proof fn lemma_first_delim_agrees(s: Seq<u8>, i: int)
    requires
        is_first_delim(s, i),
    ensures
        has_delim(s),
        first_delim(s) == i,
{
    assert(delim_at(s, i));
    lemma_first_exists_from(s, i);
    let f = first_delim(s);
    assert(is_first_delim(s, f));
    if f < i {
        assert(!delim_at(s, f));
    }
    if i < f {
        assert(!delim_at(s, i));
    }
}

/// The position of the first occurrence of "：" in `s`, if any.
pub fn find_delimiter(s: &Vec<u8>) -> (r: Option<usize>)
    ensures
        match r {
            Some(i) => is_first_delim(s@, i as int),
            None => !has_delim(s@),
        },
{
    let n = s.len();
    if n < 3 {
        assert(!has_delim(s@)) by {
            assert(forall|i: int| delim_at(s@, i) ==> i + 3 <= n);
        }
        return None;
    }
    let end = n - 3;
    let mut i: usize = 0;
    loop
        invariant
            n == s@.len(),
            3 <= n,
            end == n - 3,
            i <= end + 1,
            forall|j: int| 0 <= j < i ==> !delim_at(s@, j),
        decreases end + 1 - i,
    {
        if i > end {
            assert(!has_delim(s@)) by {
                assert(forall|j: int| delim_at(s@, j) ==> 0 <= j < i);
            }
            return None;
        }
        if s[i] == 0xef && s[i + 1] == 0xbc && s[i + 2] == 0x9a {
            assert(delim_at(s@, i as int));
            return Some(i);
        }
        assert(!delim_at(s@, i as int));
        i += 1;
    }
}

/// Split a body on the first "：" into the sender part (before it) and the
/// text part (after it, delimiter excluded); `None` when no delimiter.
pub fn split_body(body: &Vec<u8>) -> (r: Option<(Vec<u8>, Vec<u8>)>)
    ensures
        match r {
            Some(parts) => {
                &&& has_delim(body@)
                &&& parts.0@ == body@.take(first_delim(body@))
                &&& parts.1@ == body@.skip(first_delim(body@) + 3)
            },
            None => !has_delim(body@),
        },
{
    let found = find_delimiter(body);
    match found {
        None => None,
        Some(i) => {
            proof {
                lemma_first_delim_agrees(body@, i as int);
            }
            let n = body.len();
            let mut sender: Vec<u8> = Vec::new();
            let mut k: usize = 0;
            while k < i
                invariant
                    i <= n,
                    n == body@.len(),
                    k <= i,
                    sender@ == body@.take(k as int),
                decreases i - k,
            {
                sender.push(body[k]);
                assert(body@.take(k + 1 as int) =~= body@.take(k as int).push(
                    body@[k as int],
                ));
                k += 1;
            }
            let mut text: Vec<u8> = Vec::new();
            let mut m: usize = i + 3;
            while m < n
                invariant
                    i + 3 <= m <= n,
                    n == body@.len(),
                    text@ == body@.subrange(i + 3 as int, m as int),
                decreases n - m,
            {
                text.push(body[m]);
                assert(body@.subrange(i + 3 as int, m + 1 as int) =~= body@.subrange(
                    i + 3 as int,
                    m as int,
                ).push(body@[m as int]));
                m += 1;
            }
            assert(text@ =~= body@.skip(i + 3 as int));
            Some((sender, text))
        },
    }
}

/// The packet the pipeline produces for a decoded notification under a
/// configured application-name filter:
/// - a mismatched `app_name` produces nothing;
/// - a body without the delimiter produces nothing;
/// - otherwise the packet carries the summary verbatim as its group, the
///   part of the body before the first delimiter as the sender, the part
///   after it as the text, and no color.
pub open spec fn packet_for(n: NotificationView, filter: Seq<u8>) -> Option<DanmakuPacketView> {
    if n.app_name != filter {
        None
    } else if !has_delim(n.body) {
        None
    } else {
        Some(
            DanmakuPacketView {
                group: n.summary,
                danmaku: DanmakuView {
                    text: n.body.skip(first_delim(n.body) + 3),
                    color: None,
                    sender: Some(n.body.take(first_delim(n.body))),
                },
            },
        )
    }
}

/// Translate one decoded notification: exactly `packet_for` on the views.
pub fn handle_notification(n: &Notification, filter: &Vec<u8>) -> (r: Option<DanmakuPacket>)
    ensures
        view_opt_packet(r) == packet_for(n@, filter@),
{
    if !bytes_eq(&n.app_name, filter) {
        return None;
    }
    match split_body(&n.body) {
        None => None,
        Some(parts) => {
            let (sender, text) = parts;
            let packet = DanmakuPacket {
                group: copy_bytes(&n.summary),
                danmaku: Danmaku { text, color: None, sender: Some(sender) },
            };
            proof {
                assert(view_opt_packet(Some(packet)) =~= packet_for(n@, filter@));
            }
            Some(packet)
        },
    }
}

/// One message as it comes off the bus: either a notification decoded
/// against the expected payload shape, or a payload that failed structural
/// decode (anything that is not a notification call of that shape).
pub enum BusEvent {
    Decoded(Notification),
    DecodeFailed,
}

/// What the listener does with one bus message.
pub enum ListenerReaction {
    /// Nothing to forward; go on with the next message.
    Skip,
    /// Enqueue this packet on the hand-off queue.
    Forward(DanmakuPacket),
}

/// React to one bus message. A payload failing structural decode is
/// skipped — never fatal, the pipeline goes on with the next message — and
/// a decoded notification is translated exactly as `packet_for` says.
pub fn handle_bus_event(ev: BusEvent, filter: &Vec<u8>) -> (r: ListenerReaction)
    ensures
        ev matches BusEvent::DecodeFailed ==> r is Skip,
        ev matches BusEvent::Decoded(n) ==> (match (r, packet_for(n@, filter@)) {
            (ListenerReaction::Skip, Option::None) => true,
            (ListenerReaction::Forward(p), Option::Some(pv)) => p@ == pv,
            _ => false,
        }),
{
    match ev {
        BusEvent::DecodeFailed => ListenerReaction::Skip,
        BusEvent::Decoded(n) => match handle_notification(&n, filter) {
            None => ListenerReaction::Skip,
            Some(p) => ListenerReaction::Forward(p),
        },
    }
}

/// Whether the listener keeps running after an enqueue attempt.
#[derive(Clone, Copy, Debug, PartialEq, Eq, Structural)]
pub enum ListenerFlow {
    /// Await the next bus message.
    Continue,
    /// End the listener task cleanly, without an error.
    StopClean,
}

/// The listener's reaction to the outcome of handing a packet downstream:
/// while the queue accepts packets it goes on; once the queue is closed
/// (the consumer end is gone) it stops cleanly, treating that as an orderly
/// shutdown signal from downstream rather than a failure.
pub fn after_enqueue(accepted: bool) -> (r: ListenerFlow)
    ensures
        r is Continue <==> accepted,
{
    if accepted {
        ListenerFlow::Continue
    } else {
        ListenerFlow::StopClean
    }
}

/// No packet is produced for a notification whose application name does
/// not equal the configured filter.
pub proof fn lemma_filter_mismatch_no_packet(n: NotificationView, filter: Seq<u8>)
    requires
        n.app_name != filter,
    ensures
        packet_for(n, filter) is None,
{
}

/// No packet is produced for a matching notification whose body lacks the
/// delimiter.
pub proof fn lemma_no_delimiter_no_packet(n: NotificationView, filter: Seq<u8>)
    requires
        n.app_name == filter,
        !has_delim(n.body),
    ensures
        packet_for(n, filter) is None,
{
}

/// For a matching notification whose body holds the delimiter, the packet
/// carries the summary verbatim as the group, the bytes before the first
/// delimiter as the sender, the bytes after it as the text, and no color.
pub proof fn lemma_matching_notification_packet(n: NotificationView, filter: Seq<u8>, i: int)
    requires
        n.app_name == filter,
        is_first_delim(n.body, i),
    ensures
        packet_for(n, filter) matches Some(p) && {
            &&& p.group == n.summary
            &&& p.danmaku.sender == Some(n.body.take(i))
            &&& p.danmaku.text == n.body.skip(i + 3)
            &&& p.danmaku.color is None
        },
{
    lemma_first_delim_agrees(n.body, i);
}

} // verus!
