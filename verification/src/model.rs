//! The data model of the pipeline.
//!
//! All text is carried as UTF-8 byte strings (`Vec<u8>`); contracts speak
//! of them as `Seq<u8>` through the `View` impls below.

use vstd::prelude::*;

verus! {

/// One notification decoded from a bus "show notification" call.
///
/// `summary` is repurposed as the chat "group" key and `body` is expected
/// to hold a sender/text pair separated by a full-width colon. The other
/// fields are carried for observability only and are unused downstream.
/// The string-keyed hint mapping of the wire payload is opaque to the
/// pipeline and is not retained past decoding.
#[derive(Clone, Debug)]
pub struct Notification {
    pub app_name: Vec<u8>,
    pub id: u32,
    pub icon: Vec<u8>,
    pub summary: Vec<u8>,
    pub body: Vec<u8>,
    pub actions: Vec<Vec<u8>>,
    pub timeout: i32,
}

/// A short, attributed chat-overlay message.
///
/// `color` is reserved for future use and never set by this pipeline; the
/// wire encoding carries an always-unset numeric `size` field as well,
/// which therefore has no carrier here.
#[derive(Clone, Debug)]
pub struct Danmaku {
    pub text: Vec<u8>,
    pub color: Option<Vec<u8>>,
    pub sender: Option<Vec<u8>>,
}

/// The unit of transfer through the hand-off queue and the unit serialized
/// onto the wire: a group key (taken verbatim from a notification summary)
/// together with one danmaku.
#[derive(Clone, Debug)]
pub struct DanmakuPacket {
    pub group: Vec<u8>,
    pub danmaku: Danmaku,
}

/// Mathematical image of a `Notification`.
#[verifier::ext_equal]
pub ghost struct NotificationView {
    pub app_name: Seq<u8>,
    pub id: u32,
    pub icon: Seq<u8>,
    pub summary: Seq<u8>,
    pub body: Seq<u8>,
    pub actions: Seq<Seq<u8>>,
    pub timeout: i32,
}

/// Mathematical image of a `Danmaku`.
#[verifier::ext_equal]
pub ghost struct DanmakuView {
    pub text: Seq<u8>,
    pub color: Option<Seq<u8>>,
    pub sender: Option<Seq<u8>>,
}

/// Mathematical image of a `DanmakuPacket`.
#[verifier::ext_equal]
pub ghost struct DanmakuPacketView {
    pub group: Seq<u8>,
    pub danmaku: DanmakuView,
}

/// The image of an optional packet.
pub open spec fn view_opt_packet(r: Option<DanmakuPacket>) -> Option<DanmakuPacketView> {
    match r {
        Some(p) => Some(p@),
        None => None,
    }
}

/// The image of an optional byte string.
pub open spec fn view_opt_bytes(o: Option<Vec<u8>>) -> Option<Seq<u8>> {
    match o {
        Some(b) => Some(b@),
        None => None,
    }
}

impl View for Notification {
    type V = NotificationView;

    open spec fn view(&self) -> NotificationView {
        NotificationView {
            app_name: self.app_name@,
            id: self.id,
            icon: self.icon@,
            summary: self.summary@,
            body: self.body@,
            actions: self.actions@.map_values(|a: Vec<u8>| a@),
            timeout: self.timeout,
        }
    }
}

impl View for Danmaku {
    type V = DanmakuView;

    open spec fn view(&self) -> DanmakuView {
        DanmakuView {
            text: self.text@,
            color: view_opt_bytes(self.color),
            sender: view_opt_bytes(self.sender),
        }
    }
}

impl View for DanmakuPacket {
    type V = DanmakuPacketView;

    open spec fn view(&self) -> DanmakuPacketView {
        DanmakuPacketView { group: self.group@, danmaku: self.danmaku@ }
    }
}

} // verus!
