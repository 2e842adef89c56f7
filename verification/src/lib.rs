//! A notification-to-danmaku forwarding pipeline.
//!
//! Notifications arriving from a local message bus are filtered by source
//! application, their bodies are split on a full-width colon delimiter into
//! a sender/text pair, and the result is packaged as a danmaku packet,
//! queued through a bounded FIFO hand-off queue, encoded as a JSON text
//! frame, and delivered over a persistent outbound connection with a
//! one-shot reconnect-and-resend policy on send failure.
//!
//! All text is carried as UTF-8 byte strings (`Vec<u8>`), so that every
//! rule of the pipeline is stated and proved over plain byte sequences.

pub mod bytes;
pub mod listener;
pub mod model;
pub mod queue;
pub mod sink;
pub mod wire;

pub use model::Danmaku;
pub use model::DanmakuPacket;
pub use model::Notification;
