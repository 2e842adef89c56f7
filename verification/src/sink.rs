//! The delivery-sink decision logic: the per-packet state machine behind
//! the one-shot reconnect-and-resend policy.
//!
//! The caller owns the connection and performs the outside work (sending a
//! frame, reconnecting); after each piece of work it feeds the outcome back
//! as a `SinkEvent` and obeys the returned `SinkCommand`. For every packet
//! the machine starts in `AwaitSend`:
//!
//! - a successful send finishes the packet as delivered;
//! - a failed send commands exactly one reconnection;
//! - a successful reconnection commands exactly one resend, whose outcome
//!   finishes the packet (delivered or dropped) either way;
//! - a failed reconnection finishes the packet as dropped (the next packet
//!   reuses the stale connection and starts over in `AwaitSend`).

use vstd::prelude::*;

verus! {

/// Where the sink stands while handling one packet.
#[derive(Clone, Copy, Debug, PartialEq, Eq, Structural)]
pub enum PacketPhase {
    /// Awaiting the outcome of the first send of the packet.
    AwaitSend,
    /// Awaiting the outcome of the single reconnection attempt.
    AwaitReconnect,
    /// Awaiting the outcome of the single resend attempt.
    AwaitResend,
    /// The packet is handled; nothing more happens for it.
    Done,
}

/// The outcome of one piece of outside work, fed back by the caller.
#[derive(Clone, Copy, Debug, PartialEq, Eq, Structural)]
pub enum SinkEvent {
    SendSucceeded,
    SendFailed,
    ReconnectSucceeded,
    ReconnectFailed,
}

/// How a packet leaves the sink.
#[derive(Clone, Copy, Debug, PartialEq, Eq, Structural)]
pub enum PacketOutcome {
    Delivered,
    Dropped,
}

/// What the caller must do next.
#[derive(Clone, Copy, Debug, PartialEq, Eq, Structural)]
pub enum SinkCommand {
    /// Attempt one reconnection to the endpoint.
    Reconnect,
    /// Attempt one resend of the same packet over the fresh connection.
    Resend,
    /// The packet is handled; move on to the next one.
    Finish(PacketOutcome),
}

/// The events a phase can be answered with: send outcomes while a send or
/// resend is in flight, reconnect outcomes while a reconnection is.
pub open spec fn event_fits(phase: PacketPhase, ev: SinkEvent) -> bool {
    match phase {
        PacketPhase::AwaitSend => ev is SendSucceeded || ev is SendFailed,
        PacketPhase::AwaitReconnect => ev is ReconnectSucceeded || ev is ReconnectFailed,
        PacketPhase::AwaitResend => ev is SendSucceeded || ev is SendFailed,
        PacketPhase::Done => false,
    }
}

/// The full transition table of the per-packet machine.
pub open spec fn spec_step(phase: PacketPhase, ev: SinkEvent) -> (PacketPhase, SinkCommand) {
    match (phase, ev) {
        (PacketPhase::AwaitSend, SinkEvent::SendSucceeded) => (
            PacketPhase::Done,
            SinkCommand::Finish(PacketOutcome::Delivered),
        ),
        (PacketPhase::AwaitSend, SinkEvent::SendFailed) => (
            PacketPhase::AwaitReconnect,
            SinkCommand::Reconnect,
        ),
        (PacketPhase::AwaitReconnect, SinkEvent::ReconnectSucceeded) => (
            PacketPhase::AwaitResend,
            SinkCommand::Resend,
        ),
        (PacketPhase::AwaitReconnect, SinkEvent::ReconnectFailed) => (
            PacketPhase::Done,
            SinkCommand::Finish(PacketOutcome::Dropped),
        ),
        (PacketPhase::AwaitResend, SinkEvent::SendSucceeded) => (
            PacketPhase::Done,
            SinkCommand::Finish(PacketOutcome::Delivered),
        ),
        (PacketPhase::AwaitResend, SinkEvent::SendFailed) => (
            PacketPhase::Done,
            SinkCommand::Finish(PacketOutcome::Dropped),
        ),
        _ => (PacketPhase::Done, SinkCommand::Finish(PacketOutcome::Dropped)),
    }
}

/// Advance the per-packet machine by one observed outcome.
pub fn sink_step(phase: PacketPhase, ev: SinkEvent) -> (r: (PacketPhase, SinkCommand))
    requires
        event_fits(phase, ev),
    ensures
        r == spec_step(phase, ev),
{
    match (phase, ev) {
        (PacketPhase::AwaitSend, SinkEvent::SendSucceeded) => (
            PacketPhase::Done,
            SinkCommand::Finish(PacketOutcome::Delivered),
        ),
        (PacketPhase::AwaitSend, SinkEvent::SendFailed) => (
            PacketPhase::AwaitReconnect,
            SinkCommand::Reconnect,
        ),
        (PacketPhase::AwaitReconnect, SinkEvent::ReconnectSucceeded) => (
            PacketPhase::AwaitResend,
            SinkCommand::Resend,
        ),
        (PacketPhase::AwaitReconnect, SinkEvent::ReconnectFailed) => (
            PacketPhase::Done,
            SinkCommand::Finish(PacketOutcome::Dropped),
        ),
        (PacketPhase::AwaitResend, SinkEvent::SendSucceeded) => (
            PacketPhase::Done,
            SinkCommand::Finish(PacketOutcome::Delivered),
        ),
        (PacketPhase::AwaitResend, SinkEvent::SendFailed) => (
            PacketPhase::Done,
            SinkCommand::Finish(PacketOutcome::Dropped),
        ),
        _ => (PacketPhase::Done, SinkCommand::Finish(PacketOutcome::Dropped)),
    }
}

/// A run of the machine on one packet: the phase reached and the commands
/// issued after feeding `events` in order from the initial phase
/// (`AwaitSend`), ignoring any event that does not answer the phase then
/// current.
#[verifier::ext_equal]
pub ghost struct SinkRun {
    pub phase: PacketPhase,
    pub commands: Seq<SinkCommand>,
}

/// Fold `spec_step` over an event sequence from the initial phase.
pub open spec fn run_from(events: Seq<SinkEvent>) -> SinkRun
    decreases events.len(),
{
    if events.len() == 0 {
        SinkRun { phase: PacketPhase::AwaitSend, commands: Seq::empty() }
    } else {
        let prev = run_from(events.drop_last());
        if event_fits(prev.phase, events.last()) {
            let step = spec_step(prev.phase, events.last());
            SinkRun { phase: step.0, commands: prev.commands.push(step.1) }
        } else {
            prev
        }
    }
}

/// How many reconnections a command sequence asks for.
pub open spec fn count_reconnects(cmds: Seq<SinkCommand>) -> int
    decreases cmds.len(),
{
    if cmds.len() == 0 {
        0
    } else {
        count_reconnects(cmds.drop_last()) + if cmds.last() is Reconnect {
            1int
        } else {
            0int
        }
    }
}

/// How many resends a command sequence asks for.
pub open spec fn count_resends(cmds: Seq<SinkCommand>) -> int
    decreases cmds.len(),
{
    if cmds.len() == 0 {
        0
    } else {
        count_resends(cmds.drop_last()) + if cmds.last() is Resend {
            1int
        } else {
            0int
        }
    }
}

/// The phase reached ties down exactly how many reconnects and resends
/// were commanded so far.
proof fn lemma_run_counts(events: Seq<SinkEvent>)
    ensures
        run_from(events).phase is AwaitSend ==> count_reconnects(run_from(events).commands) == 0
            && count_resends(run_from(events).commands) == 0,
        run_from(events).phase is AwaitReconnect ==> count_reconnects(run_from(events).commands)
            == 1 && count_resends(run_from(events).commands) == 0,
        run_from(events).phase is AwaitResend ==> count_reconnects(run_from(events).commands) == 1
            && count_resends(run_from(events).commands) == 1,
        count_reconnects(run_from(events).commands) <= 1,
        count_resends(run_from(events).commands) <= 1,
    decreases events.len(),
{
    if events.len() > 0 {
        lemma_run_counts(events.drop_last());
        let prev = run_from(events.drop_last());
        if event_fits(prev.phase, events.last()) {
            let step = spec_step(prev.phase, events.last());
            assert(prev.commands.push(step.1).drop_last() =~= prev.commands);
        }
    }
}

/// Reconnect-and-resend idempotence bound: however the outside work turns
/// out, handling one packet commands at most one reconnection attempt and
/// at most one resend attempt before the packet is finished.
pub proof fn lemma_retry_bound(events: Seq<SinkEvent>)
    ensures
        count_reconnects(run_from(events).commands) <= 1,
        count_resends(run_from(events).commands) <= 1,
{
    lemma_run_counts(events);
}

} // verus!
