use gugugaga::sink::sink_step;
use gugugaga::sink::PacketOutcome;
use gugugaga::sink::PacketPhase;
use gugugaga::sink::SinkCommand;
use gugugaga::sink::SinkEvent;

#[test]
fn successful_send_finishes_the_packet() {
    let (phase, cmd) = sink_step(PacketPhase::AwaitSend, SinkEvent::SendSucceeded);
    assert_eq!(phase, PacketPhase::Done);
    assert_eq!(cmd, SinkCommand::Finish(PacketOutcome::Delivered));
}

#[test]
fn scenario_send_failure_then_reconnect_and_resend_succeed() {
    // One send failure: exactly one reconnection, then exactly one resend,
    // and the packet is delivered once.
    let (phase, cmd) = sink_step(PacketPhase::AwaitSend, SinkEvent::SendFailed);
    assert_eq!(phase, PacketPhase::AwaitReconnect);
    assert_eq!(cmd, SinkCommand::Reconnect);

    let (phase, cmd) = sink_step(phase, SinkEvent::ReconnectSucceeded);
    assert_eq!(phase, PacketPhase::AwaitResend);
    assert_eq!(cmd, SinkCommand::Resend);

    let (phase, cmd) = sink_step(phase, SinkEvent::SendSucceeded);
    assert_eq!(phase, PacketPhase::Done);
    assert_eq!(cmd, SinkCommand::Finish(PacketOutcome::Delivered));
}

#[test]
fn scenario_send_and_reconnect_fail_drops_packet_and_moves_on() {
    // Send fails, the single reconnection fails: the packet is dropped with
    // no further retry, and the next packet starts over normally.
    let (phase, cmd) = sink_step(PacketPhase::AwaitSend, SinkEvent::SendFailed);
    assert_eq!(phase, PacketPhase::AwaitReconnect);
    assert_eq!(cmd, SinkCommand::Reconnect);

    let (phase, cmd) = sink_step(phase, SinkEvent::ReconnectFailed);
    assert_eq!(phase, PacketPhase::Done);
    assert_eq!(cmd, SinkCommand::Finish(PacketOutcome::Dropped));

    // The next packet begins a fresh run in AwaitSend.
    let (phase, cmd) = sink_step(PacketPhase::AwaitSend, SinkEvent::SendSucceeded);
    assert_eq!(phase, PacketPhase::Done);
    assert_eq!(cmd, SinkCommand::Finish(PacketOutcome::Delivered));
}

#[test]
fn failed_resend_drops_the_packet_without_another_attempt() {
    let (phase, _) = sink_step(PacketPhase::AwaitSend, SinkEvent::SendFailed);
    let (phase, _) = sink_step(phase, SinkEvent::ReconnectSucceeded);
    let (phase, cmd) = sink_step(phase, SinkEvent::SendFailed);
    assert_eq!(phase, PacketPhase::Done);
    assert_eq!(cmd, SinkCommand::Finish(PacketOutcome::Dropped));
}
