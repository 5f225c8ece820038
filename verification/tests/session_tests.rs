use sada::state::ConnectionStatus;
use sada::streaming::session::{
    reconnect_delay, should_reconnect, LinkPhase, NetworkAction, NetworkEvent, NetworkSession,
};

fn failed(msg: &str) -> NetworkEvent {
    NetworkEvent::ConnectFailed { message: msg.to_string() }
}

#[test]
fn backoff_doubles_up_to_a_minute() {
    let delays: Vec<u64> = (0..10).map(reconnect_delay).collect();
    assert_eq!(delays, vec![0, 1, 2, 4, 8, 16, 32, 60, 60, 60]);
    assert_eq!(reconnect_delay(u32::MAX), 60);
}

#[test]
fn auth_failures_are_not_retried() {
    assert!(!should_reconnect("Icecast rejected connection: HTTP/1.0 401 Unauthorized"));
    assert!(!should_reconnect("HTTP/1.1 403 Forbidden"));
    assert!(should_reconnect("TCP connect to localhost:8000: Connection refused"));
    assert!(should_reconnect(""));
    assert!(should_reconnect("TCP connect to radio.example:4010: Connection refused (os error 111)"));
    assert!(should_reconnect("TCP connect to 403.example.org:8000: timed out"));
    assert!(!should_reconnect("Shoutcast rejected connection: HTTP/1.0 403"));
    assert!(!should_reconnect("Icecast rejected connection: HTTP/1.0 401\r\n"));
}

#[test]
fn first_action_is_to_connect() {
    let (s, a) = NetworkSession::new();
    assert_eq!(a, NetworkAction::Connect);
    assert_eq!(s.attempt, 0);
    assert_eq!(s.phase, LinkPhase::Connecting);
}

#[test]
fn retries_back_off_and_reset_after_success() {
    let (mut s, _) = NetworkSession::new();
    let step = s.handle(failed("Connection refused"));
    assert!(matches!(step.status, Some(ConnectionStatus::Error { ref message }) if message == "Connection refused"));
    assert_eq!(step.action, NetworkAction::Backoff { attempt: 1, delay_secs: 1 });
    assert_eq!(s.handle(NetworkEvent::BackoffElapsed).action, NetworkAction::Connect);
    assert_eq!(s.handle(failed("timeout")).action, NetworkAction::Backoff { attempt: 2, delay_secs: 2 });
    s.handle(NetworkEvent::BackoffElapsed);
    assert_eq!(s.handle(failed("timeout")).action, NetworkAction::Backoff { attempt: 3, delay_secs: 4 });
    s.handle(NetworkEvent::BackoffElapsed);
    let step = s.handle(NetworkEvent::Connected);
    assert!(matches!(step.status, Some(ConnectionStatus::Connected)));
    assert_eq!(step.action, NetworkAction::Receive);
    assert_eq!(s.attempt, 0);
    assert_eq!(s.handle(NetworkEvent::PacketWritten { len: 100, channel_drained: false }).action, NetworkAction::Receive);
    assert_eq!(s.handle(NetworkEvent::PacketWritten { len: 50, channel_drained: true }).action, NetworkAction::Flush);
    assert_eq!(s.bytes_sent, 150);
    let step = s.handle(NetworkEvent::WriteFailed);
    assert!(step.status.is_none());
    assert_eq!(step.action, NetworkAction::Backoff { attempt: 1, delay_secs: 1 });
}

#[test]
fn auth_failure_ends_the_session() {
    let (mut s, _) = NetworkSession::new();
    let step = s.handle(failed("Icecast rejected connection: HTTP/1.0 403 Forbidden"));
    assert_eq!(step.action, NetworkAction::Exit);
    assert_eq!(s.phase, LinkPhase::Stopped);
    assert_eq!(s.handle(NetworkEvent::Connected).action, NetworkAction::Exit);
}

#[test]
fn shutdown_and_closed_channel_end_the_session() {
    let (mut s, _) = NetworkSession::new();
    s.handle(failed("refused"));
    assert_eq!(s.handle(NetworkEvent::Shutdown).action, NetworkAction::Exit);
    assert_eq!(s.phase, LinkPhase::Stopped);

    let (mut s, _) = NetworkSession::new();
    s.handle(NetworkEvent::Connected);
    assert_eq!(s.handle(NetworkEvent::ChannelClosed).action, NetworkAction::Exit);
    assert_eq!(s.phase, LinkPhase::Stopped);
}

#[test]
fn out_of_phase_events_repeat_the_pending_action() {
    let (mut s, _) = NetworkSession::new();
    assert_eq!(s.handle(NetworkEvent::BackoffElapsed).action, NetworkAction::Connect);
    assert_eq!(s.handle(NetworkEvent::WriteFailed).action, NetworkAction::Connect);
    s.handle(failed("refused"));
    assert_eq!(s.handle(NetworkEvent::Connected).action, NetworkAction::Backoff { attempt: 1, delay_secs: 1 });
    assert_eq!(s.phase, LinkPhase::BackingOff);
}

#[test]
fn byte_counter_saturates() {
    let (mut s, _) = NetworkSession::new();
    s.handle(NetworkEvent::Connected);
    s.handle(NetworkEvent::PacketWritten { len: u64::MAX - 1, channel_drained: false });
    s.handle(NetworkEvent::PacketWritten { len: 10, channel_drained: false });
    assert_eq!(s.bytes_sent, u64::MAX);
}

#[test]
fn streaming_session_counts_packets_and_ends_on_shutdown() {
    let (mut s, _) = NetworkSession::new();
    let step = s.handle(NetworkEvent::Connected);
    assert!(matches!(step.status, Some(ConnectionStatus::Connected)));
    assert_eq!(step.action, NetworkAction::Receive);
    let packets = [(100u64, false), (250, true), (50, true)];
    let mut actions = Vec::new();
    for (len, drained) in packets {
        let step = s.handle(NetworkEvent::PacketWritten { len, channel_drained: drained });
        assert!(step.status.is_none());
        actions.push(step.action);
    }
    assert_eq!(actions, vec![NetworkAction::Receive, NetworkAction::Flush, NetworkAction::Flush]);
    assert_eq!(s.bytes_sent, 400);
    assert_eq!(s.phase, LinkPhase::Streaming);
    let mut broken = s;
    assert_eq!(broken.handle(NetworkEvent::WriteFailed).action, NetworkAction::Backoff { attempt: 1, delay_secs: 1 });
    let end = s.handle(NetworkEvent::Shutdown);
    assert_eq!(end.action, NetworkAction::Exit);
    assert_eq!(s.phase, LinkPhase::Stopped);
}
