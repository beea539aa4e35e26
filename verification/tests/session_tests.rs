use synchrosonic::session::{heartbeat_due, heartbeat_interval_ms, note_heartbeat_unsent, still_streaming};
use synchrosonic::fanout::BufferedPushOutcome;
use synchrosonic::session::after_target_push;
use synchrosonic::streaming::StreamBranchBufferSnapshot;
use synchrosonic::audio::AudioSampleFormat;
use synchrosonic::error::{IoErrorKind, IoFailure, TransportError};
use synchrosonic::messages::AcceptMessage;
use synchrosonic::models::{DeviceId, TransportEndpoint};
use synchrosonic::net::{IpAddress, SocketAddress};
use synchrosonic::receiver::ReceiverStreamConfig;
use synchrosonic::session::{
    bitrate_bps, branch_queue_capacity, classify_connect_error, connect_failure, derive_manager_state, div_ceil,
    is_self_target, mark_attempt_in_flight, mark_target_streaming, note_negotiation_received,
    note_negotiation_sent, pending_target_snapshot, refresh_target_health, retry_after_failure, retry_backoff,
    schedule_retry, set_target_error, sort_target_snapshots, SenderTarget,
};
use synchrosonic::session::{
    answer_kind_failure, make_target_session_id, note_connected, self_target_failure, step_failure, ConnectStep,
};
use synchrosonic::protocol::FrameKind;
use synchrosonic::streaming::{
    StreamCodec, StreamSessionState, StreamTargetFailureKind, StreamTargetHealth, StreamTargetSnapshot,
};

fn address() -> SocketAddress {
    SocketAddress { ip: IpAddress::V4([10, 0, 0, 7]), port: 51_700 }
}

fn target(id: &str, name: &str) -> SenderTarget {
    SenderTarget::new(
        DeviceId::new(id),
        name,
        TransportEndpoint { device_id: DeviceId::new(id), address: address() },
    )
}

fn snapshot(id: &str, name: &str, state: StreamSessionState) -> StreamTargetSnapshot {
    let mut snapshot = StreamTargetSnapshot::new(DeviceId::new(id), name, address());
    snapshot.state = state;
    snapshot
}

#[test]
fn retries_back_off_and_stop_at_the_limit() {
    assert_eq!(retry_backoff(0), 500);
    assert_eq!(retry_backoff(1), 500);
    assert_eq!(retry_backoff(2), 1_500);
    assert_eq!(retry_backoff(7), 3_000);
    assert_eq!(retry_after_failure(true, 1), Some(500));
    assert_eq!(retry_after_failure(true, 2), Some(1_500));
    assert_eq!(retry_after_failure(true, 3), None);
    assert_eq!(retry_after_failure(false, 1), None);
}

#[test]
fn connect_errors_are_classified_by_cause() {
    let refused = TransportError::Connect {
        address: "10.0.0.7:51700".to_string(),
        source: IoFailure { kind: IoErrorKind::ConnectionRefused, message: "refused".to_string() },
    };
    assert_eq!(classify_connect_error(&refused), StreamTargetFailureKind::Refused);
    let timeout = TransportError::Connect {
        address: "10.0.0.7:51700".to_string(),
        source: IoFailure { kind: IoErrorKind::TimedOut, message: "timed out".to_string() },
    };
    assert_eq!(classify_connect_error(&timeout), StreamTargetFailureKind::Timeout);
    assert_eq!(classify_connect_error(&TransportError::NotRunning), StreamTargetFailureKind::Unreachable);
}

#[test]
fn a_failed_attempt_records_its_kind_and_health() {
    let pending = pending_target_snapshot(&target("a", "Attic"), 2);
    assert_eq!(pending.state, StreamSessionState::Connecting);
    assert_eq!(pending.health, StreamTargetHealth::Pending);
    assert_eq!(pending.attempt_count, 2);
    let failure = connect_failure(
        target("a", "Attic"),
        pending,
        StreamTargetFailureKind::ProtocolMismatch,
        "receiver did not respond with Accept".to_string(),
        false,
    );
    assert_eq!(failure.snapshot.state, StreamSessionState::Error);
    assert_eq!(failure.snapshot.health, StreamTargetHealth::Error);
    assert_eq!(failure.snapshot.last_error.as_deref(), Some("receiver did not respond with Accept"));
    assert!(!failure.retryable);
    let refused = connect_failure(
        target("a", "Attic"),
        pending_target_snapshot(&target("a", "Attic"), 1),
        StreamTargetFailureKind::Refused,
        "refused".to_string(),
        true,
    );
    assert_eq!(refused.snapshot.health, StreamTargetHealth::Unreachable);
}

#[test]
fn self_targets_and_attempt_bookkeeping() {
    let me = DeviceId::new("me");
    assert!(is_self_target(Some(&me), &DeviceId::new("me")));
    assert!(!is_self_target(Some(&me), &DeviceId::new("you")));
    assert!(!is_self_target(None, &DeviceId::new("me")));

    let mut s = snapshot("a", "Attic", StreamSessionState::Error);
    s.attempt_count = 1;
    s.next_retry_at_unix_ms = Some(5);
    assert_eq!(mark_attempt_in_flight(&mut s), 2);
    assert_eq!(s.state, StreamSessionState::Connecting);
    assert_eq!(s.next_retry_at_unix_ms, None);
    schedule_retry(&mut s, 1_500, 1_000);
    assert_eq!(s.next_retry_at_unix_ms, Some(2_500));
    schedule_retry(&mut s, 10, u64::MAX - 1);
    assert_eq!(s.next_retry_at_unix_ms, Some(u64::MAX));
    set_target_error(&mut s, "writer stopped".to_string(), StreamTargetHealth::Unreachable);
    assert_eq!(s.state, StreamSessionState::Error);
    assert_eq!(s.health, StreamTargetHealth::Unreachable);
}

#[test]
fn health_follows_drops_and_gaps_while_streaming() {
    let mut s = snapshot("a", "Attic", StreamSessionState::Streaming);
    refresh_target_health(&mut s);
    assert_eq!(s.health, StreamTargetHealth::Healthy);
    s.network_buffer.dropped_packets = 1;
    refresh_target_health(&mut s);
    assert_eq!(s.health, StreamTargetHealth::Degraded);
    let mut idle = snapshot("b", "Bath", StreamSessionState::Idle);
    idle.health = StreamTargetHealth::Unreachable;
    refresh_target_health(&mut idle);
    assert_eq!(idle.health, StreamTargetHealth::Unreachable);
}

#[test]
fn rates_and_queue_sizes() {
    assert_eq!(bitrate_bps(1_000, 0), 0);
    assert_eq!(bitrate_bps(1_000, 1_000), 8_000);
    assert_eq!(bitrate_bps(u64::MAX, 1), u64::MAX / 1);
    assert_eq!(div_ceil(7, 2), 4);
    assert_eq!(div_ceil(8, 2), 4);
    assert_eq!(branch_queue_capacity(10_000_000, 80), 10);
    assert_eq!(branch_queue_capacity(10_000_000, 0), 4);
    assert_eq!(branch_queue_capacity(1_000_000, 1_000), 64);
}

#[test]
fn the_manager_state_summarises_its_targets() {
    assert_eq!(derive_manager_state(&[]), StreamSessionState::Idle);
    assert_eq!(
        derive_manager_state(&[
            snapshot("a", "Attic", StreamSessionState::Error),
            snapshot("b", "Bath", StreamSessionState::Streaming),
        ]),
        StreamSessionState::Streaming
    );
    assert_eq!(
        derive_manager_state(&[snapshot("a", "Attic", StreamSessionState::Error)]),
        StreamSessionState::Error
    );
}

#[test]
fn negotiation_counts_bytes_and_an_accept_starts_streaming() {
    let mut s = pending_target_snapshot(&target("a", "Attic"), 1);
    note_negotiation_sent(&mut s, 120);
    note_negotiation_received(&mut s, 90);
    assert_eq!(s.metrics.bytes_sent, 120);
    assert_eq!(s.metrics.bytes_received, 90);
    assert_eq!(s.metrics.packets_received, 1);
    s.metrics.bytes_sent = u64::MAX - 5;
    note_negotiation_sent(&mut s, 10);
    assert_eq!(s.metrics.bytes_sent, u64::MAX);

    let stream = ReceiverStreamConfig {
        sample_rate_hz: 48_000,
        channels: 2,
        sample_format: AudioSampleFormat::S16Le,
        frames_per_packet: 480,
    };
    let accept = AcceptMessage {
        protocol_version: 1,
        session_id: "sess".to_string(),
        receiver_name: "Attic".to_string(),
        codec: StreamCodec::RawPcm,
        stream,
        keepalive_interval_ms: 1_000,
        receiver_latency_ms: 120,
    };
    s.last_error = Some("old".to_string());
    mark_target_streaming(&mut s, "sess".to_string(), &accept);
    assert_eq!(s.state, StreamSessionState::Streaming);
    assert_eq!(s.health, StreamTargetHealth::Healthy);
    assert_eq!(s.session_id.as_deref(), Some("sess"));
    assert_eq!(s.stream, Some(stream));
    assert_eq!(s.last_error, None);
}

#[test]
fn snapshots_are_listed_by_name_then_identifier() {
    let sorted = sort_target_snapshots(vec![
        snapshot("z", "Kitchen", StreamSessionState::Idle),
        snapshot("b", "Attic", StreamSessionState::Idle),
        snapshot("a", "Kitchen", StreamSessionState::Idle),
    ]);
    let order: Vec<&str> = sorted.iter().map(|s| s.receiver_id.as_str()).collect();
    assert_eq!(order, vec!["b", "a", "z"]);
}

#[test]
fn connect_steps_decide_failure_kind_and_retry() {
    let refused = TransportError::Connect {
        address: "10.0.0.7:51700".to_string(),
        source: IoFailure { kind: IoErrorKind::ConnectionRefused, message: "refused".to_string() },
    };
    let dial = step_failure(
        ConnectStep::Dial,
        target("rx", "Desk"),
        pending_target_snapshot(&target("rx", "Desk"), 1),
        &refused,
    );
    assert_eq!(dial.failure_kind, StreamTargetFailureKind::Refused);
    assert!(dial.retryable);
    assert_eq!(dial.snapshot.state, StreamSessionState::Error);
    assert_eq!(dial.snapshot.health, StreamTargetHealth::Unreachable);
    assert_eq!(
        dial.snapshot.last_error.as_deref(),
        Some("failed to connect to receiver at 10.0.0.7:51700: refused")
    );

    let closed = TransportError::ChannelClosed;
    let hello = step_failure(
        ConnectStep::SendHello,
        target("rx", "Desk"),
        pending_target_snapshot(&target("rx", "Desk"), 1),
        &closed,
    );
    assert_eq!(hello.failure_kind, StreamTargetFailureKind::ProtocolMismatch);
    assert!(!hello.retryable);
    assert_eq!(hello.snapshot.health, StreamTargetHealth::Error);

    let read = step_failure(
        ConnectStep::ReadAnswer,
        target("rx", "Desk"),
        pending_target_snapshot(&target("rx", "Desk"), 1),
        &closed,
    );
    assert_eq!(read.failure_kind, StreamTargetFailureKind::Unreachable);
    assert!(read.retryable);
}

#[test]
fn self_target_and_wrong_answer_fail_for_good() {
    let blocked = self_target_failure(target("me", "Me"), pending_target_snapshot(&target("me", "Me"), 0));
    assert_eq!(blocked.failure_kind, StreamTargetFailureKind::SelfTargetBlocked);
    assert!(!blocked.retryable);
    assert_eq!(blocked.snapshot.last_error.as_deref(), Some("self-target connections are blocked"));

    let snap = pending_target_snapshot(&target("rx", "Desk"), 1);
    assert!(answer_kind_failure(&target("rx", "Desk"), &snap, FrameKind::Accept).is_none());
    let wrong = answer_kind_failure(&target("rx", "Desk"), &snap, FrameKind::Audio).expect("failure");
    assert_eq!(wrong.failure_kind, StreamTargetFailureKind::ProtocolMismatch);
    assert!(!wrong.retryable);
    assert_eq!(wrong.snapshot.last_error.as_deref(), Some("receiver did not respond with Accept"));
}

#[test]
fn target_session_ids_and_negotiation_state() {
    assert_eq!(make_target_session_id("sess", "rx-1", 1_234), "sess-rx-1-1234");
    let mut snap = pending_target_snapshot(&target("rx", "Desk"), 1);
    note_connected(&mut snap);
    assert_eq!(snap.state, StreamSessionState::Negotiating);
}

#[test]
fn heartbeats_and_streaming_checks() {
    assert_eq!(heartbeat_interval_ms(100), 250);
    assert_eq!(heartbeat_interval_ms(1_000), 1_000);
    assert!(heartbeat_due(StreamSessionState::Streaming, 1_000, 1_000));
    assert!(!heartbeat_due(StreamSessionState::Streaming, 999, 1_000));
    assert!(!heartbeat_due(StreamSessionState::Negotiating, 5_000, 1_000));

    let mut snap = snapshot("rx", "Desk", StreamSessionState::Streaming);
    assert!(still_streaming(&snap));
    note_heartbeat_unsent(&mut snap);
    assert!(!still_streaming(&snap));
    assert_eq!(snap.state, StreamSessionState::Error);
    assert_eq!(snap.health, StreamTargetHealth::Unreachable);
    assert_eq!(snap.last_error.as_deref(), Some("transport channel closed"));
}

#[test]
fn a_target_push_updates_or_fails_the_target() {
    let buffer = StreamBranchBufferSnapshot { queued_packets: 3, max_packets: 4, dropped_packets: 1 };
    let mut snap = snapshot("rx", "Desk", StreamSessionState::Streaming);
    snap.health = StreamTargetHealth::Healthy;
    assert!(after_target_push(&mut snap, Ok(BufferedPushOutcome::DroppedOldest), buffer));
    assert_eq!(snap.network_buffer, buffer);
    assert_eq!(snap.metrics.packet_gaps, 0);
    assert_eq!(snap.health, StreamTargetHealth::Degraded);

    let mut snap = snapshot("rx", "Desk", StreamSessionState::Streaming);
    assert!(!after_target_push(&mut snap, Err(TransportError::ChannelClosed), buffer));
    assert_eq!(snap.state, StreamSessionState::Error);
    assert_eq!(snap.health, StreamTargetHealth::Error);
    assert_eq!(snap.last_error.as_deref(), Some("transport channel closed"));
}
