use synchrosonic::models::{DeviceId, TransportEndpoint};
use synchrosonic::net::{IpAddress, SocketAddress};
use synchrosonic::session::{connect_failure, SenderTarget};
use synchrosonic::streaming::{StreamSessionState, StreamTargetFailureKind, StreamTargetSnapshot};
use synchrosonic::targets::TargetTable;

fn target(id: &str, name: &str) -> SenderTarget {
    SenderTarget::new(
        DeviceId::new(id),
        name,
        TransportEndpoint {
            device_id: DeviceId::new(id),
            address: SocketAddress { ip: IpAddress::V4([10, 0, 0, 7]), port: 51_700 },
        },
    )
}

fn streaming_snapshot(id: &str, name: &str, attempts: u32) -> StreamTargetSnapshot {
    let mut snapshot = StreamTargetSnapshot::new(
        DeviceId::new(id),
        name,
        SocketAddress { ip: IpAddress::V4([10, 0, 0, 7]), port: 51_700 },
    );
    snapshot.state = StreamSessionState::Streaming;
    snapshot.attempt_count = attempts;
    snapshot
}

fn ids(snapshots: &[StreamTargetSnapshot]) -> Vec<String> {
    snapshots.iter().map(|s| s.receiver_id.as_str().to_string()).collect()
}

#[test]
fn queued_targets_connect_when_due_and_become_active() {
    let mut table = TargetTable::new();
    assert!(!table.queue_connect(target("k", "Kitchen"), 0, 1_000));
    assert!(!table.queue_connect(target("a", "Attic"), 0, 5_000));
    let due = table.start_due(2_000);
    assert_eq!(due.len(), 1);
    assert_eq!(due[0].0.receiver_id.as_str(), "k");
    assert_eq!(due[0].1, 1);
    assert!(table.start_due(2_000).is_empty(), "an attempt in flight is not started twice");
    assert_eq!(ids(&table.snapshots()), vec!["a", "k"]);

    assert!(table.connected(streaming_snapshot("k", "Kitchen", 1)));
    assert!(!table.connected(streaming_snapshot("z", "Unknown", 1)));
    assert!(table.has_active());
    assert_eq!(table.active_keys(), vec!["k".to_string()]);
    assert_eq!(
        table.active_snapshot("k").map(|s| s.state),
        Some(StreamSessionState::Streaming)
    );
    assert!(table.active_snapshot("a").is_none());
    assert!(!table.connected(streaming_snapshot("k", "Kitchen", 1)), "an active receiver is not pending");
}

#[test]
fn failed_attempts_retry_then_give_up() {
    let mut table = TargetTable::new();
    table.queue_connect(target("k", "Kitchen"), 0, 0);
    for round in 0..3u64 {
        let due = table.start_due(u64::MAX - 1);
        assert_eq!(due.len(), 1, "round {round}");
        let snapshot = table.snapshots().remove(0);
        let failure = connect_failure(
            target("k", "Kitchen"),
            snapshot,
            StreamTargetFailureKind::Refused,
            "refused".to_string(),
            true,
        );
        table.attempt_failed(failure, 10_000);
    }
    let snapshots = table.snapshots();
    assert_eq!(snapshots[0].state, StreamSessionState::Error);
    assert!(table.start_due(u64::MAX).is_empty(), "a target given up on is not retried");
    let kept = table.stop_all();
    assert!(kept.is_empty());
    assert_eq!(table.snapshots().len(), 1);
}

#[test]
fn a_failed_session_is_given_up_and_replacing_reports_the_active_one() {
    let mut table = TargetTable::new();
    table.queue_connect(target("k", "Kitchen"), 0, 0);
    table.start_due(0);
    assert!(table.connected(streaming_snapshot("k", "Kitchen", 1)));
    assert!(table.keeps_capture());
    let mut last = streaming_snapshot("k", "Kitchen", 1);
    last.state = StreamSessionState::Error;
    last.last_error = Some("receiver disconnected".to_string());
    assert!(table.session_failed("k", last));
    assert!(!table.session_failed("k", streaming_snapshot("k", "Kitchen", 1)), "only an active session fails");
    assert!(!table.has_active());
    assert!(!table.keeps_capture());
    let snapshot = table.snapshots().remove(0);
    assert_eq!(snapshot.state, StreamSessionState::Error);
    assert_eq!(snapshot.last_error.as_deref(), Some("receiver disconnected"));
    assert!(table.start_due(u64::MAX).is_empty(), "a failed session is not reconnected");

    assert!(!table.queue_connect(target("k", "Kitchen"), 0, 2_000));
    assert_eq!(table.start_due(2_000).len(), 1);
    assert!(table.connected(streaming_snapshot("k", "Kitchen", 2)));
    assert!(table.queue_connect(target("k", "Kitchen"), 0, 3_000), "the active session is replaced");
    assert_eq!(table.snapshots().len(), 1);
    assert!(!table.remove("missing"));
    assert!(!table.remove("k"));
    assert!(table.snapshots().is_empty());
}

#[test]
fn stopping_shuts_active_sessions_and_drops_waiting_ones() {
    let mut table = TargetTable::new();
    table.queue_connect(target("a", "Attic"), 0, 0);
    table.queue_connect(target("b", "Bath"), 0, 0);
    table.start_due(0);
    assert!(table.connected(streaming_snapshot("a", "Attic", 1)));
    let mut updated = streaming_snapshot("a", "Attic", 1);
    updated.metrics.bytes_sent = 99;
    assert!(table.set_active_snapshot("a", updated));
    assert!(!table.set_active_snapshot("b", streaming_snapshot("b", "Bath", 1)));
    assert_eq!(table.active_snapshot("a").map(|s| s.metrics.bytes_sent), Some(99));
    assert_eq!(table.stop_all(), vec!["a".to_string()]);
    assert!(table.snapshots().is_empty());
}
