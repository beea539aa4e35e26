use synchrosonic::audio::AudioSampleFormat;
use synchrosonic::config::AppConfig;
use synchrosonic::receiver::{
    ReceiverAudioPacket, ReceiverConnectionInfo, ReceiverServiceState, ReceiverStreamConfig, ReceiverSyncState,
};
use synchrosonic::worker::{DrainStep, ReceiverWorker, SinkSwap};

const MS: u64 = 1_000_000;

fn stream() -> ReceiverStreamConfig {
    ReceiverStreamConfig { sample_rate_hz: 48_000, channels: 2, sample_format: AudioSampleFormat::S16Le, frames_per_packet: 480 }
}

fn connection() -> ReceiverConnectionInfo {
    ReceiverConnectionInfo {
        session_id: "session-1".to_string(),
        remote_addr: None,
        stream: stream(),
        requested_latency_ms: 120,
    }
}

fn packet(sequence: u64) -> ReceiverAudioPacket {
    ReceiverAudioPacket {
        sequence,
        captured_at_ms: sequence * 10,
        captured_at_unix_ms: 1_700_000_000_000 + sequence * 10,
        payload: vec![0; 480 * 4],
    }
}

fn connected_worker() -> ReceiverWorker {
    let config = AppConfig::default().receiver;
    let mut worker = ReceiverWorker::new(&config);
    assert_eq!(worker.state, ReceiverServiceState::Listening);
    worker.handle_connect(connection(), 0, Ok(()));
    worker
}

#[test]
fn a_connected_worker_buffers_then_plays_on_schedule() {
    let mut worker = connected_worker();
    assert_eq!(worker.state, ReceiverServiceState::Connected);
    assert!(worker.sink_attached);
    assert_eq!(worker.sync.state, ReceiverSyncState::Priming);
    assert_eq!(worker.sync.requested_latency_ms, Some(120));

    for sequence in 0..10 {
        worker.handle_packet(packet(sequence), sequence * 10 * MS);
    }
    assert_eq!(worker.state, ReceiverServiceState::Buffering);
    assert_eq!(worker.metrics.packets_received, 10);
    assert_eq!(worker.metrics.frames_received, 4_800);
    assert_eq!(worker.metrics.bytes_received, 19_200);
    assert_eq!(worker.sync.last_sender_timestamp_ms, Some(90));

    let target_ns = worker.buffer_profile.target_buffer_ms as u64 * MS;
    assert!(worker.drain_begin());
    assert_eq!(worker.drain_step(target_ns - 1), DrainStep::Wait);
    let first = match worker.drain_step(target_ns) {
        DrainStep::Write(buffered) => buffered,
        other => panic!("expected a packet to write, got {other:?}"),
    };
    assert_eq!(first.packet.sequence, 0);
    worker.record_played(&first, Ok(()));
    assert_eq!(worker.state, ReceiverServiceState::Playing);
    assert_eq!(worker.metrics.packets_played, 1);
    assert_eq!(worker.metrics.frames_played, 480);
    assert_eq!(worker.sync.state, ReceiverSyncState::Locked);
}

#[test]
fn a_failed_write_puts_the_worker_in_error() {
    let mut worker = connected_worker();
    for sequence in 0..10 {
        worker.handle_packet(packet(sequence), sequence * 10 * MS);
    }
    let target_ns = worker.buffer_profile.target_buffer_ms as u64 * MS;
    assert!(worker.drain_begin());
    let DrainStep::Write(first) = worker.drain_step(target_ns) else {
        panic!("expected a packet to write");
    };
    worker.record_played(&first, Err("pw-play exited".to_string()));
    assert_eq!(worker.state, ReceiverServiceState::Error);
    assert_eq!(worker.last_error.as_deref(), Some("pw-play exited"));
}

#[test]
fn very_late_packets_are_dropped() {
    let mut worker = connected_worker();
    for sequence in 0..10 {
        worker.handle_packet(packet(sequence), sequence * 10 * MS);
    }
    let target_ns = worker.buffer_profile.target_buffer_ms as u64 * MS;
    let drop_after = worker.buffer_profile.late_packet_drop_ms as u64 * MS;
    assert!(worker.drain_begin());
    assert_eq!(worker.drain_step(target_ns + drop_after + MS), DrainStep::Continue);
    assert_eq!(worker.sync.late_packet_drops, 1);
    assert_eq!(worker.sync.state, ReceiverSyncState::Late);
}

#[test]
fn a_silent_sender_is_disconnected_after_the_grace_period() {
    let mut worker = connected_worker();
    worker.handle_packet(packet(0), 0);
    let grace = worker.buffer_profile.reconnect_grace_period_ms * MS;
    let wait = worker.next_wait_ns(0);
    assert!(wait >= 5 * MS && wait <= 200 * MS);
    worker.finish_tick(grace - 1);
    assert!(worker.connection.is_some());
    worker.finish_tick(grace);
    assert!(worker.connection.is_none());
    assert_eq!(worker.state, ReceiverServiceState::Listening);
    assert_eq!(worker.metrics.reconnect_attempts, 1);
    assert_eq!(worker.last_error.as_deref(), Some("receiver transport timed out"));
}

#[test]
fn a_failed_start_and_a_new_output_are_reported() {
    let config = AppConfig::default().receiver;
    let mut worker = ReceiverWorker::new(&config);
    worker.handle_connect(connection(), 0, Err("no sink".to_string()));
    assert_eq!(worker.state, ReceiverServiceState::Error);
    assert!(worker.connection.is_none());
    worker.handle_playback_target_change(Some("speakers".to_string()), SinkSwap::NotAttempted);
    assert_eq!(worker.state, ReceiverServiceState::Listening);
    assert_eq!(worker.playback_target_id.as_deref(), Some("speakers"));
    assert!(worker.last_error.is_none());

    let mut connected = connected_worker();
    connected.handle_playback_target_change(None, SinkSwap::Failed("device busy".to_string()));
    assert_eq!(connected.last_error.as_deref(), Some("device busy"));
    connected.shutdown(None);
    assert_eq!(connected.state, ReceiverServiceState::Idle);
    assert!(!connected.sink_attached);
}
