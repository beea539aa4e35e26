use synchrosonic::audio::{AudioSampleFormat, CaptureSettings};
use synchrosonic::buffer::{BufferPushOutcome, ReceiverPacketBuffer};
use synchrosonic::config::{AppConfig, ReceiverConfig, APP_CONFIG_SCHEMA_VERSION};
use synchrosonic::pipewire::{validate_capture_settings, LinuxAudioBackend};
use synchrosonic::playback::{validate_playback_request, LinuxPlaybackEngine, PlaybackStartRequest};
use synchrosonic::receiver::{
    ReceiverAudioPacket, ReceiverLatencyPreset, ReceiverSnapshot, ReceiverStreamConfig,
    ReceiverSyncState,
};
use synchrosonic::streaming::StreamMetrics;

#[test]
fn backend_uses_pipewire_tool_names() {
    let backend = LinuxAudioBackend::new();

    assert_eq!(backend.backend_name(), "linux-pipewire");
}

#[test]
fn invalid_capture_settings_are_rejected() {
    let settings = CaptureSettings {
        channels: 0,
        ..CaptureSettings::default()
    };

    assert!(validate_capture_settings(&settings).is_err());
}

#[test]
fn backend_uses_pipewire_playback_name() {
    let engine = LinuxPlaybackEngine::new();

    assert_eq!(engine.backend_name(), "linux-pipewire-playback");
}

#[test]
fn playback_request_requires_non_zero_stream_shape() {
    let request = PlaybackStartRequest {
        stream: ReceiverStreamConfig {
            sample_rate_hz: 48_000,
            channels: 2,
            sample_format: AudioSampleFormat::S16Le,
            frames_per_packet: 0,
        },
        target_id: None,
        latency_ms: 120,
    };

    assert!(validate_playback_request(&request).is_err());
}

#[test]
fn capture_settings_make_buffering_explicit() {
    let settings = CaptureSettings::default();

    assert_eq!(settings.bytes_per_frame(), 4);
    assert_eq!(settings.chunk_bytes(), 1_920);
    assert!(settings.outputs.local_monitoring);
    assert!(settings.outputs.network_streaming);
}

#[test]
fn default_config_uses_lan_streaming_defaults() {
    let config = AppConfig::default();

    assert_eq!(config.schema_version, APP_CONFIG_SCHEMA_VERSION);
    assert!(config.discovery.enabled);
    assert_eq!(config.transport.stream_port, 51_700);
    assert_eq!(config.transport.connect_timeout_ms, 2_000);
    assert_eq!(config.audio.sample_rate_hz, 48_000);
    assert_eq!(config.audio.capture_buffer_frames, 480);
    assert!(config.audio.local_playback_enabled);
    assert!(config.receiver.enabled);
    assert_eq!(config.receiver.listen_port, 51_700);
    assert_eq!(config.ui.last_view_name, "dashboard");
}

#[test]
fn latency_presets_define_explicit_buffer_profiles() {
    let low = ReceiverLatencyPreset::LowLatency.profile();
    let balanced = ReceiverLatencyPreset::Balanced.profile();
    let stable = ReceiverLatencyPreset::Stable.profile();

    assert!(low.expected_output_latency_ms() < balanced.expected_output_latency_ms());
    assert!(balanced.expected_output_latency_ms() < stable.expected_output_latency_ms());
    assert!(low.target_buffer_ms < stable.target_buffer_ms);
    assert!(low.max_buffer_ms < stable.max_buffer_ms);
}

#[test]
fn packet_frame_count_validates_payload_alignment() {
    let stream = ReceiverStreamConfig::default();
    let packet = ReceiverAudioPacket {
        sequence: 1,
        captured_at_ms: 0,
        captured_at_unix_ms: 0,
        payload: vec![0; stream.packet_bytes_hint()],
    };

    assert_eq!(
        packet.frame_count(&stream).expect("payload should align"),
        stream.frames_per_packet
    );
}

#[test]
fn default_snapshot_exposes_sync_defaults() {
    let snapshot = ReceiverSnapshot::from_config(&ReceiverConfig::default());

    assert_eq!(snapshot.sync.state, ReceiverSyncState::Idle);
    assert!(snapshot.sync.expected_output_latency_ms > 0);
    assert!(snapshot.buffer.target_buffer_ms > 0);
    assert!(snapshot.buffer.max_buffer_ms >= snapshot.buffer.target_buffer_ms);
}

#[test]
fn metrics_can_accumulate_across_multiple_targets() {
    let mut aggregate = StreamMetrics {
        packets_sent: 3,
        latency_estimate_ms: Some(10),
        ..StreamMetrics::default()
    };
    let other = StreamMetrics {
        packets_sent: 5,
        bytes_sent: 100,
        latency_estimate_ms: Some(20),
        ..StreamMetrics::default()
    };

    aggregate.accumulate(&other);

    assert_eq!(aggregate.packets_sent, 8);
    assert_eq!(aggregate.bytes_sent, 100);
    assert_eq!(aggregate.latency_estimate_ms, Some(20));
}

fn silent_packet(sequence: u64, stream: &ReceiverStreamConfig) -> ReceiverAudioPacket {
    ReceiverAudioPacket {
        sequence,
        captured_at_ms: 0,
        captured_at_unix_ms: 0,
        payload: vec![0; stream.packet_bytes_hint()],
    }
}

#[test]
fn buffer_transitions_to_ready_when_threshold_is_met() {
    let profile = ReceiverLatencyPreset::Balanced.profile();
    let stream = ReceiverStreamConfig::default();
    let mut buffer = ReceiverPacketBuffer::new(profile, &stream);
    let (start_threshold_packets, _) = profile.buffer_packet_limits(&stream);

    for sequence in 0..start_threshold_packets {
        buffer
            .push(silent_packet(sequence as u64, &stream), &stream)
            .expect("packet should be buffered");
    }

    assert!(buffer.is_ready());
    assert_eq!(
        buffer.snapshot().queued_packets,
        start_threshold_packets as u32
    );
    assert!(buffer.snapshot().queued_audio_ms >= profile.target_buffer_ms as u32);
}

#[test]
fn buffer_drops_oldest_packet_when_full() {
    let profile = ReceiverLatencyPreset::LowLatency.profile();
    let stream = ReceiverStreamConfig::default();
    let mut buffer = ReceiverPacketBuffer::new(profile, &stream);
    let (_, max_packets) = profile.buffer_packet_limits(&stream);

    for sequence in 0..max_packets {
        buffer
            .push(silent_packet(sequence as u64, &stream), &stream)
            .expect("packet should be buffered");
    }

    let outcome = buffer
        .push(silent_packet(999, &stream), &stream)
        .expect("packet should be accepted by dropping stale audio");

    assert_eq!(
        outcome,
        BufferPushOutcome::DroppedOldest {
            dropped_sequence: 0
        }
    );
    assert_eq!(buffer.snapshot().queued_packets, max_packets as u32);
}

#[test]
fn packet_duration_rounds_ties_to_even() {
    let stream = |frames_per_packet: u32, sample_rate_hz: u32| ReceiverStreamConfig {
        sample_rate_hz,
        channels: 2,
        sample_format: AudioSampleFormat::S16Le,
        frames_per_packet,
    };
    assert_eq!(stream(480, 48_000).packet_duration(), 10_000_000);
    assert_eq!(stream(1, 1_024).packet_duration(), 976_562);
    assert_eq!(stream(3, 1_024).packet_duration(), 2_929_688);
    assert_eq!(stream(3, 2_048).packet_duration(), 1_464_844);
    assert_eq!(stream(1, 3).packet_duration(), 333_333_333);
    assert_eq!(stream(2, 3).packet_duration(), 666_666_667);
    assert_eq!(stream(0, 48_000).packet_duration(), 0);
    assert_eq!(stream(480, 0).packet_duration(), 0);
}
