use serde_json::Value;
use synchrosonic::config::AppConfig;
use synchrosonic::error::TransportError;
use synchrosonic::fanout::{
    branch_snapshot, push_decision, BufferedBranchQueue, BufferedPushOutcome, FanoutAudioFrame, LocalMirrorEvent,
    MirrorWorker, SendKind,
};
use synchrosonic::streaming::LocalMirrorState;
use synchrosonic::models::AudioSourceKind;
use synchrosonic::pipewire::{
    pipewire_playback_targets, pipewire_sources, PwMetadataEntry, PwObject, PwProps,
};
use synchrosonic::protocol::{read_frame, write_frame, FrameKind};
use synchrosonic::report::RedactedConfigSummary;

fn props(entries: &[(&str, &str)]) -> PwProps {
    PwProps {
        entries: entries
            .iter()
            .map(|(key, value)| (key.to_string(), value.to_string()))
            .collect(),
    }
}

fn metadata_entry(key: &str, name: &str) -> PwMetadataEntry {
    PwMetadataEntry {
        key: Some(key.to_string()),
        value_name: Some(name.to_string()),
    }
}

/// The objects of the dump fixture: a `default` metadata object naming the
/// default sink and source, one sink and one source node.
fn pipewire_dump_fixture() -> Vec<PwObject> {
    vec![
        PwObject {
            object_type: Some("PipeWire:Interface:Metadata".to_string()),
            info_props: None,
            props: Some(props(&[("metadata.name", "default")])),
            metadata: Some(vec![
                metadata_entry("default.audio.sink", "alsa_output.pci.stereo"),
                metadata_entry("default.audio.source", "alsa_input.pci.mic"),
            ]),
        },
        PwObject {
            object_type: Some("PipeWire:Interface:Node".to_string()),
            info_props: Some(props(&[
                ("node.name", "alsa_output.pci.stereo"),
                ("node.description", "Built-in Audio Analog Stereo"),
                ("media.class", "Audio/Sink"),
            ])),
            props: None,
            metadata: None,
        },
        PwObject {
            object_type: Some("PipeWire:Interface:Node".to_string()),
            info_props: Some(props(&[
                ("node.name", "alsa_input.pci.mic"),
                ("node.description", "Built-in Microphone"),
                ("media.class", "Audio/Source"),
            ])),
            props: None,
            metadata: None,
        },
    ]
}

#[test]
fn pipewire_dump_parser_maps_sinks_to_monitor_sources() {
    let sources = pipewire_sources(&pipewire_dump_fixture());

    assert_eq!(sources.len(), 2);
    assert_eq!(sources[0].kind, AudioSourceKind::Monitor);
    assert_eq!(sources[0].id, "alsa_output.pci.stereo");
    assert!(sources[0].is_default);
    assert_eq!(sources[1].kind, AudioSourceKind::Microphone);
}

#[test]
fn pipewire_dump_parser_maps_sinks_to_playback_targets() {
    let targets = pipewire_playback_targets(&pipewire_dump_fixture());

    assert_eq!(targets.len(), 1);
    assert_eq!(targets[0].id, "alsa_output.pci.stereo");
    assert!(targets[0].is_default);
}

#[test]
fn pipewire_monitor_sources_are_named_after_their_sink() {
    let sources = pipewire_sources(&pipewire_dump_fixture());

    assert_eq!(sources[0].display_name, "Built-in Audio Analog Stereo (monitor)");
    assert_eq!(sources[1].display_name, "Built-in Microphone");
}

#[test]
fn redacted_config_summary_omits_sensitive_ids() {
    let mut config = AppConfig::default();
    config.audio.preferred_source_id = Some("alsa_input.private".to_string());
    config.audio.local_playback_target_id = Some("bluez.private".to_string());
    config.receiver.playback_target_id = Some("speaker.private".to_string());
    config.receiver.advertised_name = "Office Receiver".to_string();

    let summary = RedactedConfigSummary::from_config(&config);

    assert!(summary.audio.has_preferred_source_id);
    assert!(summary.audio.has_local_playback_target_id);
    assert!(summary.receiver.has_playback_target_id);
    assert!(summary.receiver.has_advertised_name);
    let encoded = format!("{summary:?}");
    assert!(!encoded.contains("alsa_input.private"));
    assert!(!encoded.contains("bluez.private"));
    assert!(!encoded.contains("speaker.private"));
    assert!(!encoded.contains("Office Receiver"));
}

#[test]
fn protocol_round_trips_binary_audio_frames() {
    let mut metadata = serde_json::Map::new();
    metadata.insert("sequence".to_string(), Value::from(4_u64));
    metadata.insert("captured_at_ms".to_string(), Value::from(99_u64));
    let metadata = serde_json::to_vec(&Value::Object(metadata)).expect("metadata should encode");
    let payload = vec![1_u8, 2, 3, 4];
    let mut encoded = Vec::new();

    let written = write_frame(&mut encoded, FrameKind::Audio, &metadata, &payload)
        .expect("frame should encode");
    let decoded = read_frame(encoded.as_slice()).expect("frame should decode");
    let decoded_metadata: Value =
        serde_json::from_slice(&decoded.metadata).expect("metadata should decode");

    assert_eq!(written, encoded.len());
    assert_eq!(decoded.kind, FrameKind::Audio);
    assert_eq!(decoded.payload, payload);
    assert_eq!(decoded_metadata["sequence"], 4);
}

#[test]
fn oversized_metadata_is_refused_before_writing() {
    let metadata = vec![b'x'; 8_193];
    let mut encoded = Vec::new();

    assert!(write_frame(&mut encoded, FrameKind::Hello, &metadata, &[]).is_err());
    assert!(encoded.is_empty());
}

#[test]
fn truncated_frames_are_refused() {
    let mut encoded = Vec::new();
    write_frame(&mut encoded, FrameKind::Heartbeat, b"{}", &[9, 9]).expect("frame should encode");

    assert!(read_frame(&encoded[..encoded.len() - 1]).is_err());
    assert!(read_frame(&[]).is_err());
}

fn frame(sequence: u64) -> FanoutAudioFrame {
    FanoutAudioFrame {
        sequence,
        captured_at_ms: sequence,
        captured_at_unix_ms: 1_000 + sequence,
        payload: vec![sequence as u8],
    }
}

#[test]
fn buffered_branch_queue_drops_oldest_when_full() {
    let mut queue = BufferedBranchQueue::new(2);

    assert_eq!(
        queue.push(frame(1)).expect("first frame should enqueue"),
        BufferedPushOutcome::Enqueued
    );
    assert_eq!(
        queue.push(frame(2)).expect("second frame should enqueue"),
        BufferedPushOutcome::Enqueued
    );
    assert_eq!(
        queue
            .push(frame(3))
            .expect("full queue should drop the oldest frame"),
        BufferedPushOutcome::DroppedOldest
    );

    let snapshot = queue.snapshot();
    assert_eq!(snapshot.queued_packets, 2);
    assert_eq!(snapshot.dropped_packets, 1);

    let receiver = queue.receiver();
    assert_eq!(receiver.try_recv().expect("frame").sequence, 2);
    queue.clear();
    assert_eq!(queue.snapshot().queued_packets, 0);
    assert_eq!(BufferedBranchQueue::<u8>::new(0).snapshot().max_packets, 1);
}

#[test]
fn local_mirror_worker_reports_start_play_failure_and_stop() {
    let mut worker = MirrorWorker::new("linux-pipewire-playback");

    let started = worker.on_start_result(&Some("sink-1".to_string()), &Ok(()));
    assert!(worker.enabled);
    assert!(!started.clear_frames);
    assert_eq!(
        started.events,
        vec![
            LocalMirrorEvent::Started {
                backend_name: "linux-pipewire-playback".to_string(),
                target_id: Some("sink-1".to_string()),
            },
            LocalMirrorEvent::StateChanged(LocalMirrorState::Mirroring),
        ]
    );

    let played = worker.on_frame_written(1_920, None);
    assert_eq!(played.events, vec![LocalMirrorEvent::Played { bytes: 1_920 }]);

    let failed = worker.on_frame_written(1_920, Some("broken pipe".to_string()));
    assert!(!worker.enabled);
    assert!(failed.clear_frames);
    assert_eq!(failed.events, vec![LocalMirrorEvent::Error("broken pipe".to_string())]);

    let idle_stop = worker.on_stop(None);
    assert!(!idle_stop.clear_frames);
    assert_eq!(
        idle_stop.events,
        vec![LocalMirrorEvent::StateChanged(LocalMirrorState::Disabled)]
    );

    let refused = worker.on_start_result(&None, &Err("no pw-play".to_string()));
    assert!(!worker.enabled);
    assert!(refused.clear_frames);

    worker.on_start_result(&None, &Ok(()));
    let stopped = worker.on_stop(Some("stop failed".to_string()));
    assert!(stopped.clear_frames);
    assert_eq!(
        stopped.events,
        vec![
            LocalMirrorEvent::Error("stop failed".to_string()),
            LocalMirrorEvent::StateChanged(LocalMirrorState::Disabled),
        ]
    );
    assert!(worker.on_shutdown().exit);
}

#[test]
fn full_branch_queue_reports_oldest_drop_and_capacity() {
    let mut queue = BufferedBranchQueue::new(2);
    assert_eq!(queue.push(frame(1)), Ok(BufferedPushOutcome::Enqueued));
    assert_eq!(queue.push(frame(2)), Ok(BufferedPushOutcome::Enqueued));
    assert_eq!(queue.push(frame(3)), Ok(BufferedPushOutcome::DroppedOldest));
    let snapshot = queue.snapshot();
    assert_eq!(snapshot.queued_packets, 2);
    assert_eq!(snapshot.dropped_packets, 1);
    assert_eq!(snapshot.max_packets, 2);
}

#[test]
fn push_decision_follows_the_channel_answers() {
    assert_eq!(push_decision(SendKind::Sent, None), (Ok(BufferedPushOutcome::Enqueued), 0));
    assert_eq!(push_decision(SendKind::Disconnected, None), (Err(TransportError::ChannelClosed), 0));
    assert_eq!(push_decision(SendKind::Full, None), (Ok(BufferedPushOutcome::DroppedNewest), 1));
    assert_eq!(push_decision(SendKind::Full, Some(SendKind::Sent)), (Ok(BufferedPushOutcome::DroppedOldest), 1));
    assert_eq!(push_decision(SendKind::Full, Some(SendKind::Full)), (Ok(BufferedPushOutcome::DroppedNewest), 2));
    assert_eq!(
        push_decision(SendKind::Full, Some(SendKind::Disconnected)),
        (Err(TransportError::ChannelClosed), 1)
    );
}

#[test]
fn branch_snapshot_clamps_fill_to_capacity() {
    let s = branch_snapshot(7, 4, 9);
    assert_eq!((s.queued_packets, s.max_packets, s.dropped_packets), (4, 4, 9));
    let s = branch_snapshot(3, 4, 0);
    assert_eq!((s.queued_packets, s.max_packets, s.dropped_packets), (3, 4, 0));
}

