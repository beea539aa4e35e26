use synchrosonic::audio::CaptureState;
use synchrosonic::config::AppConfig;
use synchrosonic::models::{
    AudioSource, AudioSourceKind, DeviceAvailability, DeviceCapabilities, DeviceId, DeviceStatus,
    DiscoveredDevice, DiscoveryEvent, PlaybackTarget, PlaybackTargetAvailability,
    PlaybackTargetKind, TransportEndpoint, DISCOVERY_PROTOCOL_VERSION,
};
use synchrosonic::net::{IpAddress, SocketAddress};
use synchrosonic::diagnostics::DiagnosticLevel;
use synchrosonic::presentation::{
    find_receiver_device, format_playback_target_option, format_selected_playback_target,
    playback_target_id_from_selection, playback_target_transition_diagnostic,
    stream_target_transition_messages,
};
use synchrosonic::receiver::ReceiverServiceState;
use synchrosonic::state::{AppState, CastSessionState};
use synchrosonic::streaming::{
    LocalMirrorState, StreamSessionSnapshot, StreamSessionState, StreamTargetHealth,
    StreamTargetSnapshot,
};

fn living_room() -> DiscoveredDevice {
    DiscoveredDevice {
        id: DeviceId::new("receiver-1"),
        display_name: "Living Room".to_string(),
        app_version: "0.1.0".to_string(),
        protocol_version: DISCOVERY_PROTOCOL_VERSION,
        capabilities: DeviceCapabilities::receiver(),
        availability: DeviceAvailability::Available,
        status: DeviceStatus::Discovered,
        endpoint: Some(TransportEndpoint {
            device_id: DeviceId::new("receiver-1"),
            address: SocketAddress {
                ip: IpAddress::V4([127, 0, 0, 1]),
                port: 51_700,
            },
        }),
        service_fullname: "Living Room._synchrosonic._tcp.local.".to_string(),
        last_seen_unix_ms: 1,
    }
}

#[test]
fn new_state_starts_idle_with_diagnostic() {
    let state = AppState::new(AppConfig::default());

    assert_eq!(state.cast_session, CastSessionState::Idle);
    assert_eq!(state.capture_state, CaptureState::Idle);
    assert_eq!(state.receiver.state, ReceiverServiceState::Idle);
    assert_eq!(state.streaming.state, StreamSessionState::Idle);
    assert!(state.streaming.local_mirror.desired_enabled);
    assert_eq!(state.streaming.local_mirror.state, LocalMirrorState::Idle);
    assert_eq!(state.diagnostics.len(), 1);
    assert_eq!(state.devices.len(), 0);
    assert_eq!(state.discovered_devices.len(), 0);
    assert!(state.playback_targets.is_empty());
}

#[test]
fn state_selects_default_audio_source_from_backend_results() {
    let mut state = AppState::new(AppConfig::default());
    state.set_audio_sources(vec![
        AudioSource {
            id: "mic".to_string(),
            display_name: "Microphone".to_string(),
            kind: AudioSourceKind::Microphone,
            is_default: false,
        },
        AudioSource {
            id: "speaker".to_string(),
            display_name: "Speakers (monitor)".to_string(),
            kind: AudioSourceKind::Monitor,
            is_default: true,
        },
    ]);

    assert_eq!(state.selected_audio_source_id.as_deref(), Some("speaker"));
    assert_eq!(
        state.config.audio.preferred_source_id.as_deref(),
        Some("speaker")
    );
}

#[test]
fn local_playback_toggle_updates_config_and_streaming_snapshot() {
    let mut state = AppState::new(AppConfig::default());

    state.set_local_playback_enabled(false);
    assert!(!state.config.audio.local_playback_enabled);
    assert!(!state.streaming.local_mirror.desired_enabled);
    assert_eq!(
        state.streaming.local_mirror.state,
        LocalMirrorState::Disabled
    );

    state.set_local_playback_enabled(true);
    assert!(state.config.audio.local_playback_enabled);
    assert!(state.streaming.local_mirror.desired_enabled);
    assert_eq!(state.streaming.local_mirror.state, LocalMirrorState::Idle);
}

#[test]
fn playback_target_selection_updates_local_and_receiver_config() {
    let mut state = AppState::new(AppConfig::default());
    state.set_playback_targets(vec![PlaybackTarget {
        id: "bluez_output.11_22_33".to_string(),
        display_name: "Office Speaker".to_string(),
        is_default: false,
        kind: PlaybackTargetKind::Bluetooth,
        availability: PlaybackTargetAvailability::Available,
        bluetooth_address: Some("11:22:33".to_string()),
    }]);

    assert!(state.select_local_playback_target(Some("bluez_output.11_22_33".to_string())));
    assert!(state.select_receiver_playback_target(Some("bluez_output.11_22_33".to_string())));
    assert_eq!(
        state.config.audio.local_playback_target_id.as_deref(),
        Some("bluez_output.11_22_33")
    );
    assert_eq!(
        state.config.receiver.playback_target_id.as_deref(),
        Some("bluez_output.11_22_33")
    );
    assert!(state.local_playback_target_available());
    assert!(state.receiver_playback_target_available());
}

#[test]
fn unknown_playback_target_is_kept_but_reported_unavailable() {
    let mut state = AppState::new(AppConfig::default());

    assert!(state.select_local_playback_target(Some("missing".to_string())));
    assert_eq!(
        state.config.audio.local_playback_target_id.as_deref(),
        Some("missing")
    );
    assert!(!state.local_playback_target_available());
    assert!(state.select_local_playback_target(None));
    assert!(state.local_playback_target_available());
}

#[test]
fn discovery_events_update_app_state_device_views() {
    let mut state = AppState::new(AppConfig::default());
    let device = living_room();

    state.apply_discovery_event(DiscoveryEvent::DeviceDiscovered(device.clone()));
    assert_eq!(state.discovered_devices.len(), 1);
    assert_eq!(state.devices.len(), 1);
    assert_eq!(state.selected_receiver_device_id.as_ref(), Some(&device.id));

    state.apply_discovery_event(DiscoveryEvent::DeviceRemoved {
        device_id: device.id,
        service_fullname: device.service_fullname,
    });
    assert!(state.discovered_devices.is_empty());
    assert!(state.devices.is_empty());
    assert!(state.selected_receiver_device_id.is_none());
}

#[test]
fn repeated_discovery_of_one_device_keeps_one_entry() {
    let mut state = AppState::new(AppConfig::default());
    let device = living_room();
    let mut renamed = living_room();
    renamed.display_name = "Den".to_string();

    state.apply_discovery_event(DiscoveryEvent::DeviceDiscovered(device));
    state.apply_discovery_event(DiscoveryEvent::DeviceUpdated(renamed));

    assert_eq!(state.discovered_devices.len(), 1);
    assert_eq!(state.devices.len(), 1);
    assert_eq!(state.discovered_devices[0].display_name, "Den");
}

#[test]
fn stream_snapshot_can_be_seeded_with_target_receiver() {
    let snapshot = StreamSessionSnapshot::with_target(StreamTargetSnapshot::new(
        DeviceId::new("receiver-1"),
        "Receiver",
        SocketAddress {
            ip: IpAddress::V4([127, 0, 0, 1]),
            port: 51_700,
        },
    ));

    assert_eq!(snapshot.state, StreamSessionState::Idle);
    assert_eq!(snapshot.targets.len(), 1);
    assert_eq!(snapshot.targets[0].receiver_name, "Receiver");
    assert_eq!(snapshot.targets[0].endpoint.port, 51_700);
    assert_eq!(snapshot.local_mirror.state, LocalMirrorState::Disabled);
}

fn office_speaker() -> PlaybackTarget {
    PlaybackTarget {
        id: "bluez_output.11_22_33".to_string(),
        display_name: "Office Speaker".to_string(),
        is_default: true,
        kind: PlaybackTargetKind::Bluetooth,
        availability: PlaybackTargetAvailability::Available,
        bluetooth_address: Some("11:22:33".to_string()),
    }
}

#[test]
fn playback_targets_are_described_for_selectors_and_status() {
    let mut state = AppState::new(AppConfig::default());
    state.set_playback_targets(vec![office_speaker()]);

    assert_eq!(
        format_playback_target_option(&office_speaker()),
        "Bluetooth: Office Speaker [default]"
    );
    assert_eq!(
        format_selected_playback_target(&state, Some("bluez_output.11_22_33")),
        "Bluetooth output Office Speaker (11:22:33)"
    );
    assert_eq!(
        format_selected_playback_target(&state, Some("gone")),
        "output gone (currently unavailable)"
    );
    assert_eq!(format_selected_playback_target(&state, None), "System default output");
    assert_eq!(playback_target_id_from_selection("__system_default_playback__"), None);
    assert_eq!(
        playback_target_id_from_selection("sink-1").as_deref(),
        Some("sink-1")
    );

    let lost = playback_target_transition_diagnostic(&state, "receiver", "Receiver output", Some("gone"), false);
    assert_eq!(lost.level, DiagnosticLevel::Warning);
    assert_eq!(lost.component, "receiver");
    assert_eq!(
        lost.message,
        "Receiver output is currently unavailable: output gone (currently unavailable)."
    );
    let back = playback_target_transition_diagnostic(&state, "streaming", "Local mirror output", None, true);
    assert_eq!(back.level, DiagnosticLevel::Info);
    assert_eq!(back.message, "Local mirror output is available: System default output.");
}

#[test]
fn receiver_devices_are_found_by_id_when_they_receive() {
    let mut state = AppState::new(AppConfig::default());
    state.apply_discovery_event(DiscoveryEvent::DeviceDiscovered(living_room()));

    let found = find_receiver_device(&state, "receiver-1").expect("receiver should be found");
    assert_eq!(found.display_name, "Living Room");
    assert!(find_receiver_device(&state, "other").is_none());
}

fn target(id: &str, name: &str) -> StreamTargetSnapshot {
    StreamTargetSnapshot::new(
        DeviceId::new(id),
        name,
        SocketAddress {
            ip: IpAddress::V4([192, 168, 1, 9]),
            port: 51_700,
        },
    )
}

#[test]
fn stream_target_transitions_report_joins_changes_errors_and_removals() {
    let a = target("a", "Alpha");
    let b = target("b", "Beta");
    let mut a2 = a.clone();
    a2.state = StreamSessionState::Streaming;
    a2.health = StreamTargetHealth::Healthy;
    let mut a3 = a2.clone();
    a3.last_error = Some("link lost".to_string());
    let c = target("c", "Gamma");

    let joined = stream_target_transition_messages(&[], &[a.clone(), b.clone()]);
    let texts: Vec<&str> = joined.iter().map(|event| event.message.as_str()).collect();
    assert_eq!(
        texts,
        vec![
            "Target Alpha joined the cast collection with state Idle.",
            "Target Beta joined the cast collection with state Idle.",
        ]
    );
    assert!(joined.iter().all(|event| event.component == "streaming"));

    let changed = stream_target_transition_messages(&[a.clone(), b.clone()], &[a2.clone(), c]);
    let texts: Vec<&str> = changed.iter().map(|event| event.message.as_str()).collect();
    assert_eq!(
        texts,
        vec![
            "Target Alpha is now Streaming with Healthy health.",
            "Target Gamma joined the cast collection with state Idle.",
            "Target Beta was removed from the cast collection.",
        ]
    );

    let failed = stream_target_transition_messages(&[a2.clone()], &[a3.clone()]);
    assert_eq!(failed.len(), 1);
    assert_eq!(failed[0].level, DiagnosticLevel::Warning);
    assert_eq!(failed[0].message, "Target Alpha reported: link lost");

    assert!(stream_target_transition_messages(&[a3.clone()], &[a3]).is_empty());
}
