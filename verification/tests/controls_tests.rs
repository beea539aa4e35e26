use synchrosonic::config::AppConfig;
use synchrosonic::controls::{
    all_targets_stopped, apply_discovery_start, apply_output_listing, apply_source_listing, cast_target_started,
    choose_cast_target, discovery_poll_failed, local_target_applied, local_target_change_needed, mirror_toggled,
    playback_target_selector, receiver_selector, receiver_start_reported, receiver_stopped,
    receiver_target_applied, receiver_target_change_needed, removal_target, target_removed, DiscoveryPollStep,
    ReceiverStart, SelectorChoice,
};
use synchrosonic::diagnostics::DiagnosticLevel;
use synchrosonic::models::{
    AudioSource, AudioSourceKind, DeviceAvailability, DeviceCapabilities, DeviceId, DeviceStatus, DiscoveredDevice,
    PlaybackTarget, PlaybackTargetAvailability, PlaybackTargetKind, TransportEndpoint, DISCOVERY_PROTOCOL_VERSION,
};
use synchrosonic::net::{IpAddress, SocketAddress};
use synchrosonic::presentation::DEFAULT_PLAYBACK_TARGET_ID;
use synchrosonic::receiver::ReceiverServiceState;
use synchrosonic::state::{AppState, CastSessionState};
use synchrosonic::streaming::{StreamSessionSnapshot, StreamSessionState, StreamTargetSnapshot};

fn last_entry(state: &AppState) -> (DiagnosticLevel, String, String) {
    let event = state.diagnostics.last().expect("an event was recorded");
    (event.level, event.component.clone(), event.message.clone())
}

fn speakers() -> PlaybackTarget {
    PlaybackTarget {
        id: "alsa_output.speakers".to_string(),
        display_name: "Speakers".to_string(),
        is_default: true,
        kind: PlaybackTargetKind::Standard,
        availability: PlaybackTargetAvailability::Available,
        bluetooth_address: None,
    }
}

fn headphones() -> PlaybackTarget {
    PlaybackTarget {
        id: "bluez_output.headphones".to_string(),
        display_name: "Headphones".to_string(),
        is_default: false,
        kind: PlaybackTargetKind::Bluetooth,
        availability: PlaybackTargetAvailability::Available,
        bluetooth_address: None,
    }
}

fn device(id: &str, name: &str, receiver: bool, endpoint: bool) -> DiscoveredDevice {
    DiscoveredDevice {
        id: DeviceId::new(id),
        display_name: name.to_string(),
        app_version: "0.1.0".to_string(),
        protocol_version: DISCOVERY_PROTOCOL_VERSION,
        capabilities: if receiver { DeviceCapabilities::receiver() } else { DeviceCapabilities::sender() },
        availability: DeviceAvailability::Available,
        status: DeviceStatus::Discovered,
        endpoint: if endpoint {
            Some(TransportEndpoint {
                device_id: DeviceId::new(id),
                address: SocketAddress { ip: IpAddress::V4([192, 168, 1, 9]), port: 51_700 },
            })
        } else {
            None
        },
        service_fullname: format!("{name}._synchrosonic._tcp.local."),
        last_seen_unix_ms: 1,
    }
}

#[test]
fn output_selector_lists_default_outputs_and_a_missing_choice() {
    let mut state = AppState::new(AppConfig::default());
    state.playback_targets = vec![speakers(), headphones()];
    let (entries, active) = playback_target_selector(&state, Some("usb_output.gone"), "Local mirror output: system default");
    assert_eq!(
        entries,
        vec![
            (DEFAULT_PLAYBACK_TARGET_ID.to_string(), "Local mirror output: system default".to_string()),
            ("alsa_output.speakers".to_string(), "Output: Speakers [default]".to_string()),
            ("bluez_output.headphones".to_string(), "Bluetooth: Headphones".to_string()),
            ("usb_output.gone".to_string(), "usb_output.gone (currently unavailable)".to_string()),
        ]
    );
    assert_eq!(active, "usb_output.gone");
    let (entries, active) = playback_target_selector(&state, None, "Receiver output: system default");
    assert_eq!(entries.len(), 3);
    assert_eq!(active, DEFAULT_PLAYBACK_TARGET_ID);
}

#[test]
fn receiver_selector_lists_receivers_and_picks_the_selection() {
    let mut state = AppState::new(AppConfig::default());
    state.discovered_devices = vec![
        device("a", "Attic", true, true),
        device("b", "Laptop", false, true),
        device("c", "Cellar", true, false),
    ];
    let (entries, choice) = receiver_selector(&state);
    assert_eq!(
        entries,
        vec![
            ("a".to_string(), "Attic (192.168.1.9:51700)".to_string()),
            ("c".to_string(), "Cellar (unresolved)".to_string()),
        ]
    );
    assert_eq!(choice, SelectorChoice::First);
    state.selected_receiver_device_id = Some(DeviceId::new("c"));
    assert_eq!(receiver_selector(&state).1, SelectorChoice::Id("c".to_string()));
    let empty = AppState::new(AppConfig::default());
    assert_eq!(receiver_selector(&empty).1, SelectorChoice::Nothing);
}

#[test]
fn listings_produce_summaries_or_warnings() {
    let mut state = AppState::new(AppConfig::default());
    let sources = vec![
        AudioSource {
            id: "mic".to_string(),
            display_name: "Microphone".to_string(),
            kind: AudioSourceKind::Microphone,
            is_default: true,
        },
        AudioSource {
            id: "monitor".to_string(),
            display_name: "Speakers Monitor".to_string(),
            kind: AudioSourceKind::Monitor,
            is_default: true,
        },
    ];
    assert_eq!(
        apply_source_listing(&mut state, Ok(sources)),
        "2 capture source(s) available. Selected: Speakers Monitor"
    );
    assert_eq!(state.audio_sources.len(), 2);
    assert_eq!(apply_source_listing(&mut state, Ok(Vec::new())), "0 capture source(s) available. Selected: No source selected");
    let failure = apply_source_listing(&mut state, Err("pw-dump missing".to_string()));
    assert_eq!(failure, "PipeWire source enumeration failed: pw-dump missing");
    assert_eq!(last_entry(&state), (DiagnosticLevel::Warning, "audio".to_string(), failure));

    assert_eq!(
        apply_output_listing(&mut state, Ok(vec![headphones(), speakers()])),
        "2 playback output(s) available, 1 Bluetooth. Default target: Speakers"
    );
    assert_eq!(
        apply_output_listing(&mut state, Ok(vec![headphones()])),
        "1 playback output(s) available, 1 Bluetooth. Default target: System default output"
    );
    let failure = apply_output_listing(&mut state, Err("timeout".to_string()));
    assert_eq!(failure, "PipeWire playback target enumeration failed: timeout");

    assert_eq!(
        apply_discovery_start(&mut state, "_synchrosonic._tcp.local.", Ok(())),
        "mDNS discovery active on _synchrosonic._tcp.local."
    );
    let failure = apply_discovery_start(&mut state, "_synchrosonic._tcp.local.", Err("no interface".to_string()));
    assert_eq!(failure, "mDNS discovery failed to start: no interface");
    assert_eq!(last_entry(&state), (DiagnosticLevel::Warning, "discovery".to_string(), failure));
}

#[test]
fn mirror_switch_reports_its_scope_or_failure() {
    let mut state = AppState::new(AppConfig::default());
    mirror_toggled(&mut state, false, StreamSessionSnapshot::default(), Ok(()));
    assert!(!state.config.audio.local_playback_enabled);
    assert_eq!(
        last_entry(&state),
        (DiagnosticLevel::Info, "streaming".to_string(), "Local playback mirror disabled for the next cast session.".to_string())
    );
    let mut casting = StreamSessionSnapshot::default();
    casting.state = StreamSessionState::Streaming;
    mirror_toggled(&mut state, true, casting, Ok(()));
    assert_eq!(state.cast_session, CastSessionState::Casting);
    assert_eq!(last_entry(&state).2, "Local playback mirror enabled for the active cast session.");
    mirror_toggled(&mut state, true, StreamSessionSnapshot::default(), Err("sink busy".to_string()));
    assert_eq!(
        last_entry(&state),
        (DiagnosticLevel::Error, "streaming".to_string(), "Failed to update local playback mirror: sink busy".to_string())
    );
}

#[test]
fn local_output_choice_is_saved_and_reported() {
    let mut state = AppState::new(AppConfig::default());
    state.playback_targets = vec![speakers()];
    let choice = Some("alsa_output.speakers".to_string());
    assert!(local_target_change_needed(&state, &choice));
    local_target_applied(&mut state, choice.clone(), StreamSessionSnapshot::default(), Ok(()));
    assert_eq!(state.config.audio.local_playback_target_id, choice);
    assert!(!local_target_change_needed(&state, &choice));
    assert_eq!(last_entry(&state).2, "Local mirror output target set to output Speakers.");
    local_target_applied(&mut state, None, StreamSessionSnapshot::default(), Err("busy".to_string()));
    assert_eq!(
        last_entry(&state),
        (DiagnosticLevel::Warning, "streaming".to_string(), "Failed to update local mirror output target: busy".to_string())
    );
}

#[test]
fn casting_needs_a_selected_receiver_with_an_endpoint() {
    let mut state = AppState::new(AppConfig::default());
    state.discovered_devices = vec![device("a", "Attic", true, true), device("c", "Cellar", true, false)];
    assert!(choose_cast_target(&mut state, None).is_none());
    assert_eq!(last_entry(&state).2, "No receiver with a resolved transport endpoint is currently selected.");
    assert!(choose_cast_target(&mut state, Some("c")).is_none());
    assert_eq!(last_entry(&state).2, "Selected receiver does not expose a transport endpoint yet.");
    let count = state.diagnostics.len();
    let (chosen, endpoint) = choose_cast_target(&mut state, Some("a")).expect("the attic can receive");
    assert_eq!(chosen.display_name, "Attic");
    assert_eq!(endpoint.address.port, 51_700);
    assert_eq!(state.diagnostics.len(), count);

    let mut snapshot = StreamSessionSnapshot::default();
    snapshot.state = StreamSessionState::Connecting;
    snapshot.targets.push(StreamTargetSnapshot::new(DeviceId::new("a"), "Attic Speaker", endpoint.address));
    cast_target_started(&mut state, &chosen, Ok(snapshot));
    assert_eq!(state.cast_session, CastSessionState::Preparing);
    assert_eq!(
        last_entry(&state).2,
        "Queued receiver target Attic Speaker at 192.168.1.9:51700 with local mirror disabled."
    );
    cast_target_started(&mut state, &chosen, Err("refused".to_string()));
    assert_eq!(
        last_entry(&state),
        (DiagnosticLevel::Error, "streaming".to_string(), "Failed to start stream: refused".to_string())
    );
}

#[test]
fn removing_and_stopping_targets_report_the_outcome() {
    let mut state = AppState::new(AppConfig::default());
    assert!(removal_target(&mut state).is_none());
    assert_eq!(last_entry(&state).2, "Select a receiver target before trying to remove it from the cast.");
    state.selected_receiver_device_id = Some(DeviceId::new("a"));
    let id = removal_target(&mut state).expect("a receiver is selected");
    target_removed(&mut state, &id, Ok(StreamSessionSnapshot::default()));
    assert_eq!(last_entry(&state).2, "Removed receiver target a from the active cast.");
    target_removed(&mut state, &id, Err("gone".to_string()));
    assert_eq!(last_entry(&state).2, "Failed to stop stream: gone");
    all_targets_stopped(&mut state, Ok(StreamSessionSnapshot::default()));
    assert_eq!(
        last_entry(&state),
        (
            DiagnosticLevel::Info,
            "streaming".to_string(),
            "Stopped the sender session manager and released all target transports.".to_string()
        )
    );
    all_targets_stopped(&mut state, Err("stuck".to_string()));
    assert_eq!(last_entry(&state).2, "Failed to stop all sender targets: stuck");
}

#[test]
fn receiver_controls_report_start_stop_and_output_changes() {
    let mut state = AppState::new(AppConfig::default());
    state.playback_targets = vec![speakers()];
    let choice = Some("alsa_output.speakers".to_string());
    assert!(receiver_target_change_needed(&state, &choice));
    let mut playing = state.receiver.clone();
    playing.state = ReceiverServiceState::Playing;
    receiver_target_applied(&mut state, choice.clone(), playing, Ok(()));
    assert_eq!(state.config.receiver.playback_target_id, choice);
    assert_eq!(
        last_entry(&state).2,
        "Receiver output target set to output Speakers for the active receiver playback."
    );

    receiver_start_reported(&mut state, ReceiverStart::RuntimeFailed("no sink".to_string()));
    assert_eq!(
        last_entry(&state),
        (DiagnosticLevel::Error, "receiver".to_string(), "Failed to start receiver mode: no sink".to_string())
    );
    receiver_start_reported(&mut state, ReceiverStart::ListenerFailed("port in use".to_string()));
    assert_eq!(last_entry(&state).2, "Receiver transport listener failed to start: port in use");
    let mut listening = state.receiver.clone();
    listening.state = ReceiverServiceState::Listening;
    receiver_start_reported(&mut state, ReceiverStart::Started(listening));
    assert_eq!(state.receiver.state, ReceiverServiceState::Listening);
    assert_eq!(
        last_entry(&state).2,
        "Receiver mode listening on 0.0.0.0:51700 with Balanced latency preset and TCP transport ready."
    );

    let count = state.diagnostics.len();
    let mut idle = state.receiver.clone();
    idle.state = ReceiverServiceState::Idle;
    receiver_stopped(&mut state, Err("already closed".to_string()), Ok(idle));
    assert_eq!(state.diagnostics.len(), count + 2);
    assert_eq!(state.diagnostics[count].message, "Receiver transport stop reported: already closed");
    assert_eq!(
        last_entry(&state).2,
        "Receiver mode stopped and playback/transport resources were released."
    );
    receiver_stopped(&mut state, Ok(()), Err("worker panicked".to_string()));
    assert_eq!(last_entry(&state).2, "Failed to stop receiver mode: worker panicked");
}

#[test]
fn discovery_poll_failures_are_warnings() {
    let mut state = AppState::new(AppConfig::default());
    discovery_poll_failed(&mut state, DiscoveryPollStep::Event, "channel closed");
    assert_eq!(
        last_entry(&state),
        (DiagnosticLevel::Warning, "discovery".to_string(), "mDNS discovery event error: channel closed".to_string())
    );
    discovery_poll_failed(&mut state, DiscoveryPollStep::Prune, "poisoned");
    assert_eq!(last_entry(&state).2, "mDNS stale pruning failed: poisoned");
}

#[test]
fn the_active_output_entry_is_always_listed() {
    let mut state = AppState::new(AppConfig::default());
    state.playback_targets = vec![speakers()];
    for selected in [None, Some("alsa_output.speakers"), Some("gone")] {
        let (entries, active) = playback_target_selector(&state, selected, "default");
        assert!(entries.iter().any(|(id, _)| *id == active));
    }
}
