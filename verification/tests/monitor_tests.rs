use synchrosonic::config::AppConfig;
use synchrosonic::diagnostics::{DiagnosticEvent, DiagnosticLevel};
use synchrosonic::models::{DeviceId, PlaybackTarget, PlaybackTargetAvailability, PlaybackTargetKind};
use synchrosonic::monitor::{
    enumeration_failure, local_retry_event, observe_playback_targets, observe_receiver_snapshot,
    observe_streaming_snapshot,
};
use synchrosonic::net::{IpAddress, SocketAddress};
use synchrosonic::receiver::{ReceiverServiceState, ReceiverSyncState};
use synchrosonic::state::{AppState, CastSessionState};
use synchrosonic::streaming::{LocalMirrorState, StreamSessionSnapshot, StreamSessionState, StreamTargetSnapshot};

fn added_messages(state: &AppState, from: usize) -> Vec<(DiagnosticLevel, String, String)> {
    state.diagnostics[from..]
        .iter()
        .map(|event| (event.level, event.component.clone(), event.message.clone()))
        .collect()
}

fn headphones() -> PlaybackTarget {
    PlaybackTarget {
        id: "bluez_output.headphones".to_string(),
        display_name: "Headphones".to_string(),
        is_default: false,
        kind: PlaybackTargetKind::Bluetooth,
        availability: PlaybackTargetAvailability::Available,
        bluetooth_address: Some("AA:BB".to_string()),
    }
}

#[test]
fn receiver_poll_records_each_change_in_order() {
    let mut state = AppState::new(AppConfig::default());
    let from = state.diagnostics.len();
    let mut snapshot = state.receiver.clone();
    snapshot.state = ReceiverServiceState::Listening;
    snapshot.sync.state = ReceiverSyncState::Late;
    snapshot.sync.buffer_delta_ms = -12;
    snapshot.sync.schedule_error_ms = 3;
    snapshot.sync.late_packet_drops = 2;
    snapshot.last_error = Some("boom".to_string());
    observe_receiver_snapshot(&mut state, snapshot, &Some("listener down".to_string()));

    assert_eq!(state.receiver.state, ReceiverServiceState::Listening);
    assert_eq!(
        added_messages(&state, from),
        vec![
            (DiagnosticLevel::Info, "receiver".to_string(), "Receiver state is now Listening".to_string()),
            (
                DiagnosticLevel::Warning,
                "receiver-sync".to_string(),
                "Receiver sync is now Late (buffer delta -12 ms, schedule error 3 ms).".to_string()
            ),
            (
                DiagnosticLevel::Warning,
                "receiver-sync".to_string(),
                "Receiver dropped 2 stale packet(s) to recover sync.".to_string()
            ),
            (DiagnosticLevel::Warning, "receiver".to_string(), "Receiver runtime reported: boom".to_string()),
            (
                DiagnosticLevel::Warning,
                "receiver-transport".to_string(),
                "Receiver TCP listener reported: listener down".to_string()
            ),
        ]
    );
}

#[test]
fn receiver_poll_reports_a_locked_sync_with_its_latency() {
    let mut state = AppState::new(AppConfig::default());
    let from = state.diagnostics.len();
    let mut snapshot = state.receiver.clone();
    snapshot.sync.state = ReceiverSyncState::Locked;
    snapshot.sync.expected_output_latency_ms = 90;
    snapshot.sync.queued_audio_ms = 60;
    observe_receiver_snapshot(&mut state, snapshot, &None);
    assert_eq!(
        added_messages(&state, from),
        vec![(
            DiagnosticLevel::Info,
            "receiver-sync".to_string(),
            "Receiver sync is now Locked (expected 90 ms, queued 60 ms).".to_string()
        )]
    );
}

#[test]
fn receiver_poll_skips_the_listener_error_when_it_is_the_newest_message() {
    let mut state = AppState::new(AppConfig::default());
    state.diagnostics.push(DiagnosticEvent::info("receiver-transport", "listener down"));
    let from = state.diagnostics.len();
    let snapshot = state.receiver.clone();
    observe_receiver_snapshot(&mut state, snapshot, &Some("listener down".to_string()));
    assert!(added_messages(&state, from).is_empty());
}

#[test]
fn streaming_poll_records_session_mirror_and_target_changes() {
    let mut state = AppState::new(AppConfig::default());
    let from = state.diagnostics.len();
    let mut snapshot = StreamSessionSnapshot::default();
    snapshot.state = StreamSessionState::Streaming;
    snapshot.last_error = Some("late packet".to_string());
    snapshot.local_mirror.state = LocalMirrorState::Mirroring;
    let mut target = StreamTargetSnapshot::new(
        DeviceId::new("office-1"),
        "Office",
        SocketAddress { ip: IpAddress::V4([10, 0, 0, 7]), port: 51_700 },
    );
    target.state = StreamSessionState::Streaming;
    snapshot.targets.push(target);
    observe_streaming_snapshot(&mut state, snapshot);

    assert_eq!(state.cast_session, CastSessionState::Casting);
    assert_eq!(
        added_messages(&state, from),
        vec![
            (DiagnosticLevel::Info, "streaming".to_string(), "Sender stream state is now Streaming".to_string()),
            (DiagnosticLevel::Warning, "streaming".to_string(), "Sender stream reported: late packet".to_string()),
            (DiagnosticLevel::Info, "streaming".to_string(), "Local playback mirror is now Mirroring".to_string()),
            (
                DiagnosticLevel::Info,
                "streaming".to_string(),
                "Target Office joined the cast collection with state Streaming.".to_string()
            ),
        ]
    );
}

#[test]
fn output_poll_retries_the_mirror_when_its_output_returns() {
    let mut config = AppConfig::default();
    config.audio.local_playback_target_id = Some("bluez_output.headphones".to_string());
    let mut state = AppState::new(config);
    state.streaming.state = StreamSessionState::Streaming;
    state.streaming.local_mirror.desired_enabled = true;
    state.streaming.local_mirror.state = LocalMirrorState::Error;

    let update = observe_playback_targets(&mut state, vec![headphones()]);
    assert!(update.refresh_selectors);
    assert_eq!(update.local_retry_target.as_deref(), Some("bluez_output.headphones"));
    let transition = update.local_transition.expect("the local output came back");
    assert_eq!(transition.level, DiagnosticLevel::Info);
    assert_eq!(transition.component, "streaming");
    assert_eq!(transition.message, "Local mirror output is available: Bluetooth output Headphones (AA:BB).");
    assert!(update.receiver_transition.is_none());
    assert_eq!(state.playback_targets.len(), 1);

    let again = observe_playback_targets(&mut state, vec![headphones()]);
    assert!(!again.refresh_selectors);
    assert!(again.local_retry_target.is_none());
    assert!(again.local_transition.is_none());

    let gone = observe_playback_targets(&mut state, Vec::new());
    assert!(gone.refresh_selectors);
    let warning = gone.local_transition.expect("the local output went away");
    assert_eq!(warning.level, DiagnosticLevel::Warning);
    assert_eq!(
        warning.message,
        "Local mirror output is currently unavailable: output bluez_output.headphones (currently unavailable)."
    );
}

#[test]
fn retry_events_name_the_output_or_the_failure() {
    let mut config = AppConfig::default();
    config.audio.local_playback_target_id = Some("bluez_output.headphones".to_string());
    let mut state = AppState::new(config);
    state.playback_targets = vec![headphones()];
    let ok = local_retry_event(&state, "bluez_output.headphones", Ok(()));
    assert_eq!(ok.level, DiagnosticLevel::Info);
    assert_eq!(
        ok.message,
        "Local mirror output bluez_output.headphones is available again; retrying playback on Bluetooth output Headphones (AA:BB)."
    );
    let failed = local_retry_event(&state, "bluez_output.headphones", Err("sink busy".to_string()));
    assert_eq!(failed.level, DiagnosticLevel::Warning);
    assert_eq!(failed.message, "Local mirror output became available again, but restart failed: sink busy");
}

#[test]
fn enumeration_failures_are_recorded_once_per_message() {
    let (event, message) = enumeration_failure(&None, "pw-dump missing");
    assert_eq!(message, "PipeWire playback target enumeration failed: pw-dump missing");
    let event = event.expect("a first failure is recorded");
    assert_eq!(event.component, "audio");
    assert_eq!(event.level, DiagnosticLevel::Warning);
    let (repeat, _) = enumeration_failure(&Some(message.clone()), "pw-dump missing");
    assert!(repeat.is_none());
    let (other, _) = enumeration_failure(&Some(message), "timeout");
    assert!(other.is_some());
}

#[test]
fn observing_the_same_snapshots_again_records_nothing() {
    let mut state = AppState::new(AppConfig::default());
    let mut receiver = state.receiver.clone();
    receiver.state = ReceiverServiceState::Playing;
    receiver.last_error = Some("glitch".to_string());
    observe_receiver_snapshot(&mut state, receiver.clone(), &None);
    let count = state.diagnostics.len();
    observe_receiver_snapshot(&mut state, receiver, &None);
    assert_eq!(state.diagnostics.len(), count);

    let mut cast = StreamSessionSnapshot::default();
    cast.state = StreamSessionState::Streaming;
    cast.targets.push(StreamTargetSnapshot::new(
        DeviceId::new("office-1"),
        "Office",
        SocketAddress { ip: IpAddress::V4([10, 0, 0, 7]), port: 51_700 },
    ));
    observe_streaming_snapshot(&mut state, cast.clone());
    let count = state.diagnostics.len();
    observe_streaming_snapshot(&mut state, cast);
    assert_eq!(state.diagnostics.len(), count);
}
