use synchrosonic::config::AppConfig;
use synchrosonic::models::{
    DeviceAvailability, DeviceCapabilities, DeviceId, DeviceStatus, DiscoveredDevice, PlaybackTarget,
    PlaybackTargetAvailability, PlaybackTargetKind, TransportEndpoint, DISCOVERY_PROTOCOL_VERSION,
};
use synchrosonic::net::{IpAddress, SocketAddress};
use synchrosonic::state::AppState;
use synchrosonic::status::{
    format_dashboard_status, format_discovery_devices, format_receiver_status, format_stream_target_statuses,
    format_streaming_status,
};
use synchrosonic::streaming::{StreamSessionState, StreamTargetHealth, StreamTargetSnapshot};

fn kitchen(endpoint: bool) -> DiscoveredDevice {
    DiscoveredDevice {
        id: DeviceId::new("kitchen-1"),
        display_name: "Kitchen".to_string(),
        app_version: "0.2.0".to_string(),
        protocol_version: DISCOVERY_PROTOCOL_VERSION,
        capabilities: DeviceCapabilities::receiver(),
        availability: DeviceAvailability::Busy,
        status: DeviceStatus::Discovered,
        endpoint: if endpoint {
            Some(TransportEndpoint {
                device_id: DeviceId::new("kitchen-1"),
                address: SocketAddress { ip: IpAddress::V4([192, 168, 1, 20]), port: 51_700 },
            })
        } else {
            None
        },
        service_fullname: "Kitchen._synchrosonic._tcp.local.".to_string(),
        last_seen_unix_ms: 5,
    }
}

#[test]
fn discovery_devices_text_says_when_nothing_was_found() {
    let state = AppState::new(AppConfig::default());
    assert_eq!(format_discovery_devices(&state), "No SynchroSonic devices discovered yet.");
}

#[test]
fn discovery_devices_text_lists_each_device_block() {
    let mut state = AppState::new(AppConfig::default());
    state.discovered_devices = vec![kitchen(true), kitchen(false)];
    let block_with_endpoint = "Kitchen\n  id: kitchen-1\n  version: 0.2.0\n  availability: Busy\n  capabilities: sender=false, receiver=true, local_output=true, bluetooth=false\n  endpoint: 192.168.1.20:51700";
    let block_without_endpoint = "Kitchen\n  id: kitchen-1\n  version: 0.2.0\n  availability: Busy\n  capabilities: sender=false, receiver=true, local_output=true, bluetooth=false\n  endpoint: unresolved";
    assert_eq!(
        format_discovery_devices(&state),
        format!("{block_with_endpoint}\n\n{block_without_endpoint}")
    );
}

fn office_target() -> StreamTargetSnapshot {
    let mut target = StreamTargetSnapshot::new(
        DeviceId::new("office-1"),
        "Office",
        SocketAddress { ip: IpAddress::V4([10, 0, 0, 7]), port: 51_700 },
    );
    target.state = StreamSessionState::Streaming;
    target.health = StreamTargetHealth::Healthy;
    target.session_id = Some("session-9".to_string());
    target.metrics.latency_estimate_ms = Some(42);
    target.network_buffer.queued_packets = 3;
    target.network_buffer.max_packets = 12;
    target.network_buffer.dropped_packets = 1;
    target.metrics.estimated_bitrate_bps = 1_536_000;
    target.metrics.bytes_sent = 4096;
    target
}

#[test]
fn stream_target_statuses_render_one_line_per_target() {
    assert_eq!(format_stream_target_statuses(&[]), "none");
    let line = format_stream_target_statuses(&[office_target()]);
    assert_eq!(
        line,
        "- Office [office-1] Streaming Healthy endpoint=10.0.0.7:51700 session=session-9 latency=Some(42)ms buffer=25% (3 / 12 packets, dropped=1) bitrate=1536000bps bytes=4096 last_error=none"
    );
    let mut second = office_target();
    second.session_id = None;
    second.metrics.latency_estimate_ms = None;
    second.last_error = Some("refused".to_string());
    let text = format_stream_target_statuses(&[office_target(), second]);
    assert!(text.ends_with(
        "\n- Office [office-1] Streaming Healthy endpoint=10.0.0.7:51700 session=not negotiated latency=Nonems buffer=25% (3 / 12 packets, dropped=1) bitrate=1536000bps bytes=4096 last_error=refused"
    ));
}

#[test]
fn receiver_status_reports_identity_connection_and_flow() {
    let state = AppState::new(AppConfig::default());
    let text = format_receiver_status(&state);
    assert!(text.starts_with(
        "State: Idle\nAdvertised name: SynchroSonic Receiver\nListen address: 0.0.0.0:51700\nLatency preset: Balanced\nPlayback backend: not configured\nPlayback target: System default output (available=true)\nConnection: none\nBuffer: 0 packet(s), 0 frame(s), 0 ms queued, target "
    ));
    assert!(text.contains("\nSync: state=Idle expected="));
    assert!(text.contains(" ms buffer delta=0 ms schedule error=0 ms late drops=0 resets=0 last sender ts=none last sender unix=none\n"));
    assert!(text.contains("\nMetrics: packets in=0 frames in=0 bytes in=0 packets out=0 frames out=0 bytes out=0 underruns=0 overruns=0 reconnect attempts=0\nLast error: none\n"));
    assert!(text.ends_with("KeepAlive, and Disconnected events into the runtime."));
}

#[test]
fn receiver_status_shows_negative_drift_with_a_sign() {
    let mut state = AppState::new(AppConfig::default());
    state.receiver.sync.buffer_delta_ms = -15;
    state.receiver.sync.schedule_error_ms = 7;
    let text = format_receiver_status(&state);
    assert!(text.contains(" ms buffer delta=-15 ms schedule error=7 ms late drops=0"));
}

#[test]
fn streaming_status_reports_targets_and_local_mirror() {
    let mut state = AppState::new(AppConfig::default());
    state.streaming.targets.push(office_target());
    let text = format_streaming_status(&state);
    assert!(text.starts_with(
        "State: Idle\nSelected receiver id: none\nSender session id: not started\nStream: not negotiated\nActive target count: 1\nTargets:\n- Office [office-1] Streaming Healthy endpoint=10.0.0.7:51700"
    ));
    assert!(text.contains(
        "\nLocal mirror output: System default output (available=true)\nLocal mirror: desired=true state=Idle backend=not configured target=System default output buffer=0% (0 / 0 packets, dropped=0) played packets=0 bytes=0 error=none\n"
    ));
    assert!(text.contains(
        "\nAggregate metrics: packets sent=0 packets received=0 bytes sent=0 bytes received=0 bitrate=0bps latency estimate=Nonems packet gaps=0 keepalives sent=0 keepalives received=0\nLast error: none\nSplit-stream path: "
    ));
}

#[test]
fn dashboard_status_counts_targets_and_bluetooth_outputs() {
    let mut state = AppState::new(AppConfig::default());
    state.streaming.targets.push(office_target());
    let mut degraded = office_target();
    degraded.health = StreamTargetHealth::Degraded;
    state.streaming.targets.push(degraded);
    state.playback_targets = vec![
        PlaybackTarget {
            id: "bluez_output.headphones".to_string(),
            display_name: "Headphones".to_string(),
            kind: PlaybackTargetKind::Bluetooth,
            is_default: false,
            availability: PlaybackTargetAvailability::Available,
            bluetooth_address: Some("AA:BB".to_string()),
        },
        PlaybackTarget {
            id: "alsa_output.speakers".to_string(),
            display_name: "Speakers".to_string(),
            kind: PlaybackTargetKind::Standard,
            is_default: true,
            availability: PlaybackTargetAvailability::Available,
            bluetooth_address: None,
        },
    ];
    let text = format_dashboard_status(&state, "pipewire", "Sources: 2");
    assert!(text.starts_with(
        "Session: Idle\nCapture: Idle\nStreaming: Idle\nSelected receiver: none\nTarget sessions: total=2 healthy=1\nPlayback outputs: total=2 bluetooth=1\nLocal mirror output: System default output (available=true)\nReceiver output: System default output (available=true)\nLocal mirror: desired=true state=Idle buffer=0% (0 / 0 packets, dropped=0)"
    ));
    assert!(text.contains("\nSender aggregate metrics: packets sent=0 bytes sent=0 bitrate=0bps latency=Nonems gaps=0 keepalives=0/0\nReceiver: Idle\nReceiver buffer: 0% (0 / "));
    assert!(text.ends_with(
        "\nReceiver metrics: packets in=0 played=0 underruns=0 overruns=0 reconnects=0\nAudio backend: pipewire\nSources: 2\nDefault stream port: 51700\nLocal playback default: enabled"
    ));
}
