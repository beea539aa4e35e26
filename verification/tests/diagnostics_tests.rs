use synchrosonic::browser_join::{
    http_response_head, install_link, is_browser_join_host_candidate,
    is_browser_join_host_override, join_host, join_route, join_token_from_bytes, join_url,
    mark_listening, mark_stopped, note_request, parse_request_line, route_body, route_content_type,
    route_status, token_expiry, BrowserJoinSnapshot, BrowserJoinState, JoinRoute,
};
use synchrosonic::config::AppConfig;
use synchrosonic::diagnostics::{DiagnosticEvent, DiagnosticLevel};
use synchrosonic::health::{
    note_poll, note_ui_list_render, note_ui_refresh, refresh_from_state, set_receiver_listener,
    snapshot_persist_due, PollKind, PollObservation, RuntimeStateView, SubsystemSnapshot,
};
use synchrosonic::models::{
    DeviceAvailability, DeviceCapabilities, DeviceId, DeviceStatus, DiscoveredDevice,
    DiscoveryEvent, TransportEndpoint, DISCOVERY_PROTOCOL_VERSION,
};
use synchrosonic::net::{ip_address_text, socket_address_text, IpAddress, SocketAddress};
use synchrosonic::report::{build_compact_diagnostics_report, format_diagnostic_event, ReportContext};
use synchrosonic::state::AppState;

fn event(timestamp: u64, level: DiagnosticLevel, component: &str, message: &str) -> DiagnosticEvent {
    DiagnosticEvent {
        timestamp_unix_ms: timestamp,
        level,
        component: component.to_string(),
        message: message.to_string(),
    }
}

fn context() -> ReportContext {
    ReportContext {
        app_version: "0.1.0-rc.1".to_string(),
        authors: "Ada:  :Grace".to_string(),
        repository: "https://example.invalid/repo".to_string(),
        os: "linux".to_string(),
        kernel: "Linux 6.x".to_string(),
        config_path: "/cfg/config.toml".to_string(),
        log_path: "/state/logs/app.jsonl".to_string(),
        crash_reports_path: "/state/crash-reports".to_string(),
    }
}

#[test]
fn addresses_are_written_as_std_writes_them() {
    assert_eq!(ip_address_text(&IpAddress::V4([192, 168, 8, 127])), "192.168.8.127");
    assert_eq!(ip_address_text(&IpAddress::V6([0, 0, 0, 0, 0, 0, 0, 1])), "::1");
    assert_eq!(ip_address_text(&IpAddress::V6([0; 8])), "::");
    assert_eq!(
        ip_address_text(&IpAddress::V6([0xfe80, 0, 0, 0, 0x1, 0, 0, 0x2])),
        "fe80::1:0:0:2"
    );
    assert_eq!(
        ip_address_text(&IpAddress::V6([0x2001, 0xdb8, 0, 1, 0, 0, 0, 1])),
        "2001:db8:0:1::1"
    );
    assert_eq!(
        ip_address_text(&IpAddress::V6([1, 0, 2, 3, 4, 5, 6, 7])),
        "1:0:2:3:4:5:6:7"
    );
    assert_eq!(
        ip_address_text(&IpAddress::V6([0, 0, 0, 0, 0, 0xffff, 0xc0a8, 0x0001])),
        "::ffff:192.168.0.1"
    );
    assert_eq!(
        ip_address_text(&IpAddress::V6([0x2001, 0xdb8, 0, 0, 1, 0, 0, 1])),
        "2001:db8::1:0:0:1"
    );
    assert_eq!(
        ip_address_text(&IpAddress::V6([0, 0, 1, 0, 0, 0, 1, 0])),
        "0:0:1::1:0"
    );
    assert_eq!(
        ip_address_text(&IpAddress::V6([0xabcd, 0, 0, 0, 0, 0, 0, 0xffff])),
        "abcd::ffff"
    );
    assert_eq!(
        socket_address_text(&SocketAddress {
            ip: IpAddress::V4([127, 0, 0, 1]),
            port: 51_700
        }),
        "127.0.0.1:51700"
    );
    assert_eq!(
        socket_address_text(&SocketAddress {
            ip: IpAddress::V6([0, 0, 0, 0, 0, 0, 0, 1]),
            port: 80
        }),
        "[::1]:80"
    );
}

#[test]
fn join_tokens_are_two_hex_digits_per_byte() {
    assert_eq!(join_token_from_bytes(&[0x00, 0x0f, 0xa0, 0xff]), "000fa0ff");
    assert_eq!(join_token_from_bytes(&[7; 18]).len(), 36);
}

#[test]
fn join_link_prefers_requested_then_detected_host() {
    let bind = IpAddress::V4([0, 0, 0, 0]);
    let loopback = IpAddress::V4([127, 0, 0, 1]);
    let lan = IpAddress::V4([192, 168, 1, 20]);

    assert_eq!(join_host(Some(loopback), Some(lan), bind), loopback);
    assert_eq!(join_host(Some(IpAddress::V4([239, 1, 1, 1])), Some(lan), bind), lan);
    assert_eq!(join_host(None, None, bind), bind);
    assert!(is_browser_join_host_override(loopback));
    assert!(!is_browser_join_host_candidate(loopback));
    assert!(is_browser_join_host_candidate(lan));
    assert!(!is_browser_join_host_candidate(IpAddress::V6([0xff02, 0, 0, 0, 0, 0, 0, 1])));

    let url = join_url(&loopback, 40_123, "abcd");
    assert_eq!(url, "http://127.0.0.1:40123/join/abcd");
    assert!(url.starts_with("http://127.0.0.1:"));
    assert!(url.contains("/join/"));
    assert_eq!(token_expiry(1_000), 901_000);
    assert_eq!(token_expiry(u64::MAX - 1), u64::MAX);
}

#[test]
fn request_lines_split_into_method_and_path() {
    assert_eq!(
        parse_request_line("GET /join/abc HTTP/1.1\r\n"),
        ("GET".to_string(), "/join/abc".to_string())
    );
    assert_eq!(
        parse_request_line("  POST   "),
        ("POST".to_string(), "/".to_string())
    );
    assert_eq!(parse_request_line(""), (String::new(), "/".to_string()));
}

#[test]
fn join_routes_follow_method_path_and_token() {
    assert_eq!(join_route("\r\n", true), JoinRoute::Blank);
    assert_eq!(join_route("POST / HTTP/1.1\r\n", true), JoinRoute::MethodNotAllowed);
    assert_eq!(join_route("GET / HTTP/1.1\r\n", false), JoinRoute::Home);
    assert_eq!(join_route("GET /join/abc HTTP/1.1\r\n", true), JoinRoute::Join);
    assert_eq!(join_route("GET /join/abc HTTP/1.1\r\n", false), JoinRoute::Denied);
    assert_eq!(
        join_route("GET /api/join/abc HTTP/1.1\r\n", false),
        JoinRoute::Api { valid_token: false }
    );
    assert_eq!(join_route("GET /other HTTP/1.1\r\n", true), JoinRoute::NotFound);

    assert_eq!(route_status(JoinRoute::Join), "200 OK");
    assert_eq!(route_status(JoinRoute::Denied), "403 Forbidden");
    assert_eq!(route_status(JoinRoute::MethodNotAllowed), "405 Method Not Allowed");
    assert_eq!(route_status(JoinRoute::Api { valid_token: true }), "200 OK");
    assert_eq!(route_content_type(JoinRoute::Api { valid_token: true }), "application/json; charset=utf-8");
    assert_eq!(route_content_type(JoinRoute::NotFound), "text/plain; charset=utf-8");

    let join_page = route_body(JoinRoute::Join, Some("abc"), Some(5)).expect("join page");
    assert!(join_page.contains("Browser playback has not been implemented yet"));
    assert!(join_page.contains("Token expiry: 5"));
    let denied = route_body(JoinRoute::Denied, None, None).expect("denied page");
    assert!(denied.contains("Join Link Rejected"));
    let home = route_body(JoinRoute::Home, None, None).expect("home page");
    assert!(home.contains("Current token: not generated"));
    assert_eq!(route_body(JoinRoute::Api { valid_token: true }, None, None), None);

    assert_eq!(
        http_response_head("200 OK", "text/plain; charset=utf-8", 12),
        "HTTP/1.1 200 OK\r\nContent-Type: text/plain; charset=utf-8\r\nContent-Length: 12\r\nCache-Control: no-store\r\nConnection: close\r\n\r\n"
    );
}

#[test]
fn join_tokens_are_checked_against_the_last_path_segment_and_expiry() {
    let mut state = BrowserJoinState {
        snapshot: BrowserJoinSnapshot::default(),
        current_token: None,
    };
    mark_listening(&mut state, "0.0.0.0:40123".to_string());
    assert!(state.snapshot.active);

    let (_, valid, _) = note_request(&mut state, "/join/abc", 10);
    assert!(!valid);

    install_link(&mut state, "abc".to_string(), "http://x/join/abc".to_string(), 100);
    let (token, valid, expires) = note_request(&mut state, "/join/abc", 100);
    assert_eq!(token.as_deref(), Some("abc"));
    assert!(valid);
    assert_eq!(expires, Some(100));
    let (_, valid, _) = note_request(&mut state, "/join/abc", 101);
    assert!(!valid);
    let (_, valid, _) = note_request(&mut state, "/join/not-the-right-token", 50);
    assert!(!valid);
    assert_eq!(state.snapshot.requests_served, 4);
    assert_eq!(state.snapshot.last_request_path.as_deref(), Some("/join/not-the-right-token"));

    mark_stopped(&mut state);
    assert!(!state.snapshot.active);
    assert_eq!(state.current_token, None);
    assert_eq!(state.snapshot.join_url, None);
}

#[test]
fn subsystem_snapshot_follows_application_state() {
    let mut state = AppState::new(AppConfig::default());
    state.apply_discovery_event(DiscoveryEvent::DeviceDiscovered(DiscoveredDevice {
        id: DeviceId::new("receiver-1"),
        display_name: "Living Room".to_string(),
        app_version: "0.1.0".to_string(),
        protocol_version: DISCOVERY_PROTOCOL_VERSION,
        capabilities: DeviceCapabilities::receiver(),
        availability: DeviceAvailability::Available,
        status: DeviceStatus::Discovered,
        endpoint: Some(TransportEndpoint {
            device_id: DeviceId::new("receiver-1"),
            address: SocketAddress {
                ip: IpAddress::V4([192, 168, 1, 5]),
                port: 51_700,
            },
        }),
        service_fullname: "Living Room._synchrosonic._tcp.local.".to_string(),
        last_seen_unix_ms: 1,
    }));
    let mut snapshot = SubsystemSnapshot::default();
    let view = RuntimeStateView {
        current_view_name: "dashboard".to_string(),
        discovery_started: true,
    };

    refresh_from_state(&mut snapshot, &state, &view, 77);

    assert_eq!(snapshot.updated_at_unix_ms, 77);
    assert_eq!(snapshot.discovery.service_state, "running");
    assert_eq!(snapshot.discovery.discovered_device_count, 1);
    assert_eq!(snapshot.discovery.known_devices[0].status, "Discovered");
    assert_eq!(snapshot.discovery.known_devices[0].availability, "Available");
    assert_eq!(
        snapshot.discovery.known_devices[0].endpoint.as_deref(),
        Some("192.168.1.5:51700")
    );
    assert_eq!(snapshot.receiver.runtime_state, "Idle");
    assert_eq!(snapshot.streaming.state, "Idle");
    assert_eq!(snapshot.streaming.local_mirror_state, "Idle");
    assert_eq!(snapshot.ui.current_view_name, "dashboard");
}

#[test]
fn counters_saturate_and_polls_are_recorded_by_kind() {
    let mut snapshot = SubsystemSnapshot::default();
    note_ui_refresh(&mut snapshot, true, 1);
    note_ui_refresh(&mut snapshot, false, 2);
    assert_eq!(snapshot.ui.refresh_requests, 2);
    assert_eq!(snapshot.ui.refresh_applied, 1);
    assert_eq!(snapshot.ui.refresh_skipped, 1);

    snapshot.ui.list_rebuilds = u64::MAX;
    note_ui_list_render(&mut snapshot, true, 9, 3);
    assert_eq!(snapshot.ui.list_rebuilds, u64::MAX);
    assert_eq!(snapshot.ui.last_rendered_row_count, 9);

    let observation = PollObservation {
        interval_secs: 2,
        duration_ms: 30,
        skipped: false,
        changes_applied: 3,
        error: None,
    };
    note_poll(&mut snapshot, PollKind::Receiver, &observation, 1_000);
    assert_eq!(snapshot.receiver.poll.runs, 1);
    assert_eq!(snapshot.receiver.poll.last_started_at_unix_ms, Some(970));
    assert_eq!(snapshot.discovery.poll.runs, 0);

    set_receiver_listener(&mut snapshot, "0.0.0.0:51700".to_string(), true, None, 5);
    assert_eq!(snapshot.receiver.listener_port, Some(51_700));
    set_receiver_listener(&mut snapshot, "[::]:x".to_string(), false, None, 6);
    assert_eq!(snapshot.receiver.listener_port, None);

    assert!(snapshot_persist_due(true, false, 0, 0));
    assert!(!snapshot_persist_due(false, false, 1_999, 0));
    assert!(snapshot_persist_due(false, false, 2_000, 0));
    assert!(!snapshot_persist_due(false, false, 0, 5_000));
}

#[test]
fn compact_report_lists_state_devices_and_recent_problems() {
    let mut snapshot = SubsystemSnapshot::default();
    snapshot.discovery.service_state = "running".to_string();
    snapshot.receiver.runtime_state = "Idle".to_string();
    snapshot.streaming.state = "Idle".to_string();
    let mut events = vec![event(1, DiagnosticLevel::Info, "app", "started")];
    for index in 0..14u64 {
        events.push(event(10 + index, DiagnosticLevel::Warning, "net", "slow"));
    }
    events.push(event(99, DiagnosticLevel::Error, "audio", "failed"));

    let report = build_compact_diagnostics_report(&context(), &snapshot, &events, "{}");

    assert!(report.starts_with("App: SynchroSonic 0.1.0-rc.1 (Release candidate)\n"));
    assert!(report.contains("Developer / Maintainer: Ada, Grace\n"));
    assert!(report.contains("OS: linux / Linux 6.x\n"));
    assert!(report.contains("Discovery status: running (0 device(s))\n"));
    assert!(report.contains("Discovery advertisement:  on not advertised\n"));
    assert!(report.contains("Browser join prototype: active=false url=not generated served=0 error=none\n"));
    assert!(report.contains("Active local playback target: system default\n"));
    assert!(report.contains("Known discovered devices: none\n"));
    assert!(report.contains("Recent warnings/errors: 99 audio failed | 23 net slow"));
    assert!(!report.contains("started"));
    assert!(!report.contains("12 net slow"));
    assert!(report.ends_with("Safe config summary: {}"));
    assert_eq!(report.matches(" | ").count(), 11);
    assert_eq!(
        format_diagnostic_event(&event(5, DiagnosticLevel::Error, "x", "y")),
        "5 x y"
    );
}
