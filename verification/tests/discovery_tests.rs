use std::time::{SystemTime, UNIX_EPOCH};

use synchrosonic::discovery::{
    announcement, select_preferred_endpoint, txt_properties, DeviceRegistry, DiscoveryFeed,
    LocalDiscoveryProfile, ResolvedServiceRecord, ServiceSignal,
};
use synchrosonic::models::{
    DeviceAvailability, DeviceCapabilities, DeviceId, DeviceStatus, DiscoveredDevice,
    DiscoveryEvent, TransportEndpoint, DISCOVERY_PROTOCOL_VERSION,
};
use synchrosonic::net::{IpAddress, SocketAddress};

fn now_unix_ms() -> u64 {
    SystemTime::now()
        .duration_since(UNIX_EPOCH)
        .map(|duration| duration.as_millis() as u64)
        .unwrap_or_default()
}

fn v4(a: u8, b: u8, c: u8, d: u8) -> IpAddress {
    IpAddress::V4([a, b, c, d])
}

fn socket(a: u8, b: u8, c: u8, d: u8, port: u16) -> SocketAddress {
    SocketAddress {
        ip: v4(a, b, c, d),
        port,
    }
}

fn test_device(id: &str, name: &str, fullname: &str) -> DiscoveredDevice {
    test_device_with_endpoint(id, name, fullname, None)
}

fn test_device_with_endpoint(
    id: &str,
    name: &str,
    fullname: &str,
    endpoint: Option<TransportEndpoint>,
) -> DiscoveredDevice {
    DiscoveredDevice {
        id: DeviceId::new(id),
        display_name: name.to_string(),
        app_version: "0.1.0".to_string(),
        protocol_version: DISCOVERY_PROTOCOL_VERSION,
        capabilities: DeviceCapabilities::receiver(),
        availability: DeviceAvailability::Available,
        status: DeviceStatus::Discovered,
        endpoint,
        service_fullname: fullname.to_string(),
        last_seen_unix_ms: now_unix_ms(),
    }
}

#[test]
fn txt_properties_include_versioned_capabilities() {
    let profile = LocalDiscoveryProfile::new(
        "device-1",
        "Receiver",
        "0.1.0",
        DeviceCapabilities::receiver(),
        DeviceAvailability::Available,
        51_700,
    );
    let props = txt_properties(&profile);

    assert!(props.contains(&("protocol_version", "1".to_string())));
    assert!(props.contains(&("receiver", "true".to_string())));
    assert!(props.contains(&("sender", "false".to_string())));
    assert!(props.contains(&("local_output", "true".to_string())));
}

#[test]
fn registry_updates_duplicate_device_announcements() {
    let mut registry = DeviceRegistry::new(30_000);
    let first = test_device("device-1", "Receiver A", "a._synchrosonic._tcp.local.");
    let second = test_device("device-1", "Receiver B", "b._synchrosonic._tcp.local.");

    assert!(matches!(
        registry.upsert(first),
        Some(DiscoveryEvent::DeviceDiscovered(_))
    ));
    assert!(matches!(
        registry.upsert(second),
        Some(DiscoveryEvent::DeviceUpdated(_))
    ));

    let snapshot = registry.snapshot();
    assert_eq!(snapshot.devices.len(), 1);
    assert_eq!(snapshot.devices[0].display_name, "Receiver B");
}

#[test]
fn preferred_endpoint_selection_avoids_loopback_and_docker_when_lan_exists() {
    let endpoint = select_preferred_endpoint(
        &DeviceId::new("device-1"),
        &[v4(127, 0, 0, 1), v4(172, 17, 0, 1), v4(192, 168, 8, 127)],
        51_700,
    )
    .expect("a preferred endpoint should be selected");

    assert_eq!(endpoint.address, socket(192, 168, 8, 127, 51_700));
}

#[test]
fn preferred_endpoint_selection_returns_none_for_loopback_and_docker_only_addresses() {
    let endpoint = select_preferred_endpoint(
        &DeviceId::new("device-1"),
        &[v4(127, 0, 0, 1), v4(172, 17, 0, 1)],
        51_700,
    );

    assert!(endpoint.is_none());
}

#[test]
fn registry_keeps_the_best_endpoint_for_duplicate_device_updates() {
    let mut registry = DeviceRegistry::new(30_000);
    let endpoint = |address: SocketAddress| {
        Some(TransportEndpoint {
            device_id: DeviceId::new("device-1"),
            address,
        })
    };

    for address in [
        socket(172, 17, 0, 1, 51_700),
        socket(192, 168, 8, 127, 51_700),
        socket(127, 0, 0, 1, 51_700),
    ] {
        registry.upsert(test_device_with_endpoint(
            "device-1",
            "Receiver",
            "receiver._synchrosonic._tcp.local.",
            endpoint(address),
        ));
    }

    let snapshot = registry.snapshot();
    assert_eq!(snapshot.devices.len(), 1);
    assert_eq!(
        snapshot.devices[0]
            .endpoint
            .as_ref()
            .expect("device should keep an endpoint")
            .address,
        socket(192, 168, 8, 127, 51_700)
    );
}

#[test]
fn registry_marks_stale_entries_unavailable() {
    let mut registry = DeviceRegistry::new(0);
    registry.upsert(test_device(
        "device-1",
        "Receiver",
        "receiver._synchrosonic._tcp.local.",
    ));

    let events = registry.prune_stale();

    assert_eq!(events.len(), 1);
    assert!(matches!(events[0], DiscoveryEvent::DeviceExpired(_)));
    assert_eq!(
        registry.snapshot().devices[0].availability,
        DeviceAvailability::Unavailable
    );
}

#[test]
fn registry_suppresses_duplicate_updates_without_material_changes() {
    let mut registry = DeviceRegistry::new(30_000);
    let device = test_device_with_endpoint(
        "device-1",
        "Receiver",
        "receiver._synchrosonic._tcp.local.",
        Some(TransportEndpoint {
            device_id: DeviceId::new("device-1"),
            address: socket(192, 168, 8, 127, 51_700),
        }),
    );

    assert!(matches!(
        registry.upsert(device.clone()),
        Some(DiscoveryEvent::DeviceDiscovered(_))
    ));
    assert_eq!(registry.upsert(device), None);
}

#[test]
fn stale_devices_are_reported_once_and_come_back_when_announced() {
    let mut registry = DeviceRegistry::new(1_000);
    let device = test_device("device-1", "Receiver", "receiver._synchrosonic._tcp.local.");
    assert!(registry.upsert_at(device.clone(), 10_000, 10_000).is_some());

    assert!(registry.prune_stale_at(10_500).is_empty());
    assert_eq!(registry.prune_stale_at(11_000).len(), 1);
    assert!(registry.prune_stale_at(12_000).is_empty());

    assert!(matches!(
        registry.upsert_at(device, 12_500, 12_500),
        Some(DiscoveryEvent::DeviceUpdated(_))
    ));
    assert_eq!(
        registry.snapshot_at(12_500).devices[0].availability,
        DeviceAvailability::Available
    );
}

#[test]
fn removal_by_fullname_reports_the_removed_device() {
    let mut registry = DeviceRegistry::new(30_000);
    registry.upsert_at(
        test_device("device-1", "Receiver", "receiver._synchrosonic._tcp.local."),
        5,
        5,
    );

    assert_eq!(registry.mark_removed_by_fullname("other._synchrosonic._tcp.local."), None);
    assert_eq!(
        registry.mark_removed_by_fullname("receiver._synchrosonic._tcp.local."),
        Some(DiscoveryEvent::DeviceRemoved {
            device_id: DeviceId::new("device-1"),
            service_fullname: "receiver._synchrosonic._tcp.local.".to_string(),
        })
    );
    assert!(registry.snapshot_at(5).devices.is_empty());
}

#[test]
fn snapshot_lists_devices_by_display_name() {
    let mut registry = DeviceRegistry::new(30_000);
    registry.upsert_at(test_device("device-2", "Zeta", "z._synchrosonic._tcp.local."), 1, 1);
    registry.upsert_at(test_device("device-1", "Alpha", "a._synchrosonic._tcp.local."), 1, 1);
    registry.upsert_at(test_device("device-3", "Mid", "m._synchrosonic._tcp.local."), 1, 1);

    let names: Vec<String> = registry
        .snapshot_at(1)
        .devices
        .into_iter()
        .map(|device| device.display_name)
        .collect();
    assert_eq!(names, vec!["Alpha", "Mid", "Zeta"]);
}

#[test]
fn announcement_uses_configured_service_type() {
    let profile = LocalDiscoveryProfile::new(
        "device-1",
        "Laptop",
        "0.1.0",
        DeviceCapabilities::sender_receiver(),
        DeviceAvailability::Available,
        51_700,
    );
    let announcement = announcement("_synchrosonic._tcp.local.", &profile, 51_700);

    assert_eq!(announcement.service_type, "_synchrosonic._tcp.local.");
    assert_eq!(announcement.instance_name, "Laptop");
    assert_eq!(announcement.port, 51_700);
}

fn resolved(fullname: &str, device_id: &str, name: &str) -> ResolvedServiceRecord {
    ResolvedServiceRecord {
        fullname: fullname.to_string(),
        device_id: Some(device_id.to_string()),
        device_name: Some(name.to_string()),
        protocol_version: Some("1".to_string()),
        app_version: Some("0.1.0".to_string()),
        availability: None,
        sender: Some("false".to_string()),
        receiver: Some("true".to_string()),
        local_output: Some("true".to_string()),
        bluetooth: None,
        addresses: vec![v4(192, 168, 8, 127)],
        port: 51_700,
    }
}

#[test]
fn discovery_feed_queues_events_from_network_signals() {
    let mut feed = DiscoveryFeed::new(30);
    feed.handle_signal(ServiceSignal::Other, 1, 1);
    assert!(feed.next_event().is_none());

    feed.handle_signal(
        ServiceSignal::Resolved(resolved("r._synchrosonic._tcp.local.", "device-1", "Receiver")),
        10,
        10,
    );
    feed.handle_signal(
        ServiceSignal::Resolved(resolved("r._synchrosonic._tcp.local.", "device-1", "Receiver")),
        20,
        20,
    );
    feed.handle_signal(
        ServiceSignal::Removed {
            fullname: "r._synchrosonic._tcp.local.".to_string(),
        },
        30,
        30,
    );

    match feed.next_event() {
        Some(DiscoveryEvent::DeviceDiscovered(device)) => {
            assert_eq!(device.display_name, "Receiver");
            assert_eq!(
                device.endpoint.expect("endpoint").address,
                socket(192, 168, 8, 127, 51_700)
            );
            assert!(device.capabilities.supports_receiver);
            assert_eq!(device.availability, DeviceAvailability::Available);
        }
        other => panic!("unexpected event {other:?}"),
    }
    assert!(matches!(
        feed.next_event(),
        Some(DiscoveryEvent::DeviceRemoved { .. })
    ));
    assert!(feed.next_event().is_none());
    assert!(feed.snapshot_at(40).devices.is_empty());
}

#[test]
fn staleness_follows_the_monotonic_clock_not_the_stamp() {
    let mut registry = DeviceRegistry::new(1_000);
    let device = test_device("device-1", "Receiver", "receiver._synchrosonic._tcp.local.");
    assert!(registry.upsert_at(device, 1_700_000_000_000, 10_000).is_some());
    assert!(registry.prune_stale_at(10_999).is_empty());
    assert_eq!(registry.prune_stale_at(11_000).len(), 1);
    let snapshot = registry.snapshot_at(42);
    assert_eq!(snapshot.devices[0].last_seen_unix_ms, 1_700_000_000_000);
    assert_eq!(snapshot.updated_at_unix_ms, 42);
}
