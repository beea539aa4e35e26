//! Device, source and playback-target models shared by every subsystem.

use vstd::prelude::*;
use crate::net::SocketAddress;

verus! {

pub const DISCOVERY_PROTOCOL_VERSION: u16 = 1;

/// Stable identifier of a SynchroSonic device.
#[derive(Debug, Eq, Hash)]
pub struct DeviceId(pub String);

impl View for DeviceId {
    type V = Seq<char>;

    open spec fn view(&self) -> Seq<char> {
        self.0@
    }
}

impl DeviceId {
    pub fn new(value: &str) -> (r: DeviceId)
        ensures
            r@ == value@,
    {
        DeviceId(value.to_owned())
    }

    pub fn as_str(&self) -> (r: &str)
        ensures
            r@ == self@,
    {
        self.0.as_str()
    }

    /// Whether two identifiers hold the same text.
    pub fn same_as(&self, other: &DeviceId) -> (r: bool)
        ensures
            r == (self@ == other@),
    {
        self.0 == other.0
    }
}

impl Clone for DeviceId {
    fn clone(&self) -> (r: Self)
        ensures
            r@ == self@,
    {
        DeviceId(self.0.clone())
    }
}

impl PartialEq for DeviceId {
    fn eq(&self, other: &Self) -> (r: bool) {
        self.0 == other.0
    }
}

impl vstd::std_specs::cmp::PartialEqSpecImpl for DeviceId {
    open spec fn obeys_eq_spec() -> bool {
        true
    }

    open spec fn eq_spec(&self, other: &DeviceId) -> bool {
        self.0@ == other.0@
    }
}

#[derive(Debug, Clone, Copy, PartialEq, Eq, Structural)]
pub enum DeviceRole {
    Sender,
    Receiver,
}

#[derive(Debug, Clone, Copy, PartialEq, Eq, Structural)]
pub enum DeviceStatus {
    Discovered,
    Connecting,
    Connected,
    Unavailable,
}

#[derive(Debug, Clone, Copy, PartialEq, Eq, Structural)]
pub struct DeviceCapabilities {
    pub supports_sender: bool,
    pub supports_receiver: bool,
    pub supports_local_output: bool,
    pub supports_bluetooth_output: bool,
}

impl DeviceCapabilities {
    pub fn sender() -> (r: Self)
        ensures
            r == (DeviceCapabilities {
                supports_sender: true,
                supports_receiver: false,
                supports_local_output: true,
                supports_bluetooth_output: false,
            }),
    {
        DeviceCapabilities {
            supports_sender: true,
            supports_receiver: false,
            supports_local_output: true,
            supports_bluetooth_output: false,
        }
    }

    pub fn receiver() -> (r: Self)
        ensures
            r == (DeviceCapabilities {
                supports_sender: false,
                supports_receiver: true,
                supports_local_output: true,
                supports_bluetooth_output: false,
            }),
    {
        DeviceCapabilities {
            supports_sender: false,
            supports_receiver: true,
            supports_local_output: true,
            supports_bluetooth_output: false,
        }
    }

    pub fn sender_receiver() -> (r: Self)
        ensures
            r == (DeviceCapabilities {
                supports_sender: true,
                supports_receiver: true,
                supports_local_output: true,
                supports_bluetooth_output: false,
            }),
    {
        DeviceCapabilities {
            supports_sender: true,
            supports_receiver: true,
            supports_local_output: true,
            supports_bluetooth_output: false,
        }
    }
}

#[derive(Debug, Clone, Copy, PartialEq, Eq, Structural)]
pub enum DeviceAvailability {
    Available,
    Busy,
    Unavailable,
}

#[derive(Debug, Clone, Copy, PartialEq, Eq, Structural)]
pub enum AudioSourceKind {
    Monitor,
    Microphone,
    Application,
}

#[derive(Debug, PartialEq, Eq)]
pub struct AudioSource {
    pub id: String,
    pub display_name: String,
    pub kind: AudioSourceKind,
    pub is_default: bool,
}

pub struct AudioSourceView {
    pub id: Seq<char>,
    pub display_name: Seq<char>,
    pub kind: AudioSourceKind,
    pub is_default: bool,
}

impl View for AudioSource {
    type V = AudioSourceView;

    open spec fn view(&self) -> AudioSourceView {
        AudioSourceView {
            id: self.id@,
            display_name: self.display_name@,
            kind: self.kind,
            is_default: self.is_default,
        }
    }
}

impl Clone for AudioSource {
    fn clone(&self) -> (r: Self)
        ensures
            r@ == self@,
    {
        AudioSource {
            id: self.id.clone(),
            display_name: self.display_name.clone(),
            kind: self.kind,
            is_default: self.is_default,
        }
    }
}

#[derive(Debug, Clone, Copy, PartialEq, Eq, Structural)]
pub enum PlaybackTargetKind {
    Standard,
    Bluetooth,
}

impl Default for PlaybackTargetKind {
    fn default() -> (r: Self)
        ensures
            r == PlaybackTargetKind::Standard,
    {
        PlaybackTargetKind::Standard
    }
}

#[derive(Debug, Clone, Copy, PartialEq, Eq, Structural)]
pub enum PlaybackTargetAvailability {
    Available,
    Unavailable,
}

impl Default for PlaybackTargetAvailability {
    fn default() -> (r: Self)
        ensures
            r == PlaybackTargetAvailability::Available,
    {
        PlaybackTargetAvailability::Available
    }
}

#[derive(Debug, PartialEq, Eq)]
pub struct PlaybackTarget {
    pub id: String,
    pub display_name: String,
    pub is_default: bool,
    pub kind: PlaybackTargetKind,
    pub availability: PlaybackTargetAvailability,
    pub bluetooth_address: Option<String>,
}

pub struct PlaybackTargetView {
    pub id: Seq<char>,
    pub display_name: Seq<char>,
    pub is_default: bool,
    pub kind: PlaybackTargetKind,
    pub availability: PlaybackTargetAvailability,
    pub bluetooth_address: Option<Seq<char>>,
}

pub open spec fn opt_string_view(o: Option<String>) -> Option<Seq<char>> {
    match o {
        Some(s) => Some(s@),
        None => None,
    }
}

impl View for PlaybackTarget {
    type V = PlaybackTargetView;

    open spec fn view(&self) -> PlaybackTargetView {
        PlaybackTargetView {
            id: self.id@,
            display_name: self.display_name@,
            is_default: self.is_default,
            kind: self.kind,
            availability: self.availability,
            bluetooth_address: opt_string_view(self.bluetooth_address),
        }
    }
}

impl Clone for PlaybackTarget {
    fn clone(&self) -> (r: Self)
        ensures
            r@ == self@,
    {
        PlaybackTarget {
            id: self.id.clone(),
            display_name: self.display_name.clone(),
            is_default: self.is_default,
            kind: self.kind,
            availability: self.availability,
            bluetooth_address: clone_opt_string(&self.bluetooth_address),
        }
    }
}

impl PlaybackTarget {
    pub fn is_bluetooth(&self) -> (r: bool)
        ensures
            r == (self.kind == PlaybackTargetKind::Bluetooth),
    {
        self.kind == PlaybackTargetKind::Bluetooth
    }
}

#[derive(Debug, Clone, Copy, PartialEq, Eq, Structural)]
pub enum QualityPreset {
    LowLatency,
    Balanced,
    HighQuality,
}

/// Where a device accepts stream connections.
#[derive(Debug, PartialEq, Eq)]
pub struct TransportEndpoint {
    pub device_id: DeviceId,
    pub address: SocketAddress,
}

pub struct TransportEndpointView {
    pub device_id: Seq<char>,
    pub address: SocketAddress,
}

impl View for TransportEndpoint {
    type V = TransportEndpointView;

    open spec fn view(&self) -> TransportEndpointView {
        TransportEndpointView { device_id: self.device_id@, address: self.address }
    }
}

pub open spec fn opt_endpoint_view(o: Option<TransportEndpoint>) -> Option<TransportEndpointView> {
    match o {
        Some(e) => Some(e@),
        None => None,
    }
}

impl Clone for TransportEndpoint {
    fn clone(&self) -> (r: Self)
        ensures
            r@ == self@,
    {
        TransportEndpoint { device_id: self.device_id.clone(), address: self.address }
    }
}

#[derive(Debug, PartialEq, Eq)]
pub struct DiscoveredDevice {
    pub id: DeviceId,
    pub display_name: String,
    pub app_version: String,
    pub protocol_version: u16,
    pub capabilities: DeviceCapabilities,
    pub availability: DeviceAvailability,
    pub status: DeviceStatus,
    pub endpoint: Option<TransportEndpoint>,
    pub service_fullname: String,
    pub last_seen_unix_ms: u64,
}

pub struct DiscoveredDeviceView {
    pub id: Seq<char>,
    pub display_name: Seq<char>,
    pub app_version: Seq<char>,
    pub protocol_version: u16,
    pub capabilities: DeviceCapabilities,
    pub availability: DeviceAvailability,
    pub status: DeviceStatus,
    pub endpoint: Option<TransportEndpointView>,
    pub service_fullname: Seq<char>,
    pub last_seen_unix_ms: u64,
}

impl View for DiscoveredDevice {
    type V = DiscoveredDeviceView;

    open spec fn view(&self) -> DiscoveredDeviceView {
        DiscoveredDeviceView {
            id: self.id@,
            display_name: self.display_name@,
            app_version: self.app_version@,
            protocol_version: self.protocol_version,
            capabilities: self.capabilities,
            availability: self.availability,
            status: self.status,
            endpoint: opt_endpoint_view(self.endpoint),
            service_fullname: self.service_fullname@,
            last_seen_unix_ms: self.last_seen_unix_ms,
        }
    }
}

pub fn clone_opt_string(o: &Option<String>) -> (r: Option<String>)
    ensures
        opt_string_view(r) == opt_string_view(*o),
{
    match o {
        Some(s) => Some(s.clone()),
        None => None,
    }
}

pub fn clone_opt_endpoint(o: &Option<TransportEndpoint>) -> (r: Option<TransportEndpoint>)
    ensures
        opt_endpoint_view(r) == opt_endpoint_view(*o),
{
    match o {
        Some(e) => Some(e.clone()),
        None => None,
    }
}

impl Clone for DiscoveredDevice {
    fn clone(&self) -> (r: Self)
        ensures
            r@ == self@,
    {
        DiscoveredDevice {
            id: self.id.clone(),
            display_name: self.display_name.clone(),
            app_version: self.app_version.clone(),
            protocol_version: self.protocol_version,
            capabilities: self.capabilities,
            availability: self.availability,
            status: self.status,
            endpoint: clone_opt_endpoint(&self.endpoint),
            service_fullname: self.service_fullname.clone(),
            last_seen_unix_ms: self.last_seen_unix_ms,
        }
    }
}

pub open spec fn source_views(s: Seq<AudioSource>) -> Seq<AudioSourceView> {
    s.map_values(|a: AudioSource| a@)
}

pub open spec fn target_views(s: Seq<PlaybackTarget>) -> Seq<PlaybackTargetView> {
    s.map_values(|t: PlaybackTarget| t@)
}

pub open spec fn device_views(s: Seq<DiscoveredDevice>) -> Seq<DiscoveredDeviceView> {
    s.map_values(|d: DiscoveredDevice| d@)
}

#[derive(Debug, Clone, PartialEq, Eq)]
pub enum DiscoveryEvent {
    DeviceDiscovered(DiscoveredDevice),
    DeviceUpdated(DiscoveredDevice),
    DeviceRemoved { device_id: DeviceId, service_fullname: String },
    DeviceExpired(DiscoveredDevice),
}

pub enum DiscoveryEventView {
    DeviceDiscovered(DiscoveredDeviceView),
    DeviceUpdated(DiscoveredDeviceView),
    DeviceRemoved { device_id: Seq<char>, service_fullname: Seq<char> },
    DeviceExpired(DiscoveredDeviceView),
}

impl View for DiscoveryEvent {
    type V = DiscoveryEventView;

    open spec fn view(&self) -> DiscoveryEventView {
        match self {
            DiscoveryEvent::DeviceDiscovered(d) => DiscoveryEventView::DeviceDiscovered(d@),
            DiscoveryEvent::DeviceUpdated(d) => DiscoveryEventView::DeviceUpdated(d@),
            DiscoveryEvent::DeviceRemoved { device_id, service_fullname } => DiscoveryEventView::DeviceRemoved {
                device_id: device_id@,
                service_fullname: service_fullname@,
            },
            DiscoveryEvent::DeviceExpired(d) => DiscoveryEventView::DeviceExpired(d@),
        }
    }
}

pub open spec fn opt_event_view(e: Option<DiscoveryEvent>) -> Option<DiscoveryEventView> {
    match e {
        Some(e) => Some(e@),
        None => None,
    }
}

#[derive(Debug, Clone, PartialEq, Eq)]
pub struct DiscoverySnapshot {
    pub devices: Vec<DiscoveredDevice>,
    pub updated_at_unix_ms: u64,
}

} // verus!
