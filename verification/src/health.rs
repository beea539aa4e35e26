//! Per-subsystem health as the diagnostics screen and crash reports show
//! it: poll counters, what discovery, the receiver and the sender are doing,
//! and how the interface has been refreshing.

use vstd::prelude::*;
use crate::models::{
    DeviceAvailability, DeviceStatus, DiscoveredDevice, DiscoveredDeviceView, clone_opt_string,
    device_views, opt_string_view,
};
use crate::net::{socket_address_text, socket_text};
use crate::receiver::ReceiverServiceState;
use crate::state::AppState;
use crate::streaming::{LocalMirrorState, StreamSessionState};
use crate::text::{parse_u16, parse_u16_spec};

verus! {

/// How long a written snapshot counts as fresh, in milliseconds.
pub const SNAPSHOT_PERSIST_INTERVAL_MS: u64 = 2_000;

/// How a periodic poll has been going.
#[derive(Debug, Clone, PartialEq, Eq)]
pub struct PollSnapshot {
    pub interval_secs: u64,
    pub runs: u64,
    pub skips: u64,
    pub last_started_at_unix_ms: Option<u64>,
    pub last_duration_ms: Option<u64>,
    pub last_changes_applied: usize,
    pub last_error: Option<String>,
}

impl Default for PollSnapshot {
    fn default() -> (r: Self)
        ensures
            r.interval_secs == 0 && r.runs == 0 && r.skips == 0 && r.last_started_at_unix_ms is None
                && r.last_duration_ms is None && r.last_changes_applied == 0 && r.last_error is None,
    {
        PollSnapshot {
            interval_secs: 0,
            runs: 0,
            skips: 0,
            last_started_at_unix_ms: None,
            last_duration_ms: None,
            last_changes_applied: 0,
            last_error: None,
        }
    }
}

#[derive(Debug, Clone, Copy, PartialEq, Eq, Structural)]
pub enum PollKind {
    Discovery,
    Receiver,
    Streaming,
    AudioSources,
    PlaybackTargets,
}

/// One run, or skipped run, of a periodic poll.
#[derive(Debug, Clone, PartialEq, Eq)]
pub struct PollObservation {
    pub interval_secs: u64,
    pub duration_ms: u64,
    pub skipped: bool,
    pub changes_applied: usize,
    pub error: Option<String>,
}

pub open spec fn sat_inc(x: u64) -> u64 {
    if x < u64::MAX { (x + 1) as u64 } else { u64::MAX }
}

/// `after` is `before` with one poll observation recorded at `now_unix_ms`.
pub open spec fn polled(before: PollSnapshot, after: PollSnapshot, observation: PollObservation, now_unix_ms: u64) -> bool {
    &&& after.interval_secs == observation.interval_secs
    &&& after.last_started_at_unix_ms == Some(
        (if now_unix_ms >= observation.duration_ms { now_unix_ms - observation.duration_ms } else { 0 }) as u64,
    )
    &&& after.last_duration_ms == Some(observation.duration_ms)
    &&& after.last_changes_applied == observation.changes_applied
    &&& opt_string_view(after.last_error) == opt_string_view(observation.error)
    &&& after.skips == (if observation.skipped { sat_inc(before.skips) } else { before.skips })
    &&& after.runs == (if observation.skipped { before.runs } else { sat_inc(before.runs) })
}

/// Records a poll run that ended at `now_unix_ms`.
pub fn record_poll(poll: &mut PollSnapshot, observation: &PollObservation, now_unix_ms: u64)
    ensures
        polled(*old(poll), *final(poll), *observation, now_unix_ms),
{
    poll.interval_secs = observation.interval_secs;
    poll.last_started_at_unix_ms = Some(now_unix_ms.saturating_sub(observation.duration_ms));
    poll.last_duration_ms = Some(observation.duration_ms);
    poll.last_changes_applied = observation.changes_applied;
    poll.last_error = clone_opt_string(&observation.error);
    if observation.skipped {
        poll.skips = poll.skips.saturating_add(1);
    } else {
        poll.runs = poll.runs.saturating_add(1);
    }
}


/// Audio capture and output, as last seen.
#[derive(Debug, Clone, PartialEq, Eq)]
pub struct AudioSubsystemSnapshot {
    pub source_poll: PollSnapshot,
    pub playback_target_poll: PollSnapshot,
    pub source_count: usize,
    pub playback_target_count: usize,
    pub active_source_id: Option<String>,
    pub local_playback_target_id: Option<String>,
    pub receiver_playback_target_id: Option<String>,
}

impl Default for AudioSubsystemSnapshot {
    fn default() -> (r: Self)
        ensures
            r.source_count == 0 && r.playback_target_count == 0 && r.active_source_id is None
                && r.local_playback_target_id is None && r.receiver_playback_target_id is None,
    {
        AudioSubsystemSnapshot {
            source_poll: PollSnapshot::default(),
            playback_target_poll: PollSnapshot::default(),
            source_count: 0,
            playback_target_count: 0,
            active_source_id: None,
            local_playback_target_id: None,
            receiver_playback_target_id: None,
        }
    }
}

/// A discovered device as diagnostics lists it.
#[derive(Debug, Clone, PartialEq, Eq)]
pub struct KnownDeviceSnapshot {
    pub id: String,
    pub display_name: String,
    pub status: String,
    pub availability: String,
    pub endpoint: Option<String>,
}

pub struct KnownDeviceSnapshotView {
    pub id: Seq<char>,
    pub display_name: Seq<char>,
    pub status: Seq<char>,
    pub availability: Seq<char>,
    pub endpoint: Option<Seq<char>>,
}

impl View for KnownDeviceSnapshot {
    type V = KnownDeviceSnapshotView;

    open spec fn view(&self) -> KnownDeviceSnapshotView {
        KnownDeviceSnapshotView {
            id: self.id@,
            display_name: self.display_name@,
            status: self.status@,
            availability: self.availability@,
            endpoint: opt_string_view(self.endpoint),
        }
    }
}

pub open spec fn known_views(s: Seq<KnownDeviceSnapshot>) -> Seq<KnownDeviceSnapshotView> {
    s.map_values(|d: KnownDeviceSnapshot| d@)
}

pub open spec fn device_status_text(s: DeviceStatus) -> Seq<char> {
    match s {
        DeviceStatus::Discovered => "Discovered"@,
        DeviceStatus::Connecting => "Connecting"@,
        DeviceStatus::Connected => "Connected"@,
        DeviceStatus::Unavailable => "Unavailable"@,
    }
}

pub fn device_status_label(s: DeviceStatus) -> (r: &'static str)
    ensures
        r@ == device_status_text(s),
{
    match s {
        DeviceStatus::Discovered => "Discovered",
        DeviceStatus::Connecting => "Connecting",
        DeviceStatus::Connected => "Connected",
        DeviceStatus::Unavailable => "Unavailable",
    }
}

pub open spec fn availability_name(a: DeviceAvailability) -> Seq<char> {
    match a {
        DeviceAvailability::Available => "Available"@,
        DeviceAvailability::Busy => "Busy"@,
        DeviceAvailability::Unavailable => "Unavailable"@,
    }
}

pub fn availability_label(a: DeviceAvailability) -> (r: &'static str)
    ensures
        r@ == availability_name(a),
{
    match a {
        DeviceAvailability::Available => "Available",
        DeviceAvailability::Busy => "Busy",
        DeviceAvailability::Unavailable => "Unavailable",
    }
}

pub open spec fn receiver_state_text(s: ReceiverServiceState) -> Seq<char> {
    match s {
        ReceiverServiceState::Idle => "Idle"@,
        ReceiverServiceState::Listening => "Listening"@,
        ReceiverServiceState::Connected => "Connected"@,
        ReceiverServiceState::Buffering => "Buffering"@,
        ReceiverServiceState::Playing => "Playing"@,
        ReceiverServiceState::Error => "Error"@,
    }
}

pub fn receiver_state_label(s: ReceiverServiceState) -> (r: &'static str)
    ensures
        r@ == receiver_state_text(s),
{
    match s {
        ReceiverServiceState::Idle => "Idle",
        ReceiverServiceState::Listening => "Listening",
        ReceiverServiceState::Connected => "Connected",
        ReceiverServiceState::Buffering => "Buffering",
        ReceiverServiceState::Playing => "Playing",
        ReceiverServiceState::Error => "Error",
    }
}

pub open spec fn session_state_text(s: StreamSessionState) -> Seq<char> {
    match s {
        StreamSessionState::Idle => "Idle"@,
        StreamSessionState::Connecting => "Connecting"@,
        StreamSessionState::Negotiating => "Negotiating"@,
        StreamSessionState::Streaming => "Streaming"@,
        StreamSessionState::Stopping => "Stopping"@,
        StreamSessionState::Error => "Error"@,
    }
}

pub fn session_state_label(s: StreamSessionState) -> (r: &'static str)
    ensures
        r@ == session_state_text(s),
{
    match s {
        StreamSessionState::Idle => "Idle",
        StreamSessionState::Connecting => "Connecting",
        StreamSessionState::Negotiating => "Negotiating",
        StreamSessionState::Streaming => "Streaming",
        StreamSessionState::Stopping => "Stopping",
        StreamSessionState::Error => "Error",
    }
}

pub open spec fn mirror_state_text(s: LocalMirrorState) -> Seq<char> {
    match s {
        LocalMirrorState::Disabled => "Disabled"@,
        LocalMirrorState::Idle => "Idle"@,
        LocalMirrorState::Starting => "Starting"@,
        LocalMirrorState::Mirroring => "Mirroring"@,
        LocalMirrorState::Stopping => "Stopping"@,
        LocalMirrorState::Error => "Error"@,
    }
}

pub fn mirror_state_label(s: LocalMirrorState) -> (r: &'static str)
    ensures
        r@ == mirror_state_text(s),
{
    match s {
        LocalMirrorState::Disabled => "Disabled",
        LocalMirrorState::Idle => "Idle",
        LocalMirrorState::Starting => "Starting",
        LocalMirrorState::Mirroring => "Mirroring",
        LocalMirrorState::Stopping => "Stopping",
        LocalMirrorState::Error => "Error",
    }
}

/// How diagnostics lists a discovered device.
pub open spec fn known_device_of(d: DiscoveredDeviceView) -> KnownDeviceSnapshotView {
    KnownDeviceSnapshotView {
        id: d.id,
        display_name: d.display_name,
        status: device_status_text(d.status),
        availability: availability_name(d.availability),
        endpoint: match d.endpoint {
            Some(e) => Some(socket_text(e.address)),
            None => None,
        },
    }
}

pub fn known_device_snapshot(device: &DiscoveredDevice) -> (r: KnownDeviceSnapshot)
    ensures
        r@ == known_device_of(device@),
{
    KnownDeviceSnapshot {
        id: device.id.0.clone(),
        display_name: device.display_name.clone(),
        status: device_status_label(device.status).to_owned(),
        availability: availability_label(device.availability).to_owned(),
        endpoint: match &device.endpoint {
            Some(endpoint) => Some(socket_address_text(&endpoint.address)),
            None => None,
        },
    }
}

/// Discovery, as last seen.
#[derive(Debug, Clone, PartialEq, Eq)]
pub struct DiscoverySubsystemSnapshot {
    pub poll: PollSnapshot,
    pub service_state: String,
    pub discovered_device_count: usize,
    pub local_device_id: Option<String>,
    pub advertisement_state: String,
    pub advertised_endpoint: Option<String>,
    pub last_advertised_unix_ms: Option<u64>,
    pub last_advertisement_error: Option<String>,
    pub known_devices: Vec<KnownDeviceSnapshot>,
}

impl Default for DiscoverySubsystemSnapshot {
    fn default() -> (r: Self)
        ensures
            r.service_state@ == Seq::<char>::empty() && r.discovered_device_count == 0
                && r.advertisement_state@ == Seq::<char>::empty() && r.advertised_endpoint is None
                && r.known_devices@.len() == 0,
    {
        DiscoverySubsystemSnapshot {
            poll: PollSnapshot::default(),
            service_state: String::new(),
            discovered_device_count: 0,
            local_device_id: None,
            advertisement_state: String::new(),
            advertised_endpoint: None,
            last_advertised_unix_ms: None,
            last_advertisement_error: None,
            known_devices: Vec::new(),
        }
    }
}

/// The receiver, as last seen.
#[derive(Debug, Clone, PartialEq, Eq)]
pub struct ReceiverSubsystemSnapshot {
    pub poll: PollSnapshot,
    pub runtime_state: String,
    pub listener_active: bool,
    pub listener_bind_addr: Option<String>,
    pub listener_port: Option<u16>,
    pub last_runtime_error: Option<String>,
    pub last_transport_error: Option<String>,
}

impl Default for ReceiverSubsystemSnapshot {
    fn default() -> (r: Self)
        ensures
            r.runtime_state@ == Seq::<char>::empty() && !r.listener_active && r.listener_bind_addr is None
                && r.listener_port is None,
    {
        ReceiverSubsystemSnapshot {
            poll: PollSnapshot::default(),
            runtime_state: String::new(),
            listener_active: false,
            listener_bind_addr: None,
            listener_port: None,
            last_runtime_error: None,
            last_transport_error: None,
        }
    }
}

/// The sender, as last seen.
#[derive(Debug, Clone, PartialEq, Eq)]
pub struct StreamingSubsystemSnapshot {
    pub poll: PollSnapshot,
    pub state: String,
    pub target_session_count: usize,
    pub active_target_count: usize,
    pub local_mirror_state: String,
    pub last_transport_error: Option<String>,
}

impl Default for StreamingSubsystemSnapshot {
    fn default() -> (r: Self)
        ensures
            r.state@ == Seq::<char>::empty() && r.target_session_count == 0 && r.active_target_count == 0,
    {
        StreamingSubsystemSnapshot {
            poll: PollSnapshot::default(),
            state: String::new(),
            target_session_count: 0,
            active_target_count: 0,
            local_mirror_state: String::new(),
            last_transport_error: None,
        }
    }
}

/// The interface, as last seen.
#[derive(Debug, Clone, PartialEq, Eq)]
pub struct UiSubsystemSnapshot {
    pub current_view_name: String,
    pub refresh_requests: u64,
    pub refresh_applied: u64,
    pub refresh_skipped: u64,
    pub list_rebuilds: u64,
    pub list_skips: u64,
    pub last_rendered_row_count: usize,
    pub browser_join_active: bool,
    pub browser_join_url: Option<String>,
    pub browser_join_requests_served: u64,
    pub browser_join_last_error: Option<String>,
}

impl Default for UiSubsystemSnapshot {
    fn default() -> (r: Self)
        ensures
            r.refresh_requests == 0 && r.refresh_applied == 0 && r.refresh_skipped == 0
                && r.list_rebuilds == 0 && r.list_skips == 0 && !r.browser_join_active
                && r.browser_join_url is None,
    {
        UiSubsystemSnapshot {
            current_view_name: String::new(),
            refresh_requests: 0,
            refresh_applied: 0,
            refresh_skipped: 0,
            list_rebuilds: 0,
            list_skips: 0,
            last_rendered_row_count: 0,
            browser_join_active: false,
            browser_join_url: None,
            browser_join_requests_served: 0,
            browser_join_last_error: None,
        }
    }
}

/// Everything diagnostics knows about the running subsystems.
#[derive(Debug, Clone, PartialEq, Eq)]
pub struct SubsystemSnapshot {
    pub updated_at_unix_ms: u64,
    pub last_crash_recovery_unix_ms: Option<u64>,
    pub audio: AudioSubsystemSnapshot,
    pub discovery: DiscoverySubsystemSnapshot,
    pub receiver: ReceiverSubsystemSnapshot,
    pub streaming: StreamingSubsystemSnapshot,
    pub ui: UiSubsystemSnapshot,
}

impl Default for SubsystemSnapshot {
    fn default() -> (r: Self)
        ensures
            r.updated_at_unix_ms == 0 && r.last_crash_recovery_unix_ms is None,
    {
        SubsystemSnapshot {
            updated_at_unix_ms: 0,
            last_crash_recovery_unix_ms: None,
            audio: AudioSubsystemSnapshot::default(),
            discovery: DiscoverySubsystemSnapshot::default(),
            receiver: ReceiverSubsystemSnapshot::default(),
            streaming: StreamingSubsystemSnapshot::default(),
            ui: UiSubsystemSnapshot::default(),
        }
    }
}

/// What the interface reports about itself alongside the application state.
#[derive(Debug, Clone, PartialEq, Eq)]
pub struct RuntimeStateView {
    pub current_view_name: String,
    pub discovery_started: bool,
}

/// Where a crash report was written and what it says in one line.
#[derive(Debug, Clone, PartialEq, Eq)]
pub struct CrashReportHandle {
    pub path: String,
    pub summary: String,
}

fn known_device_snapshots(devices: &Vec<DiscoveredDevice>) -> (r: Vec<KnownDeviceSnapshot>)
    ensures
        known_views(r@) == device_views(devices@).map_values(|d: DiscoveredDeviceView| known_device_of(d)),
{
    let mut out: Vec<KnownDeviceSnapshot> = Vec::new();
    let mut i: usize = 0;
    while i < devices.len()
        invariant
            i <= devices@.len(),
            out@.len() == i,
            forall|j: int| 0 <= j < i ==> (#[trigger] out@[j])@ == known_device_of(devices@[j]@),
        decreases devices@.len() - i,
    {
        let item = known_device_snapshot(&devices[i]);
        out.push(item);
        i = i + 1;
    }
    assert(known_views(out@) =~= device_views(devices@).map_values(|d: DiscoveredDeviceView| known_device_of(d)));
    out
}

/// Takes in what the application state says about every subsystem, as of
/// `now_unix_ms`. Poll counters, listener and advertisement details and the
/// interface counters are left as they were.
pub fn refresh_from_state(
    snapshot: &mut SubsystemSnapshot,
    state: &AppState,
    view: &RuntimeStateView,
    now_unix_ms: u64,
)
    ensures
        final(snapshot).updated_at_unix_ms == now_unix_ms,
        final(snapshot).last_crash_recovery_unix_ms == old(snapshot).last_crash_recovery_unix_ms,
        final(snapshot).audio.source_poll == old(snapshot).audio.source_poll,
        final(snapshot).audio.playback_target_poll == old(snapshot).audio.playback_target_poll,
        final(snapshot).audio.source_count == state.audio_sources@.len(),
        final(snapshot).audio.playback_target_count == state.playback_targets@.len(),
        opt_string_view(final(snapshot).audio.active_source_id) == opt_string_view(state.selected_audio_source_id),
        opt_string_view(final(snapshot).audio.local_playback_target_id) == opt_string_view(
            state.config.audio.local_playback_target_id,
        ),
        opt_string_view(final(snapshot).audio.receiver_playback_target_id) == opt_string_view(
            state.config.receiver.playback_target_id,
        ),
        final(snapshot).discovery.service_state@ == (if view.discovery_started { "running"@ } else { "failed"@ }),
        final(snapshot).discovery.discovered_device_count == state.discovered_devices@.len(),
        known_views(final(snapshot).discovery.known_devices@) == device_views(state.discovered_devices@).map_values(
            |d: DiscoveredDeviceView| known_device_of(d),
        ),
        final(snapshot).discovery.poll == old(snapshot).discovery.poll,
        final(snapshot).discovery.local_device_id == old(snapshot).discovery.local_device_id,
        final(snapshot).discovery.advertisement_state == old(snapshot).discovery.advertisement_state,
        final(snapshot).discovery.advertised_endpoint == old(snapshot).discovery.advertised_endpoint,
        final(snapshot).discovery.last_advertised_unix_ms == old(snapshot).discovery.last_advertised_unix_ms,
        final(snapshot).discovery.last_advertisement_error == old(snapshot).discovery.last_advertisement_error,
        final(snapshot).receiver.runtime_state@ == receiver_state_text(state.receiver.state),
        opt_string_view(final(snapshot).receiver.last_runtime_error) == opt_string_view(state.receiver.last_error),
        final(snapshot).receiver.poll == old(snapshot).receiver.poll,
        final(snapshot).receiver.listener_active == old(snapshot).receiver.listener_active,
        final(snapshot).receiver.listener_bind_addr == old(snapshot).receiver.listener_bind_addr,
        final(snapshot).receiver.listener_port == old(snapshot).receiver.listener_port,
        final(snapshot).receiver.last_transport_error == old(snapshot).receiver.last_transport_error,
        final(snapshot).streaming.state@ == session_state_text(state.streaming.state),
        final(snapshot).streaming.target_session_count == state.streaming.targets@.len(),
        final(snapshot).streaming.active_target_count == state.streaming.targets@.len(),
        final(snapshot).streaming.local_mirror_state@ == mirror_state_text(state.streaming.local_mirror.state),
        opt_string_view(final(snapshot).streaming.last_transport_error) == opt_string_view(
            state.streaming.last_error,
        ),
        final(snapshot).streaming.poll == old(snapshot).streaming.poll,
        final(snapshot).ui.current_view_name@ == view.current_view_name@,
        final(snapshot).ui == (UiSubsystemSnapshot { current_view_name: final(snapshot).ui.current_view_name, ..old(snapshot).ui }),
{
    snapshot.updated_at_unix_ms = now_unix_ms;
    snapshot.audio.source_count = state.audio_sources.len();
    snapshot.audio.playback_target_count = state.playback_targets.len();
    snapshot.audio.active_source_id = clone_opt_string(&state.selected_audio_source_id);
    snapshot.audio.local_playback_target_id = clone_opt_string(&state.config.audio.local_playback_target_id);
    snapshot.audio.receiver_playback_target_id = clone_opt_string(&state.config.receiver.playback_target_id);
    snapshot.discovery.service_state = if view.discovery_started {
        "running".to_owned()
    } else {
        "failed".to_owned()
    };
    snapshot.discovery.discovered_device_count = state.discovered_devices.len();
    snapshot.discovery.known_devices = known_device_snapshots(&state.discovered_devices);
    snapshot.receiver.runtime_state = receiver_state_label(state.receiver.state).to_owned();
    snapshot.receiver.last_runtime_error = clone_opt_string(&state.receiver.last_error);
    snapshot.streaming.state = session_state_label(state.streaming.state).to_owned();
    snapshot.streaming.target_session_count = state.streaming.targets.len();
    snapshot.streaming.active_target_count = state.streaming.active_target_count();
    snapshot.streaming.local_mirror_state = mirror_state_label(state.streaming.local_mirror.state).to_owned();
    snapshot.streaming.last_transport_error = clone_opt_string(&state.streaming.last_error);
    snapshot.ui.current_view_name = view.current_view_name.clone();
}

/// The text after the last `:`, if there is one.
pub open spec fn after_last_colon(s: Seq<char>) -> Option<Seq<char>>
    decreases s.len(),
{
    if s.len() == 0 {
        None
    } else if s.last() == ':' {
        Some(Seq::empty())
    } else {
        match after_last_colon(s.drop_last()) {
            Some(t) => Some(t.push(s.last())),
            None => None,
        }
    }
}

/// The port of an `address:port` text, where what follows the last colon
/// reads as one.
pub open spec fn port_of_bind_text(s: Seq<char>) -> Option<u16> {
    match after_last_colon(s) {
        Some(t) => parse_u16_spec(t),
        None => None,
    }
}

proof fn lemma_after_last_colon_split(s: Seq<char>, i: int)
    requires
        0 <= i < s.len(),
        s[i] == ':',
        forall|j: int| i < j < s.len() ==> s[j] != ':',
    ensures
        after_last_colon(s) == Some(s.subrange(i + 1, s.len() as int)),
    decreases s.len(),
{
    if s.len() - 1 != i {
        lemma_after_last_colon_split(s.drop_last(), i);
        assert(s.drop_last().subrange(i + 1, s.len() - 1).push(s.last()) =~= s.subrange(i + 1, s.len() as int));
    } else {
        assert(s.subrange(i + 1, s.len() as int) =~= Seq::<char>::empty());
    }
}

proof fn lemma_after_last_colon_none(s: Seq<char>)
    requires
        forall|j: int| 0 <= j < s.len() ==> s[j] != ':',
    ensures
        after_last_colon(s) is None,
    decreases s.len(),
{
    if s.len() > 0 {
        lemma_after_last_colon_none(s.drop_last());
    }
}

fn listener_port(bind_addr: &str) -> (r: Option<u16>)
    ensures
        r == port_of_bind_text(bind_addr@),
{
    let n = bind_addr.unicode_len();
    let mut i = n;
    while i > 0
        invariant
            i <= n,
            n == bind_addr@.len(),
            forall|j: int| i <= j < n ==> bind_addr@[j] != ':',
        decreases i,
    {
        if bind_addr.get_char(i - 1) == ':' {
            let tail = bind_addr.substring_char(i, n);
            proof {
                lemma_after_last_colon_split(bind_addr@, i - 1);
            }
            return parse_u16(tail);
        }
        i = i - 1;
    }
    proof {
        lemma_after_last_colon_none(bind_addr@);
    }
    None
}

/// Records the receiver listener's address and whether it is accepting.
pub fn set_receiver_listener(
    snapshot: &mut SubsystemSnapshot,
    bind_addr: String,
    listener_active: bool,
    last_transport_error: Option<String>,
    now_unix_ms: u64,
)
    ensures
        *final(snapshot) == (SubsystemSnapshot {
            updated_at_unix_ms: now_unix_ms,
            receiver: ReceiverSubsystemSnapshot {
                listener_bind_addr: Some(bind_addr),
                listener_port: port_of_bind_text(bind_addr@),
                listener_active,
                last_transport_error,
                ..old(snapshot).receiver
            },
            ..*old(snapshot)
        }),
{
    let port = listener_port(bind_addr.as_str());
    snapshot.updated_at_unix_ms = now_unix_ms;
    snapshot.receiver.listener_bind_addr = Some(bind_addr);
    snapshot.receiver.listener_port = port;
    snapshot.receiver.listener_active = listener_active;
    snapshot.receiver.last_transport_error = last_transport_error;
}

/// Records what this device advertises and how advertising went.
pub fn set_discovery_local(
    snapshot: &mut SubsystemSnapshot,
    service_state: String,
    local_device_id: Option<String>,
    advertisement_state: String,
    advertised_endpoint: Option<String>,
    last_advertised_unix_ms: Option<u64>,
    last_advertisement_error: Option<String>,
    now_unix_ms: u64,
)
    ensures
        *final(snapshot) == (SubsystemSnapshot {
            updated_at_unix_ms: now_unix_ms,
            discovery: DiscoverySubsystemSnapshot {
                service_state,
                local_device_id,
                advertisement_state,
                advertised_endpoint,
                last_advertised_unix_ms,
                last_advertisement_error,
                ..old(snapshot).discovery
            },
            ..*old(snapshot)
        }),
{
    snapshot.updated_at_unix_ms = now_unix_ms;
    snapshot.discovery.service_state = service_state;
    snapshot.discovery.local_device_id = local_device_id;
    snapshot.discovery.advertisement_state = advertisement_state;
    snapshot.discovery.advertised_endpoint = advertised_endpoint;
    snapshot.discovery.last_advertised_unix_ms = last_advertised_unix_ms;
    snapshot.discovery.last_advertisement_error = last_advertisement_error;
}

/// Records a poll of one kind; `updated_at_unix_ms` is left as it was.
pub fn note_poll(snapshot: &mut SubsystemSnapshot, kind: PollKind, observation: &PollObservation, now_unix_ms: u64)
    ensures
        final(snapshot).updated_at_unix_ms == old(snapshot).updated_at_unix_ms,
        kind == PollKind::Discovery ==> *final(snapshot) == (SubsystemSnapshot {
            discovery: DiscoverySubsystemSnapshot { poll: final(snapshot).discovery.poll, ..old(snapshot).discovery },
            ..*old(snapshot)
        }) && polled(old(snapshot).discovery.poll, final(snapshot).discovery.poll, *observation, now_unix_ms),
        kind == PollKind::Receiver ==> *final(snapshot) == (SubsystemSnapshot {
            receiver: ReceiverSubsystemSnapshot { poll: final(snapshot).receiver.poll, ..old(snapshot).receiver },
            ..*old(snapshot)
        }) && polled(old(snapshot).receiver.poll, final(snapshot).receiver.poll, *observation, now_unix_ms),
        kind == PollKind::Streaming ==> *final(snapshot) == (SubsystemSnapshot {
            streaming: StreamingSubsystemSnapshot { poll: final(snapshot).streaming.poll, ..old(snapshot).streaming },
            ..*old(snapshot)
        }) && polled(old(snapshot).streaming.poll, final(snapshot).streaming.poll, *observation, now_unix_ms),
        kind == PollKind::AudioSources ==> *final(snapshot) == (SubsystemSnapshot {
            audio: AudioSubsystemSnapshot { source_poll: final(snapshot).audio.source_poll, ..old(snapshot).audio },
            ..*old(snapshot)
        }) && polled(old(snapshot).audio.source_poll, final(snapshot).audio.source_poll, *observation, now_unix_ms),
        kind == PollKind::PlaybackTargets ==> *final(snapshot) == (SubsystemSnapshot {
            audio: AudioSubsystemSnapshot {
                playback_target_poll: final(snapshot).audio.playback_target_poll,
                ..old(snapshot).audio
            },
            ..*old(snapshot)
        }) && polled(
            old(snapshot).audio.playback_target_poll,
            final(snapshot).audio.playback_target_poll,
            *observation,
            now_unix_ms,
        ),
{
    match kind {
        PollKind::Discovery => record_poll(&mut snapshot.discovery.poll, observation, now_unix_ms),
        PollKind::Receiver => record_poll(&mut snapshot.receiver.poll, observation, now_unix_ms),
        PollKind::Streaming => record_poll(&mut snapshot.streaming.poll, observation, now_unix_ms),
        PollKind::AudioSources => record_poll(&mut snapshot.audio.source_poll, observation, now_unix_ms),
        PollKind::PlaybackTargets => record_poll(&mut snapshot.audio.playback_target_poll, observation, now_unix_ms),
    }
}

/// Counts a refresh request, applied or skipped.
pub fn note_ui_refresh(snapshot: &mut SubsystemSnapshot, applied: bool, now_unix_ms: u64)
    ensures
        *final(snapshot) == (SubsystemSnapshot {
            updated_at_unix_ms: now_unix_ms,
            ui: UiSubsystemSnapshot {
                refresh_requests: sat_inc(old(snapshot).ui.refresh_requests),
                refresh_applied: if applied { sat_inc(old(snapshot).ui.refresh_applied) } else { old(snapshot).ui.refresh_applied },
                refresh_skipped: if applied { old(snapshot).ui.refresh_skipped } else { sat_inc(old(snapshot).ui.refresh_skipped) },
                ..old(snapshot).ui
            },
            ..*old(snapshot)
        }),
{
    snapshot.updated_at_unix_ms = now_unix_ms;
    snapshot.ui.refresh_requests = snapshot.ui.refresh_requests.saturating_add(1);
    if applied {
        snapshot.ui.refresh_applied = snapshot.ui.refresh_applied.saturating_add(1);
    } else {
        snapshot.ui.refresh_skipped = snapshot.ui.refresh_skipped.saturating_add(1);
    }
}

/// Counts a list render: rebuilt, or skipped because nothing changed.
pub fn note_ui_list_render(snapshot: &mut SubsystemSnapshot, rebuilt: bool, row_count: usize, now_unix_ms: u64)
    ensures
        *final(snapshot) == (SubsystemSnapshot {
            updated_at_unix_ms: now_unix_ms,
            ui: UiSubsystemSnapshot {
                last_rendered_row_count: row_count,
                list_rebuilds: if rebuilt { sat_inc(old(snapshot).ui.list_rebuilds) } else { old(snapshot).ui.list_rebuilds },
                list_skips: if rebuilt { old(snapshot).ui.list_skips } else { sat_inc(old(snapshot).ui.list_skips) },
                ..old(snapshot).ui
            },
            ..*old(snapshot)
        }),
{
    snapshot.updated_at_unix_ms = now_unix_ms;
    snapshot.ui.last_rendered_row_count = row_count;
    if rebuilt {
        snapshot.ui.list_rebuilds = snapshot.ui.list_rebuilds.saturating_add(1);
    } else {
        snapshot.ui.list_skips = snapshot.ui.list_skips.saturating_add(1);
    }
}

/// Records the browser join listener's state.
pub fn set_browser_join(
    snapshot: &mut SubsystemSnapshot,
    active: bool,
    join_url: Option<String>,
    requests_served: u64,
    last_error: Option<String>,
    now_unix_ms: u64,
)
    ensures
        *final(snapshot) == (SubsystemSnapshot {
            updated_at_unix_ms: now_unix_ms,
            ui: UiSubsystemSnapshot {
                browser_join_active: active,
                browser_join_url: join_url,
                browser_join_requests_served: requests_served,
                browser_join_last_error: last_error,
                ..old(snapshot).ui
            },
            ..*old(snapshot)
        }),
{
    snapshot.updated_at_unix_ms = now_unix_ms;
    snapshot.ui.browser_join_active = active;
    snapshot.ui.browser_join_url = join_url;
    snapshot.ui.browser_join_requests_served = requests_served;
    snapshot.ui.browser_join_last_error = last_error;
}

/// Whether the snapshot should be written now: when asked to, when it
/// changed since the last write, or when the last write is at least
/// `SNAPSHOT_PERSIST_INTERVAL_MS` old.
pub fn snapshot_persist_due(force: bool, changed: bool, now_unix_ms: u64, last_persisted_at_unix_ms: u64) -> (r: bool)
    ensures
        r == (force || changed || (if now_unix_ms >= last_persisted_at_unix_ms {
            now_unix_ms - last_persisted_at_unix_ms
        } else {
            0
        }) >= SNAPSHOT_PERSIST_INTERVAL_MS),
{
    force || changed || now_unix_ms.saturating_sub(last_persisted_at_unix_ms) >= SNAPSHOT_PERSIST_INTERVAL_MS
}

} // verus!
