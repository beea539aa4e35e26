//! The application's shared state: its configuration, the latest snapshots
//! of the receiver and sender, the sources and targets on offer, and the
//! devices found on the network.

use vstd::prelude::*;
use crate::audio::CaptureState;
use crate::config::{AppConfig, AppConfigView, AudioConfigView, ReceiverConfigView, TransportConfigView, UiConfigView};
use crate::diagnostics::{DiagnosticEvent, DiagnosticEventView};
use crate::models::{
    AudioSource, AudioSourceKind, AudioSourceView, DeviceId, DeviceStatus, DiscoveredDevice,
    DiscoveredDeviceView, DiscoveryEvent, DiscoverySnapshot, PlaybackTarget, PlaybackTargetView,
    QualityPreset, clone_opt_string, device_views, opt_string_view, source_views, target_views,
};
use crate::receiver::{
    ReceiverLatencyPreset, ReceiverServiceState, ReceiverSnapshot, ReceiverSnapshotView,
    ReceiverSyncSnapshot, seeded_buffer, snapshot_from_config, spec_profile,
};
use crate::seqs::{any_index, find_first, first_index, is_first_index, lemma_first_exists, lemma_first_index_is, lemma_no_index};
use crate::streaming::{
    LocalMirrorSnapshot, LocalMirrorSnapshotView, LocalMirrorState, StreamMetrics,
    StreamSessionSnapshot, StreamSessionSnapshotView, StreamSessionState,
};

verus! {

#[derive(Debug, Clone, Copy, PartialEq, Eq, Structural)]
pub enum CastSessionState {
    Idle,
    Preparing,
    Casting,
    Stopping,
    Error,
}

/// What the device list shows of one discovered device.
#[derive(Debug, PartialEq, Eq)]
pub struct DeviceState {
    pub id: DeviceId,
    pub display_name: String,
    pub status: DeviceStatus,
}

pub struct DeviceStateView {
    pub id: Seq<char>,
    pub display_name: Seq<char>,
    pub status: DeviceStatus,
}

impl View for DeviceState {
    type V = DeviceStateView;

    open spec fn view(&self) -> DeviceStateView {
        DeviceStateView { id: self.id@, display_name: self.display_name@, status: self.status }
    }
}

impl Clone for DeviceState {
    fn clone(&self) -> (r: Self)
        ensures
            r@ == self@,
    {
        DeviceState { id: self.id.clone(), display_name: self.display_name.clone(), status: self.status }
    }
}

pub open spec fn device_state_of(d: DiscoveredDeviceView) -> DeviceStateView {
    DeviceStateView { id: d.id, display_name: d.display_name, status: d.status }
}

pub open spec fn state_views(s: Seq<DeviceState>) -> Seq<DeviceStateView> {
    s.map_values(|d: DeviceState| d@)
}

pub open spec fn diagnostic_views(s: Seq<DiagnosticEvent>) -> Seq<DiagnosticEventView> {
    s.map_values(|e: DiagnosticEvent| e@)
}

#[derive(Debug, Clone, PartialEq, Eq)]
pub struct AppState {
    pub config: AppConfig,
    pub cast_session: CastSessionState,
    pub capture_state: CaptureState,
    pub receiver: ReceiverSnapshot,
    pub streaming: StreamSessionSnapshot,
    pub selected_receiver_device_id: Option<DeviceId>,
    pub audio_sources: Vec<AudioSource>,
    pub selected_audio_source_id: Option<String>,
    pub playback_targets: Vec<PlaybackTarget>,
    pub devices: Vec<DeviceState>,
    pub discovered_devices: Vec<DiscoveredDevice>,
    pub diagnostics: Vec<DiagnosticEvent>,
}

pub struct AppStateView {
    pub config: AppConfigView,
    pub cast_session: CastSessionState,
    pub capture_state: CaptureState,
    pub receiver: ReceiverSnapshotView,
    pub streaming: StreamSessionSnapshotView,
    pub selected_receiver_device_id: Option<Seq<char>>,
    pub audio_sources: Seq<AudioSourceView>,
    pub selected_audio_source_id: Option<Seq<char>>,
    pub playback_targets: Seq<PlaybackTargetView>,
    pub devices: Seq<DeviceStateView>,
    pub discovered_devices: Seq<DiscoveredDeviceView>,
    pub diagnostics: Seq<DiagnosticEventView>,
}

pub open spec fn opt_id_view(o: Option<DeviceId>) -> Option<Seq<char>> {
    match o {
        Some(id) => Some(id@),
        None => None,
    }
}

impl View for AppState {
    type V = AppStateView;

    open spec fn view(&self) -> AppStateView {
        AppStateView {
            config: self.config@,
            cast_session: self.cast_session,
            capture_state: self.capture_state,
            receiver: self.receiver@,
            streaming: self.streaming@,
            selected_receiver_device_id: opt_id_view(self.selected_receiver_device_id),
            audio_sources: source_views(self.audio_sources@),
            selected_audio_source_id: opt_string_view(self.selected_audio_source_id),
            playback_targets: target_views(self.playback_targets@),
            devices: state_views(self.devices@),
            discovered_devices: device_views(self.discovered_devices@),
            diagnostics: diagnostic_views(self.diagnostics@),
        }
    }
}

pub open spec fn startup_message() -> Seq<char> {
    "Project scaffold initialized; audio capture is ready for backend enumeration."@
}

/// The local mirror a configuration asks for before any session ran.
pub open spec fn initial_mirror(audio: AudioConfigView) -> LocalMirrorSnapshotView {
    LocalMirrorSnapshotView {
        desired_enabled: audio.local_playback_enabled,
        playback_target_id: audio.local_playback_target_id,
        state: if audio.local_playback_enabled {
            LocalMirrorState::Idle
        } else {
            LocalMirrorState::Disabled
        },
        ..LocalMirrorSnapshot::spec_default()
    }
}

/// The state of a freshly started application, up to its diagnostics log.
pub open spec fn initial_state(config: AppConfigView, diagnostics: Seq<DiagnosticEventView>) -> AppStateView {
    AppStateView {
        config,
        cast_session: CastSessionState::Idle,
        capture_state: CaptureState::Idle,
        receiver: snapshot_from_config(config.receiver),
        streaming: StreamSessionSnapshotView {
            state: StreamSessionState::Idle,
            session_id: None,
            stream: None,
            targets: Seq::empty(),
            local_mirror: initial_mirror(config.audio),
            metrics: StreamMetrics::spec_default(),
            last_error: None,
        },
        selected_receiver_device_id: None,
        audio_sources: Seq::empty(),
        selected_audio_source_id: config.audio.preferred_source_id,
        playback_targets: Seq::empty(),
        devices: Seq::empty(),
        discovered_devices: Seq::empty(),
        diagnostics,
    }
}

pub open spec fn with_config(st: AppStateView, config: AppConfigView) -> AppStateView {
    AppStateView { config, ..st }
}

/// The session state shown for a sender session state.
pub open spec fn cast_state_of(state: StreamSessionState) -> CastSessionState {
    match state {
        StreamSessionState::Idle => CastSessionState::Idle,
        StreamSessionState::Connecting => CastSessionState::Preparing,
        StreamSessionState::Negotiating => CastSessionState::Preparing,
        StreamSessionState::Streaming => CastSessionState::Casting,
        StreamSessionState::Stopping => CastSessionState::Stopping,
        StreamSessionState::Error => CastSessionState::Error,
    }
}

/// A default monitor source.
pub open spec fn default_monitor() -> spec_fn(AudioSourceView) -> bool {
    |a: AudioSourceView| a.is_default && a.kind == AudioSourceKind::Monitor
}

/// A default source of any kind.
pub open spec fn default_any() -> spec_fn(AudioSourceView) -> bool {
    |a: AudioSourceView| a.is_default
}

/// A source whose identifier is `id`.
pub open spec fn source_with_id(id: Seq<char>) -> spec_fn(AudioSourceView) -> bool {
    |a: AudioSourceView| a.id == id
}

pub open spec fn first_source_id(s: Seq<AudioSourceView>) -> Option<Seq<char>> {
    if s.len() > 0 {
        Some(s[0].id)
    } else {
        None
    }
}

/// The source picked when none is selected: the first default monitor, else
/// the first default source, else the first source.
pub open spec fn default_source_choice(s: Seq<AudioSourceView>) -> Option<Seq<char>> {
    match find_first(s, default_monitor()) {
        Some(a) => Some(a.id),
        None => match find_first(s, default_any()) {
            Some(a) => Some(a.id),
            None => first_source_id(s),
        },
    }
}

/// The source picked when none is selected (see `default_source_choice`).
pub open spec fn default_source(s: Seq<AudioSourceView>) -> Option<AudioSourceView> {
    match find_first(s, default_monitor()) {
        Some(a) => Some(a),
        None => match find_first(s, default_any()) {
            Some(a) => Some(a),
            None => if s.len() > 0 { Some(s[0]) } else { None },
        },
    }
}

/// The selection kept or picked before it is checked against the list.
pub open spec fn proposed_source(selected: Option<Seq<char>>, s: Seq<AudioSourceView>) -> Option<Seq<char>> {
    if selected is None {
        default_source_choice(s)
    } else {
        selected
    }
}

/// Whether the proposed selection names a source that is not on the list.
pub open spec fn selection_lost(selected: Option<Seq<char>>, s: Seq<AudioSourceView>) -> bool {
    match proposed_source(selected, s) {
        Some(id) => !any_index(s, source_with_id(id)),
        None => false,
    }
}

/// The selection after a new source list arrives.
pub open spec fn selection_after_sources(selected: Option<Seq<char>>, s: Seq<AudioSourceView>) -> Option<Seq<char>> {
    if selection_lost(selected, s) {
        first_source_id(s)
    } else {
        proposed_source(selected, s)
    }
}

pub open spec fn after_sources(st: AppStateView, s: Seq<AudioSourceView>) -> AppStateView {
    let selected = selection_after_sources(st.selected_audio_source_id, s);
    AppStateView {
        selected_audio_source_id: selected,
        capture_state: if selection_lost(st.selected_audio_source_id, s) {
            CaptureState::SourceChanged
        } else {
            st.capture_state
        },
        config: AppConfigView {
            audio: AudioConfigView { preferred_source_id: selected, ..st.config.audio },
            ..st.config
        },
        audio_sources: s,
        ..st
    }
}

pub open spec fn after_source_selected(st: AppStateView, id: Seq<char>) -> AppStateView {
    AppStateView {
        selected_audio_source_id: Some(id),
        capture_state: CaptureState::SourceChanged,
        config: AppConfigView {
            audio: AudioConfigView { preferred_source_id: Some(id), ..st.config.audio },
            ..st.config
        },
        ..st
    }
}

/// A playback target whose identifier is `id`.
pub open spec fn target_with_id(id: Seq<char>) -> spec_fn(PlaybackTargetView) -> bool {
    |t: PlaybackTargetView| t.id == id
}

/// A selected target is available when it is listed; no selection is the
/// system default, which always is.
pub open spec fn target_available(selected: Option<Seq<char>>, targets: Seq<PlaybackTargetView>) -> bool {
    match selected {
        Some(id) => any_index(targets, target_with_id(id)),
        None => true,
    }
}

pub open spec fn opt_target_ref_view(r: Option<&PlaybackTarget>) -> Option<PlaybackTargetView> {
    match r {
        Some(t) => Some(t@),
        None => None,
    }
}

/// The mirror state an idle session shows for a local playback wish.
pub open spec fn idle_mirror_state(enabled: bool) -> LocalMirrorState {
    if enabled {
        LocalMirrorState::Idle
    } else {
        LocalMirrorState::Disabled
    }
}

pub open spec fn after_local_playback(st: AppStateView, enabled: bool) -> AppStateView {
    AppStateView {
        config: AppConfigView {
            audio: AudioConfigView { local_playback_enabled: enabled, ..st.config.audio },
            ..st.config
        },
        streaming: StreamSessionSnapshotView {
            local_mirror: LocalMirrorSnapshotView {
                desired_enabled: enabled,
                state: if st.streaming.state == StreamSessionState::Idle {
                    idle_mirror_state(enabled)
                } else {
                    st.streaming.local_mirror.state
                },
                ..st.streaming.local_mirror
            },
            ..st.streaming
        },
        ..st
    }
}

pub open spec fn after_latency_preset(st: AppStateView, preset: ReceiverLatencyPreset) -> AppStateView {
    AppStateView {
        config: AppConfigView {
            receiver: ReceiverConfigView { latency_preset: preset, ..st.config.receiver },
            ..st.config
        },
        receiver: if st.receiver.state == ReceiverServiceState::Idle {
            ReceiverSnapshotView {
                latency_preset: preset,
                buffer: seeded_buffer(preset),
                sync: ReceiverSyncSnapshot::spec_from_profile(spec_profile(preset)),
                ..st.receiver
            }
        } else {
            ReceiverSnapshotView { latency_preset: preset, ..st.receiver }
        },
        ..st
    }
}


/// A device that can take a stream now: it receives and has an endpoint.
pub open spec fn receiver_candidate() -> spec_fn(DiscoveredDeviceView) -> bool {
    |d: DiscoveredDeviceView| d.capabilities.supports_receiver && d.endpoint is Some
}

/// A device with identifier `id` that can take a stream now.
pub open spec fn usable_receiver(id: Seq<char>) -> spec_fn(DiscoveredDeviceView) -> bool {
    |d: DiscoveredDeviceView| d.id == id && d.capabilities.supports_receiver && d.endpoint is Some
}

/// A device with identifier `id` that receives, with or without endpoint.
pub open spec fn selectable_receiver(id: Seq<char>) -> spec_fn(DiscoveredDeviceView) -> bool {
    |d: DiscoveredDeviceView| d.id == id && d.capabilities.supports_receiver
}

pub open spec fn device_with_id(id: Seq<char>) -> spec_fn(DiscoveredDeviceView) -> bool {
    |d: DiscoveredDeviceView| d.id == id
}

pub open spec fn state_with_id(id: Seq<char>) -> spec_fn(DeviceStateView) -> bool {
    |d: DeviceStateView| d.id == id
}

pub open spec fn other_device(id: Seq<char>) -> spec_fn(DiscoveredDeviceView) -> bool {
    |d: DiscoveredDeviceView| d.id != id
}

pub open spec fn other_state(id: Seq<char>) -> spec_fn(DeviceStateView) -> bool {
    |d: DeviceStateView| d.id != id
}

pub open spec fn device_state_map() -> spec_fn(DiscoveredDeviceView) -> DeviceStateView {
    |d: DiscoveredDeviceView| device_state_of(d)
}

/// The selected receiver after the device list changed: kept while it is
/// still usable, else the first usable device, else none.
pub open spec fn reconciled_receiver(selected: Option<Seq<char>>, devices: Seq<DiscoveredDeviceView>) -> Option<Seq<char>> {
    if selected is Some && any_index(devices, usable_receiver(selected->0)) {
        selected
    } else {
        match find_first(devices, receiver_candidate()) {
            Some(d) => Some(d.id),
            None => None,
        }
    }
}

/// `s` with `d` in place of the first entry of the same identifier, or with
/// `d` appended when there is none.
pub open spec fn upserted_devices(s: Seq<DiscoveredDeviceView>, d: DiscoveredDeviceView) -> Seq<DiscoveredDeviceView> {
    if any_index(s, device_with_id(d.id)) {
        s.update(first_index(s, device_with_id(d.id)), d)
    } else {
        s.push(d)
    }
}

pub open spec fn upserted_states(s: Seq<DeviceStateView>, d: DeviceStateView) -> Seq<DeviceStateView> {
    if any_index(s, state_with_id(d.id)) {
        s.update(first_index(s, state_with_id(d.id)), d)
    } else {
        s.push(d)
    }
}

pub open spec fn with_device_lists(
    st: AppStateView,
    discovered: Seq<DiscoveredDeviceView>,
    devices: Seq<DeviceStateView>,
) -> AppStateView {
    AppStateView {
        discovered_devices: discovered,
        devices,
        selected_receiver_device_id: reconciled_receiver(st.selected_receiver_device_id, discovered),
        ..st
    }
}

pub open spec fn after_discovery_snapshot(st: AppStateView, devices: Seq<DiscoveredDeviceView>) -> AppStateView {
    with_device_lists(st, devices, devices.map_values(device_state_map()))
}

pub open spec fn after_upsert(st: AppStateView, d: DiscoveredDeviceView) -> AppStateView {
    with_device_lists(
        st,
        upserted_devices(st.discovered_devices, d),
        upserted_states(st.devices, device_state_of(d)),
    )
}

pub open spec fn after_discovery_event(st: AppStateView, event: DiscoveryEvent) -> AppStateView {
    match event {
        DiscoveryEvent::DeviceDiscovered(d) => after_upsert(st, d@),
        DiscoveryEvent::DeviceUpdated(d) => after_upsert(st, d@),
        DiscoveryEvent::DeviceExpired(d) => after_upsert(st, d@),
        DiscoveryEvent::DeviceRemoved { device_id, .. } => with_device_lists(
            st,
            st.discovered_devices.filter(other_device(device_id@)),
            st.devices.filter(other_state(device_id@)),
        ),
    }
}

/// The device list shows exactly the discovered devices, in order.
pub open spec fn devices_mirror_discovery(st: AppStateView) -> bool {
    st.devices == st.discovered_devices.map_values(device_state_map())
}

/// No two discovered devices share an identifier.
pub open spec fn ids_unique(s: Seq<DiscoveredDeviceView>) -> bool {
    forall|i: int, j: int| 0 <= i < j < s.len() ==> #[trigger] s[i].id != #[trigger] s[j].id
}

/// Index of the first source satisfying the default-monitor rule (or the
/// default rule, when `monitor_only` is false).
fn first_default_source(sources: &Vec<AudioSource>, monitor_only: bool) -> (r: Option<usize>)
    ensures
        monitor_only ==> match r {
            Some(i) => is_first_index(source_views(sources@), default_monitor(), i as int),
            None => !any_index(source_views(sources@), default_monitor()),
        },
        !monitor_only ==> match r {
            Some(i) => is_first_index(source_views(sources@), default_any(), i as int),
            None => !any_index(source_views(sources@), default_any()),
        },
{
    let ghost views = source_views(sources@);
    let ghost p = if monitor_only { default_monitor() } else { default_any() };
    let mut i: usize = 0;
    while i < sources.len()
        invariant
            i <= sources@.len(),
            views == source_views(sources@),
            p == (if monitor_only { default_monitor() } else { default_any() }),
            forall|j: int| 0 <= j < i ==> !p(#[trigger] views[j]),
        decreases sources@.len() - i,
    {
        let source = &sources[i];
        assert(views[i as int] == source@);
        if source.is_default && (!monitor_only || source.kind == AudioSourceKind::Monitor) {
            return Some(i);
        }
        i = i + 1;
    }
    None
}

/// Index of the first source whose identifier is `id`.
fn source_position(sources: &Vec<AudioSource>, id: &String) -> (r: Option<usize>)
    ensures
        match r {
            Some(i) => is_first_index(source_views(sources@), source_with_id(id@), i as int),
            None => !any_index(source_views(sources@), source_with_id(id@)),
        },
{
    let ghost views = source_views(sources@);
    let mut i: usize = 0;
    while i < sources.len()
        invariant
            i <= sources@.len(),
            views == source_views(sources@),
            forall|j: int| 0 <= j < i ==> !source_with_id(id@)(#[trigger] views[j]),
        decreases sources@.len() - i,
    {
        assert(views[i as int] == sources@[i as int]@);
        if sources[i].id == *id {
            return Some(i);
        }
        i = i + 1;
    }
    None
}

/// Index of the first target whose identifier is `id`.
fn target_position(targets: &Vec<PlaybackTarget>, id: &str) -> (r: Option<usize>)
    ensures
        match r {
            Some(i) => is_first_index(target_views(targets@), target_with_id(id@), i as int),
            None => !any_index(target_views(targets@), target_with_id(id@)),
        },
{
    let ghost views = target_views(targets@);
    let wanted = id.to_owned();
    let mut i: usize = 0;
    while i < targets.len()
        invariant
            i <= targets@.len(),
            views == target_views(targets@),
            wanted@ == id@,
            forall|j: int| 0 <= j < i ==> !target_with_id(id@)(#[trigger] views[j]),
        decreases targets@.len() - i,
    {
        assert(views[i as int] == targets@[i as int]@);
        if targets[i].id == wanted {
            return Some(i);
        }
        i = i + 1;
    }
    None
}


/// Index of the first discovered device with identifier `id`.
fn discovered_position(list: &Vec<DiscoveredDevice>, id: &DeviceId) -> (r: Option<usize>)
    ensures
        match r {
            Some(i) => is_first_index(device_views(list@), device_with_id(id@), i as int),
            None => !any_index(device_views(list@), device_with_id(id@)),
        },
{
    let ghost views = device_views(list@);
    let mut i: usize = 0;
    while i < list.len()
        invariant
            i <= list@.len(),
            views == device_views(list@),
            forall|j: int| 0 <= j < i ==> !device_with_id(id@)(#[trigger] views[j]),
        decreases list@.len() - i,
    {
        assert(views[i as int] == list@[i as int]@);
        if list[i].id.same_as(id) {
            return Some(i);
        }
        i = i + 1;
    }
    None
}

/// Index of the first device-list entry with identifier `id`.
fn state_position(list: &Vec<DeviceState>, id: &DeviceId) -> (r: Option<usize>)
    ensures
        match r {
            Some(i) => is_first_index(state_views(list@), state_with_id(id@), i as int),
            None => !any_index(state_views(list@), state_with_id(id@)),
        },
{
    let ghost views = state_views(list@);
    let mut i: usize = 0;
    while i < list.len()
        invariant
            i <= list@.len(),
            views == state_views(list@),
            forall|j: int| 0 <= j < i ==> !state_with_id(id@)(#[trigger] views[j]),
        decreases list@.len() - i,
    {
        assert(views[i as int] == list@[i as int]@);
        if list[i].id.same_as(id) {
            return Some(i);
        }
        i = i + 1;
    }
    None
}

/// Index of the first device that can take a stream now.
fn first_usable_receiver(list: &Vec<DiscoveredDevice>) -> (r: Option<usize>)
    ensures
        match r {
            Some(i) => is_first_index(device_views(list@), receiver_candidate(), i as int),
            None => !any_index(device_views(list@), receiver_candidate()),
        },
{
    let ghost views = device_views(list@);
    let mut i: usize = 0;
    while i < list.len()
        invariant
            i <= list@.len(),
            views == device_views(list@),
            forall|j: int| 0 <= j < i ==> !receiver_candidate()(#[trigger] views[j]),
        decreases list@.len() - i,
    {
        assert(views[i as int] == list@[i as int]@);
        if list[i].capabilities.supports_receiver && list[i].endpoint.is_some() {
            return Some(i);
        }
        i = i + 1;
    }
    None
}

/// Whether `id` names a listed device that receives (and, when
/// `need_endpoint`, has an endpoint).
fn lists_receiver(list: &Vec<DiscoveredDevice>, id: &DeviceId, need_endpoint: bool) -> (r: bool)
    ensures
        need_endpoint ==> r == any_index(device_views(list@), usable_receiver(id@)),
        !need_endpoint ==> r == any_index(device_views(list@), selectable_receiver(id@)),
{
    let ghost views = device_views(list@);
    let ghost p = if need_endpoint { usable_receiver(id@) } else { selectable_receiver(id@) };
    let mut i: usize = 0;
    while i < list.len()
        invariant
            i <= list@.len(),
            views == device_views(list@),
            p == (if need_endpoint { usable_receiver(id@) } else { selectable_receiver(id@) }),
            forall|j: int| 0 <= j < i ==> !p(#[trigger] views[j]),
        decreases list@.len() - i,
    {
        let device = &list[i];
        assert(views[i as int] == device@);
        if device.id.same_as(id) && device.capabilities.supports_receiver && (!need_endpoint
            || device.endpoint.is_some()) {
            return true;
        }
        i = i + 1;
    }
    false
}

/// The discovered devices whose identifier is not `id`, in order.
fn discovered_without(list: &Vec<DiscoveredDevice>, id: &DeviceId) -> (r: Vec<DiscoveredDevice>)
    ensures
        device_views(r@) == device_views(list@).filter(other_device(id@)),
{
    let ghost views = device_views(list@);
    let mut kept: Vec<DiscoveredDevice> = Vec::new();
    let mut i: usize = 0;
    while i < list.len()
        invariant
            i <= list@.len(),
            views == device_views(list@),
            device_views(kept@) == views.subrange(0, i as int).filter(other_device(id@)),
        decreases list@.len() - i,
    {
        proof {
            assert(views.subrange(0, i + 1) =~= views.subrange(0, i as int).push(views[i as int]));
            views.subrange(0, i as int).lemma_filter_push(views[i as int], other_device(id@));
        }
        if !list[i].id.same_as(id) {
            let ghost before = kept@;
            kept.push(list[i].clone());
            assert(device_views(kept@) =~= device_views(before).push(list@[i as int]@));
        }
        i = i + 1;
    }
    assert(views.subrange(0, list@.len() as int) =~= views);
    kept
}

/// The device-list entries whose identifier is not `id`, in order.
fn states_without(list: &Vec<DeviceState>, id: &DeviceId) -> (r: Vec<DeviceState>)
    ensures
        state_views(r@) == state_views(list@).filter(other_state(id@)),
{
    let ghost views = state_views(list@);
    let mut kept: Vec<DeviceState> = Vec::new();
    let mut i: usize = 0;
    while i < list.len()
        invariant
            i <= list@.len(),
            views == state_views(list@),
            state_views(kept@) == views.subrange(0, i as int).filter(other_state(id@)),
        decreases list@.len() - i,
    {
        proof {
            assert(views.subrange(0, i + 1) =~= views.subrange(0, i as int).push(views[i as int]));
            views.subrange(0, i as int).lemma_filter_push(views[i as int], other_state(id@));
        }
        if !list[i].id.same_as(id) {
            let ghost before = kept@;
            kept.push(list[i].clone());
            assert(state_views(kept@) =~= state_views(before).push(list@[i as int]@));
        }
        i = i + 1;
    }
    assert(views.subrange(0, list@.len() as int) =~= views);
    kept
}

/// The device-list entry shown for a discovered device.
fn device_state_for(device: &DiscoveredDevice) -> (r: DeviceState)
    ensures
        r@ == device_state_of(device@),
{
    DeviceState {
        id: device.id.clone(),
        display_name: device.display_name.clone(),
        status: device.status,
    }
}

/// The position of the source picked when none is selected.
pub fn default_source_position(sources: &Vec<AudioSource>) -> (r: Option<usize>)
    ensures
        match r {
            Some(i) => i < sources@.len() && default_source_choice(source_views(sources@)) == Some(
                source_views(sources@)[i as int].id,
            ) && default_source(source_views(sources@)) == Some(source_views(sources@)[i as int]),
            None => default_source_choice(source_views(sources@)) is None
                && default_source(source_views(sources@)) is None,
        },
{
    let ghost views = source_views(sources@);
    match first_default_source(sources, true) {
        Some(i) => {
            proof { lemma_first_index_is(views, default_monitor(), i as int); }
            Some(i)
        },
        None => {
            proof { lemma_no_index(views, default_monitor()); }
            match first_default_source(sources, false) {
                Some(i) => {
                    proof { lemma_first_index_is(views, default_any(), i as int); }
                    Some(i)
                },
                None => {
                    proof { lemma_no_index(views, default_any()); }
                    if sources.len() > 0 {
                        Some(0)
                    } else {
                        None
                    }
                },
            }
        },
    }
}

impl AppState {
    pub fn set_audio_sources(&mut self, sources: Vec<AudioSource>)
        ensures
            final(self)@ == after_sources(old(self)@, source_views(sources@)),
    {
        let ghost views = source_views(sources@);
        if self.selected_audio_source_id.is_none() {
            let pick = match first_default_source(&sources, true) {
                Some(i) => {
                    proof { lemma_first_index_is(views, default_monitor(), i as int); }
                    Some(i)
                },
                None => {
                    proof { lemma_no_index(views, default_monitor()); }
                    match first_default_source(&sources, false) {
                        Some(i) => {
                            proof { lemma_first_index_is(views, default_any(), i as int); }
                            Some(i)
                        },
                        None => {
                            proof { lemma_no_index(views, default_any()); }
                            if sources.len() > 0 {
                                Some(0)
                            } else {
                                None
                            }
                        },
                    }
                },
            };
            self.selected_audio_source_id = match pick {
                Some(i) => Some(sources[i].id.clone()),
                None => None,
            };
        }
        assert(opt_string_view(self.selected_audio_source_id) == proposed_source(
            old(self)@.selected_audio_source_id,
            views,
        ));
        let listed = match &self.selected_audio_source_id {
            Some(selected_id) => source_position(&sources, selected_id).is_some(),
            None => true,
        };
        if !listed {
            self.selected_audio_source_id = if sources.len() > 0 {
                Some(sources[0].id.clone())
            } else {
                None
            };
            self.capture_state = CaptureState::SourceChanged;
        }
        self.config.audio.preferred_source_id = clone_opt_string(&self.selected_audio_source_id);
        self.audio_sources = sources;
    }

    /// Selects a listed source; an unknown identifier changes nothing.
    pub fn select_audio_source(&mut self, source_id: &str) -> (r: bool)
        ensures
            r == any_index(old(self)@.audio_sources, source_with_id(source_id@)),
            r ==> final(self)@ == after_source_selected(old(self)@, source_id@),
            !r ==> final(self)@ == old(self)@,
    {
        let source_id = source_id.to_owned();
        if source_position(&self.audio_sources, &source_id).is_none() {
            return false;
        }
        self.selected_audio_source_id = Some(source_id.clone());
        self.config.audio.preferred_source_id = Some(source_id);
        self.capture_state = CaptureState::SourceChanged;
        true
    }

    pub fn set_local_playback_enabled(&mut self, enabled: bool)
        ensures
            final(self)@ == after_local_playback(old(self)@, enabled),
    {
        self.config.audio.local_playback_enabled = enabled;
        self.streaming.local_mirror.desired_enabled = enabled;
        if self.streaming.state == StreamSessionState::Idle {
            self.streaming.local_mirror.state = if enabled {
                LocalMirrorState::Idle
            } else {
                LocalMirrorState::Disabled
            };
        }
    }

    /// Changes the receiver's latency preset; an idle receiver also takes the
    /// buffer and synchronisation targets of the new preset.
    pub fn set_receiver_latency_preset(&mut self, preset: ReceiverLatencyPreset)
        ensures
            final(self)@ == after_latency_preset(old(self)@, preset),
    {
        self.config.receiver.latency_preset = preset;
        self.receiver.latency_preset = preset;
        if self.receiver.state == ReceiverServiceState::Idle {
            let seeded = ReceiverSnapshot::from_config(&self.config.receiver);
            self.receiver.buffer = seeded.buffer;
            self.receiver.sync = seeded.sync;
        }
    }

    pub fn select_local_playback_target(&mut self, target_id: Option<String>) -> (r: bool)
        ensures
            r,
            final(self)@ == (AppStateView {
                config: AppConfigView {
                    audio: AudioConfigView {
                        local_playback_target_id: opt_string_view(target_id),
                        ..old(self)@.config.audio
                    },
                    ..old(self)@.config
                },
                streaming: StreamSessionSnapshotView {
                    local_mirror: LocalMirrorSnapshotView {
                        playback_target_id: opt_string_view(target_id),
                        ..old(self)@.streaming.local_mirror
                    },
                    ..old(self)@.streaming
                },
                ..old(self)@
            }),
    {
        self.config.audio.local_playback_target_id = clone_opt_string(&target_id);
        self.streaming.local_mirror.playback_target_id = target_id;
        true
    }

    pub fn select_receiver_playback_target(&mut self, target_id: Option<String>) -> (r: bool)
        ensures
            r,
            final(self)@ == (AppStateView {
                config: AppConfigView {
                    receiver: ReceiverConfigView {
                        playback_target_id: opt_string_view(target_id),
                        ..old(self)@.config.receiver
                    },
                    ..old(self)@.config
                },
                receiver: ReceiverSnapshotView {
                    playback_target_id: opt_string_view(target_id),
                    ..old(self)@.receiver
                },
                ..old(self)@
            }),
    {
        self.config.receiver.playback_target_id = clone_opt_string(&target_id);
        self.receiver.playback_target_id = target_id;
        true
    }

    /// The first listed target with the given identifier.
    pub fn playback_target(&self, target_id: &str) -> (r: Option<&PlaybackTarget>)
        ensures
            opt_target_ref_view(r) == find_first(self@.playback_targets, target_with_id(target_id@)),
    {
        match target_position(&self.playback_targets, target_id) {
            Some(i) => {
                proof {
                    lemma_first_index_is(self@.playback_targets, target_with_id(target_id@), i as int);
                }
                Some(&self.playback_targets[i])
            },
            None => {
                proof {
                    assert forall|j: int| 0 <= j < self@.playback_targets.len() implies !target_with_id(target_id@)(#[trigger] self@.playback_targets[j]) by {
                        if target_with_id(target_id@)(self@.playback_targets[j]) {
                            assert(any_index(self@.playback_targets, target_with_id(target_id@)));
                        }
                    }
                    lemma_no_index(self@.playback_targets, target_with_id(target_id@));
                }
                None
            },
        }
    }

    pub fn selected_playback_target_available(&self, target_id: Option<&str>) -> (r: bool)
        ensures
            r == match target_id {
                Some(id) => any_index(self@.playback_targets, target_with_id(id@)),
                None => true,
            },
    {
        match target_id {
            Some(id) => target_position(&self.playback_targets, id).is_some(),
            None => true,
        }
    }

    pub fn local_playback_target_available(&self) -> (r: bool)
        ensures
            r == target_available(self@.config.audio.local_playback_target_id, self@.playback_targets),
    {
        match &self.config.audio.local_playback_target_id {
            Some(id) => self.selected_playback_target_available(Some(id.as_str())),
            None => self.selected_playback_target_available(None),
        }
    }

    pub fn receiver_playback_target_available(&self) -> (r: bool)
        ensures
            r == target_available(self@.config.receiver.playback_target_id, self@.playback_targets),
    {
        match &self.config.receiver.playback_target_id {
            Some(id) => self.selected_playback_target_available(Some(id.as_str())),
            None => self.selected_playback_target_available(None),
        }
    }

    /// Selects a discovered receiving device; any other identifier changes
    /// nothing.
    pub fn select_receiver_device(&mut self, device_id: DeviceId) -> (r: bool)
        ensures
            r == any_index(old(self)@.discovered_devices, selectable_receiver(device_id@)),
            r ==> final(self)@ == (AppStateView {
                selected_receiver_device_id: Some(device_id@),
                ..old(self)@
            }),
            !r ==> final(self)@ == old(self)@,
    {
        if !lists_receiver(&self.discovered_devices, &device_id, false) {
            return false;
        }
        self.selected_receiver_device_id = Some(device_id);
        true
    }

    pub fn apply_discovery_snapshot(&mut self, snapshot: DiscoverySnapshot)
        ensures
            final(self)@ == after_discovery_snapshot(old(self)@, device_views(snapshot.devices@)),
    {
        self.discovered_devices = snapshot.devices;
        let mut devices: Vec<DeviceState> = Vec::new();
        let ghost views = device_views(self.discovered_devices@);
        let mut i: usize = 0;
        while i < self.discovered_devices.len()
            invariant
                i <= self.discovered_devices@.len(),
                views == device_views(self.discovered_devices@),
                state_views(devices@) == views.subrange(0, i as int).map_values(device_state_map()),
            decreases self.discovered_devices@.len() - i,
        {
            let ghost before = devices@;
            devices.push(device_state_for(&self.discovered_devices[i]));
            assert(views[i as int] == self.discovered_devices@[i as int]@);
            assert(state_views(devices@) =~= state_views(before).push(device_state_of(views[i as int])));
            assert(views.subrange(0, i + 1).map_values(device_state_map()) =~= views.subrange(
                0,
                i as int,
            ).map_values(device_state_map()).push(device_state_map()(views[i as int])));
            i = i + 1;
        }
        assert(views.subrange(0, views.len() as int) =~= views);
        self.devices = devices;
        self.reconcile_selected_receiver();
    }

    pub fn apply_discovery_event(&mut self, event: DiscoveryEvent)
        ensures
            final(self)@ == after_discovery_event(old(self)@, event),
    {
        match event {
            DiscoveryEvent::DeviceDiscovered(device) | DiscoveryEvent::DeviceUpdated(device) => {
                self.upsert_discovered_device(device);
            },
            DiscoveryEvent::DeviceRemoved { device_id, .. } => {
                self.discovered_devices = discovered_without(&self.discovered_devices, &device_id);
                self.devices = states_without(&self.devices, &device_id);
            },
            DiscoveryEvent::DeviceExpired(device) => {
                self.upsert_discovered_device(device);
            },
        }
        self.reconcile_selected_receiver();
    }

    fn upsert_discovered_device(&mut self, device: DiscoveredDevice)
        ensures
            final(self)@ == (AppStateView {
                discovered_devices: upserted_devices(old(self)@.discovered_devices, device@),
                devices: upserted_states(old(self)@.devices, device_state_of(device@)),
                ..old(self)@
            }),
    {
        let ghost old_views = device_views(self.discovered_devices@);
        match discovered_position(&self.discovered_devices, &device.id) {
            Some(i) => {
                proof { lemma_first_index_is(old_views, device_with_id(device@.id), i as int); }
                self.discovered_devices[i] = device.clone();
                assert(device_views(self.discovered_devices@) =~= old_views.update(i as int, device@));
            },
            None => {
                self.discovered_devices.push(device.clone());
                assert(device_views(self.discovered_devices@) =~= old_views.push(device@));
            },
        }
        let device_state = device_state_for(&device);
        let ghost old_states = state_views(self.devices@);
        match state_position(&self.devices, &device.id) {
            Some(i) => {
                proof { lemma_first_index_is(old_states, state_with_id(device@.id), i as int); }
                self.devices[i] = device_state;
                assert(state_views(self.devices@) =~= old_states.update(i as int, device_state_of(device@)));
            },
            None => {
                self.devices.push(device_state);
                assert(state_views(self.devices@) =~= old_states.push(device_state_of(device@)));
            },
        }
    }

    fn reconcile_selected_receiver(&mut self)
        ensures
            final(self)@ == (AppStateView {
                selected_receiver_device_id: reconciled_receiver(
                    old(self)@.selected_receiver_device_id,
                    old(self)@.discovered_devices,
                ),
                ..old(self)@
            }),
    {
        let selected_is_valid = match &self.selected_receiver_device_id {
            Some(selected_id) => lists_receiver(&self.discovered_devices, selected_id, true),
            None => false,
        };
        if selected_is_valid {
            return;
        }
        let ghost views = device_views(self.discovered_devices@);
        self.selected_receiver_device_id = match first_usable_receiver(&self.discovered_devices) {
            Some(i) => {
                proof { lemma_first_index_is(views, receiver_candidate(), i as int); }
                assert(views[i as int] == self.discovered_devices@[i as int]@);
                Some(self.discovered_devices[i].id.clone())
            },
            None => {
                proof {
                    assert forall|j: int| 0 <= j < views.len() implies !receiver_candidate()(#[trigger] views[j]) by {
                        if receiver_candidate()(views[j]) {
                            assert(any_index(views, receiver_candidate()));
                        }
                    }
                    lemma_no_index(views, receiver_candidate());
                }
                None
            },
        };
    }

    pub fn new(config: AppConfig) -> (r: Self)
        ensures
            r@ == initial_state(config@, r@.diagnostics),
            r@.diagnostics.len() == 1,
            r@.diagnostics[0].level == crate::diagnostics::DiagnosticLevel::Info,
            r@.diagnostics[0].component == "app"@,
            r@.diagnostics[0].message == startup_message(),
    {
        let receiver = ReceiverSnapshot::from_config(&config.receiver);
        let mut streaming = StreamSessionSnapshot::default();
        streaming.local_mirror.desired_enabled = config.audio.local_playback_enabled;
        streaming.local_mirror.playback_target_id = clone_opt_string(&config.audio.local_playback_target_id);
        streaming.local_mirror.state = if config.audio.local_playback_enabled {
            LocalMirrorState::Idle
        } else {
            LocalMirrorState::Disabled
        };
        let selected_audio_source_id = clone_opt_string(&config.audio.preferred_source_id);
        let mut diagnostics = Vec::new();
        diagnostics.push(DiagnosticEvent::info(
            "app",
            "Project scaffold initialized; audio capture is ready for backend enumeration.",
        ));
        let r = AppState {
            config,
            cast_session: CastSessionState::Idle,
            capture_state: CaptureState::Idle,
            receiver,
            streaming,
            selected_receiver_device_id: None,
            audio_sources: Vec::new(),
            selected_audio_source_id,
            playback_targets: Vec::new(),
            devices: Vec::new(),
            discovered_devices: Vec::new(),
            diagnostics,
        };
        assert(r@.streaming.targets =~= Seq::empty());
        assert(r@.audio_sources =~= Seq::empty());
        assert(r@.playback_targets =~= Seq::empty());
        assert(r@.devices =~= Seq::empty());
        assert(r@.discovered_devices =~= Seq::empty());
        r
    }

    pub fn set_transport_quality(&mut self, quality: QualityPreset)
        ensures
            final(self)@ == with_config(old(self)@, AppConfigView {
                transport: TransportConfigView { quality, ..old(self)@.config.transport },
                ..old(self)@.config
            }),
    {
        self.config.transport.quality = quality;
    }

    pub fn set_prefer_dark_theme(&mut self, prefer_dark_theme: bool)
        ensures
            final(self)@ == with_config(old(self)@, AppConfigView {
                ui: UiConfigView { prefer_dark_theme, ..old(self)@.config.ui },
                ..old(self)@.config
            }),
    {
        self.config.ui.prefer_dark_theme = prefer_dark_theme;
    }

    pub fn set_last_view_name(&mut self, last_view_name: &str)
        ensures
            final(self)@ == with_config(old(self)@, AppConfigView {
                ui: UiConfigView { last_view_name: last_view_name@, ..old(self)@.config.ui },
                ..old(self)@.config
            }),
    {
        self.config.ui.last_view_name = last_view_name.to_owned();
    }

    pub fn set_verbose_logging(&mut self, verbose_logging: bool)
        ensures
            final(self)@ == with_config(old(self)@, AppConfigView {
                diagnostics: crate::config::DiagnosticsConfig { verbose_logging },
                ..old(self)@.config
            }),
    {
        self.config.diagnostics.verbose_logging = verbose_logging;
    }

    pub fn set_receiver_start_on_launch(&mut self, start_on_launch: bool)
        ensures
            final(self)@ == with_config(old(self)@, AppConfigView {
                receiver: ReceiverConfigView { start_on_launch, ..old(self)@.config.receiver },
                ..old(self)@.config
            }),
    {
        self.config.receiver.start_on_launch = start_on_launch;
    }

    pub fn clear_diagnostics(&mut self)
        ensures
            final(self)@ == (AppStateView { diagnostics: Seq::empty(), ..old(self)@ }),
    {
        self.diagnostics.clear();
        assert(diagnostic_views(self.diagnostics@) =~= Seq::empty());
    }

    pub fn set_playback_targets(&mut self, targets: Vec<PlaybackTarget>)
        ensures
            final(self)@ == (AppStateView { playback_targets: target_views(targets@), ..old(self)@ }),
    {
        self.playback_targets = targets;
    }

    pub fn apply_receiver_snapshot(&mut self, snapshot: ReceiverSnapshot)
        ensures
            final(self)@ == (AppStateView { receiver: snapshot@, ..old(self)@ }),
    {
        self.receiver = snapshot;
    }

    pub fn apply_streaming_snapshot(&mut self, snapshot: StreamSessionSnapshot)
        ensures
            final(self)@ == (AppStateView {
                cast_session: cast_state_of(snapshot.state),
                streaming: snapshot@,
                ..old(self)@
            }),
    {
        self.cast_session = match snapshot.state {
            StreamSessionState::Idle => CastSessionState::Idle,
            StreamSessionState::Connecting | StreamSessionState::Negotiating => {
                CastSessionState::Preparing
            },
            StreamSessionState::Streaming => CastSessionState::Casting,
            StreamSessionState::Stopping => CastSessionState::Stopping,
            StreamSessionState::Error => CastSessionState::Error,
        };
        self.streaming = snapshot;
    }
}


/// After the device list changes, the selected receiver is a discovered
/// device that receives and has an endpoint; nothing is selected only when no
/// such device is known; and a selection that is still usable is kept.
pub proof fn lemma_reconciled_receiver_is_usable(selected: Option<Seq<char>>, devices: Seq<DiscoveredDeviceView>)
    ensures
        match reconciled_receiver(selected, devices) {
            Some(id) => any_index(devices, usable_receiver(id)),
            None => !any_index(devices, receiver_candidate()),
        },
        selected is Some && any_index(devices, usable_receiver(selected->0)) ==> reconciled_receiver(
            selected,
            devices,
        ) == selected,
{
    if !(selected is Some && any_index(devices, usable_receiver(selected->0))) {
        if any_index(devices, receiver_candidate()) {
            lemma_first_exists(devices, receiver_candidate());
            let k = first_index(devices, receiver_candidate());
            lemma_first_index_is(devices, receiver_candidate(), k);
            assert(usable_receiver(devices[k].id)(devices[k]));
        } else {
            assert forall|j: int| 0 <= j < devices.len() implies !receiver_candidate()(#[trigger] devices[j]) by {
                if receiver_candidate()(devices[j]) {
                    assert(any_index(devices, receiver_candidate()));
                }
            }
            lemma_no_index(devices, receiver_candidate());
        }
    }
}

/// Every device-list entry made from a discovered device carries its
/// identifier, so the first entry with an identifier sits where the first
/// device with it does.
proof fn lemma_mirrored_first_index(discovered: Seq<DiscoveredDeviceView>, id: Seq<char>)
    ensures
        any_index(discovered.map_values(device_state_map()), state_with_id(id)) == any_index(
            discovered,
            device_with_id(id),
        ),
        any_index(discovered, device_with_id(id)) ==> first_index(
            discovered.map_values(device_state_map()),
            state_with_id(id),
        ) == first_index(discovered, device_with_id(id)),
{
    let states = discovered.map_values(device_state_map());
    if any_index(discovered, device_with_id(id)) {
        lemma_first_exists(discovered, device_with_id(id));
        let k = first_index(discovered, device_with_id(id));
        assert forall|j: int| 0 <= j < k implies !state_with_id(id)(#[trigger] states[j]) by {
            assert(!device_with_id(id)(discovered[j]));
        }
        assert(states[k] == device_state_of(discovered[k]));
        lemma_first_index_is(states, state_with_id(id), k);
    } else {
        assert forall|j: int| 0 <= j < states.len() implies !state_with_id(id)(#[trigger] states[j]) by {
            if state_with_id(id)(states[j]) {
                assert(device_with_id(id)(discovered[j]));
            }
        }
        lemma_no_index(states, state_with_id(id));
    }
}

/// Dropping the devices of one identifier commutes with making list entries.
proof fn lemma_filter_then_mirror(discovered: Seq<DiscoveredDeviceView>, id: Seq<char>)
    ensures
        discovered.filter(other_device(id)).map_values(device_state_map()) == discovered.map_values(
            device_state_map(),
        ).filter(other_state(id)),
    decreases discovered.len(),
{
    let states = discovered.map_values(device_state_map());
    if discovered.len() == 0 {
        assert(discovered.filter(other_device(id)) =~= discovered) by {
            reveal(Seq::filter);
        }
        assert(states.filter(other_state(id)) =~= states) by {
            reveal(Seq::filter);
        }
        assert(discovered.filter(other_device(id)).map_values(device_state_map()) =~= states.filter(other_state(id)));
    } else {
        let rest = discovered.drop_last();
        let last = discovered.last();
        lemma_filter_then_mirror(rest, id);
        assert(discovered =~= rest.push(last));
        assert(states =~= rest.map_values(device_state_map()).push(device_state_of(last)));
        rest.lemma_filter_push(last, other_device(id));
        rest.map_values(device_state_map()).lemma_filter_push(device_state_of(last), other_state(id));
        if other_device(id)(last) {
            assert(rest.filter(other_device(id)).push(last).map_values(device_state_map()) =~= rest.filter(
                other_device(id),
            ).map_values(device_state_map()).push(device_state_of(last)));
        }
    }
}

/// The device list mirrors the discovered devices after every snapshot, and
/// every discovery event keeps it so.
pub proof fn lemma_discovery_keeps_device_list_mirrored(
    st: AppStateView,
    snapshot_devices: Seq<DiscoveredDeviceView>,
    event: DiscoveryEvent,
)
    ensures
        devices_mirror_discovery(after_discovery_snapshot(st, snapshot_devices)),
        devices_mirror_discovery(st) ==> devices_mirror_discovery(after_discovery_event(st, event)),
{
    if devices_mirror_discovery(st) {
        let discovered = st.discovered_devices;
        match event {
            DiscoveryEvent::DeviceRemoved { device_id, .. } => {
                lemma_filter_then_mirror(discovered, device_id@);
            },
            DiscoveryEvent::DeviceDiscovered(d) => {
                lemma_upsert_keeps_mirror(discovered, d@);
            },
            DiscoveryEvent::DeviceUpdated(d) => {
                lemma_upsert_keeps_mirror(discovered, d@);
            },
            DiscoveryEvent::DeviceExpired(d) => {
                lemma_upsert_keeps_mirror(discovered, d@);
            },
        }
    }
}

proof fn lemma_upsert_keeps_mirror(discovered: Seq<DiscoveredDeviceView>, d: DiscoveredDeviceView)
    ensures
        upserted_states(discovered.map_values(device_state_map()), device_state_of(d))
            == upserted_devices(discovered, d).map_values(device_state_map()),
{
    lemma_mirrored_first_index(discovered, d.id);
    let states = discovered.map_values(device_state_map());
    if any_index(discovered, device_with_id(d.id)) {
        let k = first_index(discovered, device_with_id(d.id));
        lemma_first_exists(discovered, device_with_id(d.id));
        assert(states.update(k, device_state_of(d)) =~= discovered.update(k, d).map_values(
            device_state_map(),
        ));
    } else {
        assert(states.push(device_state_of(d)) =~= discovered.push(d).map_values(device_state_map()));
    }
}

/// Dropping devices keeps identifiers distinct.
proof fn lemma_filter_keeps_ids_unique(discovered: Seq<DiscoveredDeviceView>, id: Seq<char>)
    requires
        ids_unique(discovered),
    ensures
        ids_unique(discovered.filter(other_device(id))),
    decreases discovered.len(),
{
    if discovered.len() > 0 {
        let rest = discovered.drop_last();
        let last = discovered.last();
        assert(discovered =~= rest.push(last));
        assert(ids_unique(rest)) by {
            assert forall|i: int, j: int| 0 <= i < j < rest.len() implies #[trigger] rest[i].id
                != #[trigger] rest[j].id by {
                assert(rest[i] == discovered[i] && rest[j] == discovered[j]);
            }
        }
        lemma_filter_keeps_ids_unique(rest, id);
        rest.lemma_filter_push(last, other_device(id));
        let kept = rest.filter(other_device(id));
        if other_device(id)(last) {
            assert forall|i: int, j: int|
                0 <= i < j < kept.push(last).len() implies #[trigger] kept.push(last)[i].id
                != #[trigger] kept.push(last)[j].id by {
                if j == kept.len() {
                    assert(kept.contains(kept[i]));
                    rest.lemma_filter_contains_rev(other_device(id), kept[i]);
                    let m = choose|m: int| 0 <= m < rest.len() && rest[m] == kept[i];
                    assert(discovered[m] == rest[m]);
                    assert(discovered[discovered.len() - 1] == last);
                }
            }
        }
    } else {
        assert(discovered.filter(other_device(id)) =~= discovered) by {
            reveal(Seq::filter);
        }
    }
}

/// Discovery events never make two discovered devices share an identifier.
pub proof fn lemma_discovery_event_keeps_ids_unique(st: AppStateView, event: DiscoveryEvent)
    requires
        ids_unique(st.discovered_devices),
    ensures
        ids_unique(after_discovery_event(st, event).discovered_devices),
{
    let discovered = st.discovered_devices;
    match event {
        DiscoveryEvent::DeviceRemoved { device_id, .. } => {
            lemma_filter_keeps_ids_unique(discovered, device_id@);
        },
        DiscoveryEvent::DeviceDiscovered(d) => {
            lemma_upsert_keeps_ids_unique(discovered, d@);
        },
        DiscoveryEvent::DeviceUpdated(d) => {
            lemma_upsert_keeps_ids_unique(discovered, d@);
        },
        DiscoveryEvent::DeviceExpired(d) => {
            lemma_upsert_keeps_ids_unique(discovered, d@);
        },
    }
}

proof fn lemma_upsert_keeps_ids_unique(discovered: Seq<DiscoveredDeviceView>, d: DiscoveredDeviceView)
    requires
        ids_unique(discovered),
    ensures
        ids_unique(upserted_devices(discovered, d)),
{
    let next = upserted_devices(discovered, d);
    if any_index(discovered, device_with_id(d.id)) {
        lemma_first_exists(discovered, device_with_id(d.id));
        let k = first_index(discovered, device_with_id(d.id));
        assert forall|i: int, j: int| 0 <= i < j < next.len() implies #[trigger] next[i].id
            != #[trigger] next[j].id by {
            assert(next[i].id == discovered[i].id);
            assert(next[j].id == discovered[j].id);
        }
    } else {
        assert forall|i: int, j: int| 0 <= i < j < next.len() implies #[trigger] next[i].id
            != #[trigger] next[j].id by {
            if j == discovered.len() {
                assert(!device_with_id(d.id)(discovered[i]));
            } else {
                assert(next[i] == discovered[i] && next[j] == discovered[j]);
            }
        }
    }
}

} // verus!
