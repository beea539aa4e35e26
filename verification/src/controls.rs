//! What the interface's controls show and do: the entries of the output
//! and receiver selectors, the start-up summaries, and the state changes and
//! diagnostics that follow each button or selector.

use vstd::prelude::*;
use crate::diagnostics::{DiagnosticEvent, DiagnosticLevel};
use crate::models::{AudioSource, AudioSourceView, DiscoveredDevice, DiscoveredDeviceView, PlaybackTarget,
    PlaybackTargetView, opt_string_view, source_views, target_views};
use crate::monitor::{Entry, appended, entries, push_entry, record_all};
use crate::net::{socket_address_text, socket_text};
use crate::presentation::{
    DEFAULT_PLAYBACK_TARGET_ID, SYSTEM_DEFAULT_OUTPUT_LABEL, format_playback_target_option, target_option_text,
};
use crate::seqs::any_index;
use crate::state::{AppState, AppStateView, after_local_playback, after_sources, cast_state_of, default_source,
    default_source_position, diagnostic_views, selectable_receiver, target_with_id};
use crate::config::{AppConfigView, AudioConfigView, ReceiverConfigView};
use crate::models::{DeviceId, TransportEndpoint, TransportEndpointView};
use crate::presentation::{find_receiver_device, format_selected_playback_target, opt_as_str, opt_string_eq, selected_target_text};
use crate::receiver::{ReceiverServiceState, ReceiverSnapshot};
use crate::report::{latency_preset_label, latency_preset_text};
use crate::seqs::{find_first, is_first_index, lemma_first_index_is, lemma_no_index};
use crate::streaming::{StreamSessionSnapshot, StreamSessionSnapshotView, StreamSessionState, StreamTargetSnapshotView};
use crate::status::{count_bluetooth, bluetooth_output_count};
use crate::text::{append_decimal, append_str, decimal};

verus! {

pub open spec fn pair_views(s: Seq<(String, String)>) -> Seq<(Seq<char>, Seq<char>)> {
    s.map_values(|e: (String, String)| (e.0@, e.1@))
}

/// The output selector: the system default entry, each listed output, and
/// the chosen output when it is not listed.
pub open spec fn target_selector_entries(
    targets: Seq<PlaybackTargetView>,
    selected: Option<Seq<char>>,
    default_label: Seq<char>,
) -> Seq<(Seq<char>, Seq<char>)> {
    seq![(DEFAULT_PLAYBACK_TARGET_ID@, default_label)]
        + targets.map_values(|t: PlaybackTargetView| (t.id, target_option_text(t)))
        + match selected {
            Some(id) if !any_index(targets, target_with_id(id)) => seq![(id, id + " (currently unavailable)"@)],
            _ => Seq::empty(),
        }
}

/// The entries of an output selector (identifier, label) and the
/// identifier to make active.
pub fn playback_target_selector(state: &AppState, selected: Option<&str>, default_label: &str) -> (r: (
    Vec<(String, String)>,
    String,
))
    ensures
        pair_views(r.0@) == target_selector_entries(
            state@.playback_targets,
            match selected { Some(s) => Some(s@), None => None },
            default_label@,
        ),
        r.1@ == match selected {
            Some(id) => id@,
            None => DEFAULT_PLAYBACK_TARGET_ID@,
        },
{
    let mut out: Vec<(String, String)> = Vec::new();
    out.push((DEFAULT_PLAYBACK_TARGET_ID.to_owned(), default_label.to_owned()));
    let ghost views = state@.playback_targets;
    let ghost listed = views.map_values(|t: PlaybackTargetView| (t.id, target_option_text(t)));
    let mut i: usize = 0;
    while i < state.playback_targets.len()
        invariant
            i <= state.playback_targets@.len(),
            views == state@.playback_targets,
            views.len() == state.playback_targets@.len(),
            forall|k: int| 0 <= k < views.len() ==> #[trigger] views[k] == state.playback_targets@[k]@,
            listed == views.map_values(|t: PlaybackTargetView| (t.id, target_option_text(t))),
            pair_views(out@) == seq![(DEFAULT_PLAYBACK_TARGET_ID@, default_label@)] + listed.subrange(0, i as int),
        decreases state.playback_targets@.len() - i,
    {
        let target = &state.playback_targets[i];
        let label = format_playback_target_option(target);
        let ghost before = out@;
        out.push((target.id.clone(), label));
        proof {
            assert(pair_views(out@) =~= pair_views(before).push((views[i as int].id, target_option_text(views[i as int]))));
            assert(listed.subrange(0, i + 1) =~= listed.subrange(0, i as int).push(listed[i as int]));
        }
        i = i + 1;
    }
    assert(listed.subrange(0, views.len() as int) =~= listed);
    let active = match selected {
        Some(id) => {
            if state.playback_target(id).is_none() {
                let mut label = id.to_owned();
                append_str(&mut label, " (currently unavailable)");
                let ghost before = out@;
                out.push((id.to_owned(), label));
                assert(pair_views(out@) =~= pair_views(before).push((id@, id@ + " (currently unavailable)"@)));
            }
            id.to_owned()
        },
        None => DEFAULT_PLAYBACK_TARGET_ID.to_owned(),
    };
    assert(pair_views(out@) =~= target_selector_entries(
        state@.playback_targets,
        match selected { Some(s) => Some(s@), None => None },
        default_label@,
    ));
    (out, active)
}

/// The entry an output selector makes active is one of its entries.
pub proof fn lemma_active_output_is_listed(
    targets: Seq<PlaybackTargetView>,
    selected: Option<Seq<char>>,
    default_label: Seq<char>,
)
    ensures
        exists|i: int| 0 <= i < target_selector_entries(targets, selected, default_label).len()
            && #[trigger] target_selector_entries(targets, selected, default_label)[i].0 == match selected {
                Some(id) => id,
                None => DEFAULT_PLAYBACK_TARGET_ID@,
            },
{
    let entries = target_selector_entries(targets, selected, default_label);
    let listed = targets.map_values(|t: PlaybackTargetView| (t.id, target_option_text(t)));
    let head = seq![(DEFAULT_PLAYBACK_TARGET_ID@, default_label)];
    match selected {
        None => {
            assert(entries[0].0 == DEFAULT_PLAYBACK_TARGET_ID@);
        },
        Some(id) => {
            if any_index(targets, target_with_id(id)) {
                let k = choose|k: int| 0 <= k < targets.len() && target_with_id(id)(#[trigger] targets[k]);
                assert(entries =~= head + listed);
                assert(entries[k + 1] == listed[k]);
                assert(entries[k + 1].0 == id);
            } else {
                let last = entries.len() - 1;
                assert(entries[last].0 == id);
            }
        },
    }
}

/// Which receiver the receiver selector makes active.
#[derive(Debug, Clone, PartialEq, Eq)]
pub enum SelectorChoice {
    /// The entry with this identifier.
    Id(String),
    /// The first entry.
    First,
    /// None.
    Nothing,
}

/// `name (endpoint)`, or `name (unresolved)`.
pub open spec fn receiver_entry_label(d: DiscoveredDeviceView) -> Seq<char> {
    d.display_name + " ("@ + match d.endpoint {
        Some(e) => socket_text(e.address),
        None => "unresolved"@,
    } + ")"@
}

/// The receiving devices, in discovery order, as selector entries.
pub open spec fn receiver_entries(s: Seq<DiscoveredDeviceView>) -> Seq<(Seq<char>, Seq<char>)>
    decreases s.len(),
{
    if s.len() == 0 {
        Seq::empty()
    } else {
        receiver_entries(s.drop_last()) + if s.last().capabilities.supports_receiver {
            seq![(s.last().id, receiver_entry_label(s.last()))]
        } else {
            Seq::empty()
        }
    }
}

/// The entries of the receiver selector and which one to make active: the
/// selected receiver, else the first entry when any device is known.
pub fn receiver_selector(state: &AppState) -> (r: (Vec<(String, String)>, SelectorChoice))
    ensures
        pair_views(r.0@) == receiver_entries(state@.discovered_devices),
        match state@.selected_receiver_device_id {
            Some(id) => r.1 matches SelectorChoice::Id(s) && s@ == id,
            None => if state@.discovered_devices.len() > 0 { r.1 == SelectorChoice::First } else {
                r.1 == SelectorChoice::Nothing
            },
        },
{
    let ghost views = state@.discovered_devices;
    let mut out: Vec<(String, String)> = Vec::new();
    let mut i: usize = 0;
    assert(pair_views(out@) =~= receiver_entries(views.subrange(0, 0)));
    while i < state.discovered_devices.len()
        invariant
            i <= state.discovered_devices@.len(),
            views == state@.discovered_devices,
            views.len() == state.discovered_devices@.len(),
            forall|k: int| 0 <= k < views.len() ==> #[trigger] views[k] == state.discovered_devices@[k]@,
            pair_views(out@) == receiver_entries(views.subrange(0, i as int)),
        decreases state.discovered_devices@.len() - i,
    {
        let device = &state.discovered_devices[i];
        let ghost before = out@;
        assert(views.subrange(0, i + 1).drop_last() =~= views.subrange(0, i as int));
        if device.capabilities.supports_receiver {
            let mut label = device.display_name.clone();
            append_str(&mut label, " (");
            match &device.endpoint {
                Some(e) => {
                    let address = socket_address_text(&e.address);
                    append_str(&mut label, address.as_str());
                },
                None => append_str(&mut label, "unresolved"),
            }
            append_str(&mut label, ")");
            assert(label@ =~= receiver_entry_label(views[i as int]));
            out.push((device.id.as_str().to_owned(), label));
            assert(pair_views(out@) =~= pair_views(before).push((views[i as int].id, receiver_entry_label(views[i as int]))));
        }
        i = i + 1;
    }
    assert(views.subrange(0, views.len() as int) =~= views);
    let choice = match &state.selected_receiver_device_id {
        Some(id) => SelectorChoice::Id(id.as_str().to_owned()),
        None => if state.discovered_devices.len() > 0 { SelectorChoice::First } else { SelectorChoice::Nothing },
    };
    (out, choice)
}

/// The audio page's line about capture sources.
pub open spec fn source_summary_text(sources: Seq<AudioSourceView>) -> Seq<char> {
    decimal(sources.len()) + " capture source(s) available. Selected: "@ + match default_source(sources) {
        Some(a) => a.display_name,
        None => "No source selected"@,
    }
}

/// Takes in a capture source listing: the sources on success (see
/// `after_sources`), a warning on failure; returns the summary line.
pub fn apply_source_listing(state: &mut AppState, listing: Result<Vec<AudioSource>, String>) -> (r: String)
    ensures
        match listing {
            Ok(sources) => {
                &&& final(state)@ == after_sources(old(state)@, source_views(sources@))
                &&& r@ == source_summary_text(source_views(sources@))
            },
            Err(e) => {
                &&& r@ == "PipeWire source enumeration failed: "@ + e@
                &&& final(state)@ == (AppStateView { diagnostics: final(state)@.diagnostics, ..old(state)@ })
                &&& appended(old(state)@.diagnostics, final(state)@.diagnostics, seq![(
                    DiagnosticLevel::Warning,
                    "audio"@,
                    r@,
                )])
            },
        },
{
    match listing {
        Ok(sources) => {
            let mut summary = String::new();
            append_decimal(&mut summary, sources.len() as u64);
            append_str(&mut summary, " capture source(s) available. Selected: ");
            match default_source_position(&sources) {
                Some(i) => append_str(&mut summary, sources[i].display_name.as_str()),
                None => append_str(&mut summary, "No source selected"),
            }
            assert(summary@ =~= source_summary_text(source_views(sources@)));
            state.set_audio_sources(sources);
            summary
        },
        Err(error) => {
            let mut message = "PipeWire source enumeration failed: ".to_owned();
            append_str(&mut message, error.as_str());
            let mut events: Vec<DiagnosticEvent> = Vec::new();
            assert(entries(diagnostic_views(events@)) =~= Seq::<Entry>::empty());
            push_entry(&mut events, DiagnosticLevel::Warning, "audio", message.as_str());
            record_all(&mut state.diagnostics, events);
            proof {
                reveal_strlit("audio");
            }
            message
        },
    }
}

/// The first listed default output's name, else the system default label.
pub open spec fn default_output_name(targets: Seq<PlaybackTargetView>) -> Seq<char>
    decreases targets.len(),
{
    if targets.len() == 0 {
        SYSTEM_DEFAULT_OUTPUT_LABEL@
    } else if targets[0].is_default {
        targets[0].display_name
    } else {
        default_output_name(targets.drop_first())
    }
}

/// The audio page's line about playback outputs.
pub open spec fn output_summary_text(targets: Seq<PlaybackTargetView>) -> Seq<char> {
    decimal(targets.len()) + " playback output(s) available, "@ + decimal(count_bluetooth(targets))
        + " Bluetooth. Default target: "@ + default_output_name(targets)
}

fn default_output_label(targets: &Vec<PlaybackTarget>) -> (r: String)
    ensures
        r@ == default_output_name(target_views(targets@)),
{
    let ghost views = target_views(targets@);
    let mut i: usize = 0;
    assert(views.skip(0) =~= views);
    while i < targets.len()
        invariant
            i <= targets@.len(),
            views == target_views(targets@),
            default_output_name(views) == default_output_name(views.skip(i as int)),
        decreases targets@.len() - i,
    {
        assert(views.skip(i as int).drop_first() =~= views.skip(i + 1));
        if targets[i].is_default {
            return targets[i].display_name.clone();
        }
        i = i + 1;
    }
    assert(views.skip(i as int) =~= Seq::<PlaybackTargetView>::empty());
    SYSTEM_DEFAULT_OUTPUT_LABEL.to_owned()
}

/// Takes in a playback output listing: the outputs on success, a warning on
/// failure; returns the summary line.
pub fn apply_output_listing(state: &mut AppState, listing: Result<Vec<PlaybackTarget>, String>) -> (r: String)
    ensures
        match listing {
            Ok(targets) => {
                &&& final(state)@ == (AppStateView { playback_targets: target_views(targets@), ..old(state)@ })
                &&& r@ == output_summary_text(target_views(targets@))
            },
            Err(e) => {
                &&& r@ == "PipeWire playback target enumeration failed: "@ + e@
                &&& final(state)@ == (AppStateView { diagnostics: final(state)@.diagnostics, ..old(state)@ })
                &&& appended(old(state)@.diagnostics, final(state)@.diagnostics, seq![(
                    DiagnosticLevel::Warning,
                    "audio"@,
                    r@,
                )])
            },
        },
{
    match listing {
        Ok(targets) => {
            let mut summary = String::new();
            append_decimal(&mut summary, targets.len() as u64);
            append_str(&mut summary, " playback output(s) available, ");
            let bluetooth = bluetooth_output_count(&targets);
            append_decimal(&mut summary, bluetooth as u64);
            append_str(&mut summary, " Bluetooth. Default target: ");
            let default_name = default_output_label(&targets);
            append_str(&mut summary, default_name.as_str());
            assert(summary@ =~= output_summary_text(target_views(targets@)));
            state.set_playback_targets(targets);
            summary
        },
        Err(error) => {
            let mut message = "PipeWire playback target enumeration failed: ".to_owned();
            append_str(&mut message, error.as_str());
            let mut events: Vec<DiagnosticEvent> = Vec::new();
            assert(entries(diagnostic_views(events@)) =~= Seq::<Entry>::empty());
            push_entry(&mut events, DiagnosticLevel::Warning, "audio", message.as_str());
            record_all(&mut state.diagnostics, events);
            proof {
                reveal_strlit("audio");
            }
            message
        },
    }
}

/// The devices page's line about discovery: where it browses, or why it
/// did not start (also recorded as a warning).
pub fn apply_discovery_start(state: &mut AppState, service_type: &str, started: Result<(), String>) -> (r: String)
    ensures
        match started {
            Ok(()) => {
                &&& final(state)@ == old(state)@
                &&& r@ == "mDNS discovery active on "@ + service_type@
            },
            Err(e) => {
                &&& r@ == "mDNS discovery failed to start: "@ + e@
                &&& final(state)@ == (AppStateView { diagnostics: final(state)@.diagnostics, ..old(state)@ })
                &&& appended(old(state)@.diagnostics, final(state)@.diagnostics, seq![(
                    DiagnosticLevel::Warning,
                    "discovery"@,
                    r@,
                )])
            },
        },
{
    match started {
        Ok(()) => {
            let mut summary = "mDNS discovery active on ".to_owned();
            append_str(&mut summary, service_type);
            summary
        },
        Err(error) => {
            let mut message = "mDNS discovery failed to start: ".to_owned();
            append_str(&mut message, error.as_str());
            let mut events: Vec<DiagnosticEvent> = Vec::new();
            assert(entries(diagnostic_views(events@)) =~= Seq::<Entry>::empty());
            push_entry(&mut events, DiagnosticLevel::Warning, "discovery", message.as_str());
            record_all(&mut state.diagnostics, events);
            proof {
                reveal_strlit("discovery");
            }
            message
        },
    }
}

fn record_one(state: &mut AppState, level: DiagnosticLevel, component: &str, message: &str)
    ensures
        final(state)@ == (AppStateView { diagnostics: final(state)@.diagnostics, ..old(state)@ }),
        appended(old(state)@.diagnostics, final(state)@.diagnostics, seq![(level, component@, message@)]),
{
    let mut events: Vec<DiagnosticEvent> = Vec::new();
    assert(entries(diagnostic_views(events@)) =~= Seq::<Entry>::empty());
    push_entry(&mut events, level, component, message);
    record_all(&mut state.diagnostics, events);
    assert(seq![(level, component@, message@)] =~= Seq::<Entry>::empty().push((level, component@, message@)));
}

pub open spec fn outcome(r: Result<(), String>) -> Result<(), Seq<char>> {
    match r {
        Ok(()) => Ok(()),
        Err(e) => Err(e@),
    }
}

// ---------------------------------------------------------------------------
// Cast page
// ---------------------------------------------------------------------------

/// The event after the local mirror switch was flipped.
pub open spec fn mirror_toggle_entry(enabled: bool, session: StreamSessionState, result: Result<(), Seq<char>>) -> Entry {
    match result {
        Ok(()) => (
            DiagnosticLevel::Info,
            "streaming"@,
            "Local playback mirror "@ + (if enabled { "enabled"@ } else { "disabled"@ }) + " for the "@
                + (if session == StreamSessionState::Idle { "next cast session"@ } else { "active cast session"@ })
                + "."@,
        ),
        Err(e) => (DiagnosticLevel::Error, "streaming"@, "Failed to update local playback mirror: "@ + e),
    }
}

/// Records the local mirror switch: the wish is saved (see
/// `after_local_playback`), the sender's new snapshot applied, and the
/// sender's answer reported.
pub fn mirror_toggled(state: &mut AppState, enabled: bool, snapshot: StreamSessionSnapshot, result: Result<(), String>)
    ensures
        final(state)@ == (AppStateView {
            cast_session: cast_state_of(snapshot.state),
            streaming: snapshot@,
            diagnostics: final(state)@.diagnostics,
            ..after_local_playback(old(state)@, enabled)
        }),
        appended(
            old(state)@.diagnostics,
            final(state)@.diagnostics,
            seq![mirror_toggle_entry(enabled, snapshot.state, outcome(result))],
        ),
{
    state.set_local_playback_enabled(enabled);
    let session = snapshot.state;
    state.apply_streaming_snapshot(snapshot);
    match result {
        Ok(()) => {
            let mut message = "Local playback mirror ".to_owned();
            append_str(&mut message, if enabled { "enabled" } else { "disabled" });
            append_str(&mut message, " for the ");
            let idle = match session {
                StreamSessionState::Idle => true,
                _ => false,
            };
            append_str(&mut message, if idle { "next cast session" } else { "active cast session" });
            append_str(&mut message, ".");
            record_one(state, DiagnosticLevel::Info, "streaming", message.as_str());
        },
        Err(error) => {
            let mut message = "Failed to update local playback mirror: ".to_owned();
            append_str(&mut message, error.as_str());
            record_one(state, DiagnosticLevel::Error, "streaming", message.as_str());
        },
    }
    proof {
        reveal_strlit("streaming");
        reveal_strlit("enabled");
        reveal_strlit("disabled");
        reveal_strlit("next cast session");
        reveal_strlit("active cast session");
    }
}

/// Whether choosing `target_id` changes the chosen local output.
pub fn local_target_change_needed(state: &AppState, target_id: &Option<String>) -> (r: bool)
    ensures
        r == (state@.config.audio.local_playback_target_id != opt_string_view(*target_id)),
{
    !opt_string_eq(&state.config.audio.local_playback_target_id, target_id)
}

pub open spec fn with_local_target(st: AppStateView, id: Option<Seq<char>>) -> AppStateView {
    AppStateView {
        config: AppConfigView { audio: AudioConfigView { local_playback_target_id: id, ..st.config.audio }, ..st.config },
        ..st
    }
}

/// The event after the local output was changed.
pub open spec fn local_target_entry(targets: Seq<PlaybackTargetView>, id: Option<Seq<char>>, result: Result<(), Seq<char>>) -> Entry {
    match result {
        Ok(()) => (
            DiagnosticLevel::Info,
            "streaming"@,
            "Local mirror output target set to "@ + selected_target_text(targets, id) + "."@,
        ),
        Err(e) => (DiagnosticLevel::Warning, "streaming"@, "Failed to update local mirror output target: "@ + e),
    }
}

/// Records a new local output: the choice is saved, the sender's new
/// snapshot applied, and the sender's answer reported.
pub fn local_target_applied(
    state: &mut AppState,
    target_id: Option<String>,
    snapshot: StreamSessionSnapshot,
    result: Result<(), String>,
)
    ensures
        final(state)@ == (AppStateView {
            cast_session: cast_state_of(snapshot.state),
            streaming: snapshot@,
            diagnostics: final(state)@.diagnostics,
            ..with_local_target(old(state)@, opt_string_view(target_id))
        }),
        appended(
            old(state)@.diagnostics,
            final(state)@.diagnostics,
            seq![local_target_entry(old(state)@.playback_targets, opt_string_view(target_id), outcome(result))],
        ),
{
    let ghost id = opt_string_view(target_id);
    state.select_local_playback_target(target_id);
    state.apply_streaming_snapshot(snapshot);
    match result {
        Ok(()) => {
            let mut message = "Local mirror output target set to ".to_owned();
            let selected = format_selected_playback_target(state, opt_as_str(&state.config.audio.local_playback_target_id));
            append_str(&mut message, selected.as_str());
            append_str(&mut message, ".");
            record_one(state, DiagnosticLevel::Info, "streaming", message.as_str());
        },
        Err(error) => {
            let mut message = "Failed to update local mirror output target: ".to_owned();
            append_str(&mut message, error.as_str());
            record_one(state, DiagnosticLevel::Warning, "streaming", message.as_str());
        },
    }
    proof {
        reveal_strlit("streaming");
    }
}

/// The receiver the add button would cast to: the selected entry's
/// receiving device.
pub open spec fn cast_candidate(st: AppStateView, active_id: Option<Seq<char>>) -> Option<DiscoveredDeviceView> {
    match active_id {
        Some(id) => find_first(st.discovered_devices, selectable_receiver(id)),
        None => None,
    }
}

pub open spec fn opt_device_endpoint(r: Option<(DiscoveredDevice, TransportEndpoint)>) -> Option<(DiscoveredDeviceView, TransportEndpointView)> {
    match r {
        Some(p) => Some((p.0@, p.1@)),
        None => None,
    }
}

/// The device and endpoint to cast to, or the warning explaining why
/// there is none (no receiving device selected, or no endpoint yet).
pub fn choose_cast_target(state: &mut AppState, active_id: Option<&str>) -> (r: Option<(DiscoveredDevice, TransportEndpoint)>)
    ensures
        final(state)@ == (AppStateView { diagnostics: final(state)@.diagnostics, ..old(state)@ }),
        match cast_candidate(old(state)@, match active_id { Some(s) => Some(s@), None => None }) {
            None => r is None && appended(old(state)@.diagnostics, final(state)@.diagnostics, seq![(
                DiagnosticLevel::Warning,
                "streaming"@,
                "No receiver with a resolved transport endpoint is currently selected."@,
            )]),
            Some(d) => match d.endpoint {
                None => r is None && appended(old(state)@.diagnostics, final(state)@.diagnostics, seq![(
                    DiagnosticLevel::Warning,
                    "streaming"@,
                    "Selected receiver does not expose a transport endpoint yet."@,
                )]),
                Some(e) => opt_device_endpoint(r) == Some((d, e)) && final(state)@ == old(state)@,
            },
        },
{
    proof {
        reveal_strlit("streaming");
        reveal_strlit("No receiver with a resolved transport endpoint is currently selected.");
        reveal_strlit("Selected receiver does not expose a transport endpoint yet.");
    }
    let device = match active_id {
        Some(id) => find_receiver_device(state, id),
        None => None,
    };
    proof {
        assert(crate::models::device_views(state.discovered_devices@) =~= state@.discovered_devices);
    }
    match device {
        None => {
            record_one(
                state,
                DiagnosticLevel::Warning,
                "streaming",
                "No receiver with a resolved transport endpoint is currently selected.",
            );
            None
        },
        Some(device) => match crate::models::clone_opt_endpoint(&device.endpoint) {
            None => {
                record_one(state, DiagnosticLevel::Warning, "streaming", "Selected receiver does not expose a transport endpoint yet.");
                None
            },
            Some(endpoint) => Some((device, endpoint)),
        },
    }
}

pub open spec fn target_for_receiver(id: Seq<char>) -> spec_fn(StreamTargetSnapshotView) -> bool {
    |t: StreamTargetSnapshotView| t.receiver_id == id
}

/// The event after a cast to `device` was queued or refused.
pub open spec fn cast_started_entry(device: DiscoveredDeviceView, result: Result<StreamSessionSnapshotView, Seq<char>>) -> Entry {
    match result {
        Ok(snapshot) => (
            DiagnosticLevel::Info,
            "streaming"@,
            "Queued receiver target "@ + match find_first(snapshot.targets, target_for_receiver(device.id)) {
                Some(t) => t.receiver_name,
                None => device.display_name,
            } + " at "@ + match device.endpoint {
                Some(e) => socket_text(e.address),
                None => "unknown endpoint"@,
            } + " with local mirror "@ + (if snapshot.local_mirror.desired_enabled { "enabled"@ } else { "disabled"@ })
                + "."@,
        ),
        Err(e) => (DiagnosticLevel::Error, "streaming"@, "Failed to start stream: "@ + e),
    }
}

pub open spec fn snapshot_outcome(r: Result<StreamSessionSnapshot, String>) -> Result<StreamSessionSnapshotView, Seq<char>> {
    match r {
        Ok(s) => Ok(s@),
        Err(e) => Err(e@),
    }
}

/// The state a sender answer leaves: its snapshot applied on success,
/// nothing changed on failure (diagnostics aside).
pub open spec fn after_sender_answer(st: AppStateView, result: Result<StreamSessionSnapshot, String>) -> AppStateView {
    match result {
        Ok(snapshot) => AppStateView { cast_session: cast_state_of(snapshot.state), streaming: snapshot@, ..st },
        Err(_) => st,
    }
}

fn target_name_for(snapshot: &StreamSessionSnapshot, device: &DiscoveredDevice) -> (r: String)
    ensures
        r@ == match find_first(snapshot@.targets, target_for_receiver(device@.id)) {
            Some(t) => t.receiver_name,
            None => device@.display_name,
        },
{
    let ghost views = snapshot@.targets;
    let ghost p = target_for_receiver(device@.id);
    let mut i: usize = 0;
    while i < snapshot.targets.len()
        invariant
            i <= snapshot.targets@.len(),
            views == snapshot@.targets,
            views.len() == snapshot.targets@.len(),
            forall|k: int| 0 <= k < views.len() ==> #[trigger] views[k] == snapshot.targets@[k]@,
            p == target_for_receiver(device@.id),
            forall|k: int| 0 <= k < i ==> !p(#[trigger] views[k]),
        decreases snapshot.targets@.len() - i,
    {
        if snapshot.targets[i].receiver_id.same_as(&device.id) {
            proof {
                assert(is_first_index(views, p, i as int));
                lemma_first_index_is(views, p, i as int);
            }
            return snapshot.targets[i].receiver_name.clone();
        }
        i = i + 1;
    }
    proof {
        lemma_no_index(views, p);
    }
    device.display_name.clone()
}

/// Records the sender's answer to a cast request for `device`.
pub fn cast_target_started(state: &mut AppState, device: &DiscoveredDevice, result: Result<StreamSessionSnapshot, String>)
    ensures
        final(state)@ == (AppStateView {
            diagnostics: final(state)@.diagnostics,
            ..after_sender_answer(old(state)@, result)
        }),
        appended(
            old(state)@.diagnostics,
            final(state)@.diagnostics,
            seq![cast_started_entry(device@, snapshot_outcome(result))],
        ),
{
    proof {
        reveal_strlit("streaming");
        reveal_strlit("enabled");
        reveal_strlit("disabled");
    }
    match result {
        Ok(snapshot) => {
            let mut message = "Queued receiver target ".to_owned();
            let name = target_name_for(&snapshot, device);
            append_str(&mut message, name.as_str());
            append_str(&mut message, " at ");
            match &device.endpoint {
                Some(e) => {
                    let address = socket_address_text(&e.address);
                    append_str(&mut message, address.as_str());
                },
                None => append_str(&mut message, "unknown endpoint"),
            }
            append_str(&mut message, " with local mirror ");
            append_str(&mut message, if snapshot.local_mirror.desired_enabled { "enabled" } else { "disabled" });
            append_str(&mut message, ".");
            let ghost view = snapshot@;
            state.apply_streaming_snapshot(snapshot);
            assert(message@ =~= cast_started_entry(device@, Ok(view)).2);
            record_one(state, DiagnosticLevel::Info, "streaming", message.as_str());
        },
        Err(error) => {
            let mut message = "Failed to start stream: ".to_owned();
            append_str(&mut message, error.as_str());
            record_one(state, DiagnosticLevel::Error, "streaming", message.as_str());
        },
    }
}

/// The receiver the remove button acts on: the selected one, or a warning
/// when none is selected.
pub fn removal_target(state: &mut AppState) -> (r: Option<DeviceId>)
    ensures
        final(state)@ == (AppStateView { diagnostics: final(state)@.diagnostics, ..old(state)@ }),
        match old(state)@.selected_receiver_device_id {
            Some(id) => r matches Some(d) && d@ == id && final(state)@ == old(state)@,
            None => r is None && appended(old(state)@.diagnostics, final(state)@.diagnostics, seq![(
                DiagnosticLevel::Warning,
                "streaming"@,
                "Select a receiver target before trying to remove it from the cast."@,
            )]),
        },
{
    proof {
        reveal_strlit("streaming");
        reveal_strlit("Select a receiver target before trying to remove it from the cast.");
    }
    match &state.selected_receiver_device_id {
        Some(id) => Some(id.clone()),
        None => {
            record_one(
                state,
                DiagnosticLevel::Warning,
                "streaming",
                "Select a receiver target before trying to remove it from the cast.",
            );
            None
        },
    }
}

/// The event after removing `device_id` from the cast.
pub open spec fn removal_entry(device_id: Seq<char>, result: Result<StreamSessionSnapshotView, Seq<char>>) -> Entry {
    match result {
        Ok(_) => (
            DiagnosticLevel::Info,
            "streaming"@,
            "Removed receiver target "@ + device_id + " from the active cast."@,
        ),
        Err(e) => (DiagnosticLevel::Error, "streaming"@, "Failed to stop stream: "@ + e),
    }
}

/// Records the sender's answer to removing one receiver from the cast.
pub fn target_removed(state: &mut AppState, device_id: &DeviceId, result: Result<StreamSessionSnapshot, String>)
    ensures
        final(state)@ == (AppStateView {
            diagnostics: final(state)@.diagnostics,
            ..after_sender_answer(old(state)@, result)
        }),
        appended(
            old(state)@.diagnostics,
            final(state)@.diagnostics,
            seq![removal_entry(device_id@, snapshot_outcome(result))],
        ),
{
    proof {
        reveal_strlit("streaming");
    }
    match result {
        Ok(snapshot) => {
            state.apply_streaming_snapshot(snapshot);
            let mut message = "Removed receiver target ".to_owned();
            append_str(&mut message, device_id.as_str());
            append_str(&mut message, " from the active cast.");
            record_one(state, DiagnosticLevel::Info, "streaming", message.as_str());
        },
        Err(error) => {
            let mut message = "Failed to stop stream: ".to_owned();
            append_str(&mut message, error.as_str());
            record_one(state, DiagnosticLevel::Error, "streaming", message.as_str());
        },
    }
}

/// The event after stopping every cast target.
pub open spec fn stop_all_entry(result: Result<StreamSessionSnapshotView, Seq<char>>) -> Entry {
    match result {
        Ok(_) => (
            DiagnosticLevel::Info,
            "streaming"@,
            "Stopped the sender session manager and released all target transports."@,
        ),
        Err(e) => (DiagnosticLevel::Error, "streaming"@, "Failed to stop all sender targets: "@ + e),
    }
}

/// Records the sender's answer to stopping the whole cast.
pub fn all_targets_stopped(state: &mut AppState, result: Result<StreamSessionSnapshot, String>)
    ensures
        final(state)@ == (AppStateView {
            diagnostics: final(state)@.diagnostics,
            ..after_sender_answer(old(state)@, result)
        }),
        appended(old(state)@.diagnostics, final(state)@.diagnostics, seq![stop_all_entry(snapshot_outcome(result))]),
{
    proof {
        reveal_strlit("streaming");
        reveal_strlit("Stopped the sender session manager and released all target transports.");
    }
    match result {
        Ok(snapshot) => {
            state.apply_streaming_snapshot(snapshot);
            record_one(
                state,
                DiagnosticLevel::Info,
                "streaming",
                "Stopped the sender session manager and released all target transports.",
            );
        },
        Err(error) => {
            let mut message = "Failed to stop all sender targets: ".to_owned();
            append_str(&mut message, error.as_str());
            record_one(state, DiagnosticLevel::Error, "streaming", message.as_str());
        },
    }
}

// ---------------------------------------------------------------------------
// Receiver page
// ---------------------------------------------------------------------------

/// Whether choosing `target_id` changes the receiver's chosen output.
pub fn receiver_target_change_needed(state: &AppState, target_id: &Option<String>) -> (r: bool)
    ensures
        r == (state@.config.receiver.playback_target_id != opt_string_view(*target_id)),
{
    !opt_string_eq(&state.config.receiver.playback_target_id, target_id)
}

pub open spec fn with_receiver_target(st: AppStateView, id: Option<Seq<char>>) -> AppStateView {
    AppStateView {
        config: AppConfigView {
            receiver: ReceiverConfigView { playback_target_id: id, ..st.config.receiver },
            ..st.config
        },
        ..st
    }
}

/// Whether audio is flowing to the receiver's output now.
pub open spec fn receiver_playing(s: ReceiverServiceState) -> bool {
    s == ReceiverServiceState::Connected || s == ReceiverServiceState::Buffering || s == ReceiverServiceState::Playing
}

/// The event after the receiver's output was changed.
pub open spec fn receiver_target_entry(
    targets: Seq<PlaybackTargetView>,
    id: Option<Seq<char>>,
    service: ReceiverServiceState,
    result: Result<(), Seq<char>>,
) -> Entry {
    match result {
        Ok(()) => (
            DiagnosticLevel::Info,
            "receiver"@,
            "Receiver output target set to "@ + selected_target_text(targets, id) + " for the "@
                + (if receiver_playing(service) { "active receiver playback"@ } else { "next receiver playback session"@ })
                + "."@,
        ),
        Err(e) => (DiagnosticLevel::Warning, "receiver"@, "Failed to update receiver playback target: "@ + e),
    }
}

/// Records a new receiver output: the choice is saved, the runtime's new
/// snapshot applied, and the runtime's answer reported.
pub fn receiver_target_applied(
    state: &mut AppState,
    target_id: Option<String>,
    snapshot: ReceiverSnapshot,
    result: Result<(), String>,
)
    ensures
        final(state)@ == (AppStateView {
            receiver: snapshot@,
            diagnostics: final(state)@.diagnostics,
            ..with_receiver_target(old(state)@, opt_string_view(target_id))
        }),
        appended(
            old(state)@.diagnostics,
            final(state)@.diagnostics,
            seq![receiver_target_entry(
                old(state)@.playback_targets,
                opt_string_view(target_id),
                snapshot.state,
                outcome(result),
            )],
        ),
{
    state.select_receiver_playback_target(target_id);
    let service = snapshot.state;
    state.apply_receiver_snapshot(snapshot);
    match result {
        Ok(()) => {
            let mut message = "Receiver output target set to ".to_owned();
            let selected = format_selected_playback_target(state, opt_as_str(&state.config.receiver.playback_target_id));
            append_str(&mut message, selected.as_str());
            append_str(&mut message, " for the ");
            let playing = match service {
                ReceiverServiceState::Connected | ReceiverServiceState::Buffering | ReceiverServiceState::Playing => true,
                _ => false,
            };
            append_str(&mut message, if playing { "active receiver playback" } else { "next receiver playback session" });
            append_str(&mut message, ".");
            record_one(state, DiagnosticLevel::Info, "receiver", message.as_str());
        },
        Err(error) => {
            let mut message = "Failed to update receiver playback target: ".to_owned();
            append_str(&mut message, error.as_str());
            record_one(state, DiagnosticLevel::Warning, "receiver", message.as_str());
        },
    }
    proof {
        reveal_strlit("receiver");
        reveal_strlit("active receiver playback");
        reveal_strlit("next receiver playback session");
    }
}

/// How starting receiver mode went.
pub enum ReceiverStart {
    /// The playback runtime did not start.
    RuntimeFailed(String),
    /// The runtime started but the TCP listener did not (the runtime was
    /// stopped again).
    ListenerFailed(String),
    /// Both run; the runtime's snapshot after starting.
    Started(ReceiverSnapshot),
}

/// The event for how starting receiver mode went.
pub open spec fn receiver_start_entry(start: ReceiverStart) -> Entry {
    match start {
        ReceiverStart::RuntimeFailed(e) => (DiagnosticLevel::Error, "receiver"@, "Failed to start receiver mode: "@ + e@),
        ReceiverStart::ListenerFailed(e) => (
            DiagnosticLevel::Error,
            "receiver"@,
            "Receiver transport listener failed to start: "@ + e@,
        ),
        ReceiverStart::Started(s) => (
            DiagnosticLevel::Info,
            "receiver"@,
            "Receiver mode listening on "@ + s@.bind_host + ":"@ + decimal(s.listen_port as nat) + " with "@
                + latency_preset_text(s.latency_preset) + " latency preset and TCP transport ready."@,
        ),
    }
}

/// Records how starting receiver mode went; a started receiver's snapshot
/// is applied.
pub fn receiver_start_reported(state: &mut AppState, start: ReceiverStart)
    ensures
        final(state)@ == (AppStateView {
            diagnostics: final(state)@.diagnostics,
            ..match start {
                ReceiverStart::Started(s) => AppStateView { receiver: s@, ..old(state)@ },
                _ => old(state)@,
            }
        }),
        appended(old(state)@.diagnostics, final(state)@.diagnostics, seq![receiver_start_entry(start)]),
{
    proof {
        reveal_strlit("receiver");
    }
    match start {
        ReceiverStart::RuntimeFailed(error) => {
            let mut message = "Failed to start receiver mode: ".to_owned();
            append_str(&mut message, error.as_str());
            record_one(state, DiagnosticLevel::Error, "receiver", message.as_str());
        },
        ReceiverStart::ListenerFailed(error) => {
            let mut message = "Receiver transport listener failed to start: ".to_owned();
            append_str(&mut message, error.as_str());
            record_one(state, DiagnosticLevel::Error, "receiver", message.as_str());
        },
        ReceiverStart::Started(snapshot) => {
            let mut message = "Receiver mode listening on ".to_owned();
            append_str(&mut message, snapshot.bind_host.as_str());
            append_str(&mut message, ":");
            append_decimal(&mut message, snapshot.listen_port as u64);
            append_str(&mut message, " with ");
            append_str(&mut message, latency_preset_label(snapshot.latency_preset));
            append_str(&mut message, " latency preset and TCP transport ready.");
            let ghost view = snapshot;
            state.apply_receiver_snapshot(snapshot);
            assert(message@ =~= receiver_start_entry(ReceiverStart::Started(view)).2);
            record_one(state, DiagnosticLevel::Info, "receiver", message.as_str());
        },
    }
}

/// The events after stopping receiver mode: the listener's complaint if it
/// had one, then the release; or the runtime's failure.
pub open spec fn receiver_stop_entries(listener: Result<(), Seq<char>>, runtime: Result<(), Seq<char>>) -> Seq<Entry> {
    match runtime {
        Ok(()) => (match listener {
            Ok(()) => Seq::empty(),
            Err(e) => seq![(DiagnosticLevel::Warning, "receiver"@, "Receiver transport stop reported: "@ + e)],
        }) + seq![(
            DiagnosticLevel::Info,
            "receiver"@,
            "Receiver mode stopped and playback/transport resources were released."@,
        )],
        Err(e) => seq![(DiagnosticLevel::Error, "receiver"@, "Failed to stop receiver mode: "@ + e)],
    }
}

pub open spec fn receiver_outcome(r: Result<ReceiverSnapshot, String>) -> Result<(), Seq<char>> {
    match r {
        Ok(_) => Ok(()),
        Err(e) => Err(e@),
    }
}

/// Records stopping receiver mode: `listener` is how the TCP listener
/// stopped, `runtime` the runtime's snapshot after stopping or its error.
pub fn receiver_stopped(state: &mut AppState, listener: Result<(), String>, runtime: Result<ReceiverSnapshot, String>)
    ensures
        final(state)@ == (AppStateView {
            diagnostics: final(state)@.diagnostics,
            ..match runtime {
                Ok(s) => AppStateView { receiver: s@, ..old(state)@ },
                Err(_) => old(state)@,
            }
        }),
        appended(
            old(state)@.diagnostics,
            final(state)@.diagnostics,
            receiver_stop_entries(outcome(listener), receiver_outcome(runtime)),
        ),
{
    proof {
        reveal_strlit("receiver");
        reveal_strlit("Receiver mode stopped and playback/transport resources were released.");
    }
    let mut events: Vec<DiagnosticEvent> = Vec::new();
    assert(entries(diagnostic_views(events@)) =~= Seq::<Entry>::empty());
    match runtime {
        Ok(snapshot) => {
            state.apply_receiver_snapshot(snapshot);
            match listener {
                Ok(()) => {},
                Err(error) => {
                    let mut message = "Receiver transport stop reported: ".to_owned();
                    append_str(&mut message, error.as_str());
                    push_entry(&mut events, DiagnosticLevel::Warning, "receiver", message.as_str());
                },
            }
            push_entry(
                &mut events,
                DiagnosticLevel::Info,
                "receiver",
                "Receiver mode stopped and playback/transport resources were released.",
            );
        },
        Err(error) => {
            let mut message = "Failed to stop receiver mode: ".to_owned();
            append_str(&mut message, error.as_str());
            push_entry(&mut events, DiagnosticLevel::Error, "receiver", message.as_str());
        },
    }
    assert(entries(diagnostic_views(events@)) =~= receiver_stop_entries(outcome(listener), receiver_outcome(runtime)));
    record_all(&mut state.diagnostics, events);
}

// ---------------------------------------------------------------------------
// Devices page
// ---------------------------------------------------------------------------

/// The discovery step that failed during a poll.
#[derive(Debug, Clone, Copy, PartialEq, Eq, Structural)]
pub enum DiscoveryPollStep {
    /// Reading the next network event.
    Event,
    /// Expiring devices that went quiet.
    Prune,
}

pub open spec fn discovery_failure_text(step: DiscoveryPollStep, error: Seq<char>) -> Seq<char> {
    match step {
        DiscoveryPollStep::Event => "mDNS discovery event error: "@ + error,
        DiscoveryPollStep::Prune => "mDNS stale pruning failed: "@ + error,
    }
}

/// Records a discovery poll failure as a warning.
pub fn discovery_poll_failed(state: &mut AppState, step: DiscoveryPollStep, error: &str)
    ensures
        final(state)@ == (AppStateView { diagnostics: final(state)@.diagnostics, ..old(state)@ }),
        appended(old(state)@.diagnostics, final(state)@.diagnostics, seq![(
            DiagnosticLevel::Warning,
            "discovery"@,
            discovery_failure_text(step, error@),
        )]),
{
    let mut message = match step {
        DiscoveryPollStep::Event => "mDNS discovery event error: ".to_owned(),
        DiscoveryPollStep::Prune => "mDNS stale pruning failed: ".to_owned(),
    };
    append_str(&mut message, error);
    record_one(state, DiagnosticLevel::Warning, "discovery", message.as_str());
    proof {
        reveal_strlit("discovery");
    }
}

} // verus!
