//! What the interface says about outputs, receivers and cast targets, and
//! the diagnostics it records when they change.

use vstd::prelude::*;
use crate::diagnostics::{DiagnosticEvent, DiagnosticLevel};
use crate::health::{session_state_label, session_state_text};
use crate::models::{
    DiscoveredDevice, PlaybackTarget, PlaybackTargetKind, PlaybackTargetView,
    device_views,
};
use crate::seqs::{find_first, lemma_first_index_is, lemma_no_index};
use crate::state::{AppState, selectable_receiver, target_with_id};
use crate::streaming::{StreamTargetHealth, StreamTargetSnapshot, StreamTargetSnapshotView};
use crate::text::{append_str, str_eq};

verus! {

/// The selector entry that stands for the system default output.
pub const DEFAULT_PLAYBACK_TARGET_ID: &'static str = "__system_default_playback__";
pub const SYSTEM_DEFAULT_OUTPUT_LABEL: &'static str = "System default output";

pub open spec fn selection_target(selection_id: Seq<char>) -> Option<Seq<char>> {
    if selection_id == DEFAULT_PLAYBACK_TARGET_ID@ { None } else { Some(selection_id) }
}

/// The output a selector entry names: none for the system default entry.
pub fn playback_target_id_from_selection(selection_id: &str) -> (r: Option<String>)
    ensures
        match r { Some(s) => Some(s@), None => None } == selection_target(selection_id@),
{
    if str_eq(selection_id, DEFAULT_PLAYBACK_TARGET_ID) {
        None
    } else {
        Some(selection_id.to_owned())
    }
}

pub open spec fn target_option_text(t: PlaybackTargetView) -> Seq<char> {
    (match t.kind {
        PlaybackTargetKind::Bluetooth => "Bluetooth"@,
        PlaybackTargetKind::Standard => "Output"@,
    }) + ": "@ + t.display_name + (if t.is_default { " [default]"@ } else { Seq::<char>::empty() })
}

/// The selector label of an output.
pub fn format_playback_target_option(target: &PlaybackTarget) -> (r: String)
    ensures
        r@ == target_option_text(target@),
{
    let mut out = String::new();
    match target.kind {
        PlaybackTargetKind::Bluetooth => append_str(&mut out, "Bluetooth"),
        PlaybackTargetKind::Standard => append_str(&mut out, "Output"),
    }
    append_str(&mut out, ": ");
    append_str(&mut out, target.display_name.as_str());
    if target.is_default {
        append_str(&mut out, " [default]");
    }
    assert(out@ =~= target_option_text(target@));
    out
}

pub open spec fn selected_target_text(targets: Seq<PlaybackTargetView>, target_id: Option<Seq<char>>) -> Seq<char> {
    match target_id {
        None => SYSTEM_DEFAULT_OUTPUT_LABEL@,
        Some(id) => match find_first(targets, target_with_id(id)) {
            Some(t) => match t.kind {
                PlaybackTargetKind::Bluetooth => "Bluetooth output "@ + t.display_name + (match t.bluetooth_address {
                    Some(a) => " ("@ + a + ")"@,
                    None => Seq::<char>::empty(),
                }),
                PlaybackTargetKind::Standard => "output "@ + t.display_name,
            },
            None => "output "@ + id + " (currently unavailable)"@,
        },
    }
}

pub open spec fn opt_str_view(o: Option<&str>) -> Option<Seq<char>> {
    match o {
        Some(s) => Some(s@),
        None => None,
    }
}

/// The text of an optional string, borrowed.
pub(crate) fn opt_as_str(o: &Option<String>) -> (r: Option<&str>)
    ensures
        opt_str_view(r) == crate::models::opt_string_view(*o),
{
    match o {
        Some(s) => Some(s.as_str()),
        None => None,
    }
}

/// How a chosen output reads: the system default, a listed output by
/// name, or an identifier that is not listed now.
pub fn format_selected_playback_target(state: &AppState, target_id: Option<&str>) -> (r: String)
    ensures
        r@ == selected_target_text(state@.playback_targets, opt_str_view(target_id)),
{
    let id = match target_id {
        None => return SYSTEM_DEFAULT_OUTPUT_LABEL.to_owned(),
        Some(id) => id,
    };
    let mut out = String::new();
    match state.playback_target(id) {
        Some(target) => match target.kind {
            PlaybackTargetKind::Bluetooth => {
                append_str(&mut out, "Bluetooth output ");
                append_str(&mut out, target.display_name.as_str());
                match &target.bluetooth_address {
                    Some(address) => {
                        append_str(&mut out, " (");
                        append_str(&mut out, address.as_str());
                        append_str(&mut out, ")");
                    },
                    None => {},
                }
            },
            PlaybackTargetKind::Standard => {
                append_str(&mut out, "output ");
                append_str(&mut out, target.display_name.as_str());
            },
        },
        None => {
            append_str(&mut out, "output ");
            append_str(&mut out, id);
            append_str(&mut out, " (currently unavailable)");
        },
    }
    assert(out@ =~= selected_target_text(state@.playback_targets, opt_str_view(target_id)));
    out
}

pub open spec fn transition_text(prefix: Seq<char>, available: bool, target: Seq<char>) -> Seq<char> {
    prefix + " is "@ + (if available { "available"@ } else { "currently unavailable"@ }) + ": "@ + target + "."@
}

/// The event recorded when a chosen output appears or disappears: news
/// when it became available, a warning when it went away.
pub fn playback_target_transition_diagnostic(
    state: &AppState,
    component: &str,
    prefix: &str,
    target_id: Option<&str>,
    available: bool,
) -> (r: DiagnosticEvent)
    ensures
        r.level == (if available { DiagnosticLevel::Info } else { DiagnosticLevel::Warning }),
        r.component@ == component@,
        r.message@ == transition_text(
            prefix@,
            available,
            selected_target_text(state@.playback_targets, opt_str_view(target_id)),
        ),
{
    let mut message = prefix.to_owned();
    append_str(&mut message, " is ");
    if available {
        append_str(&mut message, "available");
    } else {
        append_str(&mut message, "currently unavailable");
    }
    append_str(&mut message, ": ");
    let target = format_selected_playback_target(state, target_id);
    append_str(&mut message, target.as_str());
    append_str(&mut message, ".");
    assert(message@ =~= transition_text(
        prefix@,
        available,
        selected_target_text(state@.playback_targets, opt_str_view(target_id)),
    ));
    if available {
        DiagnosticEvent::info(component, message.as_str())
    } else {
        DiagnosticEvent::warning(component, message.as_str())
    }
}

/// The first discovered device with this identifier that can receive.
pub fn find_receiver_device(state: &AppState, device_id: &str) -> (r: Option<DiscoveredDevice>)
    ensures
        match r { Some(d) => Some(d@), None => None } == find_first(
            device_views(state.discovered_devices@),
            selectable_receiver(device_id@),
        ),
{
    let ghost s = device_views(state.discovered_devices@);
    let ghost p = selectable_receiver(device_id@);
    let mut i: usize = 0;
    while i < state.discovered_devices.len()
        invariant
            i <= state.discovered_devices@.len(),
            s == device_views(state.discovered_devices@),
            p == selectable_receiver(device_id@),
            forall|j: int| 0 <= j < i ==> !p(#[trigger] s[j]),
        decreases state.discovered_devices@.len() - i,
    {
        let device = &state.discovered_devices[i];
        if str_eq(device.id.as_str(), device_id) && device.capabilities.supports_receiver {
            proof {
                assert(p(s[i as int]));
                lemma_first_index_is(s, p, i as int);
            }
            return Some(device.clone());
        }
        assert(!p(s[i as int]));
        i = i + 1;
    }
    proof {
        lemma_no_index(s, p);
    }
    None
}

pub open spec fn health_text(h: StreamTargetHealth) -> Seq<char> {
    match h {
        StreamTargetHealth::Pending => "Pending"@,
        StreamTargetHealth::Healthy => "Healthy"@,
        StreamTargetHealth::Degraded => "Degraded"@,
        StreamTargetHealth::Unreachable => "Unreachable"@,
        StreamTargetHealth::Error => "Error"@,
    }
}

pub fn health_label(h: StreamTargetHealth) -> (r: &'static str)
    ensures
        r@ == health_text(h),
{
    match h {
        StreamTargetHealth::Pending => "Pending",
        StreamTargetHealth::Healthy => "Healthy",
        StreamTargetHealth::Degraded => "Degraded",
        StreamTargetHealth::Unreachable => "Unreachable",
        StreamTargetHealth::Error => "Error",
    }
}

/// The last snapshot in `s` for receiver `id`.
pub open spec fn last_with_id(s: Seq<StreamTargetSnapshotView>, id: Seq<char>) -> Option<StreamTargetSnapshotView>
    decreases s.len(),
{
    if s.len() == 0 {
        None
    } else if s.last().receiver_id == id {
        Some(s.last())
    } else {
        last_with_id(s.drop_last(), id)
    }
}

/// What changed for one target since the previous snapshot of it: a new
/// target, a new state or health, a new error.
pub open spec fn target_changes(
    previous: Option<StreamTargetSnapshotView>,
    t: StreamTargetSnapshotView,
) -> Seq<(DiagnosticLevel, Seq<char>)> {
    match previous {
        None => seq![(
            DiagnosticLevel::Info,
            "Target "@ + t.receiver_name + " joined the cast collection with state "@ + session_state_text(t.state) + "."@,
        )],
        Some(p) => (if p.state != t.state || p.health != t.health {
            seq![(
                DiagnosticLevel::Info,
                "Target "@ + t.receiver_name + " is now "@ + session_state_text(t.state) + " with "@ + health_text(t.health)
                    + " health."@,
            )]
        } else {
            Seq::empty()
        }) + (match t.last_error {
            Some(e) if p.last_error != t.last_error => seq![(
                DiagnosticLevel::Warning,
                "Target "@ + t.receiver_name + " reported: "@ + e,
            )],
            _ => Seq::empty(),
        }),
    }
}

pub open spec fn change_messages(
    previous: Seq<StreamTargetSnapshotView>,
    next: Seq<StreamTargetSnapshotView>,
) -> Seq<(DiagnosticLevel, Seq<char>)>
    decreases next.len(),
{
    if next.len() == 0 {
        Seq::empty()
    } else {
        change_messages(previous, next.drop_last()) + target_changes(
            last_with_id(previous, next.last().receiver_id),
            next.last(),
        )
    }
}

pub open spec fn removal_messages(
    previous: Seq<StreamTargetSnapshotView>,
    next: Seq<StreamTargetSnapshotView>,
) -> Seq<(DiagnosticLevel, Seq<char>)>
    decreases previous.len(),
{
    if previous.len() == 0 {
        Seq::empty()
    } else {
        removal_messages(previous.drop_last(), next) + (if last_with_id(next, previous.last().receiver_id) is None {
            seq![(
                DiagnosticLevel::Info,
                "Target "@ + previous.last().receiver_name + " was removed from the cast collection."@,
            )]
        } else {
            Seq::empty()
        })
    }
}

/// The messages for the step from `previous` to `next`: for each target of
/// `next` in order what changed, then each target of `previous` that left.
pub open spec fn transition_messages(
    previous: Seq<StreamTargetSnapshotView>,
    next: Seq<StreamTargetSnapshotView>,
) -> Seq<(DiagnosticLevel, Seq<char>)> {
    change_messages(previous, next) + removal_messages(previous, next)
}

pub open spec fn target_views(s: Seq<StreamTargetSnapshot>) -> Seq<StreamTargetSnapshotView> {
    s.map_values(|t: StreamTargetSnapshot| t@)
}

pub open spec fn event_texts(s: Seq<DiagnosticEvent>) -> Seq<(DiagnosticLevel, Seq<char>)> {
    s.map_values(|e: DiagnosticEvent| (e.level, e.message@))
}

fn last_position_with_id(s: &[StreamTargetSnapshot], id: &StreamTargetSnapshot) -> (r: Option<usize>)
    ensures
        match r {
            Some(i) => i < s@.len() && last_with_id(target_views(s@), id@.receiver_id) == Some(s@[i as int]@),
            None => last_with_id(target_views(s@), id@.receiver_id) is None,
        },
{
    let mut i = s.len();
    assert(s@.subrange(0, s@.len() as int) =~= s@);
    while i > 0
        invariant
            i <= s@.len(),
            last_with_id(target_views(s@), id@.receiver_id) == last_with_id(
                target_views(s@.subrange(0, i as int)),
                id@.receiver_id,
            ),
        decreases i,
    {
        let ghost prefix = target_views(s@.subrange(0, i as int));
        assert(prefix.last() == s@[i - 1]@);
        assert(prefix.drop_last() =~= target_views(s@.subrange(0, i - 1)));
        if s[i - 1].receiver_id.same_as(&id.receiver_id) {
            return Some(i - 1);
        }
        i = i - 1;
    }
    None
}

pub(crate) fn opt_string_eq(a: &Option<String>, b: &Option<String>) -> (r: bool)
    ensures
        r == (match a { Some(s) => Some(s@), None => None } == match b { Some(s) => Some(s@), None => None }),
{
    match (a, b) {
        (Some(x), Some(y)) => str_eq(x.as_str(), y.as_str()),
        (None, None) => true,
        _ => false,
    }
}

fn push_target_changes(out: &mut Vec<DiagnosticEvent>, previous: Option<&StreamTargetSnapshot>, t: &StreamTargetSnapshot)
    ensures
        event_texts(final(out)@) == event_texts(old(out)@) + target_changes(
            match previous { Some(p) => Some(p@), None => None },
            t@,
        ),
        forall|i: int| 0 <= i < old(out)@.len() ==> final(out)@[i] == old(out)@[i],
        forall|i: int| old(out)@.len() <= i < final(out)@.len() ==> (#[trigger] final(out)@[i]).component@ == "streaming"@,
{
    let ghost before = out@;
    match previous {
        None => {
            let mut message = "Target ".to_owned();
            append_str(&mut message, t.receiver_name.as_str());
            append_str(&mut message, " joined the cast collection with state ");
            append_str(&mut message, session_state_label(t.state));
            append_str(&mut message, ".");
            out.push(DiagnosticEvent::info("streaming", message.as_str()));
        },
        Some(p) => {
            if p.state != t.state || p.health != t.health {
                let mut message = "Target ".to_owned();
                append_str(&mut message, t.receiver_name.as_str());
                append_str(&mut message, " is now ");
                append_str(&mut message, session_state_label(t.state));
                append_str(&mut message, " with ");
                append_str(&mut message, health_label(t.health));
                append_str(&mut message, " health.");
                out.push(DiagnosticEvent::info("streaming", message.as_str()));
            }
            if !opt_string_eq(&p.last_error, &t.last_error) {
                match &t.last_error {
                    Some(error) => {
                        let mut message = "Target ".to_owned();
                        append_str(&mut message, t.receiver_name.as_str());
                        append_str(&mut message, " reported: ");
                        append_str(&mut message, error.as_str());
                        out.push(DiagnosticEvent::warning("streaming", message.as_str()));
                    },
                    None => {},
                }
            }
        },
    }
    assert(event_texts(out@) =~= event_texts(before) + target_changes(
        match previous { Some(p) => Some(p@), None => None },
        t@,
    ));
}

/// The diagnostics the cast view records between two target lists.
pub fn stream_target_transition_messages(
    previous: &[StreamTargetSnapshot],
    next: &[StreamTargetSnapshot],
) -> (r: Vec<DiagnosticEvent>)
    ensures
        event_texts(r@) == transition_messages(target_views(previous@), target_views(next@)),
        forall|i: int| 0 <= i < r@.len() ==> (#[trigger] r@[i]).component@ == "streaming"@,
{
    let ghost pv = target_views(previous@);
    let ghost nv = target_views(next@);
    let mut out: Vec<DiagnosticEvent> = Vec::new();
    let mut i: usize = 0;
    while i < next.len()
        invariant
            i <= next@.len(),
            pv == target_views(previous@),
            nv == target_views(next@),
            event_texts(out@) == change_messages(pv, nv.subrange(0, i as int)),
            forall|k: int| 0 <= k < out@.len() ==> (#[trigger] out@[k]).component@ == "streaming"@,
        decreases next@.len() - i,
    {
        let found = last_position_with_id(previous, &next[i]);
        let prev = match found {
            Some(k) => Some(&previous[k]),
            None => None,
        };
        push_target_changes(&mut out, prev, &next[i]);
        proof {
            assert(nv.subrange(0, i + 1).drop_last() =~= nv.subrange(0, i as int));
            assert(nv.subrange(0, i + 1).last() == next@[i as int]@);
        }
        i = i + 1;
    }
    assert(nv.subrange(0, nv.len() as int) =~= nv);
    let ghost changes = event_texts(out@);
    let mut j: usize = 0;
    while j < previous.len()
        invariant
            j <= previous@.len(),
            pv == target_views(previous@),
            nv == target_views(next@),
            changes == change_messages(pv, nv),
            event_texts(out@) == changes + removal_messages(pv.subrange(0, j as int), nv),
            forall|k: int| 0 <= k < out@.len() ==> (#[trigger] out@[k]).component@ == "streaming"@,
        decreases previous@.len() - j,
    {
        let found = last_position_with_id(next, &previous[j]);
        let ghost before = out@;
        let ghost removed = seq![(
            DiagnosticLevel::Info,
            "Target "@ + previous@[j as int]@.receiver_name + " was removed from the cast collection."@,
        )];
        if found.is_none() {
            let mut message = "Target ".to_owned();
            append_str(&mut message, previous[j].receiver_name.as_str());
            append_str(&mut message, " was removed from the cast collection.");
            out.push(DiagnosticEvent::info("streaming", message.as_str()));
            assert(event_texts(out@) =~= event_texts(before) + removed);
        } else {
            assert(event_texts(out@) =~= event_texts(before));
        }
        proof {
            assert(pv.subrange(0, j + 1).drop_last() =~= pv.subrange(0, j as int));
            assert(pv.subrange(0, j + 1).last() == previous@[j as int]@);
            assert(event_texts(out@) =~= changes + removal_messages(pv.subrange(0, j + 1), nv));
        }
        j = j + 1;
    }
    assert(pv.subrange(0, pv.len() as int) =~= pv);
    out
}

} // verus!
