//! What the interface's periodic polls make of fresh snapshots: the state
//! they update and the diagnostics they record about each change.

use vstd::prelude::*;
use crate::diagnostics::{DiagnosticEvent, DiagnosticEventView, DiagnosticLevel};
use crate::health::{
    mirror_state_label, mirror_state_text, receiver_state_label, receiver_state_text, session_state_label,
    session_state_text,
};
use crate::models::{PlaybackTarget, PlaybackTargetView, opt_string_view, target_views};
use crate::presentation::{
    event_texts, format_selected_playback_target, opt_as_str, opt_string_eq, playback_target_transition_diagnostic,
    selected_target_text, stream_target_transition_messages, transition_messages, transition_text,
};
use crate::receiver::{ReceiverSnapshot, ReceiverSnapshotView, ReceiverSyncSnapshot, ReceiverSyncState};
use crate::state::{AppState, AppStateView, cast_state_of, diagnostic_views, target_available};
use crate::status::{signed_text, sync_state_label, sync_state_text};
use crate::streaming::{LocalMirrorState, StreamSessionSnapshot, StreamSessionSnapshotView, StreamSessionState};
use crate::text::{append_decimal, append_str, decimal, str_eq};

verus! {

/// A recorded diagnostic without its timestamp: level, component, message.
pub type Entry = (DiagnosticLevel, Seq<char>, Seq<char>);

pub open spec fn entry_of(e: DiagnosticEventView) -> Entry {
    (e.level, e.component, e.message)
}

pub open spec fn entries(s: Seq<DiagnosticEventView>) -> Seq<Entry> {
    s.map_values(|e: DiagnosticEventView| entry_of(e))
}

/// `after` is `before` with events appended whose entries are `added`.
pub open spec fn appended(before: Seq<DiagnosticEventView>, after: Seq<DiagnosticEventView>, added: Seq<Entry>) -> bool {
    &&& after.len() == before.len() + added.len()
    &&& after.subrange(0, before.len() as int) == before
    &&& entries(after.skip(before.len() as int)) == added
}

pub(crate) fn push_entry(events: &mut Vec<DiagnosticEvent>, level: DiagnosticLevel, component: &str, message: &str)
    ensures
        entries(diagnostic_views(final(events)@)) == entries(diagnostic_views(old(events)@)).push(
            (level, component@, message@),
        ),
{
    let event = match level {
        DiagnosticLevel::Info => DiagnosticEvent::info(component, message),
        DiagnosticLevel::Warning => DiagnosticEvent::warning(component, message),
        DiagnosticLevel::Error => DiagnosticEvent::error(component, message),
    };
    events.push(event);
    assert(entries(diagnostic_views(events@)) =~= entries(diagnostic_views(old(events)@)).push(
        (level, component@, message@),
    ));
}

pub(crate) fn record_all(diagnostics: &mut Vec<DiagnosticEvent>, events: Vec<DiagnosticEvent>)
    ensures
        appended(
            diagnostic_views(old(diagnostics)@),
            diagnostic_views(final(diagnostics)@),
            entries(diagnostic_views(events@)),
        ),
{
    let mut events = events;
    let ghost added = events@;
    diagnostics.append(&mut events);
    let ghost before = diagnostic_views(old(diagnostics)@);
    let ghost after = diagnostic_views(diagnostics@);
    assert(after.subrange(0, before.len() as int) =~= before);
    assert(after.skip(before.len() as int) =~= diagnostic_views(added));
}

// ---------------------------------------------------------------------------
// Receiver poll
// ---------------------------------------------------------------------------

/// The event for a new synchronisation state: a warning while late or
/// recovering (with the drift), news otherwise (with the latency figures).
pub open spec fn sync_entry(s: ReceiverSyncSnapshot) -> Entry {
    if s.state == ReceiverSyncState::Late || s.state == ReceiverSyncState::Recovering {
        (
            DiagnosticLevel::Warning,
            "receiver-sync"@,
            "Receiver sync is now "@ + sync_state_text(s.state) + " (buffer delta "@ + signed_text(s.buffer_delta_ms as int)
                + " ms, schedule error "@ + signed_text(s.schedule_error_ms as int) + " ms)."@,
        )
    } else {
        (
            DiagnosticLevel::Info,
            "receiver-sync"@,
            "Receiver sync is now "@ + sync_state_text(s.state) + " (expected "@
                + decimal(s.expected_output_latency_ms as nat) + " ms, queued "@ + decimal(s.queued_audio_ms as nat)
                + " ms)."@,
        )
    }
}

/// What a new receiver snapshot reports against the previous one: a new
/// service state, a new synchronisation state, packets dropped since, and
/// a new runtime error.
pub open spec fn receiver_change_entries(previous: ReceiverSnapshotView, next: ReceiverSnapshotView) -> Seq<Entry> {
    (if previous.state != next.state {
        seq![(DiagnosticLevel::Info, "receiver"@, "Receiver state is now "@ + receiver_state_text(next.state))]
    } else {
        Seq::empty()
    }) + (if previous.sync.state != next.sync.state {
        seq![sync_entry(next.sync)]
    } else {
        Seq::empty()
    }) + (if next.sync.late_packet_drops > previous.sync.late_packet_drops {
        seq![(
            DiagnosticLevel::Warning,
            "receiver-sync"@,
            "Receiver dropped "@ + decimal((next.sync.late_packet_drops - previous.sync.late_packet_drops) as nat)
                + " stale packet(s) to recover sync."@,
        )]
    } else {
        Seq::empty()
    }) + (match next.last_error {
        Some(e) if previous.last_error != next.last_error => seq![(
            DiagnosticLevel::Warning,
            "receiver"@,
            "Receiver runtime reported: "@ + e,
        )],
        _ => Seq::empty(),
    })
}

/// The message of the newest event once `added` follows `diagnostics`.
pub open spec fn newest_message(diagnostics: Seq<DiagnosticEventView>, added: Seq<Entry>) -> Option<Seq<char>> {
    if added.len() > 0 {
        Some(added.last().2)
    } else if diagnostics.len() > 0 {
        Some(diagnostics.last().message)
    } else {
        None
    }
}

/// The receiver poll's events: the changes, then the listener's error
/// unless the newest event's message is that very error text.
pub open spec fn receiver_poll_entries(
    diagnostics: Seq<DiagnosticEventView>,
    previous: ReceiverSnapshotView,
    next: ReceiverSnapshotView,
    listener_error: Option<Seq<char>>,
) -> Seq<Entry> {
    let changes = receiver_change_entries(previous, next);
    changes + match listener_error {
        Some(e) if newest_message(diagnostics, changes) != Some(e) => seq![(
            DiagnosticLevel::Warning,
            "receiver-transport"@,
            "Receiver TCP listener reported: "@ + e,
        )],
        _ => Seq::empty(),
    }
}

fn push_sync_entry(events: &mut Vec<DiagnosticEvent>, s: &ReceiverSyncSnapshot)
    ensures
        entries(diagnostic_views(final(events)@)) == entries(diagnostic_views(old(events)@)).push(sync_entry(*s)),
{
    let mut message = "Receiver sync is now ".to_owned();
    append_str(&mut message, sync_state_label(s.state));
    let late = match s.state {
        ReceiverSyncState::Late | ReceiverSyncState::Recovering => true,
        _ => false,
    };
    if late {
        append_str(&mut message, " (buffer delta ");
        crate::status::append_signed(&mut message, s.buffer_delta_ms);
        append_str(&mut message, " ms, schedule error ");
        crate::status::append_signed(&mut message, s.schedule_error_ms);
        append_str(&mut message, " ms).");
        push_entry(events, DiagnosticLevel::Warning, "receiver-sync", message.as_str());
    } else {
        append_str(&mut message, " (expected ");
        append_decimal(&mut message, s.expected_output_latency_ms as u64);
        append_str(&mut message, " ms, queued ");
        append_decimal(&mut message, s.queued_audio_ms as u64);
        append_str(&mut message, " ms).");
        push_entry(events, DiagnosticLevel::Info, "receiver-sync", message.as_str());
    }
    proof {
        reveal_strlit("receiver-sync");
    }
}

fn receiver_change_events(previous: &ReceiverSnapshot, next: &ReceiverSnapshot) -> (r: Vec<DiagnosticEvent>)
    ensures
        entries(diagnostic_views(r@)) == receiver_change_entries(previous@, next@),
{
    let mut events: Vec<DiagnosticEvent> = Vec::new();
    assert(entries(diagnostic_views(events@)) =~= Seq::<Entry>::empty());
    if previous.state != next.state {
        let mut message = "Receiver state is now ".to_owned();
        append_str(&mut message, receiver_state_label(next.state));
        push_entry(&mut events, DiagnosticLevel::Info, "receiver", message.as_str());
    }
    if previous.sync.state != next.sync.state {
        push_sync_entry(&mut events, &next.sync);
    }
    if next.sync.late_packet_drops > previous.sync.late_packet_drops {
        let mut message = "Receiver dropped ".to_owned();
        append_decimal(&mut message, next.sync.late_packet_drops - previous.sync.late_packet_drops);
        append_str(&mut message, " stale packet(s) to recover sync.");
        push_entry(&mut events, DiagnosticLevel::Warning, "receiver-sync", message.as_str());
    }
    if !opt_string_eq(&previous.last_error, &next.last_error) {
        match &next.last_error {
            Some(error) => {
                let mut message = "Receiver runtime reported: ".to_owned();
                append_str(&mut message, error.as_str());
                push_entry(&mut events, DiagnosticLevel::Warning, "receiver", message.as_str());
            },
            None => {},
        }
    }
    proof {
        reveal_strlit("receiver");
        reveal_strlit("receiver-sync");
    }
    assert(entries(diagnostic_views(events@)) =~= receiver_change_entries(previous@, next@));
    events
}

/// Applies a receiver snapshot and records what changed (see
/// `receiver_poll_entries`); `listener_error` is the TCP listener's last
/// error.
pub fn observe_receiver_snapshot(state: &mut AppState, snapshot: ReceiverSnapshot, listener_error: &Option<String>)
    ensures
        final(state)@ == (AppStateView {
            receiver: snapshot@,
            diagnostics: final(state)@.diagnostics,
            ..old(state)@
        }),
        appended(
            old(state)@.diagnostics,
            final(state)@.diagnostics,
            receiver_poll_entries(old(state)@.diagnostics, old(state)@.receiver, snapshot@, opt_string_view(*listener_error)),
        ),
{
    let mut events = receiver_change_events(&state.receiver, &snapshot);
    let ghost changes = entries(diagnostic_views(events@));
    match listener_error {
        Some(error) => {
            let newest_is_error = if events.len() > 0 {
                str_eq(events[events.len() - 1].message.as_str(), error.as_str())
            } else if state.diagnostics.len() > 0 {
                str_eq(state.diagnostics[state.diagnostics.len() - 1].message.as_str(), error.as_str())
            } else {
                false
            };
            proof {
                if events@.len() > 0 {
                    assert(changes.last() == entry_of(events@.last()@));
                }
            }
            assert(newest_is_error == (newest_message(old(state)@.diagnostics, changes) == Some(error@)));
            if !newest_is_error {
                let mut message = "Receiver TCP listener reported: ".to_owned();
                append_str(&mut message, error.as_str());
                push_entry(&mut events, DiagnosticLevel::Warning, "receiver-transport", message.as_str());
            }
        },
        None => {},
    }
    proof {
        reveal_strlit("receiver-transport");
    }
    assert(entries(diagnostic_views(events@)) =~= receiver_poll_entries(
        old(state)@.diagnostics,
        old(state)@.receiver,
        snapshot@,
        opt_string_view(*listener_error),
    ));
    state.apply_receiver_snapshot(snapshot);
    record_all(&mut state.diagnostics, events);
}

// ---------------------------------------------------------------------------
// Cast poll
// ---------------------------------------------------------------------------

pub open spec fn with_component(component: Seq<char>, s: Seq<(DiagnosticLevel, Seq<char>)>) -> Seq<Entry> {
    s.map_values(|m: (DiagnosticLevel, Seq<char>)| (m.0, component, m.1))
}

/// What a new cast snapshot reports against the previous one: a new
/// session state, a new session error, a new local mirror state, a new
/// mirror error, then what changed for each target.
pub open spec fn streaming_poll_entries(previous: StreamSessionSnapshotView, next: StreamSessionSnapshotView) -> Seq<Entry> {
    (if previous.state != next.state {
        seq![(DiagnosticLevel::Info, "streaming"@, "Sender stream state is now "@ + session_state_text(next.state))]
    } else {
        Seq::empty()
    }) + (match next.last_error {
        Some(e) if previous.last_error != next.last_error => seq![(
            DiagnosticLevel::Warning,
            "streaming"@,
            "Sender stream reported: "@ + e,
        )],
        _ => Seq::empty(),
    }) + (if previous.local_mirror.state != next.local_mirror.state {
        seq![(
            DiagnosticLevel::Info,
            "streaming"@,
            "Local playback mirror is now "@ + mirror_state_text(next.local_mirror.state),
        )]
    } else {
        Seq::empty()
    }) + (match next.local_mirror.last_error {
        Some(e) if previous.local_mirror.last_error != next.local_mirror.last_error => seq![(
            DiagnosticLevel::Warning,
            "streaming"@,
            "Local playback mirror reported: "@ + e,
        )],
        _ => Seq::empty(),
    }) + with_component("streaming"@, transition_messages(previous.targets, next.targets))
}

fn push_error_change(events: &mut Vec<DiagnosticEvent>, previous: &Option<String>, next: &Option<String>, prefix: &str)
    ensures
        entries(diagnostic_views(final(events)@)) == entries(diagnostic_views(old(events)@)) + match opt_string_view(*next) {
            Some(e) if opt_string_view(*previous) != opt_string_view(*next) => seq![(
                DiagnosticLevel::Warning,
                "streaming"@,
                prefix@ + e,
            )],
            _ => Seq::<Entry>::empty(),
        },
{
    let ghost before = entries(diagnostic_views(events@));
    if !opt_string_eq(previous, next) {
        match next {
            Some(error) => {
                let mut message = prefix.to_owned();
                append_str(&mut message, error.as_str());
                push_entry(events, DiagnosticLevel::Warning, "streaming", message.as_str());
            },
            None => {},
        }
    }
    proof {
        reveal_strlit("streaming");
    }
    assert(entries(diagnostic_views(events@)) =~= before + match opt_string_view(*next) {
        Some(e) if opt_string_view(*previous) != opt_string_view(*next) => seq![(
            DiagnosticLevel::Warning,
            "streaming"@,
            prefix@ + e,
        )],
        _ => Seq::<Entry>::empty(),
    });
}

fn streaming_poll_events(previous: &StreamSessionSnapshot, next: &StreamSessionSnapshot) -> (r: Vec<DiagnosticEvent>)
    ensures
        entries(diagnostic_views(r@)) == streaming_poll_entries(previous@, next@),
{
    proof {
        reveal_strlit("streaming");
        reveal_strlit("Sender stream reported: ");
        reveal_strlit("Local playback mirror reported: ");
    }
    let mut events: Vec<DiagnosticEvent> = Vec::new();
    assert(entries(diagnostic_views(events@)) =~= Seq::<Entry>::empty());
    if previous.state != next.state {
        let mut message = "Sender stream state is now ".to_owned();
        append_str(&mut message, session_state_label(next.state));
        push_entry(&mut events, DiagnosticLevel::Info, "streaming", message.as_str());
    }
    push_error_change(&mut events, &previous.last_error, &next.last_error, "Sender stream reported: ");
    if previous.local_mirror.state != next.local_mirror.state {
        let mut message = "Local playback mirror is now ".to_owned();
        append_str(&mut message, mirror_state_label(next.local_mirror.state));
        push_entry(&mut events, DiagnosticLevel::Info, "streaming", message.as_str());
    }
    push_error_change(
        &mut events,
        &previous.local_mirror.last_error,
        &next.local_mirror.last_error,
        "Local playback mirror reported: ",
    );
    let ghost e4 = entries(diagnostic_views(events@));
    let mut target_events = stream_target_transition_messages(
        previous.targets.as_slice(),
        next.targets.as_slice(),
    );
    let ghost te = target_events@;
    proof {
        assert(entries(diagnostic_views(te)) =~= with_component(
            "streaming"@,
            transition_messages(previous@.targets, next@.targets),
        )) by {
            assert(crate::presentation::target_views(previous.targets@) =~= previous@.targets);
            assert(crate::presentation::target_views(next.targets@) =~= next@.targets);
            assert forall|i: int| 0 <= i < te.len() implies #[trigger] entries(diagnostic_views(te))[i] == with_component(
                "streaming"@,
                event_texts(te),
            )[i] by {
                assert(te[i].component@ == "streaming"@);
            }
        }
    }
    let ghost before_targets = events@;
    events.append(&mut target_events);
    assert(diagnostic_views(events@) =~= diagnostic_views(before_targets) + diagnostic_views(te));
    assert(entries(diagnostic_views(events@)) =~= e4 + entries(diagnostic_views(te)));
    assert(entries(diagnostic_views(events@)) =~= streaming_poll_entries(previous@, next@));
    events
}

/// Applies a cast snapshot (the cast session state follows its stream
/// state) and records what changed (see `streaming_poll_entries`).
pub fn observe_streaming_snapshot(state: &mut AppState, snapshot: StreamSessionSnapshot)
    ensures
        final(state)@ == (AppStateView {
            cast_session: cast_state_of(snapshot.state),
            streaming: snapshot@,
            diagnostics: final(state)@.diagnostics,
            ..old(state)@
        }),
        appended(
            old(state)@.diagnostics,
            final(state)@.diagnostics,
            streaming_poll_entries(old(state)@.streaming, snapshot@),
        ),
{
    let events = streaming_poll_events(&state.streaming, &snapshot);
    state.apply_streaming_snapshot(snapshot);
    record_all(&mut state.diagnostics, events);
}

// ---------------------------------------------------------------------------
// Output poll
// ---------------------------------------------------------------------------

/// What an output refresh asks of the interface: whether the output
/// selectors need rebuilding, the local output to retry the mirror on,
/// and the events for outputs that appeared or went away.
pub struct PlaybackTargetsUpdate {
    pub refresh_selectors: bool,
    pub local_retry_target: Option<String>,
    pub local_transition: Option<DiagnosticEvent>,
    pub receiver_transition: Option<DiagnosticEvent>,
}

pub open spec fn opt_entry(e: Option<DiagnosticEvent>) -> Option<Entry> {
    match e {
        Some(e) => Some(entry_of(e@)),
        None => None,
    }
}

/// The event for a chosen output whose availability changed, if it did.
pub open spec fn availability_change(
    component: Seq<char>,
    prefix: Seq<char>,
    target_id: Option<Seq<char>>,
    was_available: bool,
    targets: Seq<PlaybackTargetView>,
) -> Option<Entry> {
    let available = target_available(target_id, targets);
    if was_available != available {
        Some((
            if available { DiagnosticLevel::Info } else { DiagnosticLevel::Warning },
            component,
            transition_text(prefix, available, selected_target_text(targets, target_id)),
        ))
    } else {
        None
    }
}

/// The local mirror is retried on its chosen output when that output came
/// back while a cast is running and the wanted mirror has failed.
pub open spec fn local_retry(before: AppStateView, targets: Seq<PlaybackTargetView>) -> Option<Seq<char>> {
    let id = before.config.audio.local_playback_target_id;
    if !target_available(id, before.playback_targets) && target_available(id, targets)
        && before.streaming.state != StreamSessionState::Idle && before.streaming.local_mirror.desired_enabled
        && before.streaming.local_mirror.state == LocalMirrorState::Error {
        id
    } else {
        None
    }
}

fn same_target(a: &PlaybackTarget, b: &PlaybackTarget) -> (r: bool)
    ensures
        r == (a@ == b@),
{
    str_eq(a.id.as_str(), b.id.as_str()) && str_eq(a.display_name.as_str(), b.display_name.as_str())
        && a.is_default == b.is_default && a.kind == b.kind && a.availability == b.availability
        && opt_string_eq(&a.bluetooth_address, &b.bluetooth_address)
}

fn same_targets(a: &Vec<PlaybackTarget>, b: &Vec<PlaybackTarget>) -> (r: bool)
    ensures
        r == (target_views(a@) == target_views(b@)),
{
    if a.len() != b.len() {
        proof {
            assert(target_views(a@).len() != target_views(b@).len());
        }
        return false;
    }
    let mut i: usize = 0;
    while i < a.len()
        invariant
            i <= a@.len(),
            a@.len() == b@.len(),
            forall|k: int| 0 <= k < i ==> a@[k]@ == b@[k]@,
        decreases a@.len() - i,
    {
        if !same_target(&a[i], &b[i]) {
            proof {
                assert(target_views(a@)[i as int] != target_views(b@)[i as int]);
            }
            return false;
        }
        i = i + 1;
    }
    assert(target_views(a@) =~= target_views(b@));
    true
}

/// Replaces the listed outputs and reports what the interface should do
/// about the chosen local and receiver outputs.
pub fn observe_playback_targets(state: &mut AppState, targets: Vec<PlaybackTarget>) -> (r: PlaybackTargetsUpdate)
    ensures
        final(state)@ == (AppStateView { playback_targets: target_views(targets@), ..old(state)@ }),
        ({
            let before = old(state)@;
            let after = target_views(targets@);
            let local_id = before.config.audio.local_playback_target_id;
            let receiver_id = before.config.receiver.playback_target_id;
            &&& r.refresh_selectors == (before.playback_targets != after
                || target_available(local_id, before.playback_targets) != target_available(local_id, after)
                || target_available(receiver_id, before.playback_targets) != target_available(receiver_id, after))
            &&& opt_string_view(r.local_retry_target) == local_retry(before, after)
            &&& opt_entry(r.local_transition) == availability_change(
                "streaming"@,
                "Local mirror output"@,
                local_id,
                target_available(local_id, before.playback_targets),
                after,
            )
            &&& opt_entry(r.receiver_transition) == availability_change(
                "receiver"@,
                "Receiver output"@,
                receiver_id,
                target_available(receiver_id, before.playback_targets),
                after,
            )
        }),
{
    let targets_changed = !same_targets(&state.playback_targets, &targets);
    let previous_local_available = state.local_playback_target_available();
    let previous_receiver_available = state.receiver_playback_target_available();
    state.set_playback_targets(targets);
    let local_available = state.local_playback_target_available();
    let receiver_available = state.receiver_playback_target_available();

    let mut local_transition = None;
    let mut local_retry_target = None;
    if previous_local_available != local_available {
        local_transition = Some(playback_target_transition_diagnostic(
            state,
            "streaming",
            "Local mirror output",
            opt_as_str(&state.config.audio.local_playback_target_id),
            local_available,
        ));
        let mirror_failed = match state.streaming.local_mirror.state {
            LocalMirrorState::Error => true,
            _ => false,
        };
        let casting = match state.streaming.state {
            StreamSessionState::Idle => false,
            _ => true,
        };
        if local_available && casting && state.streaming.local_mirror.desired_enabled && mirror_failed {
            local_retry_target = match &state.config.audio.local_playback_target_id {
                Some(id) => Some(id.clone()),
                None => None,
            };
        }
    }
    let mut receiver_transition = None;
    if previous_receiver_available != receiver_available {
        receiver_transition = Some(playback_target_transition_diagnostic(
            state,
            "receiver",
            "Receiver output",
            opt_as_str(&state.config.receiver.playback_target_id),
            receiver_available,
        ));
    }
    proof {
        reveal_strlit("streaming");
        reveal_strlit("receiver");
        reveal_strlit("Local mirror output");
        reveal_strlit("Receiver output");
    }
    PlaybackTargetsUpdate {
        refresh_selectors: targets_changed || previous_local_available != local_available
            || previous_receiver_available != receiver_available,
        local_retry_target,
        local_transition,
        receiver_transition,
    }
}

/// The event for retrying the local mirror on an output that came back:
/// news naming the output when the restart went through, a warning with
/// the failure otherwise.
pub fn local_retry_event(state: &AppState, target_id: &str, restart: Result<(), String>) -> (r: DiagnosticEvent)
    ensures
        entry_of(r@) == match restart {
            Ok(()) => (
                DiagnosticLevel::Info,
                "streaming"@,
                "Local mirror output "@ + target_id@ + " is available again; retrying playback on "@
                    + selected_target_text(state@.playback_targets, state@.config.audio.local_playback_target_id)
                    + "."@,
            ),
            Err(e) => (
                DiagnosticLevel::Warning,
                "streaming"@,
                "Local mirror output became available again, but restart failed: "@ + e@,
            ),
        },
{
    match restart {
        Ok(()) => {
            let mut message = "Local mirror output ".to_owned();
            append_str(&mut message, target_id);
            append_str(&mut message, " is available again; retrying playback on ");
            let selected = format_selected_playback_target(state, opt_as_str(&state.config.audio.local_playback_target_id));
            append_str(&mut message, selected.as_str());
            append_str(&mut message, ".");
            DiagnosticEvent::info("streaming", message.as_str())
        },
        Err(error) => {
            let mut message = "Local mirror output became available again, but restart failed: ".to_owned();
            append_str(&mut message, error.as_str());
            DiagnosticEvent::warning("streaming", message.as_str())
        },
    }
}

/// A failed output listing: its message, and the warning to record unless
/// the previous failure had the same message.
pub fn enumeration_failure(previous_message: &Option<String>, error: &str) -> (r: (Option<DiagnosticEvent>, String))
    ensures
        r.1@ == "PipeWire playback target enumeration failed: "@ + error@,
        opt_entry(r.0) == (if opt_string_view(*previous_message) == Some(r.1@) {
            None
        } else {
            Some((DiagnosticLevel::Warning, "audio"@, r.1@))
        }),
{
    let mut message = "PipeWire playback target enumeration failed: ".to_owned();
    append_str(&mut message, error);
    let repeated = match previous_message {
        Some(previous) => str_eq(previous.as_str(), message.as_str()),
        None => false,
    };
    if repeated {
        (None, message)
    } else {
        (Some(DiagnosticEvent::warning("audio", message.as_str())), message)
    }
}

/// Polls report changes only: a receiver snapshot equal to the one shown
/// records nothing, unless the listener has an error that is not already
/// the newest message.
pub proof fn lemma_unchanged_receiver_poll_is_quiet(diagnostics: Seq<DiagnosticEventView>, snapshot: ReceiverSnapshotView)
    ensures
        receiver_poll_entries(diagnostics, snapshot, snapshot, None) == Seq::<Entry>::empty(),
{
    assert(receiver_change_entries(snapshot, snapshot) =~= Seq::<Entry>::empty());
    assert(receiver_poll_entries(diagnostics, snapshot, snapshot, None) =~= Seq::<Entry>::empty());
}

pub open spec fn target_ids_unique(s: Seq<crate::streaming::StreamTargetSnapshotView>) -> bool {
    forall|i: int, j: int| 0 <= i < j < s.len() ==> s[i].receiver_id != s[j].receiver_id
}

proof fn lemma_last_with_id_finds_unique(s: Seq<crate::streaming::StreamTargetSnapshotView>, k: int)
    requires
        target_ids_unique(s),
        0 <= k < s.len(),
    ensures
        crate::presentation::last_with_id(s, s[k].receiver_id) == Some(s[k]),
    decreases s.len(),
{
    if k < s.len() - 1 {
        assert(s.last().receiver_id != s[k].receiver_id);
        let t = s.drop_last();
        assert(t[k] == s[k]);
        lemma_last_with_id_finds_unique(t, k);
    }
}

proof fn lemma_no_changes_against_itself(
    previous: Seq<crate::streaming::StreamTargetSnapshotView>,
    next: Seq<crate::streaming::StreamTargetSnapshotView>,
)
    requires
        target_ids_unique(previous),
        forall|i: int| 0 <= i < next.len() ==> previous.contains(#[trigger] next[i]),
    ensures
        crate::presentation::change_messages(previous, next) == Seq::<(DiagnosticLevel, Seq<char>)>::empty(),
    decreases next.len(),
{
    if next.len() > 0 {
        let t = next.last();
        assert(next[next.len() - 1] == t);
        assert(previous.contains(t));
        let k = choose|k: int| 0 <= k < previous.len() && previous[k] == t;
        lemma_last_with_id_finds_unique(previous, k);
        let rest = next.drop_last();
        assert forall|i: int| 0 <= i < rest.len() implies previous.contains(#[trigger] rest[i]) by {
            assert(rest[i] == next[i]);
        }
        lemma_no_changes_against_itself(previous, rest);
        assert(crate::presentation::target_changes(Some(t), t) =~= Seq::<(DiagnosticLevel, Seq<char>)>::empty());
        assert(crate::presentation::change_messages(previous, next) =~= Seq::<(DiagnosticLevel, Seq<char>)>::empty());
    }
}

proof fn lemma_no_removals_against_itself(
    previous: Seq<crate::streaming::StreamTargetSnapshotView>,
    next: Seq<crate::streaming::StreamTargetSnapshotView>,
)
    requires
        target_ids_unique(next),
        forall|i: int| 0 <= i < previous.len() ==> next.contains(#[trigger] previous[i]),
    ensures
        crate::presentation::removal_messages(previous, next) == Seq::<(DiagnosticLevel, Seq<char>)>::empty(),
    decreases previous.len(),
{
    if previous.len() > 0 {
        let t = previous.last();
        assert(previous[previous.len() - 1] == t);
        assert(next.contains(t));
        let k = choose|k: int| 0 <= k < next.len() && next[k] == t;
        lemma_last_with_id_finds_unique(next, k);
        let rest = previous.drop_last();
        assert forall|i: int| 0 <= i < rest.len() implies next.contains(#[trigger] rest[i]) by {
            assert(rest[i] == previous[i]);
        }
        lemma_no_removals_against_itself(rest, next);
        assert(crate::presentation::removal_messages(previous, next) =~= Seq::<(DiagnosticLevel, Seq<char>)>::empty());
    }
}

/// Polls report changes only: a cast snapshot equal to the one shown
/// records nothing, provided no two of its targets share a receiver.
pub proof fn lemma_unchanged_streaming_poll_is_quiet(snapshot: StreamSessionSnapshotView)
    requires
        target_ids_unique(snapshot.targets),
    ensures
        streaming_poll_entries(snapshot, snapshot) == Seq::<Entry>::empty(),
{
    let s = snapshot.targets;
    assert forall|i: int| 0 <= i < s.len() implies s.contains(#[trigger] s[i]) by {
        assert(s[i] == s[i]);
    }
    lemma_no_changes_against_itself(s, s);
    lemma_no_removals_against_itself(s, s);
    assert(crate::presentation::transition_messages(s, s) =~= Seq::<(DiagnosticLevel, Seq<char>)>::empty());
    assert(with_component("streaming"@, crate::presentation::transition_messages(s, s)) =~= Seq::<Entry>::empty());
    assert(streaming_poll_entries(snapshot, snapshot) =~= Seq::<Entry>::empty());
}

} // verus!
