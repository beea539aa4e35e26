//! The sender's table of cast targets, one record per receiver: waiting to
//! connect, connecting, streaming, or given up on. The network work each
//! record stands for is done by the caller, which this table tells what to
//! start and what to shut down.

use vstd::prelude::*;
use crate::seqs::{any_index, find_first, first_index, is_first_index, lemma_first_index_is, lemma_no_index};
use crate::session::{
    SenderTarget, SenderTargetView, TargetConnectFailure, in_flight_view, mark_attempt_in_flight, ordered_targets,
    pending_snapshot_view, pending_target_snapshot, retry_after_failure, sat_add, schedule_retry,
    sort_target_snapshots, spec_retry_after_failure, target_views,
};
use crate::streaming::{StreamTargetSnapshot, StreamTargetSnapshotView};
use crate::text::str_eq;

verus! {

/// Where a target stands.
#[derive(Debug, Clone, Copy, PartialEq, Eq, Structural)]
pub enum TargetPhase {
    /// Waiting to connect at `due_at_unix_ms`, or connecting now.
    Pending { due_at_unix_ms: u64, in_flight: bool },
    /// Connected and streaming (or trying to).
    Active,
    /// Given up on.
    Failed,
}

/// One receiver the sender casts to.
pub struct TargetRecord {
    pub target: SenderTarget,
    pub snapshot: StreamTargetSnapshot,
    pub attempt_count: u32,
    pub phase: TargetPhase,
}

pub struct TargetRecordView {
    pub target: SenderTargetView,
    pub snapshot: StreamTargetSnapshotView,
    pub attempt_count: u32,
    pub phase: TargetPhase,
}

impl View for TargetRecord {
    type V = TargetRecordView;

    open spec fn view(&self) -> TargetRecordView {
        TargetRecordView {
            target: self.target@,
            snapshot: self.snapshot@,
            attempt_count: self.attempt_count,
            phase: self.phase,
        }
    }
}

pub open spec fn record_views(s: Seq<TargetRecord>) -> Seq<TargetRecordView> {
    s.map_values(|r: TargetRecord| r@)
}

pub open spec fn key_of(r: TargetRecordView) -> Seq<char> {
    r.target.receiver_id
}

pub open spec fn has_key(key: Seq<char>) -> spec_fn(TargetRecordView) -> bool {
    |r: TargetRecordView| key_of(r) == key
}

/// No two records are for the same receiver.
pub open spec fn keys_unique(s: Seq<TargetRecordView>) -> bool {
    forall|i: int, j: int| 0 <= i < j < s.len() ==> key_of(s[i]) != key_of(s[j])
}

/// The record for `key`, if any.
pub open spec fn lookup(s: Seq<TargetRecordView>, key: Seq<char>) -> Option<TargetRecordView> {
    find_first(s, has_key(key))
}

/// The records without the one for `key`.
pub open spec fn without_key(s: Seq<TargetRecordView>, key: Seq<char>) -> Seq<TargetRecordView> {
    if any_index(s, has_key(key)) {
        s.remove(first_index(s, has_key(key)))
    } else {
        s
    }
}

/// The records with the one for `key` (if any) replaced by `f` of it.
pub open spec fn with_key_updated(
    s: Seq<TargetRecordView>,
    key: Seq<char>,
    r: TargetRecordView,
) -> Seq<TargetRecordView> {
    if any_index(s, has_key(key)) {
        s.update(first_index(s, has_key(key)), r)
    } else {
        s
    }
}

/// A fresh record waiting to connect now.
pub open spec fn queued_record(target: SenderTargetView, attempt_count: u32, now_unix_ms: u64) -> TargetRecordView {
    TargetRecordView {
        target,
        snapshot: pending_snapshot_view(target, attempt_count),
        attempt_count,
        phase: TargetPhase::Pending { due_at_unix_ms: now_unix_ms, in_flight: false },
    }
}

/// Whether a record is waiting and due at `now`.
pub open spec fn is_due(r: TargetRecordView, now_unix_ms: u64) -> bool {
    match r.phase {
        TargetPhase::Pending { due_at_unix_ms, in_flight } => !in_flight && due_at_unix_ms <= now_unix_ms,
        _ => false,
    }
}

/// A due record once its attempt started: in flight, one more attempt.
pub open spec fn started(r: TargetRecordView, now_unix_ms: u64) -> TargetRecordView {
    if is_due(r, now_unix_ms) {
        let snapshot = in_flight_view(r.snapshot);
        TargetRecordView {
            snapshot,
            attempt_count: snapshot.attempt_count,
            phase: TargetPhase::Pending {
                due_at_unix_ms: match r.phase {
                    TargetPhase::Pending { due_at_unix_ms, .. } => due_at_unix_ms,
                    _ => 0,
                },
                in_flight: true,
            },
            ..r
        }
    } else {
        r
    }
}

/// The attempts to start at `now`: each due record's target and its new
/// attempt count, in table order.
pub open spec fn due_attempts(s: Seq<TargetRecordView>, now_unix_ms: u64) -> Seq<(SenderTargetView, u32)>
    decreases s.len(),
{
    if s.len() == 0 {
        Seq::empty()
    } else {
        due_attempts(s.drop_last(), now_unix_ms) + if is_due(s.last(), now_unix_ms) {
            seq![(s.last().target, started(s.last(), now_unix_ms).attempt_count)]
        } else {
            Seq::empty()
        }
    }
}

/// The keys of the active records, in table order.
pub open spec fn active_keys_of(s: Seq<TargetRecordView>) -> Seq<Seq<char>>
    decreases s.len(),
{
    if s.len() == 0 {
        Seq::empty()
    } else {
        active_keys_of(s.drop_last()) + if s.last().phase == TargetPhase::Active {
            seq![key_of(s.last())]
        } else {
            Seq::empty()
        }
    }
}

/// The records kept once the sender stops: those given up on.
pub open spec fn failed_only(s: Seq<TargetRecordView>) -> Seq<TargetRecordView>
    decreases s.len(),
{
    if s.len() == 0 {
        Seq::empty()
    } else {
        failed_only(s.drop_last()) + if s.last().phase == TargetPhase::Failed {
            seq![s.last()]
        } else {
            Seq::empty()
        }
    }
}

pub open spec fn snapshot_views(s: Seq<TargetRecordView>) -> Seq<StreamTargetSnapshotView> {
    s.map_values(|r: TargetRecordView| r.snapshot)
}

/// A snapshot with its next retry due `backoff_ms` after `now`.
pub open spec fn rescheduled(s: StreamTargetSnapshotView, backoff_ms: u64, now_unix_ms: u64) -> StreamTargetSnapshotView {
    StreamTargetSnapshotView { next_retry_at_unix_ms: Some(sat_add(now_unix_ms, backoff_ms as int)), ..s }
}

/// A pending record after its attempt failed: retried later when the
/// failure allows it and attempts remain, given up on otherwise.
pub open spec fn after_attempt_failed(
    r: TargetRecordView,
    failure: StreamTargetSnapshotView,
    retryable: bool,
    now_unix_ms: u64,
) -> TargetRecordView {
    match spec_retry_after_failure(retryable, r.attempt_count) {
        Some(backoff) => TargetRecordView {
            snapshot: rescheduled(failure, backoff, now_unix_ms),
            phase: TargetPhase::Pending { due_at_unix_ms: sat_add(now_unix_ms, backoff as int), in_flight: false },
            ..r
        },
        None => TargetRecordView { snapshot: failure, phase: TargetPhase::Failed, ..r },
    }
}

/// An active record after its session failed: given up on, keeping the
/// snapshot its shutdown left. A failed session is not reconnected.
pub open spec fn after_session_failed(r: TargetRecordView, snapshot: StreamTargetSnapshotView) -> TargetRecordView {
    TargetRecordView { snapshot, phase: TargetPhase::Failed, ..r }
}

/// The sender's cast targets, one record per receiver.
pub struct TargetTable {
    records: Vec<TargetRecord>,
}

impl TargetTable {
    pub closed spec fn records(&self) -> Seq<TargetRecordView> {
        record_views(self.records@)
    }

    pub open spec fn wf(&self) -> bool {
        keys_unique(self.records())
    }

    pub fn new() -> (r: Self)
        ensures
            r.wf(),
            r.records() == Seq::<TargetRecordView>::empty(),
    {
        let r = TargetTable { records: Vec::new() };
        assert(r.records() =~= Seq::<TargetRecordView>::empty());
        r
    }

    fn position(&self, key: &str) -> (r: Option<usize>)
        ensures
            match r {
                Some(i) => i < self.records().len() && is_first_index(self.records(), has_key(key@), i as int)
                    && lookup(self.records(), key@) == Some(self.records()[i as int]),
                None => !any_index(self.records(), has_key(key@)) && lookup(self.records(), key@) is None,
            },
    {
        let ghost views = self.records();
        let mut i: usize = 0;
        while i < self.records.len()
            invariant
                i <= self.records@.len(),
                views == self.records(),
                views.len() == self.records@.len(),
                forall|k: int| 0 <= k < i ==> !has_key(key@)(#[trigger] views[k]),
            decreases self.records@.len() - i,
        {
            assert(views[i as int] == self.records@[i as int]@);
            if str_eq(self.records[i].target.receiver_id.as_str(), key) {
                proof {
                    assert(is_first_index(views, has_key(key@), i as int));
                    lemma_first_index_is(views, has_key(key@), i as int);
                }
                return Some(i);
            }
            i = i + 1;
        }
        proof {
            lemma_no_index(views, has_key(key@));
        }
        None
    }
}

impl TargetTable {
    fn copy_record(r: &TargetRecord) -> (c: TargetRecord)
        ensures
            c@ == r@,
    {
        TargetRecord {
            target: r.target.clone(),
            snapshot: r.snapshot.duplicate(),
            attempt_count: r.attempt_count,
            phase: r.phase,
        }
    }

    /// Queues a connection to `target` now, replacing whatever record the
    /// receiver had; returns whether that record was an active session
    /// (which the caller then shuts down).
    pub fn queue_connect(&mut self, target: SenderTarget, attempt_count: u32, now_unix_ms: u64) -> (r: bool)
        requires
            old(self).wf(),
        ensures
            final(self).wf(),
            final(self).records() == without_key(old(self).records(), target@.receiver_id).push(
                queued_record(target@, attempt_count, now_unix_ms),
            ),
            r == (lookup(old(self).records(), target@.receiver_id) matches Some(x) && x.phase == TargetPhase::Active),
    {
        let ghost before = self.records();
        let ghost key = target@.receiver_id;
        let was_active = match self.position(target.receiver_id.as_str()) {
            Some(i) => {
                let active = self.records[i].phase == TargetPhase::Active;
                proof {
                    lemma_remove_keeps_unique(before, i as int);
                }
                self.records.remove(i);
                assert(self.records() =~= before.remove(i as int));
                active
            },
            None => false,
        };
        let ghost kept = self.records();
        assert(kept == without_key(before, key));
        assert(forall|k: int| 0 <= k < kept.len() ==> key_of(#[trigger] kept[k]) != key) by {
            if !any_index(before, has_key(key)) {
                assert forall|k: int| 0 <= k < kept.len() implies key_of(#[trigger] kept[k]) != key by {
                    assert(!has_key(key)(kept[k]));
                }
            }
        }
        let snapshot = pending_target_snapshot(&target, attempt_count);
        self.records.push(TargetRecord {
            target,
            snapshot,
            attempt_count,
            phase: TargetPhase::Pending { due_at_unix_ms: now_unix_ms, in_flight: false },
        });
        assert(self.records() =~= kept.push(queued_record(target@, attempt_count, now_unix_ms)));
        was_active
    }

    /// Drops the receiver's record; returns whether it was an active
    /// session (which the caller then shuts down).
    pub fn remove(&mut self, key: &str) -> (r: bool)
        requires
            old(self).wf(),
        ensures
            final(self).wf(),
            final(self).records() == without_key(old(self).records(), key@),
            r == (lookup(old(self).records(), key@) matches Some(x) && x.phase == TargetPhase::Active),
    {
        let ghost before = self.records();
        match self.position(key) {
            Some(i) => {
                let active = self.records[i].phase == TargetPhase::Active;
                proof {
                    lemma_remove_keeps_unique(before, i as int);
                }
                self.records.remove(i);
                assert(self.records() =~= before.remove(i as int));
                active
            },
            None => false,
        }
    }

    /// Starts every due attempt at `now`: each due record goes in flight
    /// with one more attempt; returns the targets to connect to and their
    /// attempt counts.
    pub fn start_due(&mut self, now_unix_ms: u64) -> (r: Vec<(SenderTarget, u32)>)
        requires
            old(self).wf(),
        ensures
            final(self).wf(),
            final(self).records() == old(self).records().map_values(|x: TargetRecordView| started(x, now_unix_ms)),
            r@.map_values(|p: (SenderTarget, u32)| (p.0@, p.1)) == due_attempts(old(self).records(), now_unix_ms),
    {
        let ghost before = self.records();
        let mut out: Vec<(SenderTarget, u32)> = Vec::new();
        let mut i: usize = 0;
        while i < self.records.len()
            invariant
                i <= self.records@.len(),
                self.records@.len() == before.len(),
                forall|k: int| 0 <= k < i ==> #[trigger] self.records()[k] == started(before[k], now_unix_ms),
                forall|k: int| i <= k < before.len() ==> #[trigger] self.records()[k] == before[k],
                out@.map_values(|p: (SenderTarget, u32)| (p.0@, p.1)) == due_attempts(before.subrange(0, i as int), now_unix_ms),
            decreases self.records@.len() - i,
        {
            let ghost old_out = out@;
            assert(before.subrange(0, i + 1).drop_last() =~= before.subrange(0, i as int));
            assert(self.records()[i as int] == self.records@[i as int]@);
            let due = match self.records[i].phase {
                TargetPhase::Pending { due_at_unix_ms, in_flight } => !in_flight && due_at_unix_ms <= now_unix_ms,
                _ => false,
            };
            let ghost pre = self.records();
            if due {
                let mut record = Self::copy_record(&self.records[i]);
                let attempts = mark_attempt_in_flight(&mut record.snapshot);
                record.attempt_count = attempts;
                record.phase = match record.phase {
                    TargetPhase::Pending { due_at_unix_ms, .. } => TargetPhase::Pending { due_at_unix_ms, in_flight: true },
                    other => other,
                };
                out.push((record.target.clone(), attempts));
                let ghost updated = record@;
                assert(updated == started(before[i as int], now_unix_ms));
                self.records.set(i, record);
                assert(self.records() =~= pre.update(i as int, updated));
                assert(out@.map_values(|p: (SenderTarget, u32)| (p.0@, p.1)) =~= old_out.map_values(
                    |p: (SenderTarget, u32)| (p.0@, p.1),
                ).push((before[i as int].target, started(before[i as int], now_unix_ms).attempt_count)));
            } else {
                assert(started(before[i as int], now_unix_ms) == before[i as int]);
                assert(out@.map_values(|p: (SenderTarget, u32)| (p.0@, p.1)) =~= old_out.map_values(
                    |p: (SenderTarget, u32)| (p.0@, p.1),
                ));
            }
            assert(self.records()[i as int] == started(before[i as int], now_unix_ms));
            assert forall|k: int| i < k < before.len() implies #[trigger] self.records()[k] == before[k] by {
                assert(self.records()[k] == pre[k]);
            }
            assert forall|k: int| 0 <= k < i implies #[trigger] self.records()[k] == started(before[k], now_unix_ms) by {
                assert(self.records()[k] == pre[k]);
            }
            i = i + 1;
        }
        proof {
            assert(before.subrange(0, before.len() as int) =~= before);
            assert(self.records() =~= before.map_values(|x: TargetRecordView| started(x, now_unix_ms)));
            assert forall|a: int, b: int| 0 <= a < b < self.records().len() implies key_of(self.records()[a]) != key_of(
                self.records()[b],
            ) by {
                assert(key_of(self.records()[a]) == key_of(before[a]));
                assert(key_of(self.records()[b]) == key_of(before[b]));
            }
        }
        out
    }
}

impl TargetTable {
    /// A connection that succeeded: a pending record becomes an active one
    /// with the session's snapshot. Returns false when the receiver is no
    /// longer waiting for it (the caller then shuts the session down).
    pub fn connected(&mut self, snapshot: StreamTargetSnapshot) -> (r: bool)
        requires
            old(self).wf(),
        ensures
            final(self).wf(),
            match lookup(old(self).records(), snapshot@.receiver_id) {
                Some(x) if x.phase is Pending => r && final(self).records() == with_key_updated(
                    old(self).records(),
                    snapshot@.receiver_id,
                    TargetRecordView { snapshot: snapshot@, phase: TargetPhase::Active, ..x },
                ),
                _ => !r && final(self).records() == old(self).records(),
            },
    {
        let ghost before = self.records();
        let key = snapshot.receiver_id.as_str().to_owned();
        match self.position(key.as_str()) {
            Some(i) => {
                let pending = match self.records[i].phase {
                    TargetPhase::Pending { .. } => true,
                    _ => false,
                };
                if !pending {
                    return false;
                }
                let target = self.records[i].target.clone();
                let attempt_count = self.records[i].attempt_count;
                let record = TargetRecord { target, snapshot, attempt_count, phase: TargetPhase::Active };
                let ghost updated = record@;
                proof {
                    lemma_update_same_key_keeps_unique(before, i as int, updated);
                }
                self.records.set(i, record);
                assert(self.records() =~= before.update(i as int, updated));
                true
            },
            None => false,
        }
    }

    /// A connection attempt that failed: the pending record is retried
    /// later or given up on (see `after_attempt_failed`); other records are
    /// left alone.
    pub fn attempt_failed(&mut self, failure: TargetConnectFailure, now_unix_ms: u64)
        requires
            old(self).wf(),
        ensures
            final(self).wf(),
            match lookup(old(self).records(), failure.target@.receiver_id) {
                Some(x) if x.phase is Pending => final(self).records() == with_key_updated(
                    old(self).records(),
                    failure.target@.receiver_id,
                    after_attempt_failed(x, failure.snapshot@, failure.retryable, now_unix_ms),
                ),
                _ => final(self).records() == old(self).records(),
            },
    {
        let ghost before = self.records();
        let i = match self.position(failure.target.receiver_id.as_str()) {
            Some(i) => i,
            None => return,
        };
        let pending = match self.records[i].phase {
            TargetPhase::Pending { .. } => true,
            _ => false,
        };
        if !pending {
            return;
        }
        let mut record = Self::copy_record(&self.records[i]);
        record.snapshot = failure.snapshot;
        match retry_after_failure(failure.retryable, record.attempt_count) {
            Some(backoff_ms) => {
                schedule_retry(&mut record.snapshot, backoff_ms, now_unix_ms);
                record.phase = TargetPhase::Pending {
                    due_at_unix_ms: now_unix_ms.saturating_add(backoff_ms),
                    in_flight: false,
                };
            },
            None => {
                record.phase = TargetPhase::Failed;
            },
        }
        let ghost updated = record@;
        proof {
            lemma_update_same_key_keeps_unique(before, i as int, updated);
        }
        self.records.set(i, record);
        assert(self.records() =~= before.update(i as int, updated));
    }

    /// A streaming session that failed: the active record for `key` is
    /// given up on with `snapshot`, what the session's shutdown left (see
    /// `after_session_failed`). Returns whether the receiver had an active
    /// session; other records are left alone.
    pub fn session_failed(&mut self, key: &str, snapshot: StreamTargetSnapshot) -> (r: bool)
        requires
            old(self).wf(),
        ensures
            final(self).wf(),
            match lookup(old(self).records(), key@) {
                Some(x) if x.phase == TargetPhase::Active => r && final(self).records() == with_key_updated(
                    old(self).records(),
                    key@,
                    after_session_failed(x, snapshot@),
                ),
                _ => !r && final(self).records() == old(self).records(),
            },
    {
        let ghost before = self.records();
        let i = match self.position(key) {
            Some(i) => i,
            None => return false,
        };
        if self.records[i].phase != TargetPhase::Active {
            return false;
        }
        let mut record = Self::copy_record(&self.records[i]);
        record.snapshot = snapshot;
        record.phase = TargetPhase::Failed;
        let ghost updated = record@;
        proof {
            lemma_update_same_key_keeps_unique(before, i as int, updated);
        }
        self.records.set(i, record);
        assert(self.records() =~= before.update(i as int, updated));
        true
    }

    /// The receivers with an active session, in table order.
    pub fn active_keys(&self) -> (r: Vec<String>)
        ensures
            r@.map_values(|k: String| k@) == active_keys_of(self.records()),
    {
        let ghost views = self.records();
        let mut out: Vec<String> = Vec::new();
        let mut i: usize = 0;
        while i < self.records.len()
            invariant
                i <= self.records@.len(),
                views == self.records(),
                views.len() == self.records@.len(),
                out@.map_values(|k: String| k@) == active_keys_of(views.subrange(0, i as int)),
            decreases self.records@.len() - i,
        {
            assert(views.subrange(0, i + 1).drop_last() =~= views.subrange(0, i as int));
            assert(views[i as int] == self.records@[i as int]@);
            let ghost old_out = out@;
            if self.records[i].phase == TargetPhase::Active {
                out.push(self.records[i].target.receiver_id.as_str().to_owned());
                assert(out@.map_values(|k: String| k@) =~= old_out.map_values(|k: String| k@).push(key_of(views[i as int])));
            }
            i = i + 1;
        }
        assert(views.subrange(0, views.len() as int) =~= views);
        out
    }

    /// Whether capture is still needed: some receiver has an active session
    /// or is waiting to connect.
    pub fn keeps_capture(&self) -> (r: bool)
        ensures
            r == exists|i: int| 0 <= i < self.records().len() && (#[trigger] self.records()[i]).phase !is Failed,
    {
        let mut i: usize = 0;
        while i < self.records.len()
            invariant
                i <= self.records@.len(),
                forall|j: int| 0 <= j < i ==> (#[trigger] self.records()[j]).phase is Failed,
            decreases self.records@.len() - i,
        {
            assert(self.records()[i as int] == self.records@[i as int]@);
            match self.records[i].phase {
                TargetPhase::Failed => {},
                _ => return true,
            }
            i = i + 1;
        }
        false
    }

    /// Whether any receiver has an active session.
    pub fn has_active(&self) -> (r: bool)
        ensures
            r == (active_keys_of(self.records()).len() > 0),
    {
        let keys = self.active_keys();
        keys.len() > 0
    }

    /// The snapshot of the receiver's active session.
    pub fn active_snapshot(&self, key: &str) -> (r: Option<&StreamTargetSnapshot>)
        ensures
            match lookup(self.records(), key@) {
                Some(x) if x.phase == TargetPhase::Active => r matches Some(s) && s@ == x.snapshot,
                _ => r is None,
            },
    {
        match self.position(key) {
            Some(i) => {
                assert(self.records()[i as int] == self.records@[i as int]@);
                if self.records[i].phase == TargetPhase::Active {
                    Some(&self.records[i].snapshot)
                } else {
                    None
                }
            },
            None => None,
        }
    }

    /// Replaces the snapshot of the receiver's active session; returns
    /// false, changing nothing, when it has none.
    pub fn set_active_snapshot(&mut self, key: &str, snapshot: StreamTargetSnapshot) -> (r: bool)
        requires
            old(self).wf(),
        ensures
            final(self).wf(),
            match lookup(old(self).records(), key@) {
                Some(x) if x.phase == TargetPhase::Active => r && final(self).records() == with_key_updated(
                    old(self).records(),
                    key@,
                    TargetRecordView { snapshot: snapshot@, ..x },
                ),
                _ => !r && final(self).records() == old(self).records(),
            },
    {
        let ghost before = self.records();
        let i = match self.position(key) {
            Some(i) => i,
            None => return false,
        };
        if self.records[i].phase != TargetPhase::Active {
            return false;
        }
        let mut record = Self::copy_record(&self.records[i]);
        record.snapshot = snapshot;
        let ghost updated = record@;
        proof {
            lemma_update_same_key_keeps_unique(before, i as int, updated);
        }
        self.records.set(i, record);
        assert(self.records() =~= before.update(i as int, updated));
        true
    }

    /// Every record's snapshot, by receiver name then identifier.
    pub fn snapshots(&self) -> (r: Vec<StreamTargetSnapshot>)
        ensures
            target_views(r@) == ordered_targets(snapshot_views(self.records())),
    {
        let ghost views = self.records();
        let mut all: Vec<StreamTargetSnapshot> = Vec::new();
        let mut i: usize = 0;
        while i < self.records.len()
            invariant
                i <= self.records@.len(),
                views == self.records(),
                views.len() == self.records@.len(),
                target_views(all@) == snapshot_views(views.subrange(0, i as int)),
            decreases self.records@.len() - i,
        {
            assert(views[i as int] == self.records@[i as int]@);
            let ghost before = all@;
            all.push(self.records[i].snapshot.duplicate());
            assert(target_views(all@) =~= target_views(before).push(views[i as int].snapshot));
            assert(snapshot_views(views.subrange(0, i + 1)) =~= snapshot_views(views.subrange(0, i as int)).push(
                views[i as int].snapshot,
            ));
            i = i + 1;
        }
        assert(views.subrange(0, views.len() as int) =~= views);
        sort_target_snapshots(all)
    }

    /// Stops everything: returns the receivers whose active sessions the
    /// caller shuts down; only records given up on remain.
    pub fn stop_all(&mut self) -> (r: Vec<String>)
        requires
            old(self).wf(),
        ensures
            final(self).wf(),
            r@.map_values(|k: String| k@) == active_keys_of(old(self).records()),
            final(self).records() == failed_only(old(self).records()),
    {
        let ghost before = self.records();
        let keys = self.active_keys();
        let mut kept: Vec<TargetRecord> = Vec::new();
        let mut i: usize = 0;
        while i < self.records.len()
            invariant
                i <= self.records@.len(),
                before == self.records(),
                before.len() == self.records@.len(),
                record_views(kept@) == failed_only(before.subrange(0, i as int)),
            decreases self.records@.len() - i,
        {
            assert(before.subrange(0, i + 1).drop_last() =~= before.subrange(0, i as int));
            assert(before[i as int] == self.records@[i as int]@);
            let ghost old_kept = record_views(kept@);
            if self.records[i].phase == TargetPhase::Failed {
                kept.push(Self::copy_record(&self.records[i]));
                assert(record_views(kept@) =~= old_kept.push(before[i as int]));
            }
            i = i + 1;
        }
        assert(before.subrange(0, before.len() as int) =~= before);
        proof {
            lemma_failed_only_keeps_unique(before);
        }
        self.records = kept;
        keys
    }
}

/// What the records of `failed_only` are: records of the table, in order.
proof fn lemma_failed_only_is_subsequence(s: Seq<TargetRecordView>)
    ensures
        forall|k: int| 0 <= k < failed_only(s).len() ==> exists|j: int| 0 <= j < s.len() && #[trigger] failed_only(s)[k] == s[j],
    decreases s.len(),
{
    if s.len() > 0 {
        lemma_failed_only_is_subsequence(s.drop_last());
        let f = failed_only(s.drop_last());
        assert forall|k: int| 0 <= k < failed_only(s).len() implies exists|j: int| 0 <= j < s.len() && #[trigger] failed_only(s)[k] == s[j] by {
            if k < f.len() {
                let j = choose|j: int| 0 <= j < s.drop_last().len() && f[k] == s.drop_last()[j];
                assert(failed_only(s)[k] == s[j]);
            } else {
                assert(failed_only(s)[k] == s[s.len() - 1]);
            }
        }
    }
}

proof fn lemma_failed_only_keeps_unique(s: Seq<TargetRecordView>)
    requires
        keys_unique(s),
    ensures
        keys_unique(failed_only(s)),
    decreases s.len(),
{
    if s.len() > 0 {
        let t = s.drop_last();
        assert(keys_unique(t));
        lemma_failed_only_keeps_unique(t);
        lemma_failed_only_is_subsequence(t);
        let f = failed_only(t);
        if s.last().phase == TargetPhase::Failed {
            let g = failed_only(s);
            assert(g == f.push(s.last()));
            assert forall|a: int, b: int| 0 <= a < b < g.len() implies key_of(g[a]) != key_of(g[b]) by {
                if b == g.len() - 1 {
                    let j = choose|j: int| 0 <= j < t.len() && #[trigger] f[a] == t[j];
                    assert(t[j] == s[j]);
                    assert(s[s.len() - 1] == s.last());
                } else {
                    assert(g[a] == f[a]);
                    assert(g[b] == f[b]);
                }
            }
        } else {
            assert(failed_only(s) =~= f);
        }
    }
}

proof fn lemma_remove_keeps_unique(s: Seq<TargetRecordView>, i: int)
    requires
        keys_unique(s),
        0 <= i < s.len(),
    ensures
        keys_unique(s.remove(i)),
        forall|k: int| 0 <= k < s.remove(i).len() ==> key_of(#[trigger] s.remove(i)[k]) != key_of(s[i]),
{
    let t = s.remove(i);
    assert forall|a: int, b: int| 0 <= a < b < t.len() implies key_of(t[a]) != key_of(t[b]) by {
        let a0 = if a < i { a } else { a + 1 };
        let b0 = if b < i { b } else { b + 1 };
        assert(t[a] == s[a0]);
        assert(t[b] == s[b0]);
    }
    assert forall|k: int| 0 <= k < t.len() implies key_of(#[trigger] t[k]) != key_of(s[i]) by {
        let k0 = if k < i { k } else { k + 1 };
        assert(t[k] == s[k0]);
    }
}

proof fn lemma_update_same_key_keeps_unique(s: Seq<TargetRecordView>, i: int, r: TargetRecordView)
    requires
        keys_unique(s),
        0 <= i < s.len(),
        key_of(r) == key_of(s[i]),
    ensures
        keys_unique(s.update(i, r)),
{
    let t = s.update(i, r);
    assert forall|a: int, b: int| 0 <= a < b < t.len() implies key_of(t[a]) != key_of(t[b]) by {
        assert(key_of(t[a]) == key_of(s[a]));
        assert(key_of(t[b]) == key_of(s[b]));
    }
}

} // verus!
