//! The in-memory tail of structured log entries kept for diagnostics:
//! bounded, oldest dropped first.

use vstd::prelude::*;
use std::collections::VecDeque;
use crate::models::{clone_opt_string, opt_string_view};

verus! {

/// How many entries the store keeps unless told otherwise.
pub const DEFAULT_LOG_STORE_CAPACITY: usize = 400;
/// How many entries of a previous log file are read back at start-up.
pub const DEFAULT_LOG_FILE_TAIL: usize = 200;

/// One structured log record. `fields` are the event's named values, in key
/// order.
#[derive(Debug, PartialEq, Eq)]
pub struct StructuredLogEntry {
    pub timestamp_unix_ms: u64,
    pub level: String,
    pub target: String,
    pub message: String,
    pub fields: Vec<(String, String)>,
    pub file: Option<String>,
    pub line: Option<u32>,
}

pub struct StructuredLogEntryView {
    pub timestamp_unix_ms: u64,
    pub level: Seq<char>,
    pub target: Seq<char>,
    pub message: Seq<char>,
    pub fields: Seq<(Seq<char>, Seq<char>)>,
    pub file: Option<Seq<char>>,
    pub line: Option<u32>,
}

pub open spec fn pairs_view(v: Seq<(String, String)>) -> Seq<(Seq<char>, Seq<char>)> {
    v.map_values(|p: (String, String)| (p.0@, p.1@))
}

impl View for StructuredLogEntry {
    type V = StructuredLogEntryView;

    open spec fn view(&self) -> StructuredLogEntryView {
        StructuredLogEntryView {
            timestamp_unix_ms: self.timestamp_unix_ms,
            level: self.level@,
            target: self.target@,
            message: self.message@,
            fields: pairs_view(self.fields@),
            file: opt_string_view(self.file),
            line: self.line,
        }
    }
}

fn clone_pairs(v: &Vec<(String, String)>) -> (r: Vec<(String, String)>)
    ensures
        pairs_view(r@) == pairs_view(v@),
{
    let mut out: Vec<(String, String)> = Vec::new();
    let mut i: usize = 0;
    while i < v.len()
        invariant
            i <= v@.len(),
            out@.len() == i,
            forall|j: int| 0 <= j < i ==> (#[trigger] out@[j]).0@ == v@[j].0@ && out@[j].1@ == v@[j].1@,
        decreases v@.len() - i,
    {
        out.push((v[i].0.clone(), v[i].1.clone()));
        i = i + 1;
    }
    assert(pairs_view(out@) =~= pairs_view(v@));
    out
}

impl Clone for StructuredLogEntry {
    fn clone(&self) -> (r: Self)
        ensures
            r@ == self@,
    {
        StructuredLogEntry {
            timestamp_unix_ms: self.timestamp_unix_ms,
            level: self.level.clone(),
            target: self.target.clone(),
            message: self.message.clone(),
            fields: clone_pairs(&self.fields),
            file: clone_opt_string(&self.file),
            line: self.line,
        }
    }
}

pub open spec fn entry_views(s: Seq<StructuredLogEntry>) -> Seq<StructuredLogEntryView> {
    s.map_values(|e: StructuredLogEntry| e@)
}

/// The last `n` items, or all of them where there are fewer.
pub open spec fn last_n<A>(s: Seq<A>, n: nat) -> Seq<A> {
    if s.len() <= n { s } else { s.subrange(s.len() - n, s.len() as int) }
}

/// The first `n` items, or all of them where there are fewer.
pub open spec fn first_n<A>(s: Seq<A>, n: nat) -> Seq<A> {
    if s.len() <= n { s } else { s.subrange(0, n as int) }
}

/// The newest entries, at most `capacity` of them, oldest first.
pub struct LogStore {
    entries: VecDeque<StructuredLogEntry>,
    capacity: usize,
}

impl LogStore {
    /// The entries held, oldest first.
    pub closed spec fn entries(&self) -> Seq<StructuredLogEntryView> {
        entry_views(self.entries@)
    }

    pub closed spec fn capacity(&self) -> nat {
        self.capacity as nat
    }

    /// Never more entries than the capacity.
    pub closed spec fn wf(&self) -> bool {
        self.entries@.len() <= self.capacity
    }

    pub fn new(capacity: usize) -> (r: Self)
        ensures
            r.wf(),
            r.capacity() == capacity,
            r.entries() == Seq::<StructuredLogEntryView>::empty(),
    {
        let r = LogStore { entries: VecDeque::new(), capacity };
        assert(r.entries() =~= Seq::<StructuredLogEntryView>::empty());
        r
    }

    pub fn len(&self) -> (r: usize)
        ensures
            r == self.entries().len(),
    {
        self.entries.len()
    }

    /// Appends an entry, dropping the oldest while there are more than the
    /// capacity.
    pub fn push(&mut self, entry: StructuredLogEntry)
        requires
            old(self).wf(),
        ensures
            final(self).wf(),
            final(self).capacity() == old(self).capacity(),
            final(self).entries() == last_n(old(self).entries().push(entry@), old(self).capacity()),
    {
        let ghost pushed = old(self).entries().push(entry@);
        self.entries.push_back(entry);
        assert(entry_views(self.entries@) =~= pushed);
        if self.entries.len() > self.capacity {
            self.entries.pop_front();
            assert(entry_views(self.entries@) =~= pushed.subrange(1, pushed.len() as int));
        }
        assert(entry_views(self.entries@) =~= last_n(pushed, old(self).capacity()));
    }

    /// Up to `limit` of the newest entries, newest first.
    pub fn snapshot_recent(&self, limit: usize) -> (r: Vec<StructuredLogEntry>)
        ensures
            entry_views(r@) == first_n(self.entries().reverse(), limit as nat),
    {
        let n = self.entries.len();
        let mut out: Vec<StructuredLogEntry> = Vec::new();
        let mut k: usize = 0;
        while k < n && k < limit
            invariant
                n == self.entries@.len(),
                k <= n,
                k <= limit,
                out@.len() == k,
                forall|j: int| 0 <= j < k ==> (#[trigger] out@[j])@ == self.entries@[n - 1 - j]@,
            decreases n - k,
        {
            out.push(self.entries[n - 1 - k].clone());
            k = k + 1;
        }
        let ghost rev = self.entries().reverse();
        assert forall|j: int| 0 <= j < out@.len() implies entry_views(out@)[j] == first_n(rev, limit as nat)[j] by {
            assert(out@[j]@ == self.entries@[n - 1 - j]@);
            assert(rev[j] == self.entries()[n - 1 - j]);
        }
        assert(entry_views(out@) =~= first_n(rev, limit as nat));
        out
    }

    /// Up to `limit` of the newest entries, oldest first.
    pub fn snapshot_recent_chronological(&self, limit: usize) -> (r: Vec<StructuredLogEntry>)
        ensures
            entry_views(r@) == last_n(self.entries(), limit as nat),
    {
        let n = self.entries.len();
        let start = if n > limit { n - limit } else { 0 };
        let mut out: Vec<StructuredLogEntry> = Vec::new();
        let mut k: usize = start;
        while k < n
            invariant
                n == self.entries@.len(),
                start <= k <= n,
                out@.len() == k - start,
                forall|j: int| 0 <= j < k - start ==> (#[trigger] out@[j])@ == self.entries@[start + j]@,
            decreases n - k,
        {
            out.push(self.entries[k].clone());
            k = k + 1;
        }
        assert(entry_views(out@) =~= last_n(self.entries(), limit as nat));
        out
    }

    /// Replaces the entries with the last `limit` of `entries` (read back
    /// from a previous log file), within the capacity.
    pub fn replace_with_tail(&mut self, entries: Vec<StructuredLogEntry>, limit: usize)
        requires
            old(self).wf(),
        ensures
            final(self).wf(),
            final(self).capacity() == old(self).capacity(),
            final(self).entries() == last_n(
                last_n(entry_views(entries@), limit as nat),
                old(self).capacity(),
            ),
    {
        let keep = if limit < self.capacity { limit } else { self.capacity };
        let n = entries.len();
        let start = if n > keep { n - keep } else { 0 };
        let mut out: VecDeque<StructuredLogEntry> = VecDeque::new();
        let mut k: usize = start;
        while k < n
            invariant
                n == entries@.len(),
                start <= k <= n,
                out@.len() == k - start,
                forall|j: int| 0 <= j < k - start ==> (#[trigger] out@[j])@ == entries@[start + j]@,
            decreases n - k,
        {
            out.push_back(entries[k].clone());
            k = k + 1;
        }
        self.entries = out;
        assert(entry_views(self.entries@) =~= last_n(
            last_n(entry_views(entries@), limit as nat),
            old(self).capacity(),
        ));
    }
}

impl Default for LogStore {
    fn default() -> (r: Self)
        ensures
            r.wf(),
            r.capacity() == DEFAULT_LOG_STORE_CAPACITY,
            r.entries() == Seq::<StructuredLogEntryView>::empty(),
    {
        LogStore::new(DEFAULT_LOG_STORE_CAPACITY)
    }
}

} // verus!
