//! The sender's branch queues, which drop audio instead of blocking capture,
//! and the decisions of the worker that plays the local mirror.

use vstd::prelude::*;
use crate::models::opt_string_view;
use crate::playback::PlaybackStartRequest;
use crate::streaming::{LocalMirrorSnapshot, LocalMirrorSnapshotView, LocalMirrorState, StreamBranchBufferSnapshot};
use crate::error::TransportError;

verus! {

#[verifier::external_type_specification]
#[verifier::external_body]
#[verifier::reject_recursive_types(T)]
pub struct ExFlumeSender<T>(flume::Sender<T>);

#[verifier::external_type_specification]
#[verifier::external_body]
#[verifier::reject_recursive_types(T)]
pub struct ExFlumeReceiver<T>(flume::Receiver<T>);

/// One captured chunk on its way to a branch.
#[derive(Debug, Clone, PartialEq, Eq)]
pub struct FanoutAudioFrame {
    pub sequence: u64,
    pub captured_at_ms: u64,
    pub captured_at_unix_ms: u64,
    pub payload: Vec<u8>,
}

/// What pushing into a full branch cost.
#[derive(Debug, Clone, Copy, PartialEq, Eq, Structural)]
pub enum BufferedPushOutcome {
    Enqueued,
    DroppedOldest,
    DroppedNewest,
}

/// How a non-blocking send went; a refused item is handed back.
pub enum SendAttempt<T> {
    Sent,
    Full(T),
    Disconnected(T),
}

/// Creates a channel that holds at most `capacity` items (flume `bounded`).
#[verifier::external_body]
fn bounded_channel<T>(capacity: usize) -> (flume::Sender<T>, flume::Receiver<T>) {
    flume::bounded(capacity)
}

/// Sends without blocking (flume `Sender::try_send`). A full or
/// disconnected channel hands the item back unchanged. Whether it is full
/// depends on other threads, so nothing more is stated.
#[verifier::external_body]
fn try_send_item<T>(sender: &flume::Sender<T>, item: T) -> (r: SendAttempt<T>)
    ensures
        match r {
            SendAttempt::Sent => true,
            SendAttempt::Full(x) => x == item,
            SendAttempt::Disconnected(x) => x == item,
        },
{
    match sender.try_send(item) {
        Ok(()) => SendAttempt::Sent,
        Err(flume::TrySendError::Full(x)) => SendAttempt::Full(x),
        Err(flume::TrySendError::Disconnected(x)) => SendAttempt::Disconnected(x),
    }
}

/// Takes the oldest item without blocking, if there is one (flume
/// `Receiver::try_recv`); whether there is depends on other threads.
#[verifier::external_body]
fn try_take<T>(receiver: &flume::Receiver<T>) -> Option<T> {
    receiver.try_recv().ok()
}

/// Items in the channel at the moment of the call (flume `Receiver::len`).
#[verifier::external_body]
fn channel_len<T>(receiver: &flume::Receiver<T>) -> usize {
    receiver.len()
}

/// Takes out and drops every item queued at the moment of the call
/// (flume `Receiver::drain`).
#[verifier::external_body]
fn drain_channel<T>(receiver: &flume::Receiver<T>) {
    receiver.drain();
}

/// Another handle on the same channel (flume `Receiver::clone`).
#[verifier::external_body]
fn clone_receiver<T>(receiver: &flume::Receiver<T>) -> flume::Receiver<T> {
    receiver.clone()
}

/// A bounded queue between capture and one branch. When it is full the
/// oldest item is dropped to make room; only when that fails too is the
/// new item dropped.
#[verifier::reject_recursive_types(T)]
pub struct BufferedBranchQueue<T> {
    sender: flume::Sender<T>,
    receiver: flume::Receiver<T>,
    capacity: usize,
    dropped_packets: u64,
}

/// The counter after `drops` more lost items; it wraps at the top of `u64`.
pub open spec fn spec_add_drops(x: u64, drops: u8) -> u64 {
    if x + drops <= u64::MAX { (x + drops) as u64 } else { (x + drops - (u64::MAX + 1)) as u64 }
}

/// How the channel answered one non-blocking send.
#[derive(Debug, Clone, Copy, PartialEq, Eq, Structural)]
pub enum SendKind {
    Sent,
    Full,
    Disconnected,
}

/// What a push reports, and how many items it lost, given the channel's
/// answers: `first` to the first send, and `resend` to the send retried
/// after the oldest queued item was taken out (`None` when the first send
/// was not refused as full, or when nothing could be taken out).
pub open spec fn spec_push_decision(first: SendKind, resend: Option<SendKind>) -> (
    Result<BufferedPushOutcome, TransportError>,
    u8,
) {
    match first {
        SendKind::Sent => (Ok(BufferedPushOutcome::Enqueued), 0),
        SendKind::Disconnected => (Err(TransportError::ChannelClosed), 0),
        SendKind::Full => match resend {
            None => (Ok(BufferedPushOutcome::DroppedNewest), 1),
            Some(SendKind::Sent) => (Ok(BufferedPushOutcome::DroppedOldest), 1),
            Some(SendKind::Full) => (Ok(BufferedPushOutcome::DroppedNewest), 2),
            Some(SendKind::Disconnected) => (Err(TransportError::ChannelClosed), 1),
        },
    }
}

/// Decides a push from the channel's answers: a sent item is enqueued; a
/// closed channel is an error; a full one costs the oldest item when it can
/// be taken out and the retried send goes through, and the new item too
/// when it cannot or the retry meets a full channel again.
pub fn push_decision(first: SendKind, resend: Option<SendKind>) -> (r: (
    Result<BufferedPushOutcome, TransportError>,
    u8,
))
    ensures
        r == spec_push_decision(first, resend),
{
    match first {
        SendKind::Sent => (Ok(BufferedPushOutcome::Enqueued), 0),
        SendKind::Disconnected => (Err(TransportError::ChannelClosed), 0),
        SendKind::Full => match resend {
            None => (Ok(BufferedPushOutcome::DroppedNewest), 1),
            Some(SendKind::Sent) => (Ok(BufferedPushOutcome::DroppedOldest), 1),
            Some(SendKind::Full) => (Ok(BufferedPushOutcome::DroppedNewest), 2),
            Some(SendKind::Disconnected) => (Err(TransportError::ChannelClosed), 1),
        },
    }
}

/// The branch's counters from the channel's fill at one moment: the fill
/// clamped to the capacity, both narrowed to `u32`, and the loss count.
pub open spec fn spec_branch_snapshot(queued: usize, capacity: usize, dropped: u64) -> StreamBranchBufferSnapshot {
    StreamBranchBufferSnapshot {
        queued_packets: (if queued < capacity { queued } else { capacity }) as u32,
        max_packets: capacity as u32,
        dropped_packets: dropped,
    }
}

/// Builds the branch's counters from the fill the channel reported.
pub fn branch_snapshot(queued: usize, capacity: usize, dropped: u64) -> (r: StreamBranchBufferSnapshot)
    ensures
        r == spec_branch_snapshot(queued, capacity, dropped),
{
    let fill = if queued < capacity { queued } else { capacity };
    StreamBranchBufferSnapshot {
        queued_packets: fill as u32,
        max_packets: capacity as u32,
        dropped_packets: dropped,
    }
}

impl<T> BufferedBranchQueue<T> {
    pub closed spec fn spec_capacity(&self) -> nat {
        self.capacity as nat
    }

    pub closed spec fn spec_dropped(&self) -> u64 {
        self.dropped_packets
    }

    /// A queue for `capacity` items, at least one.
    pub fn new(capacity: usize) -> (r: Self)
        ensures
            r.spec_capacity() == if capacity == 0 { 1 } else { capacity as nat },
            r.spec_dropped() == 0,
    {
        let capacity = if capacity == 0 { 1 } else { capacity };
        let (sender, receiver) = bounded_channel(capacity);
        BufferedBranchQueue { sender, receiver, capacity, dropped_packets: 0 }
    }

    /// A handle the branch worker receives from.
    pub fn receiver(&self) -> flume::Receiver<T> {
        clone_receiver(&self.receiver)
    }

    /// Fill and loss counters: what `branch_snapshot` makes of the fill the
    /// channel reported at the moment of the call, which other threads
    /// change.
    pub fn snapshot(&self) -> (r: StreamBranchBufferSnapshot)
        ensures
            exists|queued: usize| r == #[trigger] spec_branch_snapshot(queued, self.spec_capacity() as usize, self.spec_dropped()),
            r.dropped_packets == self.spec_dropped(),
    {
        let queued = channel_len(&self.receiver);
        let r = branch_snapshot(queued, self.capacity, self.dropped_packets);
        assert(self.spec_capacity() as usize == self.capacity);
        assert(r == spec_branch_snapshot(queued, self.spec_capacity() as usize, self.spec_dropped()));
        r
    }

    /// Takes every queued item out.
    pub fn clear(&self) {
        drain_channel(&self.receiver);
    }

    /// Queues `item`. A full queue first gives up its oldest item
    /// (`DroppedOldest`); where that fails, or the retried send fails
    /// again, the new item is lost (`DroppedNewest`). Each lost item is
    /// counted. A channel without receivers is an error. The channel's
    /// answers depend on the thread that drains it, so the contract cannot
    /// say which answers come back, nor that the item reached the channel:
    /// it states that the report and the count are what `push_decision`
    /// makes of some answers, and a push that found room reports
    /// `Enqueued`.
    pub fn push(&mut self, item: T) -> (r: Result<BufferedPushOutcome, TransportError>)
        ensures
            final(self).spec_capacity() == old(self).spec_capacity(),
            exists|first: SendKind, resend: Option<SendKind>|
                #![trigger spec_push_decision(first, resend)]
                r == spec_push_decision(first, resend).0
                && final(self).spec_dropped() == spec_add_drops(old(self).spec_dropped(), spec_push_decision(first, resend).1),
    {
        let (first, resend) = match try_send_item(&self.sender, item) {
            SendAttempt::Sent => (SendKind::Sent, None),
            SendAttempt::Disconnected(_) => (SendKind::Disconnected, None),
            SendAttempt::Full(item) => {
                if try_take(&self.receiver).is_some() {
                    let again = match try_send_item(&self.sender, item) {
                        SendAttempt::Sent => SendKind::Sent,
                        SendAttempt::Full(_) => SendKind::Full,
                        SendAttempt::Disconnected(_) => SendKind::Disconnected,
                    };
                    (SendKind::Full, Some(again))
                } else {
                    (SendKind::Full, None)
                }
            },
        };
        let (r, drops) = push_decision(first, resend);
        self.dropped_packets = self.dropped_packets.wrapping_add(drops as u64);
        assert(r == spec_push_decision(first, resend).0);
        r
    }
}

/// What the local mirror worker is told.
pub enum LocalMirrorControl {
    Start(PlaybackStartRequest),
    Stop,
    Shutdown,
}

/// What the local mirror worker reports.
#[derive(Debug, Clone, PartialEq, Eq)]
pub enum LocalMirrorEvent {
    Started { backend_name: String, target_id: Option<String> },
    Played { bytes: usize },
    StateChanged(LocalMirrorState),
    Error(String),
}

pub enum LocalMirrorEventView {
    Started { backend_name: Seq<char>, target_id: Option<Seq<char>> },
    Played { bytes: usize },
    StateChanged(LocalMirrorState),
    Error(Seq<char>),
}

impl View for LocalMirrorEvent {
    type V = LocalMirrorEventView;

    open spec fn view(&self) -> LocalMirrorEventView {
        match self {
            LocalMirrorEvent::Started { backend_name, target_id } => LocalMirrorEventView::Started {
                backend_name: backend_name@,
                target_id: opt_string_view(*target_id),
            },
            LocalMirrorEvent::Played { bytes } => LocalMirrorEventView::Played { bytes: *bytes },
            LocalMirrorEvent::StateChanged(s) => LocalMirrorEventView::StateChanged(*s),
            LocalMirrorEvent::Error(e) => LocalMirrorEventView::Error(e@),
        }
    }
}

pub open spec fn mirror_event_views(s: Seq<LocalMirrorEvent>) -> Seq<LocalMirrorEventView> {
    s.map_values(|e: LocalMirrorEvent| e@)
}

pub open spec fn sat_add_u64(a: u64, b: int) -> u64 {
    if a + b <= u64::MAX { (a + b) as u64 } else { u64::MAX }
}

/// The local mirror as the sender shows it after one event of its worker:
/// a start names the backend and output and clears the error, a played
/// packet counts, a state change is taken over, an error is kept with the
/// error state.
pub open spec fn after_mirror_event(m: LocalMirrorSnapshotView, e: LocalMirrorEventView) -> LocalMirrorSnapshotView {
    match e {
        LocalMirrorEventView::Started { backend_name, target_id } => LocalMirrorSnapshotView {
            playback_backend: Some(backend_name),
            playback_target_id: target_id,
            last_error: None,
            ..m
        },
        LocalMirrorEventView::Played { bytes } => LocalMirrorSnapshotView {
            packets_played: sat_add_u64(m.packets_played, 1),
            bytes_played: sat_add_u64(m.bytes_played, bytes as int),
            ..m
        },
        LocalMirrorEventView::StateChanged(state) => LocalMirrorSnapshotView { state, ..m },
        LocalMirrorEventView::Error(message) => LocalMirrorSnapshotView {
            state: LocalMirrorState::Error,
            last_error: Some(message),
            ..m
        },
    }
}

/// Applies one event of the mirror worker to the shown local mirror.
pub fn apply_mirror_event(mirror: &mut LocalMirrorSnapshot, event: LocalMirrorEvent)
    ensures
        final(mirror)@ == after_mirror_event(old(mirror)@, event@),
{
    match event {
        LocalMirrorEvent::Started { backend_name, target_id } => {
            mirror.playback_backend = Some(backend_name);
            mirror.playback_target_id = target_id;
            mirror.last_error = None;
        },
        LocalMirrorEvent::Played { bytes } => {
            mirror.packets_played = mirror.packets_played.saturating_add(1);
            mirror.bytes_played = mirror.bytes_played.saturating_add(bytes as u64);
        },
        LocalMirrorEvent::StateChanged(state) => mirror.state = state,
        LocalMirrorEvent::Error(message) => {
            mirror.state = LocalMirrorState::Error;
            mirror.last_error = Some(message);
        },
    }
}

/// What the worker does after one of its steps: drop the frames still
/// queued, report events, and whether it ends.
pub struct MirrorOutcome {
    pub clear_frames: bool,
    pub events: Vec<LocalMirrorEvent>,
    pub exit: bool,
}

/// The local mirror worker: whether it is playing. It holds an open
/// playback sink exactly while it plays.
pub struct MirrorWorker {
    pub backend_name: String,
    pub enabled: bool,
}

impl MirrorWorker {
    pub fn new(backend_name: &str) -> (r: Self)
        ensures
            r.backend_name@ == backend_name@,
            !r.enabled,
    {
        MirrorWorker { backend_name: backend_name.to_owned(), enabled: false }
    }

    /// After a start request was tried (a playing worker stops its sink
    /// first): mirroring on success; otherwise stopped, the queue dropped
    /// and the error reported.
    pub fn on_start_result(&mut self, target_id: &Option<String>, result: &Result<(), String>) -> (r: MirrorOutcome)
        ensures
            final(self).backend_name == old(self).backend_name,
            final(self).enabled == (result is Ok),
            !r.exit,
            r.clear_frames == (result is Err),
            match result {
                Ok(()) => mirror_event_views(r.events@) == seq![
                    LocalMirrorEventView::Started {
                        backend_name: old(self).backend_name@,
                        target_id: opt_string_view(*target_id),
                    },
                    LocalMirrorEventView::StateChanged(LocalMirrorState::Mirroring),
                ],
                Err(e) => mirror_event_views(r.events@) == seq![LocalMirrorEventView::Error(e@)],
            },
    {
        let mut events: Vec<LocalMirrorEvent> = Vec::new();
        match result {
            Ok(()) => {
                self.enabled = true;
                events.push(LocalMirrorEvent::Started {
                    backend_name: self.backend_name.clone(),
                    target_id: crate::models::clone_opt_string(target_id),
                });
                events.push(LocalMirrorEvent::StateChanged(LocalMirrorState::Mirroring));
                assert(mirror_event_views(events@) =~= seq![
                    LocalMirrorEventView::Started {
                        backend_name: old(self).backend_name@,
                        target_id: opt_string_view(*target_id),
                    },
                    LocalMirrorEventView::StateChanged(LocalMirrorState::Mirroring),
                ]);
                MirrorOutcome { clear_frames: false, events, exit: false }
            },
            Err(e) => {
                self.enabled = false;
                events.push(LocalMirrorEvent::Error(e.clone()));
                assert(mirror_event_views(events@) =~= seq![LocalMirrorEventView::Error(e@)]);
                MirrorOutcome { clear_frames: true, events, exit: false }
            },
        }
    }

    /// A stop request. An idle worker only reports that it is disabled; a
    /// playing one drops its queue, stops its sink (reporting a failure to
    /// stop), and reports that it is disabled.
    pub fn on_stop(&mut self, sink_stop_error: Option<String>) -> (r: MirrorOutcome)
        ensures
            final(self).backend_name == old(self).backend_name,
            !final(self).enabled,
            !r.exit,
            r.clear_frames == old(self).enabled,
            mirror_event_views(r.events@) == (match sink_stop_error {
                Some(e) if old(self).enabled => seq![LocalMirrorEventView::Error(e@)],
                _ => Seq::<LocalMirrorEventView>::empty(),
            }).push(LocalMirrorEventView::StateChanged(LocalMirrorState::Disabled)),
    {
        let was_enabled = self.enabled;
        self.enabled = false;
        let mut events: Vec<LocalMirrorEvent> = Vec::new();
        if was_enabled {
            match sink_stop_error {
                Some(e) => events.push(LocalMirrorEvent::Error(e)),
                None => {},
            }
        }
        events.push(LocalMirrorEvent::StateChanged(LocalMirrorState::Disabled));
        assert(mirror_event_views(events@) =~= (match sink_stop_error {
            Some(e) if old(self).enabled => seq![LocalMirrorEventView::Error(e@)],
            _ => Seq::<LocalMirrorEventView>::empty(),
        }).push(LocalMirrorEventView::StateChanged(LocalMirrorState::Disabled)));
        MirrorOutcome { clear_frames: was_enabled, events, exit: false }
    }

    /// A shutdown request, or the control channel closing: the worker ends
    /// (a playing worker stops its sink first).
    pub fn on_shutdown(&mut self) -> (r: MirrorOutcome)
        ensures
            final(self).backend_name == old(self).backend_name,
            !final(self).enabled,
            r.exit,
            !r.clear_frames,
            r.events@.len() == 0,
    {
        self.enabled = false;
        MirrorOutcome { clear_frames: false, events: Vec::new(), exit: true }
    }

    /// After a frame of `bytes` bytes was written to the sink: reported as
    /// played; a failed write stops mirroring, drops the queue and closes
    /// the sink.
    pub fn on_frame_written(&mut self, bytes: usize, write_error: Option<String>) -> (r: MirrorOutcome)
        ensures
            final(self).backend_name == old(self).backend_name,
            final(self).enabled == (old(self).enabled && write_error is None),
            !r.exit,
            r.clear_frames == (write_error is Some),
            mirror_event_views(r.events@) == match write_error {
                Some(e) => seq![LocalMirrorEventView::Error(e@)],
                None => seq![LocalMirrorEventView::Played { bytes }],
            },
    {
        let mut events: Vec<LocalMirrorEvent> = Vec::new();
        match write_error {
            Some(e) => {
                self.enabled = false;
                events.push(LocalMirrorEvent::Error(e));
                assert(mirror_event_views(events@) =~= seq![LocalMirrorEventView::Error(e@)]);
                MirrorOutcome { clear_frames: true, events, exit: false }
            },
            None => {
                events.push(LocalMirrorEvent::Played { bytes });
                assert(mirror_event_views(events@) =~= seq![LocalMirrorEventView::Played { bytes }]);
                MirrorOutcome { clear_frames: false, events, exit: false }
            },
        }
    }
}

} // verus!
