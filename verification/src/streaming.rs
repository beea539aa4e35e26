//! Sender-side session models: per-target snapshots, branch buffers, the
//! local playback mirror and aggregate stream metrics.

use vstd::prelude::*;
use crate::models::{DeviceId, opt_string_view, clone_opt_string};
use crate::net::SocketAddress;
use crate::receiver::{ReceiverStreamConfig, percent_of, spec_percent_of};

verus! {

pub const STREAM_PROTOCOL_VERSION: u16 = 1;

#[derive(Debug, Clone, Copy, PartialEq, Eq, Structural)]
pub enum StreamCodec {
    RawPcm,
}

#[derive(Debug, Clone, Copy, PartialEq, Eq, Structural)]
pub enum StreamSessionState {
    Idle,
    Connecting,
    Negotiating,
    Streaming,
    Stopping,
    Error,
}

impl Default for StreamSessionState {
    fn default() -> (r: Self)
        ensures
            r == StreamSessionState::Idle,
    {
        StreamSessionState::Idle
    }
}

#[derive(Debug, Clone, Copy, PartialEq, Eq, Structural)]
pub struct StreamMetrics {
    pub packets_sent: u64,
    pub packets_received: u64,
    pub bytes_sent: u64,
    pub bytes_received: u64,
    pub estimated_bitrate_bps: u64,
    pub latency_estimate_ms: Option<u32>,
    pub packet_gaps: u64,
    pub keepalives_sent: u64,
    pub keepalives_received: u64,
}

/// The larger of two optional latency estimates; one alone is kept.
pub open spec fn max_latency(a: Option<u32>, b: Option<u32>) -> Option<u32> {
    match (a, b) {
        (Some(l), Some(r)) => Some(if l > r { l } else { r }),
        (Some(l), None) => Some(l),
        (None, Some(r)) => Some(r),
        (None, None) => None,
    }
}

/// Field-wise sum of two metric sets, the latency being the larger estimate.
pub open spec fn spec_accumulate(a: StreamMetrics, b: StreamMetrics) -> StreamMetrics {
    StreamMetrics {
        packets_sent: (a.packets_sent + b.packets_sent) as u64,
        packets_received: (a.packets_received + b.packets_received) as u64,
        bytes_sent: (a.bytes_sent + b.bytes_sent) as u64,
        bytes_received: (a.bytes_received + b.bytes_received) as u64,
        estimated_bitrate_bps: (a.estimated_bitrate_bps + b.estimated_bitrate_bps) as u64,
        latency_estimate_ms: max_latency(a.latency_estimate_ms, b.latency_estimate_ms),
        packet_gaps: (a.packet_gaps + b.packet_gaps) as u64,
        keepalives_sent: (a.keepalives_sent + b.keepalives_sent) as u64,
        keepalives_received: (a.keepalives_received + b.keepalives_received) as u64,
    }
}

/// No counter of the sum of two metric sets overflows.
pub open spec fn accumulate_fits(a: StreamMetrics, b: StreamMetrics) -> bool {
    &&& a.packets_sent + b.packets_sent <= u64::MAX
    &&& a.packets_received + b.packets_received <= u64::MAX
    &&& a.bytes_sent + b.bytes_sent <= u64::MAX
    &&& a.bytes_received + b.bytes_received <= u64::MAX
    &&& a.estimated_bitrate_bps + b.estimated_bitrate_bps <= u64::MAX
    &&& a.packet_gaps + b.packet_gaps <= u64::MAX
    &&& a.keepalives_sent + b.keepalives_sent <= u64::MAX
    &&& a.keepalives_received + b.keepalives_received <= u64::MAX
}

impl StreamMetrics {
    pub open spec fn spec_default() -> StreamMetrics {
        StreamMetrics {
            packets_sent: 0,
            packets_received: 0,
            bytes_sent: 0,
            bytes_received: 0,
            estimated_bitrate_bps: 0,
            latency_estimate_ms: None,
            packet_gaps: 0,
            keepalives_sent: 0,
            keepalives_received: 0,
        }
    }

    /// Adds another target's metrics into this aggregate.
    pub fn accumulate(&mut self, other: &Self)
        requires
            accumulate_fits(*old(self), *other),
        ensures
            *final(self) == spec_accumulate(*old(self), *other),
    {
        self.packets_sent = self.packets_sent + other.packets_sent;
        self.packets_received = self.packets_received + other.packets_received;
        self.bytes_sent = self.bytes_sent + other.bytes_sent;
        self.bytes_received = self.bytes_received + other.bytes_received;
        self.estimated_bitrate_bps = self.estimated_bitrate_bps + other.estimated_bitrate_bps;
        self.latency_estimate_ms = match (self.latency_estimate_ms, other.latency_estimate_ms) {
            (Some(left), Some(right)) => Some(if left > right { left } else { right }),
            (Some(left), None) => Some(left),
            (None, Some(right)) => Some(right),
            (None, None) => None,
        };
        self.packet_gaps = self.packet_gaps + other.packet_gaps;
        self.keepalives_sent = self.keepalives_sent + other.keepalives_sent;
        self.keepalives_received = self.keepalives_received + other.keepalives_received;
    }
}

impl Default for StreamMetrics {
    fn default() -> (r: Self)
        ensures
            r == StreamMetrics::spec_default(),
    {
        StreamMetrics {
            packets_sent: 0,
            packets_received: 0,
            bytes_sent: 0,
            bytes_received: 0,
            estimated_bitrate_bps: 0,
            latency_estimate_ms: None,
            packet_gaps: 0,
            keepalives_sent: 0,
            keepalives_received: 0,
        }
    }
}

#[derive(Debug, Clone, Copy, PartialEq, Eq, Structural)]
pub struct StreamBranchBufferSnapshot {
    pub queued_packets: u32,
    pub max_packets: u32,
    pub dropped_packets: u64,
}

impl StreamBranchBufferSnapshot {
    pub open spec fn spec_default() -> StreamBranchBufferSnapshot {
        StreamBranchBufferSnapshot { queued_packets: 0, max_packets: 0, dropped_packets: 0 }
    }

    pub open spec fn spec_fill_percent(self) -> u8 {
        if self.max_packets == 0 { 0 } else { spec_percent_of(self.queued_packets, self.max_packets) }
    }

    /// Queued packets as a percentage of the branch capacity, capped at 100.
    pub fn fill_percent(&self) -> (r: u8)
        ensures
            r == self.spec_fill_percent(),
            r <= 100,
    {
        if self.max_packets == 0 {
            return 0;
        }
        percent_of(self.queued_packets, self.max_packets)
    }
}

impl Default for StreamBranchBufferSnapshot {
    fn default() -> (r: Self)
        ensures
            r == StreamBranchBufferSnapshot::spec_default(),
    {
        StreamBranchBufferSnapshot { queued_packets: 0, max_packets: 0, dropped_packets: 0 }
    }
}

#[derive(Debug, Clone, Copy, PartialEq, Eq, Structural)]
pub enum LocalMirrorState {
    Disabled,
    Idle,
    Starting,
    Mirroring,
    Stopping,
    Error,
}

impl Default for LocalMirrorState {
    fn default() -> (r: Self)
        ensures
            r == LocalMirrorState::Disabled,
    {
        LocalMirrorState::Disabled
    }
}

#[derive(Debug, Clone, PartialEq, Eq)]
pub struct LocalMirrorSnapshot {
    pub desired_enabled: bool,
    pub state: LocalMirrorState,
    pub playback_backend: Option<String>,
    pub playback_target_id: Option<String>,
    pub buffer: StreamBranchBufferSnapshot,
    pub packets_played: u64,
    pub bytes_played: u64,
    pub last_error: Option<String>,
}

pub struct LocalMirrorSnapshotView {
    pub desired_enabled: bool,
    pub state: LocalMirrorState,
    pub playback_backend: Option<Seq<char>>,
    pub playback_target_id: Option<Seq<char>>,
    pub buffer: StreamBranchBufferSnapshot,
    pub packets_played: u64,
    pub bytes_played: u64,
    pub last_error: Option<Seq<char>>,
}

impl View for LocalMirrorSnapshot {
    type V = LocalMirrorSnapshotView;

    open spec fn view(&self) -> LocalMirrorSnapshotView {
        LocalMirrorSnapshotView {
            desired_enabled: self.desired_enabled,
            state: self.state,
            playback_backend: opt_string_view(self.playback_backend),
            playback_target_id: opt_string_view(self.playback_target_id),
            buffer: self.buffer,
            packets_played: self.packets_played,
            bytes_played: self.bytes_played,
            last_error: opt_string_view(self.last_error),
        }
    }
}

impl LocalMirrorSnapshot {
    pub open spec fn spec_default() -> LocalMirrorSnapshotView {
        LocalMirrorSnapshotView {
            desired_enabled: false,
            state: LocalMirrorState::Disabled,
            playback_backend: None,
            playback_target_id: None,
            buffer: StreamBranchBufferSnapshot::spec_default(),
            packets_played: 0,
            bytes_played: 0,
            last_error: None,
        }
    }

    pub fn duplicate(&self) -> (r: Self)
        ensures
            r@ == self@,
    {
        LocalMirrorSnapshot {
            desired_enabled: self.desired_enabled,
            state: self.state,
            playback_backend: clone_opt_string(&self.playback_backend),
            playback_target_id: clone_opt_string(&self.playback_target_id),
            buffer: self.buffer,
            packets_played: self.packets_played,
            bytes_played: self.bytes_played,
            last_error: clone_opt_string(&self.last_error),
        }
    }
}

impl Default for LocalMirrorSnapshot {
    fn default() -> (r: Self)
        ensures
            r@ == LocalMirrorSnapshot::spec_default(),
    {
        LocalMirrorSnapshot {
            desired_enabled: false,
            state: LocalMirrorState::Disabled,
            playback_backend: None,
            playback_target_id: None,
            buffer: StreamBranchBufferSnapshot::default(),
            packets_played: 0,
            bytes_played: 0,
            last_error: None,
        }
    }
}

#[derive(Debug, Clone, Copy, PartialEq, Eq, Structural)]
pub enum StreamTargetHealth {
    Pending,
    Healthy,
    Degraded,
    Unreachable,
    Error,
}

impl Default for StreamTargetHealth {
    fn default() -> (r: Self)
        ensures
            r == StreamTargetHealth::Pending,
    {
        StreamTargetHealth::Pending
    }
}

#[derive(Debug, Clone, Copy, PartialEq, Eq, Structural)]
pub enum StreamTargetFailureKind {
    Refused,
    Timeout,
    ResolveFailure,
    ProtocolMismatch,
    SelfTargetBlocked,
    Unreachable,
}

#[derive(Debug, Clone, PartialEq, Eq)]
pub struct StreamTargetSnapshot {
    pub receiver_id: DeviceId,
    pub receiver_name: String,
    pub endpoint: SocketAddress,
    pub state: StreamSessionState,
    pub health: StreamTargetHealth,
    pub session_id: Option<String>,
    pub codec: Option<StreamCodec>,
    pub stream: Option<ReceiverStreamConfig>,
    pub network_buffer: StreamBranchBufferSnapshot,
    pub metrics: StreamMetrics,
    pub attempt_count: u32,
    pub next_retry_at_unix_ms: Option<u64>,
    pub last_error_kind: Option<StreamTargetFailureKind>,
    pub last_error: Option<String>,
}

pub struct StreamTargetSnapshotView {
    pub receiver_id: Seq<char>,
    pub receiver_name: Seq<char>,
    pub endpoint: SocketAddress,
    pub state: StreamSessionState,
    pub health: StreamTargetHealth,
    pub session_id: Option<Seq<char>>,
    pub codec: Option<StreamCodec>,
    pub stream: Option<ReceiverStreamConfig>,
    pub network_buffer: StreamBranchBufferSnapshot,
    pub metrics: StreamMetrics,
    pub attempt_count: u32,
    pub next_retry_at_unix_ms: Option<u64>,
    pub last_error_kind: Option<StreamTargetFailureKind>,
    pub last_error: Option<Seq<char>>,
}

impl View for StreamTargetSnapshot {
    type V = StreamTargetSnapshotView;

    open spec fn view(&self) -> StreamTargetSnapshotView {
        StreamTargetSnapshotView {
            receiver_id: self.receiver_id@,
            receiver_name: self.receiver_name@,
            endpoint: self.endpoint,
            state: self.state,
            health: self.health,
            session_id: opt_string_view(self.session_id),
            codec: self.codec,
            stream: self.stream,
            network_buffer: self.network_buffer,
            metrics: self.metrics,
            attempt_count: self.attempt_count,
            next_retry_at_unix_ms: self.next_retry_at_unix_ms,
            last_error_kind: self.last_error_kind,
            last_error: opt_string_view(self.last_error),
        }
    }
}

impl StreamTargetSnapshot {
    /// An idle, pending snapshot of a target that has not been contacted.
    pub fn new(receiver_id: DeviceId, receiver_name: &str, endpoint: SocketAddress) -> (r: Self)
        ensures
            r@ == (StreamTargetSnapshotView {
                receiver_id: receiver_id@,
                receiver_name: receiver_name@,
                endpoint,
                state: StreamSessionState::Idle,
                health: StreamTargetHealth::Pending,
                session_id: None,
                codec: None,
                stream: None,
                network_buffer: StreamBranchBufferSnapshot::spec_default(),
                metrics: StreamMetrics::spec_default(),
                attempt_count: 0,
                next_retry_at_unix_ms: None,
                last_error_kind: None,
                last_error: None,
            }),
    {
        StreamTargetSnapshot {
            receiver_id,
            receiver_name: receiver_name.to_owned(),
            endpoint,
            state: StreamSessionState::Idle,
            health: StreamTargetHealth::Pending,
            session_id: None,
            codec: None,
            stream: None,
            network_buffer: StreamBranchBufferSnapshot::default(),
            metrics: StreamMetrics::default(),
            attempt_count: 0,
            next_retry_at_unix_ms: None,
            last_error_kind: None,
            last_error: None,
        }
    }

    pub fn duplicate(&self) -> (r: Self)
        ensures
            r@ == self@,
    {
        StreamTargetSnapshot {
            receiver_id: self.receiver_id.clone(),
            receiver_name: self.receiver_name.clone(),
            endpoint: self.endpoint,
            state: self.state,
            health: self.health,
            session_id: clone_opt_string(&self.session_id),
            codec: self.codec,
            stream: self.stream,
            network_buffer: self.network_buffer,
            metrics: self.metrics,
            attempt_count: self.attempt_count,
            next_retry_at_unix_ms: self.next_retry_at_unix_ms,
            last_error_kind: self.last_error_kind,
            last_error: clone_opt_string(&self.last_error),
        }
    }
}

#[derive(Debug, Clone, PartialEq, Eq)]
pub struct StreamSessionSnapshot {
    pub state: StreamSessionState,
    pub session_id: Option<String>,
    pub stream: Option<ReceiverStreamConfig>,
    pub targets: Vec<StreamTargetSnapshot>,
    pub local_mirror: LocalMirrorSnapshot,
    pub metrics: StreamMetrics,
    pub last_error: Option<String>,
}

pub struct StreamSessionSnapshotView {
    pub state: StreamSessionState,
    pub session_id: Option<Seq<char>>,
    pub stream: Option<ReceiverStreamConfig>,
    pub targets: Seq<StreamTargetSnapshotView>,
    pub local_mirror: LocalMirrorSnapshotView,
    pub metrics: StreamMetrics,
    pub last_error: Option<Seq<char>>,
}

impl View for StreamSessionSnapshot {
    type V = StreamSessionSnapshotView;

    open spec fn view(&self) -> StreamSessionSnapshotView {
        StreamSessionSnapshotView {
            state: self.state,
            session_id: opt_string_view(self.session_id),
            stream: self.stream,
            targets: self.targets@.map_values(|t: StreamTargetSnapshot| t@),
            local_mirror: self.local_mirror@,
            metrics: self.metrics,
            last_error: opt_string_view(self.last_error),
        }
    }
}

/// Number of targets in `s` whose health is `Healthy`.
pub open spec fn count_healthy(s: Seq<StreamTargetSnapshot>) -> nat
    decreases s.len(),
{
    if s.len() == 0 {
        0
    } else {
        count_healthy(s.drop_last()) + if s.last().health == StreamTargetHealth::Healthy { 1nat } else { 0nat }
    }
}

impl StreamSessionSnapshot {
    /// An idle session snapshot holding one target.
    pub fn with_target(target: StreamTargetSnapshot) -> (r: Self)
        ensures
            r.state == StreamSessionState::Idle,
            r.session_id is None,
            r.stream is None,
            r.targets@ == seq![target],
            r.local_mirror@ == LocalMirrorSnapshot::spec_default(),
            r.metrics == StreamMetrics::spec_default(),
            r.last_error is None,
    {
        let mut targets = Vec::new();
        targets.push(target);
        StreamSessionSnapshot {
            state: StreamSessionState::Idle,
            session_id: None,
            stream: None,
            targets,
            local_mirror: LocalMirrorSnapshot::default(),
            metrics: StreamMetrics::default(),
            last_error: None,
        }
    }

    /// The first target with the given identifier.
    pub fn target(&self, device_id: &DeviceId) -> (r: Option<&StreamTargetSnapshot>)
        ensures
            match r {
                Some(t) => exists|i: int|
                    0 <= i < self.targets@.len() && self.targets@[i] == *t && t.receiver_id@
                        == device_id@ && forall|j: int|
                        0 <= j < i ==> self.targets@[j].receiver_id@ != device_id@,
                None => forall|i: int|
                    0 <= i < self.targets@.len() ==> self.targets@[i].receiver_id@ != device_id@,
            },
    {
        let mut i: usize = 0;
        while i < self.targets.len()
            invariant
                i <= self.targets@.len(),
                forall|j: int| 0 <= j < i ==> self.targets@[j].receiver_id@ != device_id@,
            decreases self.targets@.len() - i,
        {
            if self.targets[i].receiver_id.same_as(device_id) {
                return Some(&self.targets[i]);
            }
            i = i + 1;
        }
        None
    }

    pub fn active_target_count(&self) -> (r: usize)
        ensures
            r == self.targets@.len(),
    {
        self.targets.len()
    }

    pub fn healthy_target_count(&self) -> (r: usize)
        ensures
            r == count_healthy(self.targets@),
    {
        let mut count: usize = 0;
        let mut i: usize = 0;
        while i < self.targets.len()
            invariant
                i <= self.targets@.len(),
                count == count_healthy(self.targets@.subrange(0, i as int)),
                count <= i,
            decreases self.targets@.len() - i,
        {
            proof {
                assert(self.targets@.subrange(0, i + 1).drop_last() =~= self.targets@.subrange(0, i as int));
            }
            if self.targets[i].health == StreamTargetHealth::Healthy {
                count = count + 1;
            }
            i = i + 1;
        }
        assert(self.targets@.subrange(0, self.targets@.len() as int) =~= self.targets@);
        count
    }
}

impl Default for StreamSessionSnapshot {
    fn default() -> (r: Self)
        ensures
            r.state == StreamSessionState::Idle,
            r.session_id is None,
            r.stream is None,
            r.targets@.len() == 0,
            r.local_mirror@ == LocalMirrorSnapshot::spec_default(),
            r.metrics == StreamMetrics::spec_default(),
            r.last_error is None,
    {
        StreamSessionSnapshot {
            state: StreamSessionState::Idle,
            session_id: None,
            stream: None,
            targets: Vec::new(),
            local_mirror: LocalMirrorSnapshot::default(),
            metrics: StreamMetrics::default(),
            last_error: None,
        }
    }
}

} // verus!
