//! Sender and receiver session policies: connection retries, per-target
//! snapshots, the session state shown for a set of targets, metric totals,
//! queue sizing and the local playback mirror's state.

use vstd::prelude::*;
use crate::audio::CaptureSettings;
use crate::error::{IoErrorKind, TransportError, TransportErrorView};
use crate::models::{DeviceId, TransportEndpoint, TransportEndpointView, opt_string_view};
use crate::net::SocketAddress;
use crate::receiver::ReceiverStreamConfig;
use crate::models::clone_opt_string;
use crate::seqs::{any_index, first_index, lemma_first_index_is, lemma_no_index};
use crate::text::{append_decimal, append_str, decimal, seq_lt, str_eq, str_lt};
use crate::error::transport_error_text;
use crate::protocol::FrameKind;
use crate::fanout::BufferedPushOutcome;
use crate::messages::AcceptMessage;
use crate::streaming::{StreamSessionSnapshot, StreamSessionSnapshotView,
    LocalMirrorSnapshot, LocalMirrorSnapshotView, LocalMirrorState, StreamBranchBufferSnapshot,
    StreamMetrics, StreamSessionState, StreamTargetFailureKind, StreamTargetHealth,
    StreamTargetSnapshot, StreamTargetSnapshotView, accumulate_fits, spec_accumulate,
};

verus! {

pub const MIN_BRANCH_QUEUE_PACKETS: u64 = 4;
pub const BRANCH_QUEUE_HEADROOM_PACKETS: u64 = 2;
pub const MAX_BRANCH_QUEUE_PACKETS: u64 = 64;
pub const MAX_CONNECT_ATTEMPTS: u32 = 3;

/// A receiver the sender streams to.
#[derive(Debug, PartialEq, Eq)]
pub struct SenderTarget {
    pub receiver_id: DeviceId,
    pub receiver_name: String,
    pub endpoint: TransportEndpoint,
}

pub struct SenderTargetView {
    pub receiver_id: Seq<char>,
    pub receiver_name: Seq<char>,
    pub endpoint: TransportEndpointView,
}

impl View for SenderTarget {
    type V = SenderTargetView;

    open spec fn view(&self) -> SenderTargetView {
        SenderTargetView {
            receiver_id: self.receiver_id@,
            receiver_name: self.receiver_name@,
            endpoint: self.endpoint@,
        }
    }
}

impl Clone for SenderTarget {
    fn clone(&self) -> (r: Self)
        ensures
            r@ == self@,
    {
        SenderTarget {
            receiver_id: self.receiver_id.clone(),
            receiver_name: self.receiver_name.clone(),
            endpoint: self.endpoint.clone(),
        }
    }
}

impl SenderTarget {
    pub fn new(receiver_id: DeviceId, receiver_name: &str, endpoint: TransportEndpoint) -> (r: Self)
        ensures
            r@ == (SenderTargetView {
                receiver_id: receiver_id@,
                receiver_name: receiver_name@,
                endpoint: endpoint@,
            }),
    {
        SenderTarget { receiver_id, receiver_name: receiver_name.to_owned(), endpoint }
    }
}

/// The wait before the next connection attempt after `attempt_count`
/// attempts: half a second after the first, 1.5 s after the second, 3 s
/// after that.
pub open spec fn spec_retry_backoff_ms(attempt_count: u32) -> u64 {
    if attempt_count <= 1 {
        500
    } else if attempt_count == 2 {
        1_500
    } else {
        3_000
    }
}

pub fn retry_backoff(attempt_count: u32) -> (r: u64)
    ensures
        r == spec_retry_backoff_ms(attempt_count),
{
    match attempt_count {
        0 | 1 => 500,
        2 => 1_500,
        _ => 3_000,
    }
}

/// Whether, and after how long, a failed attempt is retried: only a
/// retryable failure, and only before the attempt limit.
pub open spec fn spec_retry_after_failure(retryable: bool, attempt_count: u32) -> Option<u64> {
    if retryable && attempt_count < MAX_CONNECT_ATTEMPTS {
        Some(spec_retry_backoff_ms(attempt_count))
    } else {
        None
    }
}

pub fn retry_after_failure(retryable: bool, attempt_count: u32) -> (r: Option<u64>)
    ensures
        r == spec_retry_after_failure(retryable, attempt_count),
{
    if retryable && attempt_count < MAX_CONNECT_ATTEMPTS {
        Some(retry_backoff(attempt_count))
    } else {
        None
    }
}

/// Connection attempts stop at the limit, and each wait is between half a
/// second and three seconds, never shorter than the one before.
pub proof fn lemma_retries_are_bounded(retryable: bool, attempt_count: u32, later: u32)
    ensures
        spec_retry_after_failure(retryable, attempt_count) is Some ==> attempt_count < MAX_CONNECT_ATTEMPTS,
        500 <= spec_retry_backoff_ms(attempt_count) <= 3_000,
        attempt_count <= later ==> spec_retry_backoff_ms(attempt_count) <= spec_retry_backoff_ms(later),
{
}

/// The failure kind of a connection error: refused and timed-out connects
/// are told apart, anything else is unreachable.
pub open spec fn connect_failure_kind(error: TransportErrorView) -> StreamTargetFailureKind {
    match error {
        TransportErrorView::Connect { source, .. } => if source.kind == IoErrorKind::ConnectionRefused {
            StreamTargetFailureKind::Refused
        } else if source.kind == IoErrorKind::TimedOut {
            StreamTargetFailureKind::Timeout
        } else {
            StreamTargetFailureKind::Unreachable
        },
        _ => StreamTargetFailureKind::Unreachable,
    }
}

pub fn classify_connect_error(error: &TransportError) -> (r: StreamTargetFailureKind)
    ensures
        r == connect_failure_kind(error@),
{
    match error {
        TransportError::Connect { source, .. } => match source.kind {
            IoErrorKind::ConnectionRefused => StreamTargetFailureKind::Refused,
            IoErrorKind::TimedOut => StreamTargetFailureKind::Timeout,
            _ => StreamTargetFailureKind::Unreachable,
        },
        _ => StreamTargetFailureKind::Unreachable,
    }
}

/// A target snapshot before its first connection attempt has an answer.
pub open spec fn pending_snapshot_view(target: SenderTargetView, attempt_count: u32) -> StreamTargetSnapshotView {
    StreamTargetSnapshotView {
        receiver_id: target.receiver_id,
        receiver_name: target.receiver_name,
        endpoint: target.endpoint.address,
        state: StreamSessionState::Connecting,
        health: StreamTargetHealth::Pending,
        session_id: None,
        codec: None,
        stream: None,
        network_buffer: StreamBranchBufferSnapshot::spec_default(),
        metrics: StreamMetrics::spec_default(),
        attempt_count,
        next_retry_at_unix_ms: None,
        last_error_kind: None,
        last_error: None,
    }
}

pub fn pending_target_snapshot(target: &SenderTarget, attempt_count: u32) -> (r: StreamTargetSnapshot)
    ensures
        r@ == pending_snapshot_view(target@, attempt_count),
{
    let mut snapshot = StreamTargetSnapshot::new(
        target.receiver_id.clone(),
        target.receiver_name.as_str(),
        target.endpoint.address,
    );
    snapshot.state = StreamSessionState::Connecting;
    snapshot.health = StreamTargetHealth::Pending;
    snapshot.attempt_count = attempt_count;
    snapshot
}

pub open spec fn sat_add(a: u64, b: int) -> u64 {
    if a + b <= u64::MAX { (a + b) as u64 } else { u64::MAX }
}

/// Counts a frame of `wire_bytes` bytes sent while negotiating.
pub fn note_negotiation_sent(snapshot: &mut StreamTargetSnapshot, wire_bytes: usize)
    ensures
        final(snapshot)@ == (StreamTargetSnapshotView {
            metrics: StreamMetrics { bytes_sent: sat_add(old(snapshot)@.metrics.bytes_sent, wire_bytes as int), ..old(snapshot)@.metrics },
            ..old(snapshot)@
        }),
{
    snapshot.metrics.bytes_sent = snapshot.metrics.bytes_sent.saturating_add(wire_bytes as u64);
}

/// Counts a frame of `wire_bytes` bytes received while negotiating.
pub fn note_negotiation_received(snapshot: &mut StreamTargetSnapshot, wire_bytes: usize)
    ensures
        final(snapshot)@ == (StreamTargetSnapshotView {
            metrics: StreamMetrics {
                bytes_received: sat_add(old(snapshot)@.metrics.bytes_received, wire_bytes as int),
                packets_received: sat_add(old(snapshot)@.metrics.packets_received, 1),
                ..old(snapshot)@.metrics
            },
            ..old(snapshot)@
        }),
{
    snapshot.metrics.bytes_received = snapshot.metrics.bytes_received.saturating_add(wire_bytes as u64);
    snapshot.metrics.packets_received = snapshot.metrics.packets_received.saturating_add(1);
}

/// A target whose receiver accepted the session: it streams, healthy,
/// with the accepted codec and stream shape and no error.
pub fn mark_target_streaming(snapshot: &mut StreamTargetSnapshot, session_id: String, accept: &AcceptMessage)
    ensures
        final(snapshot)@ == (StreamTargetSnapshotView {
            session_id: Some(session_id@),
            codec: Some(accept.codec),
            stream: Some(accept.stream),
            state: StreamSessionState::Streaming,
            health: StreamTargetHealth::Healthy,
            last_error_kind: None,
            last_error: None,
            ..old(snapshot)@
        }),
{
    snapshot.session_id = Some(session_id);
    snapshot.codec = Some(accept.codec);
    snapshot.stream = Some(accept.stream);
    snapshot.state = StreamSessionState::Streaming;
    snapshot.health = StreamTargetHealth::Healthy;
    snapshot.last_error_kind = None;
    snapshot.last_error = None;
}

/// A connection attempt that did not produce a session.
#[derive(Debug, Clone)]
pub struct TargetConnectFailure {
    pub target: SenderTarget,
    pub snapshot: StreamTargetSnapshot,
    pub failure_kind: StreamTargetFailureKind,
    pub retryable: bool,
}

/// The health shown after a failure: protocol mismatches and blocked self
/// targets are errors, everything else leaves the target unreachable.
pub open spec fn failure_health(kind: StreamTargetFailureKind) -> StreamTargetHealth {
    match kind {
        StreamTargetFailureKind::ProtocolMismatch => StreamTargetHealth::Error,
        StreamTargetFailureKind::SelfTargetBlocked => StreamTargetHealth::Error,
        _ => StreamTargetHealth::Unreachable,
    }
}

pub fn connect_failure(
    target: SenderTarget,
    snapshot: StreamTargetSnapshot,
    failure_kind: StreamTargetFailureKind,
    message: String,
    retryable: bool,
) -> (r: TargetConnectFailure)
    ensures
        r.target@ == target@,
        r.snapshot@ == (StreamTargetSnapshotView {
            state: StreamSessionState::Error,
            health: failure_health(failure_kind),
            last_error_kind: Some(failure_kind),
            last_error: Some(message@),
            ..snapshot@
        }),
        r.failure_kind == failure_kind,
        r.retryable == retryable,
{
    let mut snapshot = snapshot;
    snapshot.state = StreamSessionState::Error;
    snapshot.health = match failure_kind {
        StreamTargetFailureKind::ProtocolMismatch | StreamTargetFailureKind::SelfTargetBlocked => {
            StreamTargetHealth::Error
        },
        _ => StreamTargetHealth::Unreachable,
    };
    snapshot.last_error_kind = Some(failure_kind);
    snapshot.last_error = Some(message);
    TargetConnectFailure { target, snapshot, failure_kind, retryable }
}

/// The steps of a connection attempt that can fail.
#[derive(Debug, Clone, Copy, PartialEq, Eq, Structural)]
pub enum ConnectStep {
    /// Opening the TCP connection.
    Dial,
    /// Setting socket options on the new connection.
    TuneSocket,
    /// Writing the Hello frame.
    SendHello,
    /// Reading the receiver's answer.
    ReadAnswer,
    /// Decoding the Accept's metadata.
    DecodeAccept,
    /// Checking the Accept against the Hello.
    ValidateAccept,
    /// Cloning the connection for the writer and reader threads.
    SplitStream,
}

/// The failure kind of a step's error: a failed dial is classified by its
/// cause, a failed exchange of frames is a protocol mismatch, anything
/// else leaves the receiver unreachable.
pub open spec fn step_failure_kind(step: ConnectStep, error: TransportErrorView) -> StreamTargetFailureKind {
    match step {
        ConnectStep::Dial => connect_failure_kind(error),
        ConnectStep::SendHello | ConnectStep::DecodeAccept | ConnectStep::ValidateAccept => {
            StreamTargetFailureKind::ProtocolMismatch
        },
        _ => StreamTargetFailureKind::Unreachable,
    }
}

/// Whether a step's failure is worth another attempt: network trouble is,
/// a protocol mismatch is not.
pub open spec fn step_retryable(step: ConnectStep) -> bool {
    match step {
        ConnectStep::SendHello | ConnectStep::DecodeAccept | ConnectStep::ValidateAccept => false,
        _ => true,
    }
}

/// The failed attempt a step's error makes: its kind and retry decision by
/// the step, the error's text as the message.
pub fn step_failure(
    step: ConnectStep,
    target: SenderTarget,
    snapshot: StreamTargetSnapshot,
    error: &TransportError,
) -> (r: TargetConnectFailure)
    ensures
        r.target@ == target@,
        r.snapshot@ == (StreamTargetSnapshotView {
            state: StreamSessionState::Error,
            health: failure_health(step_failure_kind(step, error@)),
            last_error_kind: Some(step_failure_kind(step, error@)),
            last_error: Some(transport_error_text(error@)),
            ..snapshot@
        }),
        r.failure_kind == step_failure_kind(step, error@),
        r.retryable == step_retryable(step),
{
    let kind = match step {
        ConnectStep::Dial => classify_connect_error(error),
        ConnectStep::SendHello | ConnectStep::DecodeAccept | ConnectStep::ValidateAccept => {
            StreamTargetFailureKind::ProtocolMismatch
        },
        _ => StreamTargetFailureKind::Unreachable,
    };
    let retryable = match step {
        ConnectStep::SendHello | ConnectStep::DecodeAccept | ConnectStep::ValidateAccept => false,
        _ => true,
    };
    connect_failure(target, snapshot, kind, error.to_string(), retryable)
}

/// A target that is this device: blocked for good.
pub fn self_target_failure(target: SenderTarget, snapshot: StreamTargetSnapshot) -> (r: TargetConnectFailure)
    ensures
        r.target@ == target@,
        r.snapshot@ == (StreamTargetSnapshotView {
            state: StreamSessionState::Error,
            health: StreamTargetHealth::Error,
            last_error_kind: Some(StreamTargetFailureKind::SelfTargetBlocked),
            last_error: Some("self-target connections are blocked"@),
            ..snapshot@
        }),
        r.failure_kind == StreamTargetFailureKind::SelfTargetBlocked,
        !r.retryable,
{
    connect_failure(
        target,
        snapshot,
        StreamTargetFailureKind::SelfTargetBlocked,
        "self-target connections are blocked".to_string(),
        false,
    )
}

/// The receiver's answer must be an Accept frame; any other kind ends the
/// attempt for good as a protocol mismatch.
pub fn answer_kind_failure(target: &SenderTarget, snapshot: &StreamTargetSnapshot, kind: FrameKind) -> (r: Option<
    TargetConnectFailure,
>)
    ensures
        (r is None) == (kind == FrameKind::Accept),
        r matches Some(f) ==> f.target@ == target@ && f.snapshot@ == (StreamTargetSnapshotView {
            state: StreamSessionState::Error,
            health: StreamTargetHealth::Error,
            last_error_kind: Some(StreamTargetFailureKind::ProtocolMismatch),
            last_error: Some("receiver did not respond with Accept"@),
            ..snapshot@
        }) && f.failure_kind == StreamTargetFailureKind::ProtocolMismatch && !f.retryable,
{
    if kind == FrameKind::Accept {
        None
    } else {
        Some(connect_failure(
            target.clone(),
            snapshot.duplicate(),
            StreamTargetFailureKind::ProtocolMismatch,
            "receiver did not respond with Accept".to_string(),
            false,
        ))
    }
}

/// The identifier of one target's session: the sender's session, the
/// receiver and the moment of the attempt, joined by hyphens.
pub open spec fn target_session_id(session_id: Seq<char>, receiver_id: Seq<char>, now_unix_ms: u64) -> Seq<char> {
    session_id + "-"@ + receiver_id + "-"@ + decimal(now_unix_ms as nat)
}

pub fn make_target_session_id(session_id: &str, receiver_id: &str, now_unix_ms: u64) -> (r: String)
    ensures
        r@ == target_session_id(session_id@, receiver_id@, now_unix_ms),
{
    proof {
        reveal_strlit("-");
    }
    let mut out = String::new();
    append_str(&mut out, session_id);
    append_str(&mut out, "-");
    append_str(&mut out, receiver_id);
    append_str(&mut out, "-");
    append_decimal(&mut out, now_unix_ms);
    assert(out@ =~= target_session_id(session_id@, receiver_id@, now_unix_ms));
    out
}

/// A target whose connection opened: the Hello exchange begins.
pub fn note_connected(snapshot: &mut StreamTargetSnapshot)
    ensures
        final(snapshot)@ == (StreamTargetSnapshotView { state: StreamSessionState::Negotiating, ..old(snapshot)@ }),
{
    snapshot.state = StreamSessionState::Negotiating;
}

/// Whether a target is this device itself, which the sender never dials.
pub fn is_self_target(local_device_id: Option<&DeviceId>, receiver_id: &DeviceId) -> (r: bool)
    ensures
        r == match local_device_id {
            Some(id) => id@ == receiver_id@,
            None => false,
        },
{
    match local_device_id {
        Some(id) => id.same_as(receiver_id),
        None => false,
    }
}

/// A target is (re)queued unless it is already connecting, negotiating or
/// streaming.
pub open spec fn spec_connect_needed(current: Option<StreamSessionState>) -> bool {
    match current {
        Some(StreamSessionState::Connecting) => false,
        Some(StreamSessionState::Negotiating) => false,
        Some(StreamSessionState::Streaming) => false,
        _ => true,
    }
}

pub fn connect_needed(current: Option<StreamSessionState>) -> (r: bool)
    ensures
        r == spec_connect_needed(current),
{
    match current {
        Some(StreamSessionState::Connecting) | Some(StreamSessionState::Negotiating) | Some(
            StreamSessionState::Streaming,
        ) => false,
        _ => true,
    }
}

/// A pending target whose attempt starts now: connecting, with no retry
/// scheduled and one more attempt counted.
pub open spec fn in_flight_view(s: StreamTargetSnapshotView) -> StreamTargetSnapshotView {
    StreamTargetSnapshotView {
        state: StreamSessionState::Connecting,
        health: StreamTargetHealth::Pending,
        next_retry_at_unix_ms: None,
        attempt_count: if s.attempt_count < u32::MAX { (s.attempt_count + 1) as u32 } else { u32::MAX },
        ..s
    }
}

pub fn mark_attempt_in_flight(snapshot: &mut StreamTargetSnapshot) -> (r: u32)
    ensures
        final(snapshot)@ == in_flight_view(old(snapshot)@),
        r == final(snapshot).attempt_count,
{
    snapshot.state = StreamSessionState::Connecting;
    snapshot.health = StreamTargetHealth::Pending;
    snapshot.next_retry_at_unix_ms = None;
    snapshot.attempt_count = snapshot.attempt_count.saturating_add(1);
    snapshot.attempt_count
}

/// A failed attempt's snapshot, kept with the time of the next attempt.
pub fn schedule_retry(snapshot: &mut StreamTargetSnapshot, backoff_ms: u64, now_unix_ms: u64)
    ensures
        final(snapshot)@ == (StreamTargetSnapshotView {
            next_retry_at_unix_ms: Some(
                if now_unix_ms + backoff_ms <= u64::MAX { (now_unix_ms + backoff_ms) as u64 } else { u64::MAX },
            ),
            ..old(snapshot)@
        }),
{
    snapshot.next_retry_at_unix_ms = Some(now_unix_ms.saturating_add(backoff_ms));
}

/// A target that failed: the error shown, in the error state.
pub fn set_target_error(snapshot: &mut StreamTargetSnapshot, message: String, health: StreamTargetHealth)
    ensures
        final(snapshot)@ == (StreamTargetSnapshotView {
            last_error: Some(message@),
            state: StreamSessionState::Error,
            health,
            ..old(snapshot)@
        }),
{
    snapshot.last_error = Some(message);
    snapshot.state = StreamSessionState::Error;
    snapshot.health = health;
}

/// A streaming target is degraded once packets were dropped or lost, and
/// healthy otherwise; other targets keep their health.
pub open spec fn refreshed_health(s: StreamTargetSnapshotView) -> StreamTargetHealth {
    if s.state != StreamSessionState::Streaming {
        s.health
    } else if s.network_buffer.dropped_packets > 0 || s.metrics.packet_gaps > 0 {
        StreamTargetHealth::Degraded
    } else {
        StreamTargetHealth::Healthy
    }
}

pub fn refresh_target_health(snapshot: &mut StreamTargetSnapshot)
    ensures
        final(snapshot)@ == (StreamTargetSnapshotView { health: refreshed_health(old(snapshot)@), ..old(snapshot)@ }),
{
    if snapshot.state != StreamSessionState::Streaming {
        return;
    }
    snapshot.health = if snapshot.network_buffer.dropped_packets > 0 || snapshot.metrics.packet_gaps > 0 {
        StreamTargetHealth::Degraded
    } else {
        StreamTargetHealth::Healthy
    };
}

/// A target stays in the session only while it streams.
pub fn still_streaming(snapshot: &StreamTargetSnapshot) -> (r: bool)
    ensures
        r == (snapshot@.state == StreamSessionState::Streaming),
{
    snapshot.state == StreamSessionState::Streaming
}

/// The interval between heartbeats: the configured one, at least 250 ms.
pub fn heartbeat_interval_ms(configured_ms: u16) -> (r: u64)
    ensures
        r == (if configured_ms > 250 { configured_ms as u64 } else { 250 }),
{
    if configured_ms > 250 { configured_ms as u64 } else { 250 }
}

/// A heartbeat is due on a streaming target once the interval has passed
/// since the last one was sent.
pub fn heartbeat_due(state: StreamSessionState, since_last_ms: u64, interval_ms: u64) -> (r: bool)
    ensures
        r == (state == StreamSessionState::Streaming && since_last_ms >= interval_ms),
{
    state == StreamSessionState::Streaming && since_last_ms >= interval_ms
}

/// A heartbeat that could not be handed to the network writer: its channel
/// is closed, and the receiver is unreachable.
pub fn note_heartbeat_unsent(snapshot: &mut StreamTargetSnapshot)
    ensures
        final(snapshot)@ == (StreamTargetSnapshotView {
            last_error: Some(transport_error_text(TransportError::ChannelClosed@)),
            state: StreamSessionState::Error,
            health: StreamTargetHealth::Unreachable,
            ..old(snapshot)@
        }),
{
    set_target_error(snapshot, TransportError::ChannelClosed.to_string(), StreamTargetHealth::Unreachable);
}

/// A target after a captured frame was pushed into its queue: a failed push
/// fails the target with the error's text; otherwise the queue's counters
/// (`buffer`, read after the push) are taken over and the health
/// refreshed. Returns whether the push went through.
pub fn after_target_push(
    snapshot: &mut StreamTargetSnapshot,
    pushed: Result<BufferedPushOutcome, TransportError>,
    buffer: StreamBranchBufferSnapshot,
) -> (r: bool)
    ensures
        r == (pushed is Ok),
        match pushed {
            Ok(_) => final(snapshot)@ == (StreamTargetSnapshotView {
                network_buffer: buffer,
                health: refreshed_health(StreamTargetSnapshotView { network_buffer: buffer, ..old(snapshot)@ }),
                ..old(snapshot)@
            }),
            Err(e) => final(snapshot)@ == (StreamTargetSnapshotView {
                last_error: Some(transport_error_text(e@)),
                state: StreamSessionState::Error,
                health: StreamTargetHealth::Error,
                ..old(snapshot)@
            }),
        },
{
    match pushed {
        Ok(_) => {
            snapshot.network_buffer = buffer;
            refresh_target_health(snapshot);
            true
        },
        Err(e) => {
            set_target_error(snapshot, e.to_string(), StreamTargetHealth::Error);
            false
        },
    }
}

/// The stream description a receiver is offered for these capture settings.
pub fn receiver_stream_config(settings: &CaptureSettings) -> (r: ReceiverStreamConfig)
    ensures
        r == (ReceiverStreamConfig {
            sample_rate_hz: settings.sample_rate_hz,
            channels: settings.channels,
            sample_format: settings.sample_format,
            frames_per_packet: settings.buffer_frames,
        }),
{
    ReceiverStreamConfig {
        sample_rate_hz: settings.sample_rate_hz,
        channels: settings.channels,
        sample_format: settings.sample_format,
        frames_per_packet: settings.buffer_frames,
    }
}

/// The metrics of all targets added up, in order.
pub open spec fn metrics_total(s: Seq<StreamTargetSnapshot>) -> StreamMetrics
    decreases s.len(),
{
    if s.len() == 0 {
        StreamMetrics::spec_default()
    } else {
        spec_accumulate(metrics_total(s.drop_last()), s.last().metrics)
    }
}

/// No running total of the targets' metrics overflows a counter.
pub open spec fn totals_fit(s: Seq<StreamTargetSnapshot>) -> bool
    decreases s.len(),
{
    s.len() == 0 || (totals_fit(s.drop_last()) && accumulate_fits(metrics_total(s.drop_last()), s.last().metrics))
}

/// The sum over the targets of one counter of their metrics.
pub open spec fn counter_sum(s: Seq<StreamTargetSnapshot>, counter: spec_fn(StreamMetrics) -> u64) -> int
    decreases s.len(),
{
    if s.len() == 0 {
        0
    } else {
        counter_sum(s.drop_last(), counter) + counter(s.last().metrics)
    }
}

/// Accumulating one target's metrics into a total adds each counter, and
/// keeps the larger latency estimate.
pub proof fn lemma_accumulate_adds_counters(a: StreamMetrics, b: StreamMetrics)
    requires
        accumulate_fits(a, b),
    ensures
        spec_accumulate(a, b).packets_sent == a.packets_sent + b.packets_sent,
        spec_accumulate(a, b).packets_received == a.packets_received + b.packets_received,
        spec_accumulate(a, b).bytes_sent == a.bytes_sent + b.bytes_sent,
        spec_accumulate(a, b).bytes_received == a.bytes_received + b.bytes_received,
        spec_accumulate(a, b).estimated_bitrate_bps == a.estimated_bitrate_bps + b.estimated_bitrate_bps,
        spec_accumulate(a, b).packet_gaps == a.packet_gaps + b.packet_gaps,
        spec_accumulate(a, b).keepalives_sent == a.keepalives_sent + b.keepalives_sent,
        spec_accumulate(a, b).keepalives_received == a.keepalives_received + b.keepalives_received,
        a.latency_estimate_ms matches Some(x) ==> (spec_accumulate(a, b).latency_estimate_ms matches Some(y) && y >= x),
        b.latency_estimate_ms matches Some(x) ==> (spec_accumulate(a, b).latency_estimate_ms matches Some(y) && y >= x),
        spec_accumulate(a, b).latency_estimate_ms == a.latency_estimate_ms
            || spec_accumulate(a, b).latency_estimate_ms == b.latency_estimate_ms,
{
}

/// The total over the targets holds, in each counter, the sum of that
/// counter over the targets: the aggregate bitrate is the sum of the
/// targets' bitrates, and so on.
pub proof fn lemma_total_sums_each_counter(s: Seq<StreamTargetSnapshot>)
    requires
        totals_fit(s),
    ensures
        metrics_total(s).packets_sent == counter_sum(s, |m: StreamMetrics| m.packets_sent),
        metrics_total(s).packets_received == counter_sum(s, |m: StreamMetrics| m.packets_received),
        metrics_total(s).bytes_sent == counter_sum(s, |m: StreamMetrics| m.bytes_sent),
        metrics_total(s).bytes_received == counter_sum(s, |m: StreamMetrics| m.bytes_received),
        metrics_total(s).estimated_bitrate_bps == counter_sum(s, |m: StreamMetrics| m.estimated_bitrate_bps),
        metrics_total(s).packet_gaps == counter_sum(s, |m: StreamMetrics| m.packet_gaps),
        metrics_total(s).keepalives_sent == counter_sum(s, |m: StreamMetrics| m.keepalives_sent),
        metrics_total(s).keepalives_received == counter_sum(s, |m: StreamMetrics| m.keepalives_received),
    decreases s.len(),
{
    if s.len() > 0 {
        lemma_total_sums_each_counter(s.drop_last());
        lemma_accumulate_adds_counters(metrics_total(s.drop_last()), s.last().metrics);
    }
}

pub fn aggregate_metrics(targets: &[StreamTargetSnapshot]) -> (r: StreamMetrics)
    requires
        totals_fit(targets@),
    ensures
        r == metrics_total(targets@),
{
    let mut aggregate = StreamMetrics::default();
    let mut i: usize = 0;
    while i < targets.len()
        invariant
            i <= targets@.len(),
            totals_fit(targets@),
            aggregate == metrics_total(targets@.subrange(0, i as int)),
        decreases targets@.len() - i,
    {
        proof {
            let prefix = targets@.subrange(0, i + 1);
            assert(prefix.drop_last() =~= targets@.subrange(0, i as int));
            lemma_totals_fit_prefix(targets@, i + 1);
        }
        aggregate.accumulate(&targets[i].metrics);
        i = i + 1;
    }
    assert(targets@.subrange(0, targets@.len() as int) =~= targets@);
    aggregate
}

fn metrics_accumulate_fits(a: &StreamMetrics, b: &StreamMetrics) -> (r: bool)
    ensures
        r == accumulate_fits(*a, *b),
{
    a.packets_sent <= u64::MAX - b.packets_sent
        && a.packets_received <= u64::MAX - b.packets_received
        && a.bytes_sent <= u64::MAX - b.bytes_sent
        && a.bytes_received <= u64::MAX - b.bytes_received
        && a.estimated_bitrate_bps <= u64::MAX - b.estimated_bitrate_bps
        && a.packet_gaps <= u64::MAX - b.packet_gaps
        && a.keepalives_sent <= u64::MAX - b.keepalives_sent
        && a.keepalives_received <= u64::MAX - b.keepalives_received
}

/// The targets' metrics summed, or `None` where a running total would
/// overflow a counter.
pub fn checked_aggregate_metrics(targets: &[StreamTargetSnapshot]) -> (r: Option<StreamMetrics>)
    ensures
        r is Some <==> totals_fit(targets@),
        r matches Some(m) ==> m == metrics_total(targets@),
{
    let mut aggregate = StreamMetrics::default();
    let mut i: usize = 0;
    while i < targets.len()
        invariant
            i <= targets@.len(),
            totals_fit(targets@.subrange(0, i as int)),
            aggregate == metrics_total(targets@.subrange(0, i as int)),
        decreases targets@.len() - i,
    {
        proof {
            let prefix = targets@.subrange(0, i + 1);
            assert(prefix.drop_last() =~= targets@.subrange(0, i as int));
        }
        if !metrics_accumulate_fits(&aggregate, &targets[i].metrics) {
            proof {
                if totals_fit(targets@) {
                    lemma_totals_fit_prefix(targets@, i + 1);
                }
            }
            return None;
        }
        aggregate.accumulate(&targets[i].metrics);
        i = i + 1;
    }
    assert(targets@.subrange(0, targets@.len() as int) =~= targets@);
    Some(aggregate)
}

proof fn lemma_totals_fit_prefix(s: Seq<StreamTargetSnapshot>, k: int)
    requires
        0 <= k <= s.len(),
        totals_fit(s),
    ensures
        totals_fit(s.subrange(0, k)),
    decreases s.len(),
{
    if k < s.len() {
        assert(s.drop_last().subrange(0, k) =~= s.subrange(0, k));
        lemma_totals_fit_prefix(s.drop_last(), k);
    } else {
        assert(s.subrange(0, k) =~= s);
    }
}

pub open spec fn any_target_in(s: Seq<StreamTargetSnapshot>, state: StreamSessionState) -> bool {
    exists|i: int| 0 <= i < s.len() && #[trigger] s[i].state == state
}

pub open spec fn any_target_connecting(s: Seq<StreamTargetSnapshot>) -> bool {
    exists|i: int|
        0 <= i < s.len() && (#[trigger] s[i].state == StreamSessionState::Connecting || s[i].state
            == StreamSessionState::Negotiating || s[i].next_retry_at_unix_ms is Some)
}

pub open spec fn all_targets_failed(s: Seq<StreamTargetSnapshot>) -> bool {
    forall|i: int| 0 <= i < s.len() ==> #[trigger] s[i].state == StreamSessionState::Error
}

/// The session state shown for a set of targets: idle without targets,
/// streaming while any target streams, connecting while any is connecting,
/// negotiating or waiting to retry, stopping while any stops, failed when all
/// failed, idle otherwise.
pub open spec fn manager_state(s: Seq<StreamTargetSnapshot>) -> StreamSessionState {
    if s.len() == 0 {
        StreamSessionState::Idle
    } else if any_target_in(s, StreamSessionState::Streaming) {
        StreamSessionState::Streaming
    } else if any_target_connecting(s) {
        StreamSessionState::Connecting
    } else if any_target_in(s, StreamSessionState::Stopping) {
        StreamSessionState::Stopping
    } else if all_targets_failed(s) {
        StreamSessionState::Error
    } else {
        StreamSessionState::Idle
    }
}

/// A session with a streaming target is streaming, whatever the other
/// targets are doing.
pub proof fn lemma_streaming_target_makes_session_stream(s: Seq<StreamTargetSnapshot>, i: int)
    requires
        0 <= i < s.len(),
        s[i].state == StreamSessionState::Streaming,
    ensures
        manager_state(s) == StreamSessionState::Streaming,
{
    assert(any_target_in(s, StreamSessionState::Streaming));
}

/// The session state names what the targets are doing: it is streaming
/// exactly when some target streams; connecting only when none streams and
/// some target connects, negotiates or waits to retry; failed only when
/// there are targets and every one failed; idle without targets.
pub proof fn lemma_session_state_reflects_targets(s: Seq<StreamTargetSnapshot>)
    ensures
        (manager_state(s) == StreamSessionState::Streaming) == exists|i: int|
            0 <= i < s.len() && #[trigger] s[i].state == StreamSessionState::Streaming,
        manager_state(s) == StreamSessionState::Connecting ==> (forall|i: int|
            0 <= i < s.len() ==> #[trigger] s[i].state != StreamSessionState::Streaming) && exists|i: int|
            0 <= i < s.len() && (#[trigger] s[i].state == StreamSessionState::Connecting || s[i].state
                == StreamSessionState::Negotiating || s[i].next_retry_at_unix_ms is Some),
        manager_state(s) == StreamSessionState::Error ==> s.len() > 0 && forall|i: int|
            0 <= i < s.len() ==> #[trigger] s[i].state == StreamSessionState::Error,
        s.len() == 0 ==> manager_state(s) == StreamSessionState::Idle,
{
}

pub fn derive_manager_state(targets: &[StreamTargetSnapshot]) -> (r: StreamSessionState)
    ensures
        r == manager_state(targets@),
{
    if targets.len() == 0 {
        return StreamSessionState::Idle;
    }
    let mut streaming = false;
    let mut connecting = false;
    let mut stopping = false;
    let mut all_failed = true;
    let mut i: usize = 0;
    while i < targets.len()
        invariant
            i <= targets@.len(),
            streaming == any_target_in(targets@.subrange(0, i as int), StreamSessionState::Streaming),
            connecting == any_target_connecting(targets@.subrange(0, i as int)),
            stopping == any_target_in(targets@.subrange(0, i as int), StreamSessionState::Stopping),
            all_failed == all_targets_failed(targets@.subrange(0, i as int)),
        decreases targets@.len() - i,
    {
        let ghost before = targets@.subrange(0, i as int);
        let ghost after = targets@.subrange(0, i + 1);
        assert forall|j: int| 0 <= j < i implies #[trigger] after[j] == before[j] by {}
        assert(after[i as int] == targets@[i as int]);
        let t = &targets[i];
        if t.state == StreamSessionState::Streaming {
            streaming = true;
        }
        if t.state == StreamSessionState::Connecting || t.state == StreamSessionState::Negotiating
            || t.next_retry_at_unix_ms.is_some() {
            connecting = true;
        }
        if t.state == StreamSessionState::Stopping {
            stopping = true;
        }
        if t.state != StreamSessionState::Error {
            all_failed = false;
        }
        proof {
            if any_target_in(before, StreamSessionState::Streaming) {
                let j = choose|j: int| 0 <= j < before.len() && #[trigger] before[j].state == StreamSessionState::Streaming;
                assert(after[j] == before[j]);
            }
            if any_target_in(after, StreamSessionState::Streaming) && !(t.state == StreamSessionState::Streaming) {
                let j = choose|j: int| 0 <= j < after.len() && #[trigger] after[j].state == StreamSessionState::Streaming;
                assert(j < i);
                assert(before[j] == after[j]);
            }
            if any_target_in(before, StreamSessionState::Stopping) {
                let j = choose|j: int| 0 <= j < before.len() && #[trigger] before[j].state == StreamSessionState::Stopping;
                assert(after[j] == before[j]);
            }
            if any_target_in(after, StreamSessionState::Stopping) && !(t.state == StreamSessionState::Stopping) {
                let j = choose|j: int| 0 <= j < after.len() && #[trigger] after[j].state == StreamSessionState::Stopping;
                assert(j < i);
                assert(before[j] == after[j]);
            }
            if any_target_connecting(before) {
                let j = choose|j: int|
                    0 <= j < before.len() && (#[trigger] before[j].state == StreamSessionState::Connecting
                        || before[j].state == StreamSessionState::Negotiating
                        || before[j].next_retry_at_unix_ms is Some);
                assert(after[j] == before[j]);
            }
            if any_target_connecting(after) && !(t.state == StreamSessionState::Connecting || t.state
                == StreamSessionState::Negotiating || t.next_retry_at_unix_ms is Some) {
                let j = choose|j: int|
                    0 <= j < after.len() && (#[trigger] after[j].state == StreamSessionState::Connecting
                        || after[j].state == StreamSessionState::Negotiating
                        || after[j].next_retry_at_unix_ms is Some);
                assert(j < i);
                assert(before[j] == after[j]);
            }
            if !all_targets_failed(before) {
                let j = choose|j: int| 0 <= j < before.len() && !(#[trigger] before[j].state == StreamSessionState::Error);
                assert(after[j] == before[j]);
            }
        }
        i = i + 1;
    }
    assert(targets@.subrange(0, targets@.len() as int) =~= targets@);
    if streaming {
        StreamSessionState::Streaming
    } else if connecting {
        StreamSessionState::Connecting
    } else if stopping {
        StreamSessionState::Stopping
    } else if all_failed {
        StreamSessionState::Error
    } else {
        StreamSessionState::Idle
    }
}


pub open spec fn sat_mul(a: u64, b: u64) -> u64 {
    if a * b <= u64::MAX { (a * b) as u64 } else { u64::MAX }
}

/// Bits per second sent so far; zero before a millisecond has passed.
pub open spec fn spec_bitrate_bps(bytes_sent: u64, elapsed_ms: u64) -> u64 {
    if elapsed_ms == 0 {
        0
    } else {
        (sat_mul(sat_mul(bytes_sent, 8), 1_000) / elapsed_ms) as u64
    }
}

fn saturating_mul_u64(a: u64, b: u64) -> (r: u64)
    ensures
        r == sat_mul(a, b),
{
    match a.checked_mul(b) {
        Some(v) => v,
        None => u64::MAX,
    }
}

pub fn bitrate_bps(bytes_sent: u64, elapsed_ms: u64) -> (r: u64)
    ensures
        r == spec_bitrate_bps(bytes_sent, elapsed_ms),
{
    if elapsed_ms == 0 {
        return 0;
    }
    saturating_mul_u64(saturating_mul_u64(bytes_sent, 8), 1_000) / elapsed_ms
}

/// `dividend / divisor` rounded up, with the divisor taken as at least one.
pub open spec fn spec_div_ceil(dividend: u64, divisor: u64) -> u64 {
    let numerator = if dividend + (if divisor > 0 { divisor - 1 } else { 0 }) <= u64::MAX {
        (dividend + (if divisor > 0 { divisor - 1 } else { 0 })) as u64
    } else {
        u64::MAX
    };
    (numerator / (if divisor > 1 { divisor } else { 1 })) as u64
}

pub fn div_ceil(dividend: u64, divisor: u64) -> (r: u64)
    ensures
        r == spec_div_ceil(dividend, divisor),
{
    dividend.saturating_add(divisor.saturating_sub(1)) / (if divisor > 1 { divisor } else { 1 })
}

/// Packets a branch queue holds: enough for the target latency (at least
/// 10 ms) in packets of at least 1 ms, plus headroom, between 4 and 64.
pub open spec fn spec_branch_queue_capacity(packet_duration_ns: u64, target_latency_ms: u16) -> u64 {
    let packet_ms = if packet_duration_ns / 1_000_000 > 1 { packet_duration_ns / 1_000_000 } else { 1 };
    let target_ms = if target_latency_ms > 10 { target_latency_ms as u64 } else { 10 };
    let packets = spec_div_ceil(target_ms, packet_ms as u64) + BRANCH_QUEUE_HEADROOM_PACKETS;
    if packets < MIN_BRANCH_QUEUE_PACKETS {
        MIN_BRANCH_QUEUE_PACKETS
    } else if packets > MAX_BRANCH_QUEUE_PACKETS {
        MAX_BRANCH_QUEUE_PACKETS
    } else {
        packets as u64
    }
}

pub fn branch_queue_capacity(packet_duration_ns: u64, target_latency_ms: u16) -> (r: usize)
    ensures
        r == spec_branch_queue_capacity(packet_duration_ns, target_latency_ms),
        MIN_BRANCH_QUEUE_PACKETS <= r <= MAX_BRANCH_QUEUE_PACKETS,
{
    let whole_ms = packet_duration_ns / 1_000_000;
    let packet_ms = if whole_ms > 1 { whole_ms } else { 1 };
    let target_ms: u64 = if target_latency_ms > 10 { target_latency_ms as u64 } else { 10 };
    let rounded = div_ceil(target_ms, packet_ms);
    assert(rounded <= target_ms) by {
        assert(packet_ms >= 1);
        assert(target_ms + (packet_ms - 1) <= u64::MAX);
        assert((target_ms + (packet_ms - 1)) / (packet_ms as int) <= target_ms) by (nonlinear_arith)
            requires
                packet_ms >= 1,
                target_ms >= 1,
        ;
    }
    let packets = rounded + BRANCH_QUEUE_HEADROOM_PACKETS;
    let clamped = if packets < MIN_BRANCH_QUEUE_PACKETS {
        MIN_BRANCH_QUEUE_PACKETS
    } else if packets > MAX_BRANCH_QUEUE_PACKETS {
        MAX_BRANCH_QUEUE_PACKETS
    } else {
        packets
    };
    clamped as usize
}

/// The mirror state settled after a sender loop turn: an error stays; with
/// capture running a wanted mirror is starting (or keeps mirroring) and an
/// unwanted one is off; without capture a wanted mirror is idle.
pub open spec fn settled_mirror_state(m: LocalMirrorSnapshotView, capture_active: bool) -> LocalMirrorState {
    if m.state == LocalMirrorState::Error {
        LocalMirrorState::Error
    } else if capture_active {
        if m.desired_enabled {
            if m.state == LocalMirrorState::Mirroring || m.state == LocalMirrorState::Starting {
                m.state
            } else {
                LocalMirrorState::Starting
            }
        } else {
            LocalMirrorState::Disabled
        }
    } else if m.desired_enabled {
        LocalMirrorState::Idle
    } else {
        LocalMirrorState::Disabled
    }
}

pub fn finalize_local_mirror_state(snapshot: &mut LocalMirrorSnapshot, capture_active: bool)
    ensures
        final(snapshot)@ == (LocalMirrorSnapshotView {
            state: settled_mirror_state(old(snapshot)@, capture_active),
            ..old(snapshot)@
        }),
{
    if snapshot.state == LocalMirrorState::Error {
        return;
    }
    snapshot.state = if capture_active {
        if snapshot.desired_enabled {
            match snapshot.state {
                LocalMirrorState::Mirroring | LocalMirrorState::Starting => snapshot.state,
                _ => LocalMirrorState::Starting,
            }
        } else {
            LocalMirrorState::Disabled
        }
    } else if snapshot.desired_enabled {
        LocalMirrorState::Idle
    } else {
        LocalMirrorState::Disabled
    };
}

/// Settling the mirror state twice is settling it once.
pub proof fn lemma_mirror_settling_is_idempotent(m: LocalMirrorSnapshotView, capture_active: bool)
    ensures
        settled_mirror_state(
            LocalMirrorSnapshotView { state: settled_mirror_state(m, capture_active), ..m },
            capture_active,
        ) == settled_mirror_state(m, capture_active),
{
}

/// The mirror after local playback is switched on or off while the session
/// is in `session_state`: an idle session shows the choice directly, and a
/// wanted mirror that was off starts with its error cleared.
pub open spec fn mirror_after_choice(
    m: LocalMirrorSnapshotView,
    session_state: StreamSessionState,
    enabled: bool,
) -> LocalMirrorSnapshotView {
    let shown = if session_state == StreamSessionState::Idle {
        if enabled { LocalMirrorState::Idle } else { LocalMirrorState::Disabled }
    } else {
        m.state
    };
    if enabled && shown == LocalMirrorState::Disabled {
        LocalMirrorSnapshotView { desired_enabled: enabled, state: LocalMirrorState::Starting, last_error: None, ..m }
    } else {
        LocalMirrorSnapshotView { desired_enabled: enabled, state: shown, ..m }
    }
}

pub fn apply_local_playback_choice(
    mirror: &mut LocalMirrorSnapshot,
    session_state: StreamSessionState,
    enabled: bool,
)
    ensures
        final(mirror)@ == mirror_after_choice(old(mirror)@, session_state, enabled),
{
    mirror.desired_enabled = enabled;
    if session_state == StreamSessionState::Idle {
        mirror.state = if enabled {
            LocalMirrorState::Idle
        } else {
            LocalMirrorState::Disabled
        };
    }
    if enabled && mirror.state == LocalMirrorState::Disabled {
        mirror.state = LocalMirrorState::Starting;
        mirror.last_error = None;
    }
}

/// What a sender target's reader saw from the receiver.
#[derive(Debug, Clone, PartialEq, Eq)]
pub enum InboundControl {
    HeartbeatAck { nonce: u64, wire_bytes: u64 },
    Stop { reason: String, wire_bytes: u64 },
    Error { message: String, wire_bytes: u64 },
    Disconnected,
}

/// What a sender target's writer reports.
#[derive(Debug, Clone, PartialEq, Eq)]
pub enum NetworkEvent {
    AudioSent { wire_bytes: u64 },
    HeartbeatSent { wire_bytes: u64 },
    StopSent { wire_bytes: u64 },
    Error(String),
}

pub open spec fn counts_fit(a: u64, b: u64) -> bool {
    a + b <= u64::MAX
}

/// Whether recording a message from the receiver keeps every counter in range.
pub open spec fn inbound_fits(s: StreamTargetSnapshotView, event: InboundControl) -> bool {
    match event {
        InboundControl::HeartbeatAck { wire_bytes, .. } => counts_fit(s.metrics.bytes_received, wire_bytes)
            && counts_fit(s.metrics.packets_received, 1) && counts_fit(s.metrics.keepalives_received, 1),
        InboundControl::Stop { wire_bytes, .. } => counts_fit(s.metrics.bytes_received, wire_bytes)
            && counts_fit(s.metrics.packets_received, 1),
        InboundControl::Error { wire_bytes, .. } => counts_fit(s.metrics.bytes_received, wire_bytes)
            && counts_fit(s.metrics.packets_received, 1),
        InboundControl::Disconnected => true,
    }
}

/// Whether recording `event` keeps the target's counters in range.
pub fn inbound_fits_now(snapshot: &StreamTargetSnapshot, event: &InboundControl) -> (r: bool)
    ensures
        r == inbound_fits(snapshot@, *event),
{
    let m = &snapshot.metrics;
    match event {
        InboundControl::HeartbeatAck { wire_bytes, .. } => m.bytes_received <= u64::MAX - *wire_bytes
            && m.packets_received < u64::MAX && m.keepalives_received < u64::MAX,
        InboundControl::Stop { wire_bytes, .. } => m.bytes_received <= u64::MAX - *wire_bytes
            && m.packets_received < u64::MAX,
        InboundControl::Error { wire_bytes, .. } => m.bytes_received <= u64::MAX - *wire_bytes
            && m.packets_received < u64::MAX,
        InboundControl::Disconnected => true,
    }
}

/// A target after a message from its receiver. An acknowledged heartbeat
/// whose send time is known (`round_trip_ms`) sets the latency estimate to
/// half the round trip; a stop, an error or a disconnect fails the target.
pub open spec fn after_inbound(
    s: StreamTargetSnapshotView,
    event: InboundControl,
    round_trip_ms: Option<u64>,
) -> StreamTargetSnapshotView {
    match event {
        InboundControl::HeartbeatAck { wire_bytes, .. } => StreamTargetSnapshotView {
            metrics: StreamMetrics {
                bytes_received: (s.metrics.bytes_received + wire_bytes) as u64,
                packets_received: (s.metrics.packets_received + 1) as u64,
                keepalives_received: (s.metrics.keepalives_received + 1) as u64,
                latency_estimate_ms: match round_trip_ms {
                    Some(rtt) => Some(((rtt / 2) as u32)),
                    None => s.metrics.latency_estimate_ms,
                },
                ..s.metrics
            },
            ..s
        },
        InboundControl::Stop { reason, wire_bytes } => StreamTargetSnapshotView {
            metrics: StreamMetrics {
                bytes_received: (s.metrics.bytes_received + wire_bytes) as u64,
                packets_received: (s.metrics.packets_received + 1) as u64,
                ..s.metrics
            },
            last_error: Some("receiver requested stop: "@ + reason@),
            state: StreamSessionState::Error,
            health: StreamTargetHealth::Unreachable,
            ..s
        },
        InboundControl::Error { message, wire_bytes } => StreamTargetSnapshotView {
            metrics: StreamMetrics {
                bytes_received: (s.metrics.bytes_received + wire_bytes) as u64,
                packets_received: (s.metrics.packets_received + 1) as u64,
                ..s.metrics
            },
            last_error: Some(message@),
            state: StreamSessionState::Error,
            health: StreamTargetHealth::Error,
            ..s
        },
        InboundControl::Disconnected => StreamTargetSnapshotView {
            last_error: Some("receiver disconnected unexpectedly"@),
            state: StreamSessionState::Error,
            health: StreamTargetHealth::Unreachable,
            ..s
        },
    }
}

pub fn record_inbound(snapshot: &mut StreamTargetSnapshot, event: InboundControl, round_trip_ms: Option<u64>)
    requires
        inbound_fits(old(snapshot)@, event),
    ensures
        final(snapshot)@ == after_inbound(old(snapshot)@, event, round_trip_ms),
{
    match event {
        InboundControl::HeartbeatAck { wire_bytes, .. } => {
            snapshot.metrics.bytes_received = snapshot.metrics.bytes_received + wire_bytes;
            snapshot.metrics.packets_received = snapshot.metrics.packets_received + 1;
            snapshot.metrics.keepalives_received = snapshot.metrics.keepalives_received + 1;
            if let Some(rtt) = round_trip_ms {
                snapshot.metrics.latency_estimate_ms = Some((rtt / 2) as u32);
            }
        },
        InboundControl::Stop { reason, wire_bytes } => {
            snapshot.metrics.bytes_received = snapshot.metrics.bytes_received + wire_bytes;
            snapshot.metrics.packets_received = snapshot.metrics.packets_received + 1;
            let mut message = "receiver requested stop: ".to_owned();
            crate::text::append_str(&mut message, reason.as_str());
            set_target_error(snapshot, message, StreamTargetHealth::Unreachable);
        },
        InboundControl::Error { message, wire_bytes } => {
            snapshot.metrics.bytes_received = snapshot.metrics.bytes_received + wire_bytes;
            snapshot.metrics.packets_received = snapshot.metrics.packets_received + 1;
            set_target_error(snapshot, message, StreamTargetHealth::Error);
        },
        InboundControl::Disconnected => {
            set_target_error(
                snapshot,
                "receiver disconnected unexpectedly".to_owned(),
                StreamTargetHealth::Unreachable,
            );
        },
    }
}

/// Whether recording a writer report keeps every counter in range.
pub open spec fn network_event_fits(s: StreamTargetSnapshotView, event: NetworkEvent) -> bool {
    match event {
        NetworkEvent::AudioSent { wire_bytes } => counts_fit(s.metrics.bytes_sent, wire_bytes)
            && counts_fit(s.metrics.packets_sent, 1),
        NetworkEvent::HeartbeatSent { wire_bytes } => counts_fit(s.metrics.bytes_sent, wire_bytes)
            && counts_fit(s.metrics.keepalives_sent, 1),
        NetworkEvent::StopSent { wire_bytes } => counts_fit(s.metrics.bytes_sent, wire_bytes),
        NetworkEvent::Error(_) => true,
    }
}

/// Whether recording `event` keeps the target's counters in range.
pub fn network_event_fits_now(snapshot: &StreamTargetSnapshot, event: &NetworkEvent) -> (r: bool)
    ensures
        r == network_event_fits(snapshot@, *event),
{
    let m = &snapshot.metrics;
    match event {
        NetworkEvent::AudioSent { wire_bytes } => m.bytes_sent <= u64::MAX - *wire_bytes && m.packets_sent < u64::MAX,
        NetworkEvent::HeartbeatSent { wire_bytes } => m.bytes_sent <= u64::MAX - *wire_bytes
            && m.keepalives_sent < u64::MAX,
        NetworkEvent::StopSent { wire_bytes } => m.bytes_sent <= u64::MAX - *wire_bytes,
        NetworkEvent::Error(_) => true,
    }
}

/// A target after a writer report, `elapsed_ms` after its session started.
pub open spec fn after_network_event(
    s: StreamTargetSnapshotView,
    event: NetworkEvent,
    elapsed_ms: u64,
) -> StreamTargetSnapshotView {
    match event {
        NetworkEvent::AudioSent { wire_bytes } => StreamTargetSnapshotView {
            metrics: StreamMetrics {
                bytes_sent: (s.metrics.bytes_sent + wire_bytes) as u64,
                packets_sent: (s.metrics.packets_sent + 1) as u64,
                estimated_bitrate_bps: spec_bitrate_bps((s.metrics.bytes_sent + wire_bytes) as u64, elapsed_ms),
                ..s.metrics
            },
            ..s
        },
        NetworkEvent::HeartbeatSent { wire_bytes } => StreamTargetSnapshotView {
            metrics: StreamMetrics {
                bytes_sent: (s.metrics.bytes_sent + wire_bytes) as u64,
                keepalives_sent: (s.metrics.keepalives_sent + 1) as u64,
                ..s.metrics
            },
            ..s
        },
        NetworkEvent::StopSent { wire_bytes } => StreamTargetSnapshotView {
            metrics: StreamMetrics { bytes_sent: (s.metrics.bytes_sent + wire_bytes) as u64, ..s.metrics },
            ..s
        },
        NetworkEvent::Error(message) => StreamTargetSnapshotView {
            last_error: Some(message@),
            state: StreamSessionState::Error,
            health: StreamTargetHealth::Unreachable,
            ..s
        },
    }
}

pub fn record_network_event(snapshot: &mut StreamTargetSnapshot, event: NetworkEvent, elapsed_ms: u64)
    requires
        network_event_fits(old(snapshot)@, event),
    ensures
        final(snapshot)@ == after_network_event(old(snapshot)@, event, elapsed_ms),
{
    match event {
        NetworkEvent::AudioSent { wire_bytes } => {
            snapshot.metrics.bytes_sent = snapshot.metrics.bytes_sent + wire_bytes;
            snapshot.metrics.packets_sent = snapshot.metrics.packets_sent + 1;
            snapshot.metrics.estimated_bitrate_bps = bitrate_bps(snapshot.metrics.bytes_sent, elapsed_ms);
        },
        NetworkEvent::HeartbeatSent { wire_bytes } => {
            snapshot.metrics.bytes_sent = snapshot.metrics.bytes_sent + wire_bytes;
            snapshot.metrics.keepalives_sent = snapshot.metrics.keepalives_sent + 1;
        },
        NetworkEvent::StopSent { wire_bytes } => {
            snapshot.metrics.bytes_sent = snapshot.metrics.bytes_sent + wire_bytes;
        },
        NetworkEvent::Error(message) => {
            set_target_error(snapshot, message, StreamTargetHealth::Unreachable);
        },
    }
}

/// What the receiver-side transport shows of itself.
#[derive(Debug, Clone, PartialEq, Eq)]
pub struct ReceiverServerSnapshot {
    pub active: bool,
    pub bind_addr: SocketAddress,
    pub session_id: Option<String>,
    pub connected_peer: Option<SocketAddress>,
    pub last_error: Option<String>,
}

impl ReceiverServerSnapshot {
    /// An inactive server bound to nothing yet.
    pub fn new(bind_addr: SocketAddress) -> (r: Self)
        ensures
            !r.active,
            r.bind_addr == bind_addr,
            r.session_id is None,
            r.connected_peer is None,
            r.last_error is None,
    {
        ReceiverServerSnapshot {
            active: false,
            bind_addr,
            session_id: None,
            connected_peer: None,
            last_error: None,
        }
    }
}


/// Target `a` is listed before `b`: by name, then by identifier.
pub open spec fn target_precedes(a: StreamTargetSnapshotView, b: StreamTargetSnapshotView) -> bool {
    seq_lt(a.receiver_name, b.receiver_name) || (a.receiver_name == b.receiver_name && seq_lt(
        a.receiver_id,
        b.receiver_id,
    ))
}

pub open spec fn listed_after(t: StreamTargetSnapshotView) -> spec_fn(StreamTargetSnapshotView) -> bool {
    |e: StreamTargetSnapshotView| target_precedes(t, e)
}

/// `t` placed before the first target listed after it.
pub open spec fn insert_target(s: Seq<StreamTargetSnapshotView>, t: StreamTargetSnapshotView) -> Seq<StreamTargetSnapshotView> {
    if any_index(s, listed_after(t)) {
        s.insert(first_index(s, listed_after(t)), t)
    } else {
        s.push(t)
    }
}

/// Targets ordered by name and identifier, equal ones in their given order.
pub open spec fn ordered_targets(s: Seq<StreamTargetSnapshotView>) -> Seq<StreamTargetSnapshotView>
    decreases s.len(),
{
    if s.len() == 0 {
        s
    } else {
        insert_target(ordered_targets(s.drop_last()), s.last())
    }
}

pub open spec fn target_views(s: Seq<StreamTargetSnapshot>) -> Seq<StreamTargetSnapshotView> {
    s.map_values(|t: StreamTargetSnapshot| t@)
}

fn precedes(a: &StreamTargetSnapshot, b: &StreamTargetSnapshot) -> (r: bool)
    ensures
        r == target_precedes(a@, b@),
{
    let a_name = a.receiver_name.as_str();
    let b_name = b.receiver_name.as_str();
    str_lt(a_name, b_name) || (str_eq(a_name, b_name) && str_lt(
        a.receiver_id.as_str(),
        b.receiver_id.as_str(),
    ))
}

/// The targets as a session snapshot lists them: by name, then identifier.
pub fn sort_target_snapshots(targets: Vec<StreamTargetSnapshot>) -> (r: Vec<StreamTargetSnapshot>)
    ensures
        target_views(r@) == ordered_targets(target_views(targets@)),
{
    let ghost all = target_views(targets@);
    let mut sorted: Vec<StreamTargetSnapshot> = Vec::new();
    let mut i: usize = 0;
    while i < targets.len()
        invariant
            i <= targets@.len(),
            all == target_views(targets@),
            target_views(sorted@) == ordered_targets(all.subrange(0, i as int)),
        decreases targets@.len() - i,
    {
        let t = &targets[i];
        assert(all[i as int] == t@);
        let ghost current = target_views(sorted@);
        let mut pos: usize = 0;
        while pos < sorted.len() && !precedes(t, &sorted[pos])
            invariant
                pos <= sorted@.len(),
                current == target_views(sorted@),
                forall|j: int| 0 <= j < pos ==> !listed_after(t@)(#[trigger] current[j]),
            decreases sorted@.len() - pos,
        {
            assert(current[pos as int] == sorted@[pos as int]@);
            pos = pos + 1;
        }
        proof {
            assert(all.subrange(0, i + 1).drop_last() =~= all.subrange(0, i as int));
            if pos < sorted@.len() {
                assert(current[pos as int] == sorted@[pos as int]@);
                lemma_first_index_is(current, listed_after(t@), pos as int);
            } else {
                lemma_no_index(current, listed_after(t@));
            }
        }
        sorted.insert(pos, t.duplicate());
        assert(target_views(sorted@) =~= current.insert(pos as int, all[i as int]));
        i = i + 1;
    }
    assert(all.subrange(0, all.len() as int) =~= all);
    sorted
}

/// The mirror a sender session shows before it starts: local playback as
/// the capture settings ask, on the given output, through `backend`.
pub open spec fn seeded_mirror(
    local_monitoring: bool,
    target_id: Option<Seq<char>>,
    backend: Seq<char>,
) -> LocalMirrorSnapshotView {
    LocalMirrorSnapshotView {
        desired_enabled: local_monitoring,
        playback_target_id: target_id,
        state: if local_monitoring { LocalMirrorState::Idle } else { LocalMirrorState::Disabled },
        playback_backend: Some(backend),
        ..LocalMirrorSnapshot::spec_default()
    }
}

/// The snapshot a sender session publishes when it starts towards its first
/// target.
pub fn seeded_session_snapshot(
    session_id: &str,
    stream: ReceiverStreamConfig,
    local_monitoring: bool,
    local_playback_target_id: &Option<String>,
    playback_backend: &str,
    first_target: &SenderTarget,
) -> (r: StreamSessionSnapshot)
    ensures
        r@ == (StreamSessionSnapshotView {
            state: StreamSessionState::Connecting,
            session_id: Some(session_id@),
            stream: Some(stream),
            targets: seq![pending_snapshot_view(first_target@, 0)],
            local_mirror: seeded_mirror(local_monitoring, opt_string_view(*local_playback_target_id), playback_backend@),
            metrics: StreamMetrics::spec_default(),
            last_error: None,
        }),
{
    let mut snapshot = StreamSessionSnapshot::default();
    snapshot.session_id = Some(session_id.to_owned());
    snapshot.stream = Some(stream);
    snapshot.local_mirror.desired_enabled = local_monitoring;
    snapshot.local_mirror.playback_target_id = clone_opt_string(local_playback_target_id);
    snapshot.local_mirror.state = if local_monitoring {
        LocalMirrorState::Idle
    } else {
        LocalMirrorState::Disabled
    };
    snapshot.local_mirror.playback_backend = Some(playback_backend.to_owned());
    snapshot.targets.push(pending_target_snapshot(first_target, 0));
    snapshot.state = StreamSessionState::Connecting;
    assert(snapshot@.targets =~= seq![pending_snapshot_view(first_target@, 0)]);
    snapshot
}

/// A sender session after it stopped: idle, without targets, the mirror
/// settled with capture off.
pub fn stop_session_snapshot(snapshot: &mut StreamSessionSnapshot)
    ensures
        final(snapshot)@ == (StreamSessionSnapshotView {
            state: StreamSessionState::Idle,
            targets: Seq::empty(),
            local_mirror: LocalMirrorSnapshotView {
                state: settled_mirror_state(old(snapshot)@.local_mirror, false),
                ..old(snapshot)@.local_mirror
            },
            ..old(snapshot)@
        }),
{
    snapshot.state = StreamSessionState::Idle;
    snapshot.targets.clear();
    finalize_local_mirror_state(&mut snapshot.local_mirror, false);
    assert(snapshot@.targets =~= Seq::<StreamTargetSnapshotView>::empty());
}

} // verus!
