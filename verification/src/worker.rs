//! The receiver's playback scheduler: it buffers the packets of a connected
//! stream, anchors the sender's capture clock to the local clock, and decides
//! when each packet is due, late or missing.
//!
//! Playing audio is left to the caller: the worker says which packet to
//! write and is told how the write, or the start or stop of a playback
//! stream, went. Times are nanoseconds of a monotonic clock.

use vstd::prelude::*;
use crate::buffer::{BufferPushOutcome, BufferedPacket, ReceiverPacketBuffer, spec_audio_ms, sum_frames};
use crate::config::ReceiverConfig;
use crate::error::ReceiverError;
use crate::models::{clone_opt_string, opt_string_view};
use crate::receiver::{
    ReceiverAudioPacket, ReceiverBufferSnapshot, ReceiverConnectionInfo, ReceiverConnectionInfoView,
    ReceiverLatencyProfile, ReceiverMetrics, ReceiverServiceState, ReceiverSnapshot,
    ReceiverStreamConfig, ReceiverSyncSnapshot, ReceiverSyncState, opt_connection_view, spec_profile,
};

verus! {

pub const NANOS_PER_MILLI: u64 = 1_000_000;

/// The sender's media clock anchored to the local clock: the local time at
/// which the first packet of the current sync window arrived, and that
/// packet's capture time on the sender.
#[derive(Debug, Clone, Copy, PartialEq, Eq, Structural)]
pub struct SyncClock {
    pub anchor_local_ns: u64,
    pub anchor_sender_timestamp_ms: u64,
}

pub open spec fn sat_add(a: u64, b: u64) -> u64 {
    if a + b <= u64::MAX { (a + b) as u64 } else { u64::MAX }
}

pub open spec fn sat_sub(a: u64, b: u64) -> u64 {
    if a >= b { (a - b) as u64 } else { 0 }
}

pub open spec fn sat_mul(a: u64, b: u64) -> u64 {
    if a * b <= u64::MAX { (a * b) as u64 } else { u64::MAX }
}

/// When a packet captured at `sender_timestamp_ms` is due locally: its
/// offset from the anchor packet plus the target buffer, after the anchor.
pub open spec fn spec_write_deadline(clock: SyncClock, sender_timestamp_ms: u64, target_buffer_ms: u16) -> u64 {
    sat_add(
        clock.anchor_local_ns,
        sat_mul(sat_add(sat_sub(sender_timestamp_ms, clock.anchor_sender_timestamp_ms), target_buffer_ms as u64), NANOS_PER_MILLI),
    )
}

impl SyncClock {
    pub fn write_deadline(&self, sender_timestamp_ms: u64, target_buffer_ms: u16) -> (r: u64)
        ensures
            r == spec_write_deadline(*self, sender_timestamp_ms, target_buffer_ms),
    {
        let offset_ms = sender_timestamp_ms.saturating_sub(self.anchor_sender_timestamp_ms).saturating_add(
            target_buffer_ms as u64,
        );
        let offset_ns = match offset_ms.checked_mul(NANOS_PER_MILLI) {
            Some(v) => v,
            None => u64::MAX,
        };
        self.anchor_local_ns.saturating_add(offset_ns)
    }
}

/// How far `now` is past `deadline`, in whole milliseconds, negative when
/// early, capped at the range of `i32`.
pub open spec fn spec_signed_delta_ms(now_ns: u64, deadline_ns: u64) -> i32 {
    if now_ns >= deadline_ns {
        let ms = (now_ns - deadline_ns) / (NANOS_PER_MILLI as int);
        if ms > i32::MAX { i32::MAX } else { ms as i32 }
    } else {
        let ms = (deadline_ns - now_ns) / (NANOS_PER_MILLI as int);
        if ms > i32::MAX { -i32::MAX as i32 } else { (-ms) as i32 }
    }
}

pub fn signed_delta_ms(now_ns: u64, deadline_ns: u64) -> (r: i32)
    ensures
        r == spec_signed_delta_ms(now_ns, deadline_ns),
{
    if now_ns >= deadline_ns {
        let ms = (now_ns - deadline_ns) / NANOS_PER_MILLI;
        if ms > i32::MAX as u64 { i32::MAX } else { ms as i32 }
    } else {
        let ms = (deadline_ns - now_ns) / NANOS_PER_MILLI;
        if ms > i32::MAX as u64 { -i32::MAX } else { -(ms as i32) }
    }
}

pub open spec fn wrap_inc(x: u64) -> u64 {
    if x < u64::MAX { (x + 1) as u64 } else { 0 }
}

pub open spec fn wrap_add(x: u64, y: u64) -> u64 {
    if x + y <= u64::MAX { (x + y) as u64 } else { (x + y - u64::MAX - 1) as u64 }
}

fn inc(x: u64) -> (r: u64)
    ensures
        r == wrap_inc(x),
{
    x.wrapping_add(1)
}

fn add_wrapping(x: u64, y: u64) -> (r: u64)
    ensures
        r == wrap_add(x, y),
{
    if x <= u64::MAX - y { x + y } else { y - (u64::MAX - x) - 1 }
}

/// The buffer's fixed limits, as its snapshot reports them.
pub struct BufferLimits {
    pub sample_rate_hz: u32,
    pub target_buffer_ms: u32,
    pub max_buffer_ms: u32,
    pub start_threshold: usize,
    pub max_packets: usize,
}

pub open spec fn buffer_limits(b: ReceiverPacketBuffer) -> BufferLimits {
    BufferLimits {
        sample_rate_hz: b.spec_sample_rate_hz(),
        target_buffer_ms: b.spec_target_buffer_ms(),
        max_buffer_ms: b.spec_max_buffer_ms(),
        start_threshold: b.spec_start_threshold(),
        max_packets: b.spec_max_packets(),
    }
}

/// The limits of a fresh buffer for a profile and a stream shape.
pub open spec fn limits_for(profile: ReceiverLatencyProfile, stream: ReceiverStreamConfig) -> BufferLimits {
    let limits = profile.spec_buffer_packet_limits(stream);
    let start = if limits.0 > 1 { limits.0 } else { 1 };
    BufferLimits {
        sample_rate_hz: stream.sample_rate_hz,
        target_buffer_ms: profile.target_buffer_ms as u32,
        max_buffer_ms: (if profile.max_buffer_ms > profile.target_buffer_ms {
            profile.max_buffer_ms
        } else {
            profile.target_buffer_ms
        }) as u32,
        start_threshold: start,
        max_packets: if limits.1 > start { limits.1 } else { start },
    }
}

/// What the worker holds, as plain values.
pub struct WorkerView {
    pub playback_target_id: Option<Seq<char>>,
    pub profile: ReceiverLatencyProfile,
    pub queue: Seq<BufferedPacket>,
    pub limits: BufferLimits,
    pub metrics: ReceiverMetrics,
    pub sync: ReceiverSyncSnapshot,
    pub sync_clock: Option<SyncClock>,
    pub connection: Option<ReceiverConnectionInfoView>,
    pub state: ReceiverServiceState,
    pub next_deadline_ns: Option<u64>,
    pub last_activity_ns: Option<u64>,
    pub last_error: Option<Seq<char>>,
    pub sink_attached: bool,
}

/// Audio time queued, in milliseconds.
pub open spec fn queued_ms(w: WorkerView) -> u32 {
    spec_audio_ms(sum_frames(w.queue) as u64, w.limits.sample_rate_hz)
}

/// Enough packets and enough audio queued to start playing.
pub open spec fn ready(w: WorkerView) -> bool {
    w.queue.len() >= w.limits.start_threshold && queued_ms(w) >= (if w.limits.target_buffer_ms > 1 {
        w.limits.target_buffer_ms
    } else {
        1
    })
}

/// The buffer snapshot the worker reports.
pub open spec fn buffer_snapshot(w: WorkerView) -> ReceiverBufferSnapshot {
    ReceiverBufferSnapshot {
        queued_packets: w.queue.len() as u32,
        queued_frames: sum_frames(w.queue) as u64,
        queued_audio_ms: queued_ms(w),
        target_buffer_ms: w.limits.target_buffer_ms,
        max_buffer_ms: w.limits.max_buffer_ms,
        start_threshold_packets: w.limits.start_threshold as u32,
        max_packets: w.limits.max_packets as u32,
    }
}

pub open spec fn fill(w: WorkerView) -> u8 {
    buffer_snapshot(w).spec_fill_percent()
}

/// The sync figures follow the queued audio.
pub open spec fn refreshed(w: WorkerView) -> WorkerView {
    WorkerView {
        sync: ReceiverSyncSnapshot {
            queued_audio_ms: queued_ms(w),
            buffer_delta_ms: (queued_ms(w) as int - w.sync.target_buffer_ms as int) as i32,
            ..w.sync
        },
        ..w
    }
}

/// A new sync window: no anchor, no deadline, no sender timestamps; counted
/// as a resync when `count_reset`.
pub open spec fn reset_timeline(w: WorkerView, count_reset: bool) -> WorkerView {
    WorkerView {
        sync_clock: None,
        next_deadline_ns: None,
        sync: ReceiverSyncSnapshot {
            schedule_error_ms: 0,
            last_sender_timestamp_ms: None,
            last_sender_capture_unix_ms: None,
            sync_resets: if count_reset { wrap_inc(w.sync.sync_resets) } else { w.sync.sync_resets },
            ..w.sync
        },
        ..w
    }
}

/// The worker after an error: the stream dropped, the buffer emptied, the
/// sync restarted and marked recovering, the error kept.
pub open spec fn errored(w: WorkerView, message: Seq<char>) -> WorkerView {
    WorkerView {
        sink_attached: false,
        connection: None,
        queue: Seq::empty(),
        sync_clock: None,
        next_deadline_ns: None,
        sync: ReceiverSyncSnapshot {
            state: ReceiverSyncState::Recovering,
            ..ReceiverSyncSnapshot::spec_from_profile(w.profile)
        },
        last_activity_ns: None,
        state: ReceiverServiceState::Error,
        last_error: Some(message),
        metrics: ReceiverMetrics { buffer_fill_percent: 0, ..w.metrics },
        ..w
    }
}

/// The worker after the sender went away: listening again, a reconnect
/// counted and the reason kept when one is suggested.
pub open spec fn disconnected(w: WorkerView, reason: Seq<char>, reconnect_suggested: bool) -> WorkerView {
    WorkerView {
        metrics: ReceiverMetrics {
            reconnect_attempts: if reconnect_suggested {
                wrap_inc(w.metrics.reconnect_attempts)
            } else {
                w.metrics.reconnect_attempts
            },
            buffer_fill_percent: 0,
            ..w.metrics
        },
        sink_attached: false,
        connection: None,
        queue: Seq::empty(),
        sync_clock: None,
        next_deadline_ns: None,
        sync: ReceiverSyncSnapshot::spec_from_profile(w.profile),
        last_activity_ns: None,
        state: ReceiverServiceState::Listening,
        last_error: if reconnect_suggested { Some(reason) } else { None },
        ..w
    }
}

/// The worker with a fresh buffer for `connection`'s stream and a primed
/// sync, before its playback stream is known to have started.
pub open spec fn primed_for(w: WorkerView, connection: ReceiverConnectionInfoView) -> WorkerView {
    WorkerView {
        sink_attached: false,
        queue: Seq::empty(),
        limits: limits_for(w.profile, connection.stream),
        sync_clock: None,
        next_deadline_ns: None,
        sync: ReceiverSyncSnapshot {
            state: ReceiverSyncState::Priming,
            requested_latency_ms: Some(connection.requested_latency_ms),
            ..ReceiverSyncSnapshot::spec_from_profile(w.profile)
        },
        ..w
    }
}

/// The worker after a sender connected, given whether its playback stream
/// started.
pub open spec fn connected(
    w: WorkerView,
    connection: ReceiverConnectionInfoView,
    now_ns: u64,
    started: Result<(), Seq<char>>,
) -> WorkerView {
    let primed = primed_for(w, connection);
    match started {
        Ok(_) => WorkerView {
            sink_attached: true,
            connection: Some(connection),
            state: ReceiverServiceState::Connected,
            last_activity_ns: Some(now_ns),
            last_error: None,
            ..primed
        },
        Err(message) => errored(primed, message),
    }
}

/// Why a packet does not fit the stream, if it does not.
pub open spec fn packet_shape_error(stream: ReceiverStreamConfig, payload_len: nat) -> Option<Seq<char>> {
    if stream.spec_bytes_per_frame() == 0 {
        Some("stream bytes_per_frame cannot be zero"@)
    } else if payload_len % stream.spec_bytes_per_frame() != 0 {
        Some(
            "packet payload size "@ + crate::text::decimal(payload_len) + " is not divisible by bytes_per_frame "@
                + crate::text::decimal(stream.spec_bytes_per_frame()),
        )
    } else {
        None
    }
}

/// The worker once a well-formed packet is queued and counted.
pub open spec fn queued_packet(w: WorkerView, packet: ReceiverAudioPacket, frames: u32, now_ns: u64) -> WorkerView {
    let full = w.queue.len() == w.limits.max_packets;
    let kept = if full { w.queue.subrange(1, w.queue.len() as int) } else { w.queue };
    let queued = WorkerView { queue: kept.push(BufferedPacket { packet, frame_count: frames }), ..w };
    refreshed(WorkerView {
        metrics: ReceiverMetrics {
            overruns: if full { wrap_inc(w.metrics.overruns) } else { w.metrics.overruns },
            packets_received: wrap_inc(w.metrics.packets_received),
            frames_received: wrap_add(w.metrics.frames_received, frames as u64),
            bytes_received: wrap_add(w.metrics.bytes_received, packet.payload@.len() as u64),
            buffer_fill_percent: fill(queued),
            ..w.metrics
        },
        last_activity_ns: Some(now_ns),
        ..queued
    })
}

/// The playback state after a packet is queued: a ready buffer heads for
/// playback at the first packet's deadline; an unready one keeps a connected
/// stream buffering.
pub open spec fn after_queueing(w: WorkerView) -> WorkerView {
    if ready(w) {
        WorkerView {
            state: if w.state != ReceiverServiceState::Playing {
                ReceiverServiceState::Buffering
            } else {
                w.state
            },
            next_deadline_ns: if w.next_deadline_ns is None {
                Some(spec_write_deadline(w.sync_clock->0, w.queue[0].packet.captured_at_ms, w.profile.target_buffer_ms))
            } else {
                w.next_deadline_ns
            },
            sync: ReceiverSyncSnapshot {
                state: if w.sync.state == ReceiverSyncState::Idle || w.sync.state == ReceiverSyncState::Priming
                    || w.sync.state == ReceiverSyncState::Recovering {
                    ReceiverSyncState::Priming
                } else {
                    w.sync.state
                },
                ..w.sync
            },
            ..w
        }
    } else if w.state == ReceiverServiceState::Connected || w.state == ReceiverServiceState::Buffering {
        WorkerView {
            state: ReceiverServiceState::Buffering,
            sync: ReceiverSyncSnapshot {
                state: if w.sync.state != ReceiverSyncState::Recovering {
                    ReceiverSyncState::Priming
                } else {
                    w.sync.state
                },
                ..w.sync
            },
            ..w
        }
    } else {
        w
    }
}

/// The worker after a packet arrived at `now_ns`. Without a stream it is
/// ignored; the first packet of a sync window anchors the clock; a packet
/// that does not split into whole frames is an error.
pub open spec fn after_packet(w: WorkerView, packet: ReceiverAudioPacket, now_ns: u64) -> WorkerView {
    match w.connection {
        None => w,
        Some(connection) => {
            let stamped = WorkerView {
                sync_clock: if w.sync_clock is None {
                    Some(SyncClock { anchor_local_ns: now_ns, anchor_sender_timestamp_ms: packet.captured_at_ms })
                } else {
                    w.sync_clock
                },
                sync: ReceiverSyncSnapshot {
                    last_sender_timestamp_ms: Some(packet.captured_at_ms),
                    last_sender_capture_unix_ms: Some(packet.captured_at_unix_ms),
                    ..w.sync
                },
                ..w
            };
            match packet_shape_error(connection.stream, packet.payload@.len()) {
                Some(message) => errored(stamped, message),
                None => after_queueing(
                    queued_packet(
                        stamped,
                        packet,
                        (packet.payload@.len() / connection.stream.spec_bytes_per_frame()) as u32,
                        now_ns,
                    ),
                ),
            }
        },
    }
}

/// How the caller's attempt to restart playback on a new output went.
#[derive(Debug, Clone, PartialEq, Eq)]
pub enum SinkSwap {
    /// No stream is connected, so nothing was restarted.
    NotAttempted,
    /// The new output plays; stopping the old one failed with the message,
    /// if it did.
    Started { previous_stop_error: Option<String> },
    /// The new output could not start; the old one keeps playing.
    Failed(String),
}

pub open spec fn after_target_change(w: WorkerView, target_id: Option<Seq<char>>, swap: SinkSwap) -> WorkerView {
    let base = WorkerView {
        playback_target_id: target_id,
        last_error: None,
        state: if w.state == ReceiverServiceState::Error && w.connection is None {
            ReceiverServiceState::Listening
        } else {
            w.state
        },
        ..w
    };
    if base.connection is None {
        base
    } else {
        match swap {
            SinkSwap::NotAttempted => base,
            SinkSwap::Started { previous_stop_error } => WorkerView {
                last_error: opt_string_view(previous_stop_error),
                sink_attached: true,
                state: if base.state == ReceiverServiceState::Connected {
                    ReceiverServiceState::Buffering
                } else {
                    base.state
                },
                ..base
            },
            SinkSwap::Failed(message) => WorkerView { last_error: Some(message@), ..base },
        }
    }
}

/// Whether a drain may write: a stream with an anchored clock whose buffer
/// is ready or whose next packet already has a deadline. Otherwise the
/// state shows buffering.
pub open spec fn drain_may_start(w: WorkerView) -> bool {
    w.connection is Some && w.sync_clock is Some && (w.next_deadline_ns is Some || ready(w))
}

pub open spec fn before_drain(w: WorkerView) -> WorkerView {
    if w.connection is None {
        w
    } else if w.sync_clock is None {
        WorkerView {
            state: if w.state == ReceiverServiceState::Connected {
                ReceiverServiceState::Buffering
            } else {
                w.state
            },
            ..w
        }
    } else if w.next_deadline_ns is None && !ready(w) {
        WorkerView {
            state: if w.state != ReceiverServiceState::Playing {
                ReceiverServiceState::Buffering
            } else {
                w.state
            },
            sync: ReceiverSyncSnapshot {
                state: if w.sync.state != ReceiverSyncState::Recovering {
                    ReceiverSyncState::Priming
                } else {
                    w.sync.state
                },
                schedule_error_ms: 0,
                ..w.sync
            },
            ..w
        }
    } else {
        w
    }
}

/// One turn of the playback loop.
#[derive(Debug, Clone, PartialEq, Eq)]
pub enum DrainStep {
    /// Nothing more to write now.
    Wait,
    /// A stale packet was dropped; take another turn.
    Continue,
    /// Write this packet to the playback stream, then report how it went.
    Write(BufferedPacket),
}

/// The worker after one turn of the playback loop at `now_ns`, and what the
/// turn asks of the caller.
pub open spec fn drain_turn(w: WorkerView, now_ns: u64) -> (WorkerView, DrainStep) {
    if w.queue.len() == 0 {
        if w.state == ReceiverServiceState::Playing {
            let reset = reset_timeline(WorkerView {
                metrics: ReceiverMetrics {
                    underruns: wrap_inc(w.metrics.underruns),
                    buffer_fill_percent: fill(w),
                    ..w.metrics
                },
                state: ReceiverServiceState::Buffering,
                ..w
            }, true);
            (WorkerView { sync: ReceiverSyncSnapshot { state: ReceiverSyncState::Recovering, ..reset.sync }, ..reset }, DrainStep::Wait)
        } else {
            (w, DrainStep::Wait)
        }
    } else if w.sync_clock is None {
        (w, DrainStep::Wait)
    } else {
        let deadline = spec_write_deadline(w.sync_clock->0, w.queue[0].packet.captured_at_ms, w.profile.target_buffer_ms);
        let lateness = spec_signed_delta_ms(now_ns, deadline);
        let timed = WorkerView {
            next_deadline_ns: Some(deadline),
            sync: ReceiverSyncSnapshot { schedule_error_ms: lateness, ..w.sync },
            ..w
        };
        if lateness > w.profile.late_packet_drop_ms as i32 {
            let popped = WorkerView { queue: timed.queue.subrange(1, timed.queue.len() as int), ..timed };
            let dropped = refreshed(WorkerView {
                sync: ReceiverSyncSnapshot {
                    late_packet_drops: wrap_inc(timed.sync.late_packet_drops),
                    state: ReceiverSyncState::Late,
                    ..timed.sync
                },
                metrics: ReceiverMetrics { buffer_fill_percent: fill(popped), ..timed.metrics },
                ..popped
            });
            if dropped.queue.len() == 0 {
                let reset = reset_timeline(dropped, true);
                (WorkerView { sync: ReceiverSyncSnapshot { state: ReceiverSyncState::Recovering, ..reset.sync }, ..reset }, DrainStep::Wait)
            } else {
                (dropped, DrainStep::Continue)
            }
        } else if now_ns < deadline {
            (WorkerView {
                state: if timed.state != ReceiverServiceState::Playing {
                    ReceiverServiceState::Buffering
                } else {
                    timed.state
                },
                ..timed
            }, DrainStep::Wait)
        } else {
            let popped = WorkerView { queue: timed.queue.subrange(1, timed.queue.len() as int), ..timed };
            if !timed.sink_attached {
                (errored(popped, "playback sink disappeared during active stream"@), DrainStep::Wait)
            } else {
                (popped, DrainStep::Write(timed.queue[0]))
            }
        }
    }
}

/// The worker after a packet was handed to the playback stream.
pub open spec fn after_write(w: WorkerView, packet: BufferedPacket, written: Result<(), Seq<char>>) -> WorkerView {
    match written {
        Err(message) => errored(w, message),
        Ok(_) => refreshed(WorkerView {
            metrics: ReceiverMetrics {
                packets_played: wrap_inc(w.metrics.packets_played),
                frames_played: wrap_add(w.metrics.frames_played, packet.frame_count as u64),
                bytes_played: wrap_add(w.metrics.bytes_played, packet.packet.payload@.len() as u64),
                buffer_fill_percent: fill(w),
                ..w.metrics
            },
            state: ReceiverServiceState::Playing,
            sync: ReceiverSyncSnapshot {
                state: if w.sync.schedule_error_ms > w.profile.latency_tolerance_ms as i32 {
                    ReceiverSyncState::Late
                } else {
                    ReceiverSyncState::Locked
                },
                ..w.sync
            },
            next_deadline_ns: None,
            ..w
        }),
    }
}

/// Whether the sender has been silent for the grace period at `now_ns`.
pub open spec fn transport_timed_out(w: WorkerView, now_ns: u64) -> bool {
    match w.last_activity_ns {
        Some(t) => w.connection is Some && sat_sub(now_ns, t) >= sat_mul(w.profile.reconnect_grace_period_ms, NANOS_PER_MILLI),
        None => false,
    }
}

/// The end of a scheduler tick: a silent sender is dropped, the sync figures
/// follow the buffer.
pub open spec fn end_of_tick(w: WorkerView, now_ns: u64) -> WorkerView {
    refreshed(if transport_timed_out(w, now_ns) {
        disconnected(w, "receiver transport timed out"@, true)
    } else {
        w
    })
}

pub open spec fn min_u64(a: u64, b: u64) -> u64 {
    if a < b { a } else { b }
}

/// How long the scheduler may sleep: at most 200 ms, no longer than until the
/// next deadline or the end of the grace period, and at least 5 ms.
pub open spec fn wait_ns(w: WorkerView, now_ns: u64) -> u64 {
    let base: u64 = 200_000_000;
    let until_deadline = match w.next_deadline_ns {
        Some(d) => min_u64(base, sat_sub(d, now_ns)),
        None => base,
    };
    let until_timeout = match w.last_activity_ns {
        Some(t) => min_u64(
            until_deadline,
            sat_sub(sat_mul(w.profile.reconnect_grace_period_ms, NANOS_PER_MILLI), sat_sub(now_ns, t)),
        ),
        None => until_deadline,
    };
    if until_timeout > 5_000_000 { until_timeout } else { 5_000_000 }
}

/// The worker after shutting down, stopping its playback stream with the
/// given failure, if any.
pub open spec fn shut_down(w: WorkerView, stop_error: Option<Seq<char>>) -> WorkerView {
    WorkerView {
        last_error: match stop_error {
            Some(e) => Some(e),
            None => w.last_error,
        },
        sink_attached: false,
        queue: Seq::empty(),
        connection: None,
        state: ReceiverServiceState::Idle,
        metrics: ReceiverMetrics { buffer_fill_percent: 0, ..w.metrics },
        sync_clock: None,
        next_deadline_ns: None,
        sync: ReceiverSyncSnapshot::spec_from_profile(w.profile),
        ..w
    }
}

/// The receiver snapshot that shows the worker.
pub open spec fn published(snapshot: crate::receiver::ReceiverSnapshotView, w: WorkerView) -> crate::receiver::ReceiverSnapshotView {
    crate::receiver::ReceiverSnapshotView {
        state: w.state,
        connection: w.connection,
        buffer: buffer_snapshot(w),
        sync: w.sync,
        metrics: ReceiverMetrics { buffer_fill_percent: fill(w), ..w.metrics },
        last_error: w.last_error,
        ..snapshot
    }
}

/// The receiver's playback scheduler.
pub struct ReceiverWorker {
    pub playback_target_id: Option<String>,
    pub buffer: ReceiverPacketBuffer,
    pub buffer_profile: ReceiverLatencyProfile,
    pub metrics: ReceiverMetrics,
    pub sync: ReceiverSyncSnapshot,
    pub sync_clock: Option<SyncClock>,
    pub connection: Option<ReceiverConnectionInfo>,
    pub state: ReceiverServiceState,
    pub next_playback_deadline_ns: Option<u64>,
    pub last_transport_activity_ns: Option<u64>,
    pub last_error: Option<String>,
    pub sink_attached: bool,
}

impl View for ReceiverWorker {
    type V = WorkerView;

    open spec fn view(&self) -> WorkerView {
        WorkerView {
            playback_target_id: opt_string_view(self.playback_target_id),
            profile: self.buffer_profile,
            queue: self.buffer.contents(),
            limits: buffer_limits(self.buffer),
            metrics: self.metrics,
            sync: self.sync,
            sync_clock: self.sync_clock,
            connection: opt_connection_view(self.connection),
            state: self.state,
            next_deadline_ns: self.next_playback_deadline_ns,
            last_activity_ns: self.last_transport_activity_ns,
            last_error: opt_string_view(self.last_error),
            sink_attached: self.sink_attached,
        }
    }
}

impl ReceiverWorker {
    pub open spec fn wf(&self) -> bool {
        self.buffer.wf()
    }

    /// A listening worker for a receiver configuration.
    pub fn new(config: &ReceiverConfig) -> (r: Self)
        ensures
            r.wf(),
            r@ == (WorkerView {
                playback_target_id: config@.playback_target_id,
                profile: spec_profile(config.latency_preset),
                queue: Seq::empty(),
                limits: limits_for(spec_profile(config.latency_preset), ReceiverStreamConfig::spec_default()),
                metrics: ReceiverMetrics::spec_default(),
                sync: ReceiverSyncSnapshot::spec_from_profile(spec_profile(config.latency_preset)),
                sync_clock: None,
                connection: None,
                state: ReceiverServiceState::Listening,
                next_deadline_ns: None,
                last_activity_ns: None,
                last_error: None,
                sink_attached: false,
            }),
    {
        let profile = config.latency_preset.profile();
        let buffer = ReceiverPacketBuffer::new(profile, &ReceiverStreamConfig::default());
        let r = ReceiverWorker {
            playback_target_id: clone_opt_string(&config.playback_target_id),
            buffer,
            buffer_profile: profile,
            metrics: ReceiverMetrics::default(),
            sync: ReceiverSyncSnapshot::from_profile(profile),
            sync_clock: None,
            connection: None,
            state: ReceiverServiceState::Listening,
            next_playback_deadline_ns: None,
            last_transport_activity_ns: None,
            last_error: None,
            sink_attached: false,
        };
        assert(r@.queue =~= Seq::<BufferedPacket>::empty());
        r
    }

    fn reset_sync_timeline(&mut self, count_reset: bool)
        ensures
            final(self)@ == reset_timeline(old(self)@, count_reset),
            final(self).buffer == old(self).buffer,
    {
        self.sync_clock = None;
        self.next_playback_deadline_ns = None;
        self.sync.schedule_error_ms = 0;
        self.sync.last_sender_timestamp_ms = None;
        self.sync.last_sender_capture_unix_ms = None;
        if count_reset {
            self.sync.sync_resets = inc(self.sync.sync_resets);
        }
    }

    fn refresh_sync_buffer_metrics(&mut self)
        requires
            old(self).wf(),
        ensures
            final(self)@ == refreshed(old(self)@),
            final(self).buffer == old(self).buffer,
    {
        let snapshot = self.buffer.snapshot();
        self.sync.queued_audio_ms = snapshot.queued_audio_ms;
        #[verifier::truncate]
        let delta = ((snapshot.queued_audio_ms as i64) - (self.sync.target_buffer_ms as i64)) as i32;
        self.sync.buffer_delta_ms = delta;
    }

    /// Enters the error state with `message`.
    pub fn set_error(&mut self, message: String)
        requires
            old(self).wf(),
        ensures
            final(self).wf(),
            final(self)@ == errored(old(self)@, message@),
    {
        self.sink_attached = false;
        self.connection = None;
        self.buffer.clear();
        self.reset_sync_timeline(false);
        self.sync = ReceiverSyncSnapshot::from_profile(self.buffer_profile);
        self.last_transport_activity_ns = None;
        self.state = ReceiverServiceState::Error;
        self.last_error = Some(message);
        self.metrics.buffer_fill_percent = 0;
        self.sync.state = ReceiverSyncState::Recovering;
        assert(self@.queue =~= Seq::<BufferedPacket>::empty());
    }

    /// The sender went away, for `reason`.
    pub fn handle_disconnect(&mut self, reason: &str, reconnect_suggested: bool)
        requires
            old(self).wf(),
        ensures
            final(self).wf(),
            final(self)@ == disconnected(old(self)@, reason@, reconnect_suggested),
    {
        if reconnect_suggested {
            self.metrics.reconnect_attempts = inc(self.metrics.reconnect_attempts);
        }
        self.sink_attached = false;
        self.connection = None;
        self.buffer.clear();
        self.reset_sync_timeline(false);
        self.sync = ReceiverSyncSnapshot::from_profile(self.buffer_profile);
        self.last_transport_activity_ns = None;
        self.state = ReceiverServiceState::Listening;
        self.metrics.buffer_fill_percent = 0;
        self.last_error = if reconnect_suggested {
            Some(reason.to_owned())
        } else {
            None
        };
        assert(self@.queue =~= Seq::<BufferedPacket>::empty());
    }

    /// Traffic from the sender that carries no audio.
    pub fn handle_keepalive(&mut self, now_ns: u64)
        ensures
            final(self)@ == (WorkerView { last_activity_ns: Some(now_ns), ..old(self)@ }),
            final(self).buffer == old(self).buffer,
    {
        self.last_transport_activity_ns = Some(now_ns);
    }

    /// The request a playback stream for `stream` is started with.
    pub fn playback_request(&self, stream: ReceiverStreamConfig) -> (r: crate::playback::PlaybackStartRequest)
        ensures
            r@ == (crate::playback::PlaybackStartRequestView {
                stream,
                target_id: self@.playback_target_id,
                latency_ms: self.buffer_profile.playback_latency_ms,
            }),
    {
        crate::playback::PlaybackStartRequest::new(
            stream,
            &self.playback_target_id,
            self.buffer_profile.playback_latency_ms,
        )
    }

    /// A sender connected; `started` says whether the caller started the
    /// playback stream (with `playback_request(connection.stream)`) after
    /// stopping any previous one.
    pub fn handle_connect(&mut self, connection: ReceiverConnectionInfo, now_ns: u64, started: Result<(), String>)
        requires
            old(self).wf(),
        ensures
            final(self).wf(),
            final(self)@ == connected(
                old(self)@,
                connection@,
                now_ns,
                match started {
                    Ok(_) => Ok(()),
                    Err(m) => Err(m@),
                },
            ),
    {
        self.sink_attached = false;
        self.buffer = ReceiverPacketBuffer::new(self.buffer_profile, &connection.stream);
        self.reset_sync_timeline(false);
        self.sync = ReceiverSyncSnapshot::from_profile(self.buffer_profile);
        self.sync.state = ReceiverSyncState::Priming;
        self.sync.requested_latency_ms = Some(connection.requested_latency_ms);
        assert(self@.queue =~= Seq::<BufferedPacket>::empty());
        match started {
            Ok(()) => {
                self.sink_attached = true;
                self.connection = Some(connection);
                self.state = ReceiverServiceState::Connected;
                self.last_transport_activity_ns = Some(now_ns);
                self.last_error = None;
            },
            Err(message) => {
                self.connection = None;
                self.set_error(message);
            },
        }
    }

    /// A packet of the connected stream arrived at `now_ns`.
    pub fn handle_packet(&mut self, packet: ReceiverAudioPacket, now_ns: u64)
        requires
            old(self).wf(),
            old(self).buffer.spec_queued_frames() + packet.payload@.len() <= u64::MAX,
        ensures
            final(self).wf(),
            final(self)@ == after_packet(old(self)@, packet, now_ns),
    {
        let stream = match &self.connection {
            Some(connection) => connection.stream,
            None => return,
        };
        if self.sync_clock.is_none() {
            self.sync_clock = Some(SyncClock { anchor_local_ns: now_ns, anchor_sender_timestamp_ms: packet.captured_at_ms });
        }
        self.sync.last_sender_timestamp_ms = Some(packet.captured_at_ms);
        self.sync.last_sender_capture_unix_ms = Some(packet.captured_at_unix_ms);
        let payload_len = packet.payload.len() as u64;
        let bytes_per_frame = stream.bytes_per_frame();
        let frames: u32 = if bytes_per_frame == 0 { 0 } else { (packet.payload.len() / bytes_per_frame) as u32 };
        let ghost stamped = self@;
        let outcome = match self.buffer.push(packet, &stream) {
            Ok(outcome) => outcome,
            Err(ReceiverError::InvalidTransport(message)) => {
                self.set_error(message);
                return;
            },
            Err(_) => {
                // `push` reports a malformed packet only as invalid transport data.
                return;
            },
        };
        let ghost queued = self@;
        if let BufferPushOutcome::DroppedOldest { .. } = outcome {
            self.metrics.overruns = inc(self.metrics.overruns);
        }
        self.metrics.packets_received = inc(self.metrics.packets_received);
        self.metrics.frames_received = add_wrapping(self.metrics.frames_received, frames as u64);
        self.metrics.bytes_received = add_wrapping(self.metrics.bytes_received, payload_len);
        self.metrics.buffer_fill_percent = self.buffer.snapshot().fill_percent();
        assert(self.buffer.spec_snapshot() == buffer_snapshot(queued));
        self.last_transport_activity_ns = Some(now_ns);
        self.refresh_sync_buffer_metrics();
        assert(self@ == queued_packet(stamped, packet, frames, now_ns));
        if self.buffer.is_ready() {
            if self.state != ReceiverServiceState::Playing {
                self.state = ReceiverServiceState::Buffering;
            }
            if self.next_playback_deadline_ns.is_none() {
                self.next_playback_deadline_ns = match (self.buffer.front(), &self.sync_clock) {
                    (Some(front), Some(clock)) => Some(
                        clock.write_deadline(front.packet.captured_at_ms, self.buffer_profile.target_buffer_ms),
                    ),
                    _ => None,
                };
            }
            if self.sync.state == ReceiverSyncState::Idle || self.sync.state == ReceiverSyncState::Priming
                || self.sync.state == ReceiverSyncState::Recovering {
                self.sync.state = ReceiverSyncState::Priming;
            }
        } else if self.state == ReceiverServiceState::Connected || self.state == ReceiverServiceState::Buffering {
            self.state = ReceiverServiceState::Buffering;
            if self.sync.state != ReceiverSyncState::Recovering {
                self.sync.state = ReceiverSyncState::Priming;
            }
        }
    }

    /// The playback output changed; `swap` says how the caller's restart of
    /// a connected stream on the new output went.
    pub fn handle_playback_target_change(&mut self, target_id: Option<String>, swap: SinkSwap)
        requires
            old(self).wf(),
        ensures
            final(self).wf(),
            final(self)@ == after_target_change(old(self)@, opt_string_view(target_id), swap),
    {
        self.playback_target_id = target_id;
        self.last_error = None;
        if self.state == ReceiverServiceState::Error && self.connection.is_none() {
            self.state = ReceiverServiceState::Listening;
        }
        if self.connection.is_some() {
            match swap {
                SinkSwap::NotAttempted => {},
                SinkSwap::Started { previous_stop_error } => {
                    self.last_error = previous_stop_error;
                    self.sink_attached = true;
                    if self.state == ReceiverServiceState::Connected {
                        self.state = ReceiverServiceState::Buffering;
                    }
                },
                SinkSwap::Failed(message) => {
                    self.last_error = Some(message);
                },
            }
        }
    }

    /// The checks before a playback loop; `true` when the loop may run.
    pub fn drain_begin(&mut self) -> (r: bool)
        requires
            old(self).wf(),
        ensures
            final(self).wf(),
            r == drain_may_start(old(self)@),
            final(self)@ == before_drain(old(self)@),
    {
        if self.connection.is_none() {
            return false;
        }
        if self.sync_clock.is_none() {
            if self.state == ReceiverServiceState::Connected {
                self.state = ReceiverServiceState::Buffering;
            }
            return false;
        }
        if self.next_playback_deadline_ns.is_none() && !self.buffer.is_ready() {
            if self.state != ReceiverServiceState::Playing {
                self.state = ReceiverServiceState::Buffering;
            }
            if self.sync.state != ReceiverSyncState::Recovering {
                self.sync.state = ReceiverSyncState::Priming;
            }
            self.sync.schedule_error_ms = 0;
            return false;
        }
        true
    }

    /// One turn of the playback loop at `now_ns`.
    pub fn drain_step(&mut self, now_ns: u64) -> (r: DrainStep)
        requires
            old(self).wf(),
        ensures
            final(self).wf(),
            (final(self)@, r) == drain_turn(old(self)@, now_ns),
    {
        let (front_timestamp, clock) = match (self.buffer.front(), &self.sync_clock) {
            (None, _) => {
                if self.state == ReceiverServiceState::Playing {
                    self.metrics.underruns = inc(self.metrics.underruns);
                    self.state = ReceiverServiceState::Buffering;
                    self.metrics.buffer_fill_percent = self.buffer.snapshot().fill_percent();
                    self.reset_sync_timeline(true);
                    self.sync.state = ReceiverSyncState::Recovering;
                }
                return DrainStep::Wait;
            },
            (Some(_), None) => return DrainStep::Wait,
            (Some(front), Some(clock)) => (front.packet.captured_at_ms, *clock),
        };
        let deadline = clock.write_deadline(front_timestamp, self.buffer_profile.target_buffer_ms);
        self.next_playback_deadline_ns = Some(deadline);
        let lateness = signed_delta_ms(now_ns, deadline);
        self.sync.schedule_error_ms = lateness;
        if lateness > self.buffer_profile.late_packet_drop_ms as i32 {
            let _dropped = self.buffer.pop();
            self.sync.late_packet_drops = inc(self.sync.late_packet_drops);
            self.sync.state = ReceiverSyncState::Late;
            self.metrics.buffer_fill_percent = self.buffer.snapshot().fill_percent();
            self.refresh_sync_buffer_metrics();
            if self.buffer.len() == 0 {
                self.reset_sync_timeline(true);
                self.sync.state = ReceiverSyncState::Recovering;
                return DrainStep::Wait;
            }
            return DrainStep::Continue;
        }
        if now_ns < deadline {
            if self.state != ReceiverServiceState::Playing {
                self.state = ReceiverServiceState::Buffering;
            }
            return DrainStep::Wait;
        }
        let packet = match self.buffer.pop() {
            Some(packet) => packet,
            None => return DrainStep::Wait,
        };
        if !self.sink_attached {
            self.set_error("playback sink disappeared during active stream".to_owned());
            return DrainStep::Wait;
        }
        DrainStep::Write(packet)
    }

    /// How writing `packet` to the playback stream went.
    pub fn record_played(&mut self, packet: &BufferedPacket, written: Result<(), String>)
        requires
            old(self).wf(),
        ensures
            final(self).wf(),
            final(self)@ == after_write(
                old(self)@,
                *packet,
                match written {
                    Ok(_) => Ok(()),
                    Err(m) => Err(m@),
                },
            ),
    {
        match written {
            Err(message) => self.set_error(message),
            Ok(()) => {
                self.metrics.packets_played = inc(self.metrics.packets_played);
                self.metrics.frames_played = add_wrapping(self.metrics.frames_played, packet.frame_count as u64);
                self.metrics.bytes_played = add_wrapping(self.metrics.bytes_played, packet.packet.payload.len() as u64);
                self.metrics.buffer_fill_percent = self.buffer.snapshot().fill_percent();
                self.state = ReceiverServiceState::Playing;
                self.sync.state = if self.sync.schedule_error_ms > self.buffer_profile.latency_tolerance_ms as i32 {
                    ReceiverSyncState::Late
                } else {
                    ReceiverSyncState::Locked
                };
                self.next_playback_deadline_ns = None;
                self.refresh_sync_buffer_metrics();
            },
        }
    }

    /// The end of a scheduler tick at `now_ns`.
    pub fn finish_tick(&mut self, now_ns: u64)
        requires
            old(self).wf(),
        ensures
            final(self).wf(),
            final(self)@ == end_of_tick(old(self)@, now_ns),
    {
        if let Some(last_activity) = self.last_transport_activity_ns {
            let grace_ns = match self.buffer_profile.reconnect_grace_period_ms.checked_mul(NANOS_PER_MILLI) {
                Some(v) => v,
                None => u64::MAX,
            };
            if self.connection.is_some() && now_ns.saturating_sub(last_activity) >= grace_ns {
                self.handle_disconnect("receiver transport timed out", true);
            }
        }
        self.refresh_sync_buffer_metrics();
    }

    /// How long the scheduler may wait for the next event at `now_ns`.
    pub fn next_wait_ns(&self, now_ns: u64) -> (r: u64)
        ensures
            r == wait_ns(self@, now_ns),
    {
        let mut wait: u64 = 200_000_000;
        if let Some(deadline) = self.next_playback_deadline_ns {
            let until = deadline.saturating_sub(now_ns);
            if until < wait {
                wait = until;
            }
        }
        if let Some(last_activity) = self.last_transport_activity_ns {
            let grace_ns = match self.buffer_profile.reconnect_grace_period_ms.checked_mul(NANOS_PER_MILLI) {
                Some(v) => v,
                None => u64::MAX,
            };
            let remaining = grace_ns.saturating_sub(now_ns.saturating_sub(last_activity));
            if remaining < wait {
                wait = remaining;
            }
        }
        if wait > 5_000_000 { wait } else { 5_000_000 }
    }

    /// Shows the worker in a receiver snapshot.
    pub fn publish(&self, snapshot: &mut ReceiverSnapshot)
        requires
            self.wf(),
        ensures
            final(snapshot)@ == published(old(snapshot)@, self@),
    {
        let buffer = self.buffer.snapshot();
        snapshot.state = self.state;
        snapshot.connection = match &self.connection {
            Some(c) => Some(c.duplicate()),
            None => None,
        };
        snapshot.buffer = buffer;
        snapshot.sync = self.sync;
        snapshot.metrics = ReceiverMetrics { buffer_fill_percent: buffer.fill_percent(), ..self.metrics };
        snapshot.last_error = clone_opt_string(&self.last_error);
        assert(buffer == buffer_snapshot(self@));
    }

    /// Shuts the worker down; `stop_error` is how stopping its playback
    /// stream failed, if it did.
    pub fn shutdown(&mut self, stop_error: Option<String>)
        requires
            old(self).wf(),
        ensures
            final(self).wf(),
            final(self)@ == shut_down(old(self)@, opt_string_view(stop_error)),
    {
        if let Some(message) = stop_error {
            self.last_error = Some(message);
        }
        self.sink_attached = false;
        self.buffer.clear();
        self.connection = None;
        self.state = ReceiverServiceState::Idle;
        self.metrics.buffer_fill_percent = 0;
        self.reset_sync_timeline(false);
        self.sync = ReceiverSyncSnapshot::from_profile(self.buffer_profile);
        assert(self@.queue =~= Seq::<BufferedPacket>::empty());
    }
}


/// Packets are never due out of capture order: a packet captured later on
/// the sender is due no earlier than one captured before it.
pub proof fn lemma_deadlines_follow_capture_order(
    clock: SyncClock,
    earlier_ms: u64,
    later_ms: u64,
    target_buffer_ms: u16,
)
    requires
        earlier_ms <= later_ms,
    ensures
        spec_write_deadline(clock, earlier_ms, target_buffer_ms) <= spec_write_deadline(
            clock,
            later_ms,
            target_buffer_ms,
        ),
{
    let a = sat_add(sat_sub(earlier_ms, clock.anchor_sender_timestamp_ms), target_buffer_ms as u64);
    let b = sat_add(sat_sub(later_ms, clock.anchor_sender_timestamp_ms), target_buffer_ms as u64);
    assert(a <= b);
    assert(a * NANOS_PER_MILLI <= b * NANOS_PER_MILLI) by (nonlinear_arith)
        requires
            a <= b,
    ;
}

/// A packet is due the target buffer after its capture offset from the
/// anchor packet, counted in nanoseconds from the anchor's local arrival;
/// so two packets captured `d` ms apart fall due `d` ms apart.
pub proof fn lemma_deadline_paces_capture(clock: SyncClock, first_ms: u64, second_ms: u64, target_buffer_ms: u16)
    requires
        clock.anchor_sender_timestamp_ms <= first_ms <= second_ms,
        clock.anchor_local_ns + (second_ms - clock.anchor_sender_timestamp_ms + target_buffer_ms) * 1_000_000
            <= u64::MAX,
    ensures
        spec_write_deadline(clock, first_ms, target_buffer_ms) == clock.anchor_local_ns + (first_ms
            - clock.anchor_sender_timestamp_ms + target_buffer_ms) * 1_000_000,
        spec_write_deadline(clock, second_ms, target_buffer_ms) - spec_write_deadline(clock, first_ms, target_buffer_ms)
            == (second_ms - first_ms) * 1_000_000,
{
}

/// The packet at the front of the queue is held until the moment it is
/// due (the anchor's local arrival plus its capture offset and the target
/// buffer) and written at that moment with no schedule error.
pub proof fn lemma_front_packet_plays_on_schedule(w: WorkerView, now_ns: u64)
    requires
        w.queue.len() > 0,
        w.sync_clock is Some,
        w.sink_attached,
        w.sync_clock->0.anchor_sender_timestamp_ms <= w.queue[0].packet.captured_at_ms,
        w.sync_clock->0.anchor_local_ns + (w.queue[0].packet.captured_at_ms
            - w.sync_clock->0.anchor_sender_timestamp_ms + w.profile.target_buffer_ms) * 1_000_000 <= u64::MAX,
    ensures
        ({
            let due = w.sync_clock->0.anchor_local_ns + (w.queue[0].packet.captured_at_ms
                - w.sync_clock->0.anchor_sender_timestamp_ms + w.profile.target_buffer_ms) * 1_000_000;
            &&& now_ns < due ==> drain_turn(w, now_ns).1 == DrainStep::Wait
            &&& now_ns == due ==> drain_turn(w, now_ns).1 == DrainStep::Write(w.queue[0])
                && drain_turn(w, now_ns).0.sync.schedule_error_ms == 0
        }),
{
}

/// The scheduler sleeps between 5 ms and 200 ms.
pub proof fn lemma_wait_is_bounded(w: WorkerView, now_ns: u64)
    ensures
        5_000_000 <= wait_ns(w, now_ns) <= 200_000_000,
{
}

} // verus!
