//! Receiver-side models: latency presets, stream shape, packets, buffer and
//! synchronisation snapshots.

use vstd::prelude::*;
use crate::audio::AudioSampleFormat;
use crate::config::{ReceiverConfig};
use crate::models::{opt_string_view, clone_opt_string};
use crate::net::SocketAddress;
use crate::text::{append_decimal, append_str, decimal};

verus! {

#[derive(Debug, Clone, Copy, PartialEq, Eq, Structural)]
pub enum ReceiverServiceState {
    Idle,
    Listening,
    Connected,
    Buffering,
    Playing,
    Error,
}

impl Default for ReceiverServiceState {
    fn default() -> (r: Self)
        ensures
            r == ReceiverServiceState::Idle,
    {
        ReceiverServiceState::Idle
    }
}

#[derive(Debug, Clone, Copy, PartialEq, Eq, Structural)]
pub enum ReceiverSyncState {
    Idle,
    Priming,
    Locked,
    Late,
    Recovering,
}

impl Default for ReceiverSyncState {
    fn default() -> (r: Self)
        ensures
            r == ReceiverSyncState::Idle,
    {
        ReceiverSyncState::Idle
    }
}

#[derive(Debug, Clone, Copy, PartialEq, Eq, Structural)]
pub enum ReceiverLatencyPreset {
    LowLatency,
    Balanced,
    Stable,
}

impl Default for ReceiverLatencyPreset {
    fn default() -> (r: Self)
        ensures
            r == ReceiverLatencyPreset::Balanced,
    {
        ReceiverLatencyPreset::Balanced
    }
}

/// Buffering and synchronisation targets of a latency preset. The reconnect
/// grace period is held in milliseconds.
#[derive(Debug, Clone, Copy, PartialEq, Eq, Structural)]
pub struct ReceiverLatencyProfile {
    pub playback_latency_ms: u16,
    pub target_buffer_ms: u16,
    pub max_buffer_ms: u16,
    pub latency_tolerance_ms: u16,
    pub late_packet_drop_ms: u16,
    pub reconnect_grace_period_ms: u64,
}

pub open spec fn spec_profile(preset: ReceiverLatencyPreset) -> ReceiverLatencyProfile {
    match preset {
        ReceiverLatencyPreset::LowLatency => ReceiverLatencyProfile {
            playback_latency_ms: 50,
            target_buffer_ms: 30,
            max_buffer_ms: 110,
            latency_tolerance_ms: 20,
            late_packet_drop_ms: 25,
            reconnect_grace_period_ms: 750,
        },
        ReceiverLatencyPreset::Balanced => ReceiverLatencyProfile {
            playback_latency_ms: 80,
            target_buffer_ms: 70,
            max_buffer_ms: 210,
            latency_tolerance_ms: 30,
            late_packet_drop_ms: 40,
            reconnect_grace_period_ms: 1_500,
        },
        ReceiverLatencyPreset::Stable => ReceiverLatencyProfile {
            playback_latency_ms: 110,
            target_buffer_ms: 120,
            max_buffer_ms: 340,
            latency_tolerance_ms: 45,
            late_packet_drop_ms: 60,
            reconnect_grace_period_ms: 2_500,
        },
    }
}

impl ReceiverLatencyPreset {
    pub fn profile(self) -> (r: ReceiverLatencyProfile)
        ensures
            r == spec_profile(self),
    {
        match self {
            ReceiverLatencyPreset::LowLatency => ReceiverLatencyProfile {
                playback_latency_ms: 50,
                target_buffer_ms: 30,
                max_buffer_ms: 110,
                latency_tolerance_ms: 20,
                late_packet_drop_ms: 25,
                reconnect_grace_period_ms: 750,
            },
            ReceiverLatencyPreset::Balanced => ReceiverLatencyProfile {
                playback_latency_ms: 80,
                target_buffer_ms: 70,
                max_buffer_ms: 210,
                latency_tolerance_ms: 30,
                late_packet_drop_ms: 40,
                reconnect_grace_period_ms: 1_500,
            },
            ReceiverLatencyPreset::Stable => ReceiverLatencyProfile {
                playback_latency_ms: 110,
                target_buffer_ms: 120,
                max_buffer_ms: 340,
                latency_tolerance_ms: 45,
                late_packet_drop_ms: 60,
                reconnect_grace_period_ms: 2_500,
            },
        }
    }
}

/// Saturating 16-bit sum.
pub open spec fn sat_add_u16(a: u16, b: u16) -> u16 {
    if a + b > u16::MAX { u16::MAX } else { (a + b) as u16 }
}

/// Number of packets of length `packet_ns` needed to cover `target_ns`
/// (at least one), rounding up.
pub open spec fn spec_packet_count(target_ns: nat, packet_ns: nat) -> nat {
    if packet_ns == 0 {
        1
    } else {
        let t = if target_ns == 0 { 1 } else { target_ns };
        ((t + packet_ns - 1) / (packet_ns as int)) as nat
    }
}

pub fn packet_count_for_duration(target_ns: u64, packet_ns: u64) -> (r: usize)
    ensures
        r == (if spec_packet_count(target_ns as nat, packet_ns as nat) > usize::MAX {
            usize::MAX as nat
        } else {
            spec_packet_count(target_ns as nat, packet_ns as nat)
        }),
{
    if packet_ns == 0 {
        return 1;
    }
    let t: u64 = if target_ns == 0 { 1 } else { target_ns };
    let q: u64 = t / packet_ns;
    assert(t % packet_ns != 0 ==> q < u64::MAX) by (nonlinear_arith)
        requires
            packet_ns > 0,
            q == t / packet_ns,
    ;
    let packets: u64 = if t % packet_ns == 0 { q } else { q + 1 };
    assert(packets == (t + packet_ns - 1) / (packet_ns as int)) by (nonlinear_arith)
        requires
            packet_ns > 0,
            q == t / packet_ns,
            packets == (if t % packet_ns == 0 { q } else { (q + 1) as u64 }),
    ;
    if packets as u128 > usize::MAX as u128 {
        usize::MAX
    } else {
        packets as usize
    }
}

impl ReceiverLatencyProfile {
    pub open spec fn spec_expected_output_latency_ms(self) -> u16 {
        sat_add_u16(self.playback_latency_ms, self.target_buffer_ms)
    }

    /// Playback latency plus the jitter-buffer target.
    pub fn expected_output_latency_ms(self) -> (r: u16)
        ensures
            r == self.spec_expected_output_latency_ms(),
    {
        self.playback_latency_ms.saturating_add(self.target_buffer_ms)
    }

    pub open spec fn spec_buffer_packet_limits(self, stream: ReceiverStreamConfig) -> (usize, usize) {
        let pd = stream.spec_packet_duration_ns();
        let a = spec_packet_count(self.target_buffer_ms as nat * 1_000_000, pd);
        let b = spec_packet_count(self.max_buffer_ms as nat * 1_000_000, pd);
        (
            if a > usize::MAX { usize::MAX } else { a as usize },
            if b > usize::MAX { usize::MAX } else { b as usize },
        )
    }

    /// The start threshold and the capacity of the jitter buffer, in packets.
    pub fn buffer_packet_limits(self, stream: &ReceiverStreamConfig) -> (r: (usize, usize))
        ensures
            r == self.spec_buffer_packet_limits(*stream),
    {
        let packet_duration = stream.packet_duration();
        (
            packet_count_for_duration(self.target_buffer_ms as u64 * 1_000_000, packet_duration),
            packet_count_for_duration(self.max_buffer_ms as u64 * 1_000_000, packet_duration),
        )
    }
}

#[derive(Debug, Clone, Copy, PartialEq, Eq, Structural)]
pub struct ReceiverStreamConfig {
    pub sample_rate_hz: u32,
    pub channels: u16,
    pub sample_format: AudioSampleFormat,
    pub frames_per_packet: u32,
}

impl Default for ReceiverStreamConfig {
    fn default() -> (r: Self)
        ensures
            r == ReceiverStreamConfig::spec_default(),
    {
        ReceiverStreamConfig {
            sample_rate_hz: 48_000,
            channels: 2,
            sample_format: AudioSampleFormat::S16Le,
            frames_per_packet: 480,
        }
    }
}

impl ReceiverStreamConfig {
    pub open spec fn spec_default() -> ReceiverStreamConfig {
        ReceiverStreamConfig {
            sample_rate_hz: 48_000,
            channels: 2,
            sample_format: AudioSampleFormat::S16Le,
            frames_per_packet: 480,
        }
    }

    pub open spec fn spec_bytes_per_frame(self) -> nat {
        self.channels as nat * self.sample_format.spec_bytes_per_sample()
    }

    pub open spec fn spec_packet_bytes_hint(self) -> nat {
        self.frames_per_packet as nat * self.spec_bytes_per_frame()
    }

    /// Length of one packet in nanoseconds, rounded to the nearest
    /// nanosecond with a tie going to the even one, as std's conversion of
    /// seconds to a `Duration` rounds; zero when the rate or the packet size
    /// is zero.
    pub open spec fn spec_packet_duration_ns(self) -> nat {
        if self.sample_rate_hz == 0 || self.frames_per_packet == 0 {
            0
        } else {
            spec_round_half_even(self.frames_per_packet as nat * 1_000_000_000, self.sample_rate_hz as nat)
        }
    }

    pub fn bytes_per_frame(&self) -> (r: usize)
        ensures
            r == self.spec_bytes_per_frame(),
    {
        assert(self.channels as nat * self.sample_format.spec_bytes_per_sample() <= 0xffff * 4)
            by (nonlinear_arith)
            requires
                self.channels <= 0xffff,
                self.sample_format.spec_bytes_per_sample() <= 4,
        ;
        self.channels as usize * self.sample_format.bytes_per_sample()
    }

    pub fn packet_bytes_hint(&self) -> (r: usize)
        requires
            self.spec_packet_bytes_hint() <= usize::MAX,
        ensures
            r == self.spec_packet_bytes_hint(),
    {
        self.frames_per_packet as usize * self.bytes_per_frame()
    }

    /// Length of one packet, in nanoseconds.
    pub fn packet_duration(&self) -> (r: u64)
        ensures
            r == self.spec_packet_duration_ns(),
    {
        if self.sample_rate_hz == 0 || self.frames_per_packet == 0 {
            return 0;
        }
        let num: u64 = self.frames_per_packet as u64 * 1_000_000_000u64;
        let den: u64 = self.sample_rate_hz as u64;
        let q: u64 = num / den;
        let rem: u64 = num % den;
        proof {
            assert(q <= num) by (nonlinear_arith)
                requires
                    den >= 1,
                    q == num / den,
            ;
            assert(num <= 0xffff_ffffu64 * 1_000_000_000u64) by (nonlinear_arith)
                requires
                    num == self.frames_per_packet as u64 * 1_000_000_000u64,
                    self.frames_per_packet <= 0xffff_ffffu32,
            ;
        }
        if rem * 2 > den || (rem * 2 == den && q % 2 == 1) {
            q + 1
        } else {
            q
        }
    }
}

/// `n / d` rounded to the nearest integer, a tie going to the even one.
pub open spec fn spec_round_half_even(n: nat, d: nat) -> nat
    recommends
        d > 0,
{
    let q = n / d;
    let r = n % d;
    if 2 * r > d || (2 * r == d && q % 2 == 1) {
        q + 1
    } else {
        q
    }
}

#[derive(Debug, Clone, PartialEq, Eq)]
pub struct ReceiverConnectionInfo {
    pub session_id: String,
    pub remote_addr: Option<SocketAddress>,
    pub stream: ReceiverStreamConfig,
    pub requested_latency_ms: u16,
}

pub struct ReceiverConnectionInfoView {
    pub session_id: Seq<char>,
    pub remote_addr: Option<SocketAddress>,
    pub stream: ReceiverStreamConfig,
    pub requested_latency_ms: u16,
}

impl View for ReceiverConnectionInfo {
    type V = ReceiverConnectionInfoView;

    open spec fn view(&self) -> ReceiverConnectionInfoView {
        ReceiverConnectionInfoView {
            session_id: self.session_id@,
            remote_addr: self.remote_addr,
            stream: self.stream,
            requested_latency_ms: self.requested_latency_ms,
        }
    }
}

impl ReceiverConnectionInfo {
    pub fn duplicate(&self) -> (r: Self)
        ensures
            r@ == self@,
    {
        ReceiverConnectionInfo {
            session_id: self.session_id.clone(),
            remote_addr: self.remote_addr,
            stream: self.stream,
            requested_latency_ms: self.requested_latency_ms,
        }
    }
}

#[derive(Debug, Clone, PartialEq, Eq)]
pub struct ReceiverAudioPacket {
    pub sequence: u64,
    pub captured_at_ms: u64,
    pub captured_at_unix_ms: u64,
    pub payload: Vec<u8>,
}

impl ReceiverAudioPacket {
    /// The number of whole frames in the payload; a payload that does not
    /// split into whole frames, or a stream with zero-byte frames, is refused.
    pub fn frame_count(&self, stream: &ReceiverStreamConfig) -> (r: Result<u32, String>)
        ensures
            stream.spec_bytes_per_frame() == 0 ==> r is Err && r->Err_0@
                == "stream bytes_per_frame cannot be zero"@,
            stream.spec_bytes_per_frame() != 0 && self.payload@.len()
                % stream.spec_bytes_per_frame() != 0 ==> r is Err && r->Err_0@
                == "packet payload size "@ + decimal(self.payload@.len()) + " is not divisible by bytes_per_frame "@
                + decimal(stream.spec_bytes_per_frame()),
            stream.spec_bytes_per_frame() != 0 && self.payload@.len()
                % stream.spec_bytes_per_frame() == 0 ==> r == Ok::<u32, String>(
                (self.payload@.len() / stream.spec_bytes_per_frame()) as u32,
            ),
    {
        let bytes_per_frame = stream.bytes_per_frame();
        if bytes_per_frame == 0 {
            return Err("stream bytes_per_frame cannot be zero".to_owned());
        }
        let len = self.payload.len();
        if len % bytes_per_frame != 0 {
            let mut message = String::new();
            append_str(&mut message, "packet payload size ");
            append_decimal(&mut message, len as u64);
            append_str(&mut message, " is not divisible by bytes_per_frame ");
            append_decimal(&mut message, bytes_per_frame as u64);
            return Err(message);
        }
        Ok((len / bytes_per_frame) as u32)
    }
}

#[derive(Debug, Clone, PartialEq, Eq)]
pub enum ReceiverTransportEvent {
    Connected(ReceiverConnectionInfo),
    AudioPacket(ReceiverAudioPacket),
    KeepAlive,
    Disconnected { reason: String, reconnect_suggested: bool },
    Error { message: String },
}

#[derive(Debug, Clone, Copy, PartialEq, Eq, Structural)]
pub struct ReceiverBufferSnapshot {
    pub queued_packets: u32,
    pub queued_frames: u64,
    pub queued_audio_ms: u32,
    pub target_buffer_ms: u32,
    pub max_buffer_ms: u32,
    pub start_threshold_packets: u32,
    pub max_packets: u32,
}

/// `min(sat(a * 100) / b, 100)` for `b > 0`: a fill percentage.
pub open spec fn spec_percent_of(a: u32, b: u32) -> u8 {
    let scaled = if a * 100 > u32::MAX { u32::MAX as int } else { a * 100 };
    let q = scaled / (b as int);
    if q > 100 { 100 } else { q as u8 }
}

pub fn percent_of(a: u32, b: u32) -> (r: u8)
    requires
        b > 0,
    ensures
        r == spec_percent_of(a, b),
{
    let scaled: u32 = if a > 42_949_672 { u32::MAX } else { a * 100 };
    let q = scaled / b;
    if q > 100 { 100 } else { q as u8 }
}

impl ReceiverBufferSnapshot {
    pub open spec fn spec_default() -> ReceiverBufferSnapshot {
        ReceiverBufferSnapshot {
            queued_packets: 0,
            queued_frames: 0,
            queued_audio_ms: 0,
            target_buffer_ms: 0,
            max_buffer_ms: 0,
            start_threshold_packets: 0,
            max_packets: 0,
        }
    }

    pub open spec fn spec_fill_percent(self) -> u8 {
        if self.max_buffer_ms > 0 {
            spec_percent_of(self.queued_audio_ms, self.max_buffer_ms)
        } else if self.max_packets > 0 {
            spec_percent_of(self.queued_packets, self.max_packets)
        } else {
            0
        }
    }

    /// How full the buffer is, by queued audio time when a maximum time is
    /// known, else by packets; capped at 100.
    pub fn fill_percent(&self) -> (r: u8)
        ensures
            r == self.spec_fill_percent(),
            r <= 100,
    {
        if self.max_buffer_ms > 0 {
            return percent_of(self.queued_audio_ms, self.max_buffer_ms);
        }
        if self.max_packets > 0 {
            return percent_of(self.queued_packets, self.max_packets);
        }
        0
    }
}

impl Default for ReceiverBufferSnapshot {
    fn default() -> (r: Self)
        ensures
            r == ReceiverBufferSnapshot::spec_default(),
    {
        ReceiverBufferSnapshot {
            queued_packets: 0,
            queued_frames: 0,
            queued_audio_ms: 0,
            target_buffer_ms: 0,
            max_buffer_ms: 0,
            start_threshold_packets: 0,
            max_packets: 0,
        }
    }
}

#[derive(Debug, Clone, Copy, PartialEq, Eq, Structural)]
pub struct ReceiverMetrics {
    pub packets_received: u64,
    pub frames_received: u64,
    pub bytes_received: u64,
    pub packets_played: u64,
    pub frames_played: u64,
    pub bytes_played: u64,
    pub buffer_fill_percent: u8,
    pub underruns: u64,
    pub overruns: u64,
    pub reconnect_attempts: u64,
}

impl ReceiverMetrics {
    pub open spec fn spec_default() -> ReceiverMetrics {
        ReceiverMetrics {
            packets_received: 0,
            frames_received: 0,
            bytes_received: 0,
            packets_played: 0,
            frames_played: 0,
            bytes_played: 0,
            buffer_fill_percent: 0,
            underruns: 0,
            overruns: 0,
            reconnect_attempts: 0,
        }
    }
}

impl Default for ReceiverMetrics {
    fn default() -> (r: Self)
        ensures
            r == ReceiverMetrics::spec_default(),
    {
        ReceiverMetrics {
            packets_received: 0,
            frames_received: 0,
            bytes_received: 0,
            packets_played: 0,
            frames_played: 0,
            bytes_played: 0,
            buffer_fill_percent: 0,
            underruns: 0,
            overruns: 0,
            reconnect_attempts: 0,
        }
    }
}

#[derive(Debug, Clone, Copy, PartialEq, Eq, Structural)]
pub struct ReceiverSyncSnapshot {
    pub state: ReceiverSyncState,
    pub requested_latency_ms: Option<u16>,
    pub target_buffer_ms: u16,
    pub playback_latency_ms: u16,
    pub expected_output_latency_ms: u16,
    pub queued_audio_ms: u32,
    pub buffer_delta_ms: i32,
    pub schedule_error_ms: i32,
    pub late_packet_drops: u64,
    pub sync_resets: u64,
    pub last_sender_timestamp_ms: Option<u64>,
    pub last_sender_capture_unix_ms: Option<u64>,
}

impl ReceiverSyncSnapshot {
    pub open spec fn spec_default() -> ReceiverSyncSnapshot {
        ReceiverSyncSnapshot {
            state: ReceiverSyncState::Idle,
            requested_latency_ms: None,
            target_buffer_ms: 0,
            playback_latency_ms: 0,
            expected_output_latency_ms: 0,
            queued_audio_ms: 0,
            buffer_delta_ms: 0,
            schedule_error_ms: 0,
            late_packet_drops: 0,
            sync_resets: 0,
            last_sender_timestamp_ms: None,
            last_sender_capture_unix_ms: None,
        }
    }

    pub open spec fn spec_from_profile(profile: ReceiverLatencyProfile) -> ReceiverSyncSnapshot {
        ReceiverSyncSnapshot {
            target_buffer_ms: profile.target_buffer_ms,
            playback_latency_ms: profile.playback_latency_ms,
            expected_output_latency_ms: profile.spec_expected_output_latency_ms(),
            ..ReceiverSyncSnapshot::spec_default()
        }
    }

    /// An idle synchronisation snapshot seeded with a profile's targets.
    pub fn from_profile(profile: ReceiverLatencyProfile) -> (r: Self)
        ensures
            r == ReceiverSyncSnapshot::spec_from_profile(profile),
    {
        ReceiverSyncSnapshot {
            target_buffer_ms: profile.target_buffer_ms,
            playback_latency_ms: profile.playback_latency_ms,
            expected_output_latency_ms: profile.expected_output_latency_ms(),
            ..ReceiverSyncSnapshot::default()
        }
    }
}

impl Default for ReceiverSyncSnapshot {
    fn default() -> (r: Self)
        ensures
            r == ReceiverSyncSnapshot::spec_default(),
    {
        ReceiverSyncSnapshot {
            state: ReceiverSyncState::Idle,
            requested_latency_ms: None,
            target_buffer_ms: 0,
            playback_latency_ms: 0,
            expected_output_latency_ms: 0,
            queued_audio_ms: 0,
            buffer_delta_ms: 0,
            schedule_error_ms: 0,
            late_packet_drops: 0,
            sync_resets: 0,
            last_sender_timestamp_ms: None,
            last_sender_capture_unix_ms: None,
        }
    }
}


#[derive(Debug, Clone, PartialEq, Eq)]
pub struct ReceiverSnapshot {
    pub state: ReceiverServiceState,
    pub advertised_name: String,
    pub bind_host: String,
    pub listen_port: u16,
    pub latency_preset: ReceiverLatencyPreset,
    pub playback_target_id: Option<String>,
    pub playback_backend: Option<String>,
    pub connection: Option<ReceiverConnectionInfo>,
    pub buffer: ReceiverBufferSnapshot,
    pub sync: ReceiverSyncSnapshot,
    pub metrics: ReceiverMetrics,
    pub last_error: Option<String>,
}

pub struct ReceiverSnapshotView {
    pub state: ReceiverServiceState,
    pub advertised_name: Seq<char>,
    pub bind_host: Seq<char>,
    pub listen_port: u16,
    pub latency_preset: ReceiverLatencyPreset,
    pub playback_target_id: Option<Seq<char>>,
    pub playback_backend: Option<Seq<char>>,
    pub connection: Option<ReceiverConnectionInfoView>,
    pub buffer: ReceiverBufferSnapshot,
    pub sync: ReceiverSyncSnapshot,
    pub metrics: ReceiverMetrics,
    pub last_error: Option<Seq<char>>,
}

pub open spec fn opt_connection_view(c: Option<ReceiverConnectionInfo>) -> Option<ReceiverConnectionInfoView> {
    match c {
        Some(c) => Some(c@),
        None => None,
    }
}

impl View for ReceiverSnapshot {
    type V = ReceiverSnapshotView;

    open spec fn view(&self) -> ReceiverSnapshotView {
        ReceiverSnapshotView {
            state: self.state,
            advertised_name: self.advertised_name@,
            bind_host: self.bind_host@,
            listen_port: self.listen_port,
            latency_preset: self.latency_preset,
            playback_target_id: opt_string_view(self.playback_target_id),
            playback_backend: opt_string_view(self.playback_backend),
            connection: opt_connection_view(self.connection),
            buffer: self.buffer,
            sync: self.sync,
            metrics: self.metrics,
            last_error: opt_string_view(self.last_error),
        }
    }
}

/// The buffer limits a preset implies for the default stream shape.
pub open spec fn seeded_buffer(preset: ReceiverLatencyPreset) -> ReceiverBufferSnapshot {
    let profile = spec_profile(preset);
    let limits = profile.spec_buffer_packet_limits(ReceiverStreamConfig::spec_default());
    ReceiverBufferSnapshot {
        target_buffer_ms: profile.target_buffer_ms as u32,
        max_buffer_ms: profile.max_buffer_ms as u32,
        start_threshold_packets: limits.0 as u32,
        max_packets: limits.1 as u32,
        ..ReceiverBufferSnapshot::spec_default()
    }
}

/// The idle receiver snapshot a configuration implies.
pub open spec fn snapshot_from_config(config: crate::config::ReceiverConfigView) -> ReceiverSnapshotView {
    ReceiverSnapshotView {
        state: ReceiverServiceState::Idle,
        advertised_name: config.advertised_name,
        bind_host: config.bind_host,
        listen_port: config.listen_port,
        latency_preset: config.latency_preset,
        playback_target_id: config.playback_target_id,
        playback_backend: None,
        connection: None,
        buffer: seeded_buffer(config.latency_preset),
        sync: ReceiverSyncSnapshot::spec_from_profile(spec_profile(config.latency_preset)),
        metrics: ReceiverMetrics::spec_default(),
        last_error: None,
    }
}

impl ReceiverSnapshot {
    /// The idle snapshot of a receiver configured by `config`.
    pub fn from_config(config: &ReceiverConfig) -> (r: Self)
        ensures
            r@ == snapshot_from_config(config@),
    {
        let profile = config.latency_preset.profile();
        let default_stream = ReceiverStreamConfig::default();
        let (start_threshold_packets, max_packets) = profile.buffer_packet_limits(&default_stream);
        ReceiverSnapshot {
            state: ReceiverServiceState::Idle,
            advertised_name: config.advertised_name.clone(),
            bind_host: config.bind_host.clone(),
            listen_port: config.listen_port,
            latency_preset: config.latency_preset,
            playback_target_id: clone_opt_string(&config.playback_target_id),
            playback_backend: None,
            connection: None,
            buffer: ReceiverBufferSnapshot {
                target_buffer_ms: profile.target_buffer_ms as u32,
                max_buffer_ms: profile.max_buffer_ms as u32,
                start_threshold_packets: start_threshold_packets as u32,
                max_packets: max_packets as u32,
                ..ReceiverBufferSnapshot::default()
            },
            sync: ReceiverSyncSnapshot::from_profile(profile),
            metrics: ReceiverMetrics::default(),
            last_error: None,
        }
    }
}

} // verus!
