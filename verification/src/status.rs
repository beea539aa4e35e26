//! The status texts the interface shows for discovery, the cast session,
//! the receiver and the dashboard.

use vstd::prelude::*;
use crate::health::{availability_label, availability_name, receiver_state_label, receiver_state_text};
use crate::presentation::{format_selected_playback_target, selected_target_text};
use crate::receiver::{
    ReceiverBufferSnapshot, ReceiverConnectionInfo, ReceiverConnectionInfoView, ReceiverMetrics, ReceiverStreamConfig,
    ReceiverSyncSnapshot, ReceiverSyncState,
};
use crate::report::{latency_preset_label, latency_preset_text, sample_format_label, sample_format_text};
use crate::state::target_available;
use crate::models::{DiscoveredDevice, DiscoveredDeviceView};
use crate::net::{socket_address_text, socket_text};
use crate::presentation::{health_label, health_text, opt_as_str, target_views};
use crate::report::{append_or, joined, or_text};
use crate::health::{mirror_state_label, mirror_state_text, session_state_label, session_state_text};
use crate::audio::CaptureState;
use crate::models::{PlaybackTarget, PlaybackTargetKind, PlaybackTargetView};
use crate::state::CastSessionState;
use crate::streaming::{LocalMirrorSnapshot, LocalMirrorSnapshotView, StreamMetrics, count_healthy};
use crate::state::{AppState, AppStateView};
use crate::streaming::{StreamBranchBufferSnapshot, StreamTargetHealth, StreamTargetSnapshot, StreamTargetSnapshotView};
use crate::text::{append_decimal, append_str, bool_string, bool_text, decimal};

verus! {

/// An optional count as `{:?}` spells it: `Some(n)` or `None`.
pub open spec fn opt_u32_debug(o: Option<u32>) -> Seq<char> {
    match o {
        Some(v) => "Some("@ + decimal(v as nat) + ")"@,
        None => "None"@,
    }
}

fn append_opt_u32_debug(out: &mut String, o: Option<u32>)
    ensures
        final(out)@ == old(out)@ + opt_u32_debug(o),
{
    match o {
        Some(v) => {
            append_str(out, "Some(");
            append_decimal(out, v as u64);
            append_str(out, ")");
        },
        None => append_str(out, "None"),
    }
    assert(out@ =~= old(out)@ + opt_u32_debug(o));
}

/// `fill% (queued / max packets, dropped=n)` of a send branch.
pub open spec fn branch_buffer_text(b: StreamBranchBufferSnapshot) -> Seq<char> {
    decimal(b.spec_fill_percent() as nat) + "% ("@ + decimal(b.queued_packets as nat) + " / "@
        + decimal(b.max_packets as nat) + " packets, dropped="@ + decimal(b.dropped_packets as nat) + ")"@
}

fn append_branch_buffer(out: &mut String, b: &StreamBranchBufferSnapshot)
    ensures
        final(out)@ == old(out)@ + branch_buffer_text(*b),
{
    append_decimal(out, b.fill_percent() as u64);
    append_str(out, "% (");
    append_decimal(out, b.queued_packets as u64);
    append_str(out, " / ");
    append_decimal(out, b.max_packets as u64);
    append_str(out, " packets, dropped=");
    append_decimal(out, b.dropped_packets);
    append_str(out, ")");
    assert(out@ =~= old(out)@ + branch_buffer_text(*b));
}

pub open spec fn target_status_head(t: StreamTargetSnapshotView) -> Seq<char> {
    "- "@ + t.receiver_name + " ["@ + t.receiver_id + "] "@ + session_state_text(t.state) + " "@
        + health_text(t.health)
}

pub open spec fn target_status_link(t: StreamTargetSnapshotView) -> Seq<char> {
    " endpoint="@ + socket_text(t.endpoint) + " session="@ + or_text(t.session_id, "not negotiated"@)
        + " latency="@ + opt_u32_debug(t.metrics.latency_estimate_ms)
}

pub open spec fn target_status_flow(t: StreamTargetSnapshotView) -> Seq<char> {
    "ms buffer="@ + branch_buffer_text(t.network_buffer) + " bitrate="@
        + decimal(t.metrics.estimated_bitrate_bps as nat) + "bps bytes="@ + decimal(t.metrics.bytes_sent as nat)
        + " last_error="@ + or_text(t.last_error, "none"@)
}

/// One cast target: name, identifier, state, health, endpoint, session,
/// latency, network buffer, bitrate, bytes sent and last error.
pub open spec fn target_status_line(t: StreamTargetSnapshotView) -> Seq<char> {
    target_status_head(t) + target_status_link(t) + target_status_flow(t)
}

/// The cast targets one per line, or `none`.
pub open spec fn target_statuses_text(targets: Seq<StreamTargetSnapshotView>) -> Seq<char> {
    if targets.len() == 0 {
        "none"@
    } else {
        joined(targets.map_values(|t: StreamTargetSnapshotView| target_status_line(t)), "\n"@)
    }
}

fn append_target_status_head(out: &mut String, t: &StreamTargetSnapshot)
    ensures
        final(out)@ == old(out)@ + target_status_head(t@),
{
    append_str(out, "- ");
    append_str(out, t.receiver_name.as_str());
    append_str(out, " [");
    append_str(out, t.receiver_id.as_str());
    append_str(out, "] ");
    append_str(out, session_state_label(t.state));
    append_str(out, " ");
    append_str(out, health_label(t.health));
    assert(out@ =~= old(out)@ + target_status_head(t@));
}

fn append_target_status_link(out: &mut String, t: &StreamTargetSnapshot)
    ensures
        final(out)@ == old(out)@ + target_status_link(t@),
{
    append_str(out, " endpoint=");
    let endpoint = socket_address_text(&t.endpoint);
    append_str(out, endpoint.as_str());
    append_str(out, " session=");
    append_or(out, &t.session_id, "not negotiated");
    append_str(out, " latency=");
    append_opt_u32_debug(out, t.metrics.latency_estimate_ms);
    assert(out@ =~= old(out)@ + target_status_link(t@));
}

fn append_target_status_flow(out: &mut String, t: &StreamTargetSnapshot)
    ensures
        final(out)@ == old(out)@ + target_status_flow(t@),
{
    append_str(out, "ms buffer=");
    append_branch_buffer(out, &t.network_buffer);
    append_str(out, " bitrate=");
    append_decimal(out, t.metrics.estimated_bitrate_bps);
    append_str(out, "bps bytes=");
    append_decimal(out, t.metrics.bytes_sent);
    append_str(out, " last_error=");
    append_or(out, &t.last_error, "none");
    assert(out@ =~= old(out)@ + target_status_flow(t@));
}

fn append_target_status_line(out: &mut String, t: &StreamTargetSnapshot)
    ensures
        final(out)@ == old(out)@ + target_status_line(t@),
{
    append_target_status_head(out, t);
    append_target_status_link(out, t);
    append_target_status_flow(out, t);
    assert(out@ =~= old(out)@ + target_status_line(t@));
}

fn append_target_statuses(out: &mut String, targets: &[StreamTargetSnapshot])
    ensures
        final(out)@ == old(out)@ + target_statuses_text(target_views(targets@)),
{
    proof {
        reveal_strlit("none");
        reveal_strlit("\n");
    }
    if targets.len() == 0 {
        append_str(out, "none");
        return;
    }
    let ghost lines = target_views(targets@).map_values(|t: StreamTargetSnapshotView| target_status_line(t));
    let mut i: usize = 0;
    while i < targets.len()
        invariant
            1 <= targets@.len(),
            i <= targets@.len(),
            lines == target_views(targets@).map_values(|t: StreamTargetSnapshotView| target_status_line(t)),
            out@ == old(out)@ + joined(lines.subrange(0, i as int), "\n"@),
        decreases targets@.len() - i,
    {
        if i > 0 {
            append_str(out, "\n");
        }
        append_target_status_line(out, &targets[i]);
        proof {
            let prev = lines.subrange(0, i as int);
            let next = lines.subrange(0, i + 1);
            assert(next.drop_last() =~= prev);
            assert(next.last() == target_status_line(targets@[i as int]@));
            if i == 0 {
                assert(joined(prev, "\n"@) =~= Seq::<char>::empty());
            }
        }
        i = i + 1;
    }
    assert(lines.subrange(0, targets@.len() as int) =~= lines);
}

/// The cast targets' status lines.
pub fn format_stream_target_statuses(targets: &[StreamTargetSnapshot]) -> (r: String)
    ensures
        r@ == target_statuses_text(target_views(targets@)),
{
    let mut out = String::new();
    append_target_statuses(&mut out, targets);
    assert(out@ =~= target_statuses_text(target_views(targets@)));
    out
}

pub open spec fn device_identity_text(d: DiscoveredDeviceView) -> Seq<char> {
    d.display_name + "\n  id: "@ + d.id + "\n  version: "@ + d.app_version + "\n  availability: "@
        + availability_name(d.availability)
}

pub open spec fn capabilities_text(d: DiscoveredDeviceView) -> Seq<char> {
    "\n  capabilities: sender="@ + bool_text(d.capabilities.supports_sender) + ", receiver="@
        + bool_text(d.capabilities.supports_receiver) + ", local_output="@
        + bool_text(d.capabilities.supports_local_output) + ", bluetooth="@
        + bool_text(d.capabilities.supports_bluetooth_output)
}

pub open spec fn device_endpoint_text(d: DiscoveredDeviceView) -> Seq<char> {
    "\n  endpoint: "@ + match d.endpoint {
        Some(e) => socket_text(e.address),
        None => "unresolved"@,
    }
}

/// One discovered device: name, identifier, version, availability,
/// capabilities and endpoint, on indented lines.
pub open spec fn discovered_device_block(d: DiscoveredDeviceView) -> Seq<char> {
    device_identity_text(d) + capabilities_text(d) + device_endpoint_text(d)
}

/// The discovered devices, separated by blank lines, or a sentence saying
/// there are none yet.
pub open spec fn discovery_devices_text(devices: Seq<DiscoveredDeviceView>) -> Seq<char> {
    if devices.len() == 0 {
        "No SynchroSonic devices discovered yet."@
    } else {
        joined(devices.map_values(|d: DiscoveredDeviceView| discovered_device_block(d)), "\n\n"@)
    }
}

fn append_device_identity(out: &mut String, d: &DiscoveredDevice)
    ensures
        final(out)@ == old(out)@ + device_identity_text(d@),
{
    append_str(out, d.display_name.as_str());
    append_str(out, "\n  id: ");
    append_str(out, d.id.as_str());
    append_str(out, "\n  version: ");
    append_str(out, d.app_version.as_str());
    append_str(out, "\n  availability: ");
    append_str(out, availability_label(d.availability));
    assert(out@ =~= old(out)@ + device_identity_text(d@));
}

fn append_flag(out: &mut String, label: &str, b: bool)
    ensures
        final(out)@ == old(out)@ + (label@ + bool_text(b)),
{
    append_str(out, label);
    let s = bool_string(b);
    append_str(out, s.as_str());
    assert(out@ =~= old(out)@ + (label@ + bool_text(b)));
}

fn append_capabilities(out: &mut String, d: &DiscoveredDevice)
    ensures
        final(out)@ == old(out)@ + capabilities_text(d@),
{
    let c = d.capabilities;
    append_flag(out, "\n  capabilities: sender=", c.supports_sender);
    append_flag(out, ", receiver=", c.supports_receiver);
    append_flag(out, ", local_output=", c.supports_local_output);
    append_flag(out, ", bluetooth=", c.supports_bluetooth_output);
    assert(out@ =~= old(out)@ + capabilities_text(d@));
}

fn append_discovered_device_block(out: &mut String, d: &DiscoveredDevice)
    ensures
        final(out)@ == old(out)@ + discovered_device_block(d@),
{
    append_device_identity(out, d);
    append_capabilities(out, d);
    let ghost mid = out@;
    append_str(out, "\n  endpoint: ");
    match &d.endpoint {
        Some(e) => {
            let address = socket_address_text(&e.address);
            append_str(out, address.as_str());
        },
        None => append_str(out, "unresolved"),
    }
    assert(out@ =~= mid + device_endpoint_text(d@));
    assert(out@ =~= old(out)@ + discovered_device_block(d@));
}

/// The discovery page's device list.
pub fn format_discovery_devices(state: &AppState) -> (r: String)
    ensures
        r@ == discovery_devices_text(state@.discovered_devices),
{
    proof {
        reveal_strlit("No SynchroSonic devices discovered yet.");
        reveal_strlit("\n\n");
    }
    let devices = &state.discovered_devices;
    if devices.len() == 0 {
        return "No SynchroSonic devices discovered yet.".to_owned();
    }
    let ghost views = state@.discovered_devices;
    let ghost lines = views.map_values(|d: DiscoveredDeviceView| discovered_device_block(d));
    let mut out = String::new();
    let mut i: usize = 0;
    while i < devices.len()
        invariant
            1 <= devices@.len(),
            i <= devices@.len(),
            views.len() == devices@.len(),
            forall|k: int| 0 <= k < views.len() ==> #[trigger] views[k] == devices@[k]@,
            lines == views.map_values(|d: DiscoveredDeviceView| discovered_device_block(d)),
            out@ == joined(lines.subrange(0, i as int), "\n\n"@),
        decreases devices@.len() - i,
    {
        if i > 0 {
            append_str(&mut out, "\n\n");
        }
        append_discovered_device_block(&mut out, &devices[i]);
        proof {
            let prev = lines.subrange(0, i as int);
            let next = lines.subrange(0, i + 1);
            assert(next.drop_last() =~= prev);
            assert(next.last() == discovered_device_block(views[i as int]));
            if i == 0 {
                assert(joined(prev, "\n\n"@) =~= Seq::<char>::empty());
            }
        }
        i = i + 1;
    }
    assert(lines.subrange(0, devices@.len() as int) =~= lines);
    out
}

/// A signed count in decimal.
pub open spec fn signed_text(v: int) -> Seq<char> {
    if v < 0 { "-"@ + decimal((-v) as nat) } else { decimal(v as nat) }
}

pub(crate) fn append_signed(out: &mut String, v: i32)
    ensures
        final(out)@ == old(out)@ + signed_text(v as int),
{
    if v < 0 {
        append_str(out, "-");
        let magnitude: i64 = -(v as i64);
        append_decimal(out, magnitude as u64);
    } else {
        append_decimal(out, v as u64);
    }
    assert(out@ =~= old(out)@ + signed_text(v as int));
}

/// An optional count, or `none`.
pub open spec fn opt_count_text(o: Option<u64>) -> Seq<char> {
    match o {
        Some(v) => decimal(v as nat),
        None => "none"@,
    }
}

fn append_opt_count(out: &mut String, o: Option<u64>)
    ensures
        final(out)@ == old(out)@ + opt_count_text(o),
{
    match o {
        Some(v) => append_decimal(out, v),
        None => append_str(out, "none"),
    }
}

pub open spec fn sync_state_text(s: ReceiverSyncState) -> Seq<char> {
    match s {
        ReceiverSyncState::Idle => "Idle"@,
        ReceiverSyncState::Priming => "Priming"@,
        ReceiverSyncState::Locked => "Locked"@,
        ReceiverSyncState::Late => "Late"@,
        ReceiverSyncState::Recovering => "Recovering"@,
    }
}

/// The name of a synchronisation state as it is spelled in code.
pub fn sync_state_label(s: ReceiverSyncState) -> (r: &'static str)
    ensures
        r@ == sync_state_text(s),
{
    match s {
        ReceiverSyncState::Idle => "Idle",
        ReceiverSyncState::Priming => "Priming",
        ReceiverSyncState::Locked => "Locked",
        ReceiverSyncState::Late => "Late",
        ReceiverSyncState::Recovering => "Recovering",
    }
}

/// `rateHz/channelsch/format/framesfpp`.
pub open spec fn stream_shape_text(s: ReceiverStreamConfig) -> Seq<char> {
    decimal(s.sample_rate_hz as nat) + "Hz/"@ + decimal(s.channels as nat) + "ch/"@
        + sample_format_text(s.sample_format) + "/"@ + decimal(s.frames_per_packet as nat) + "fpp"@
}

fn append_stream_shape(out: &mut String, s: &ReceiverStreamConfig)
    ensures
        final(out)@ == old(out)@ + stream_shape_text(*s),
{
    append_decimal(out, s.sample_rate_hz as u64);
    append_str(out, "Hz/");
    append_decimal(out, s.channels as u64);
    append_str(out, "ch/");
    append_str(out, sample_format_label(s.sample_format));
    append_str(out, "/");
    append_decimal(out, s.frames_per_packet as u64);
    append_str(out, "fpp");
    assert(out@ =~= old(out)@ + stream_shape_text(*s));
}

/// The connected sender: session, remote address, stream shape and the
/// latency it asked for; `none` when nobody is connected.
pub open spec fn connection_text(c: Option<ReceiverConnectionInfoView>) -> Seq<char> {
    match c {
        Some(c) => "session="@ + c.session_id + " remote="@ + match c.remote_addr {
            Some(a) => socket_text(a),
            None => "unresolved"@,
        } + " stream="@ + stream_shape_text(c.stream) + " requested="@ + decimal(c.requested_latency_ms as nat)
            + "ms"@,
        None => "none"@,
    }
}

fn append_connection(out: &mut String, c: &Option<ReceiverConnectionInfo>)
    ensures
        final(out)@ == old(out)@ + connection_text(match c { Some(c) => Some(c@), None => None }),
{
    match c {
        Some(c) => {
            append_str(out, "session=");
            append_str(out, c.session_id.as_str());
            append_str(out, " remote=");
            match &c.remote_addr {
                Some(a) => {
                    let text = socket_address_text(a);
                    append_str(out, text.as_str());
                },
                None => append_str(out, "unresolved"),
            }
            append_str(out, " stream=");
            append_stream_shape(out, &c.stream);
            append_str(out, " requested=");
            append_decimal(out, c.requested_latency_ms as u64);
            append_str(out, "ms");
            assert(out@ =~= old(out)@ + connection_text(Some(c@)));
        },
        None => append_str(out, "none"),
    }
}

pub open spec fn receiver_buffer_text(b: ReceiverBufferSnapshot) -> Seq<char> {
    "\nBuffer: "@ + decimal(b.queued_packets as nat) + " packet(s), "@ + decimal(b.queued_frames as nat)
        + " frame(s), "@ + decimal(b.queued_audio_ms as nat) + " ms queued, target "@
        + decimal(b.target_buffer_ms as nat) + " ms, max "@ + decimal(b.max_buffer_ms as nat) + " ms, "@
        + decimal(b.spec_fill_percent() as nat) + "% full"@
}

fn append_receiver_buffer(out: &mut String, b: &ReceiverBufferSnapshot)
    ensures
        final(out)@ == old(out)@ + receiver_buffer_text(*b),
{
    append_str(out, "\nBuffer: ");
    append_decimal(out, b.queued_packets as u64);
    append_str(out, " packet(s), ");
    append_decimal(out, b.queued_frames);
    append_str(out, " frame(s), ");
    append_decimal(out, b.queued_audio_ms as u64);
    append_str(out, " ms queued, target ");
    append_decimal(out, b.target_buffer_ms as u64);
    append_str(out, " ms, max ");
    append_decimal(out, b.max_buffer_ms as u64);
    append_str(out, " ms, ");
    append_decimal(out, b.fill_percent() as u64);
    append_str(out, "% full");
    assert(out@ =~= old(out)@ + receiver_buffer_text(*b));
}

pub open spec fn sync_head_text(s: ReceiverSyncSnapshot) -> Seq<char> {
    "\nSync: state="@ + sync_state_text(s.state) + " expected="@ + decimal(s.expected_output_latency_ms as nat)
        + " ms requested="@ + match s.requested_latency_ms {
            Some(v) => decimal(v as nat),
            None => "none"@,
        } + " queued="@ + decimal(s.queued_audio_ms as nat)
}

pub open spec fn sync_drift_text(s: ReceiverSyncSnapshot) -> Seq<char> {
    " ms buffer delta="@ + signed_text(s.buffer_delta_ms as int) + " ms schedule error="@
        + signed_text(s.schedule_error_ms as int) + " ms late drops="@ + decimal(s.late_packet_drops as nat)
        + " resets="@ + decimal(s.sync_resets as nat)
}

pub open spec fn sync_sender_text(s: ReceiverSyncSnapshot) -> Seq<char> {
    " last sender ts="@ + opt_count_text(s.last_sender_timestamp_ms) + " last sender unix="@
        + opt_count_text(s.last_sender_capture_unix_ms)
}

pub open spec fn receiver_sync_text(s: ReceiverSyncSnapshot) -> Seq<char> {
    sync_head_text(s) + sync_drift_text(s) + sync_sender_text(s)
}

fn append_sync_head(out: &mut String, s: &ReceiverSyncSnapshot)
    ensures
        final(out)@ == old(out)@ + sync_head_text(*s),
{
    append_str(out, "\nSync: state=");
    append_str(out, sync_state_label(s.state));
    append_str(out, " expected=");
    append_decimal(out, s.expected_output_latency_ms as u64);
    append_str(out, " ms requested=");
    match s.requested_latency_ms {
        Some(v) => append_decimal(out, v as u64),
        None => append_str(out, "none"),
    }
    append_str(out, " queued=");
    append_decimal(out, s.queued_audio_ms as u64);
    assert(out@ =~= old(out)@ + sync_head_text(*s));
}

fn append_sync_drift(out: &mut String, s: &ReceiverSyncSnapshot)
    ensures
        final(out)@ == old(out)@ + sync_drift_text(*s),
{
    append_str(out, " ms buffer delta=");
    append_signed(out, s.buffer_delta_ms);
    append_str(out, " ms schedule error=");
    append_signed(out, s.schedule_error_ms);
    append_str(out, " ms late drops=");
    append_decimal(out, s.late_packet_drops);
    append_str(out, " resets=");
    append_decimal(out, s.sync_resets);
    assert(out@ =~= old(out)@ + sync_drift_text(*s));
}

fn append_receiver_sync(out: &mut String, s: &ReceiverSyncSnapshot)
    ensures
        final(out)@ == old(out)@ + receiver_sync_text(*s),
{
    append_sync_head(out, s);
    append_sync_drift(out, s);
    let ghost mid = out@;
    append_str(out, " last sender ts=");
    append_opt_count(out, s.last_sender_timestamp_ms);
    append_str(out, " last sender unix=");
    append_opt_count(out, s.last_sender_capture_unix_ms);
    assert(out@ =~= mid + sync_sender_text(*s));
    assert(out@ =~= old(out)@ + receiver_sync_text(*s));
}

pub open spec fn receiver_metrics_in_text(m: ReceiverMetrics) -> Seq<char> {
    "\nMetrics: packets in="@ + decimal(m.packets_received as nat) + " frames in="@
        + decimal(m.frames_received as nat) + " bytes in="@ + decimal(m.bytes_received as nat)
        + " packets out="@ + decimal(m.packets_played as nat)
}

pub open spec fn receiver_metrics_out_text(m: ReceiverMetrics) -> Seq<char> {
    " frames out="@ + decimal(m.frames_played as nat) + " bytes out="@ + decimal(m.bytes_played as nat)
        + " underruns="@ + decimal(m.underruns as nat) + " overruns="@ + decimal(m.overruns as nat)
        + " reconnect attempts="@ + decimal(m.reconnect_attempts as nat)
}

fn append_receiver_metrics(out: &mut String, m: &ReceiverMetrics)
    ensures
        final(out)@ == old(out)@ + (receiver_metrics_in_text(*m) + receiver_metrics_out_text(*m)),
{
    append_str(out, "\nMetrics: packets in=");
    append_decimal(out, m.packets_received);
    append_str(out, " frames in=");
    append_decimal(out, m.frames_received);
    append_str(out, " bytes in=");
    append_decimal(out, m.bytes_received);
    append_str(out, " packets out=");
    append_decimal(out, m.packets_played);
    let ghost mid = out@;
    assert(mid =~= old(out)@ + receiver_metrics_in_text(*m));
    append_str(out, " frames out=");
    append_decimal(out, m.frames_played);
    append_str(out, " bytes out=");
    append_decimal(out, m.bytes_played);
    append_str(out, " underruns=");
    append_decimal(out, m.underruns);
    append_str(out, " overruns=");
    append_decimal(out, m.overruns);
    append_str(out, " reconnect attempts=");
    append_decimal(out, m.reconnect_attempts);
    assert(out@ =~= mid + receiver_metrics_out_text(*m));
    assert(out@ =~= old(out)@ + (receiver_metrics_in_text(*m) + receiver_metrics_out_text(*m)));
}

pub open spec fn receiver_identity_text(s: AppStateView) -> Seq<char> {
    "State: "@ + receiver_state_text(s.receiver.state) + "\nAdvertised name: "@ + s.receiver.advertised_name
        + "\nListen address: "@ + s.receiver.bind_host + ":"@ + decimal(s.receiver.listen_port as nat)
        + "\nLatency preset: "@ + latency_preset_text(s.receiver.latency_preset) + "\nPlayback backend: "@
        + or_text(s.receiver.playback_backend, "not configured"@)
}

pub open spec fn receiver_output_text(s: AppStateView) -> Seq<char> {
    "\nPlayback target: "@ + selected_target_text(s.playback_targets, s.receiver.playback_target_id)
        + " (available="@ + bool_text(target_available(s.config.receiver.playback_target_id, s.playback_targets))
        + ")\nConnection: "@ + connection_text(s.receiver.connection)
}

pub open spec fn receiver_tail_text(s: AppStateView) -> Seq<char> {
    "\nLast error: "@ + or_text(s.receiver.last_error, "none"@)
        + "\nInternal app flow: use the Start/Stop buttons here; the TCP receiver listener already submits Connected, AudioPacket, KeepAlive, and Disconnected events into the runtime."@
}

/// The receiver page: state, name, listen address, latency preset,
/// playback backend and target, connection, buffer, synchronisation,
/// metrics and last error.
pub open spec fn receiver_status_text(s: AppStateView) -> Seq<char> {
    receiver_identity_text(s) + receiver_output_text(s) + receiver_buffer_text(s.receiver.buffer)
        + receiver_sync_text(s.receiver.sync) + receiver_metrics_in_text(s.receiver.metrics)
        + receiver_metrics_out_text(s.receiver.metrics) + receiver_tail_text(s)
}

fn append_receiver_identity(out: &mut String, state: &AppState)
    ensures
        final(out)@ == old(out)@ + receiver_identity_text(state@),
{
    let receiver = &state.receiver;
    append_str(out, "State: ");
    append_str(out, receiver_state_label(receiver.state));
    append_str(out, "\nAdvertised name: ");
    append_str(out, receiver.advertised_name.as_str());
    append_str(out, "\nListen address: ");
    append_str(out, receiver.bind_host.as_str());
    append_str(out, ":");
    append_decimal(out, receiver.listen_port as u64);
    append_str(out, "\nLatency preset: ");
    append_str(out, latency_preset_label(receiver.latency_preset));
    append_str(out, "\nPlayback backend: ");
    append_or(out, &receiver.playback_backend, "not configured");
    assert(out@ =~= old(out)@ + receiver_identity_text(state@));
}

fn append_receiver_output(out: &mut String, state: &AppState)
    ensures
        final(out)@ == old(out)@ + receiver_output_text(state@),
{
    append_str(out, "\nPlayback target: ");
    let target = format_selected_playback_target(state, opt_as_str(&state.receiver.playback_target_id));
    append_str(out, target.as_str());
    append_str(out, " (available=");
    let available = bool_string(state.receiver_playback_target_available());
    append_str(out, available.as_str());
    append_str(out, ")\nConnection: ");
    append_connection(out, &state.receiver.connection);
    assert(out@ =~= old(out)@ + receiver_output_text(state@));
}

/// The receiver page's status text.
#[verifier::spinoff_prover]
pub fn format_receiver_status(state: &AppState) -> (r: String)
    ensures
        r@ == receiver_status_text(state@),
{
    let mut out = String::new();
    append_receiver_identity(&mut out, state);
    append_receiver_output(&mut out, state);
    append_receiver_buffer(&mut out, &state.receiver.buffer);
    append_receiver_sync(&mut out, &state.receiver.sync);
    append_receiver_metrics(&mut out, &state.receiver.metrics);
    let ghost mid = out@;
    append_str(&mut out, "\nLast error: ");
    append_or(&mut out, &state.receiver.last_error, "none");
    append_str(
        &mut out,
        "\nInternal app flow: use the Start/Stop buttons here; the TCP receiver listener already submits Connected, AudioPacket, KeepAlive, and Disconnected events into the runtime.",
    );
    assert(out@ =~= mid + receiver_tail_text(state@));
    assert(out@ =~= receiver_status_text(state@));
    out
}

fn append_opt_stream_shape(out: &mut String, s: &Option<ReceiverStreamConfig>, default: &str)
    ensures
        final(out)@ == old(out)@ + match *s {
            Some(s) => stream_shape_text(s),
            None => default@,
        },
{
    match s {
        Some(s) => append_stream_shape(out, s),
        None => append_str(out, default),
    }
}

fn append_opt_id(out: &mut String, o: &Option<crate::models::DeviceId>, default: &str)
    ensures
        final(out)@ == old(out)@ + or_text(crate::state::opt_id_view(*o), default@),
{
    match o {
        Some(id) => append_str(out, id.as_str()),
        None => append_str(out, default),
    }
}

/// The local mirror's wish, state, buffer, what it played and its last
/// error; `backend_target` sits between state and buffer.
pub open spec fn mirror_body_text(m: LocalMirrorSnapshotView) -> Seq<char> {
    " buffer="@ + branch_buffer_text(m.buffer) + " played packets="@ + decimal(m.packets_played as nat)
        + " bytes="@ + decimal(m.bytes_played as nat) + " error="@ + or_text(m.last_error, "none"@)
}

fn append_mirror_body(out: &mut String, m: &LocalMirrorSnapshot)
    ensures
        final(out)@ == old(out)@ + mirror_body_text(m@),
{
    append_str(out, " buffer=");
    append_branch_buffer(out, &m.buffer);
    append_str(out, " played packets=");
    append_decimal(out, m.packets_played);
    append_str(out, " bytes=");
    append_decimal(out, m.bytes_played);
    append_str(out, " error=");
    append_or(out, &m.last_error, "none");
    assert(out@ =~= old(out)@ + mirror_body_text(m@));
}

pub open spec fn local_output_text(s: AppStateView) -> Seq<char> {
    selected_target_text(s.playback_targets, s.config.audio.local_playback_target_id) + " (available="@
        + bool_text(target_available(s.config.audio.local_playback_target_id, s.playback_targets)) + ")"@
}

fn append_local_output(out: &mut String, state: &AppState)
    ensures
        final(out)@ == old(out)@ + local_output_text(state@),
{
    let target = format_selected_playback_target(state, opt_as_str(&state.config.audio.local_playback_target_id));
    append_str(out, target.as_str());
    append_str(out, " (available=");
    let available = bool_string(state.local_playback_target_available());
    append_str(out, available.as_str());
    append_str(out, ")");
    assert(out@ =~= old(out)@ + local_output_text(state@));
}

pub open spec fn streaming_head_text(s: AppStateView) -> Seq<char> {
    "State: "@ + session_state_text(s.streaming.state) + "\nSelected receiver id: "@
        + or_text(s.selected_receiver_device_id, "none"@) + "\nSender session id: "@
        + or_text(s.streaming.session_id, "not started"@) + "\nStream: "@ + match s.streaming.stream {
            Some(c) => stream_shape_text(c),
            None => "not negotiated"@,
        }
}

pub open spec fn streaming_targets_text(s: AppStateView) -> Seq<char> {
    "\nActive target count: "@ + decimal(s.streaming.targets.len()) + "\nTargets:\n"@
        + target_statuses_text(s.streaming.targets)
}

pub open spec fn streaming_mirror_text(s: AppStateView) -> Seq<char> {
    "\nLocal mirror output: "@ + local_output_text(s) + "\nLocal mirror: desired="@
        + bool_text(s.streaming.local_mirror.desired_enabled) + " state="@
        + mirror_state_text(s.streaming.local_mirror.state) + " backend="@
        + or_text(s.streaming.local_mirror.playback_backend, "not configured"@) + " target="@
        + selected_target_text(s.playback_targets, s.streaming.local_mirror.playback_target_id)
        + mirror_body_text(s.streaming.local_mirror)
}

pub open spec fn aggregate_sent_text(m: StreamMetrics) -> Seq<char> {
    "\nAggregate metrics: packets sent="@ + decimal(m.packets_sent as nat) + " packets received="@
        + decimal(m.packets_received as nat) + " bytes sent="@ + decimal(m.bytes_sent as nat)
        + " bytes received="@ + decimal(m.bytes_received as nat)
}

pub open spec fn aggregate_rate_text(m: StreamMetrics) -> Seq<char> {
    " bitrate="@ + decimal(m.estimated_bitrate_bps as nat) + "bps latency estimate="@
        + opt_u32_debug(m.latency_estimate_ms) + "ms packet gaps="@ + decimal(m.packet_gaps as nat)
        + " keepalives sent="@ + decimal(m.keepalives_sent as nat) + " keepalives received="@
        + decimal(m.keepalives_received as nat)
}

pub open spec fn streaming_tail_text(s: AppStateView) -> Seq<char> {
    "\nLast error: "@ + or_text(s.streaming.last_error, "none"@)
        + "\nSplit-stream path: PipeWire capture -> explicit branch fan-out -> [per-target bounded network queue -> per-target TCP framed transport -> receiver runtime -> PipeWire playback] + [bounded local mirror queue -> sender-side PipeWire playback]."@
}

/// The cast page: session state, selected receiver, session identifier,
/// stream shape, targets, local mirror, aggregate metrics and last error.
pub open spec fn streaming_status_text(s: AppStateView) -> Seq<char> {
    streaming_head_text(s) + streaming_targets_text(s) + streaming_mirror_text(s)
        + aggregate_sent_text(s.streaming.metrics) + aggregate_rate_text(s.streaming.metrics)
        + streaming_tail_text(s)
}

fn append_streaming_head(out: &mut String, state: &AppState)
    ensures
        final(out)@ == old(out)@ + streaming_head_text(state@),
{
    append_str(out, "State: ");
    append_str(out, session_state_label(state.streaming.state));
    append_str(out, "\nSelected receiver id: ");
    append_opt_id(out, &state.selected_receiver_device_id, "none");
    append_str(out, "\nSender session id: ");
    append_or(out, &state.streaming.session_id, "not started");
    append_str(out, "\nStream: ");
    append_opt_stream_shape(out, &state.streaming.stream, "not negotiated");
    assert(out@ =~= old(out)@ + streaming_head_text(state@));
}

fn append_streaming_targets(out: &mut String, state: &AppState)
    ensures
        final(out)@ == old(out)@ + streaming_targets_text(state@),
{
    append_str(out, "\nActive target count: ");
    append_decimal(out, state.streaming.active_target_count() as u64);
    append_str(out, "\nTargets:\n");
    append_target_statuses(out, state.streaming.targets.as_slice());
    assert(target_views(state.streaming.targets@) =~= state@.streaming.targets);
    assert(out@ =~= old(out)@ + streaming_targets_text(state@));
}

fn append_streaming_mirror(out: &mut String, state: &AppState)
    ensures
        final(out)@ == old(out)@ + streaming_mirror_text(state@),
{
    let mirror = &state.streaming.local_mirror;
    append_str(out, "\nLocal mirror output: ");
    append_local_output(out, state);
    append_str(out, "\nLocal mirror: desired=");
    let desired = bool_string(mirror.desired_enabled);
    append_str(out, desired.as_str());
    append_str(out, " state=");
    append_str(out, mirror_state_label(mirror.state));
    append_str(out, " backend=");
    append_or(out, &mirror.playback_backend, "not configured");
    append_str(out, " target=");
    let target = format_selected_playback_target(state, opt_as_str(&mirror.playback_target_id));
    append_str(out, target.as_str());
    append_mirror_body(out, mirror);
    assert(out@ =~= old(out)@ + streaming_mirror_text(state@));
}

fn append_aggregate_metrics(out: &mut String, m: &StreamMetrics)
    ensures
        final(out)@ == old(out)@ + (aggregate_sent_text(*m) + aggregate_rate_text(*m)),
{
    append_str(out, "\nAggregate metrics: packets sent=");
    append_decimal(out, m.packets_sent);
    append_str(out, " packets received=");
    append_decimal(out, m.packets_received);
    append_str(out, " bytes sent=");
    append_decimal(out, m.bytes_sent);
    append_str(out, " bytes received=");
    append_decimal(out, m.bytes_received);
    let ghost mid = out@;
    assert(mid =~= old(out)@ + aggregate_sent_text(*m));
    append_str(out, " bitrate=");
    append_decimal(out, m.estimated_bitrate_bps);
    append_str(out, "bps latency estimate=");
    append_opt_u32_debug(out, m.latency_estimate_ms);
    append_str(out, "ms packet gaps=");
    append_decimal(out, m.packet_gaps);
    append_str(out, " keepalives sent=");
    append_decimal(out, m.keepalives_sent);
    append_str(out, " keepalives received=");
    append_decimal(out, m.keepalives_received);
    assert(out@ =~= mid + aggregate_rate_text(*m));
    assert(out@ =~= old(out)@ + (aggregate_sent_text(*m) + aggregate_rate_text(*m)));
}

/// The cast page's status text.
#[verifier::spinoff_prover]
pub fn format_streaming_status(state: &AppState) -> (r: String)
    ensures
        r@ == streaming_status_text(state@),
{
    let mut out = String::new();
    append_streaming_head(&mut out, state);
    append_streaming_targets(&mut out, state);
    append_streaming_mirror(&mut out, state);
    append_aggregate_metrics(&mut out, &state.streaming.metrics);
    let ghost mid = out@;
    append_str(&mut out, "\nLast error: ");
    append_or(&mut out, &state.streaming.last_error, "none");
    append_str(
        &mut out,
        "\nSplit-stream path: PipeWire capture -> explicit branch fan-out -> [per-target bounded network queue -> per-target TCP framed transport -> receiver runtime -> PipeWire playback] + [bounded local mirror queue -> sender-side PipeWire playback].",
    );
    assert(out@ =~= mid + streaming_tail_text(state@));
    assert(out@ =~= streaming_status_text(state@));
    out
}

pub open spec fn cast_session_text(s: CastSessionState) -> Seq<char> {
    match s {
        CastSessionState::Idle => "Idle"@,
        CastSessionState::Preparing => "Preparing"@,
        CastSessionState::Casting => "Casting"@,
        CastSessionState::Stopping => "Stopping"@,
        CastSessionState::Error => "Error"@,
    }
}

/// The name of a cast session state as it is spelled in code.
pub fn cast_session_label(s: CastSessionState) -> (r: &'static str)
    ensures
        r@ == cast_session_text(s),
{
    match s {
        CastSessionState::Idle => "Idle",
        CastSessionState::Preparing => "Preparing",
        CastSessionState::Casting => "Casting",
        CastSessionState::Stopping => "Stopping",
        CastSessionState::Error => "Error",
    }
}

pub open spec fn capture_state_text(s: CaptureState) -> Seq<char> {
    match s {
        CaptureState::Idle => "Idle"@,
        CaptureState::Starting => "Starting"@,
        CaptureState::Capturing => "Capturing"@,
        CaptureState::SourceChanged => "SourceChanged"@,
        CaptureState::DeviceDisconnected => "DeviceDisconnected"@,
        CaptureState::Stopped => "Stopped"@,
        CaptureState::Failed => "Failed"@,
    }
}

/// The name of a capture state as it is spelled in code.
pub fn capture_state_label(s: CaptureState) -> (r: &'static str)
    ensures
        r@ == capture_state_text(s),
{
    match s {
        CaptureState::Idle => "Idle",
        CaptureState::Starting => "Starting",
        CaptureState::Capturing => "Capturing",
        CaptureState::SourceChanged => "SourceChanged",
        CaptureState::DeviceDisconnected => "DeviceDisconnected",
        CaptureState::Stopped => "Stopped",
        CaptureState::Failed => "Failed",
    }
}

/// Number of outputs that are Bluetooth devices.
pub open spec fn count_bluetooth(s: Seq<PlaybackTargetView>) -> nat
    decreases s.len(),
{
    if s.len() == 0 {
        0
    } else {
        count_bluetooth(s.drop_last()) + if s.last().kind == PlaybackTargetKind::Bluetooth { 1nat } else { 0nat }
    }
}

/// Number of cast targets whose health is `Healthy`.
pub open spec fn count_healthy_views(s: Seq<StreamTargetSnapshotView>) -> nat
    decreases s.len(),
{
    if s.len() == 0 {
        0
    } else {
        count_healthy_views(s.drop_last()) + if s.last().health == StreamTargetHealth::Healthy { 1nat } else { 0nat }
    }
}

proof fn lemma_count_healthy_views(s: Seq<StreamTargetSnapshot>)
    ensures
        count_healthy(s) == count_healthy_views(target_views(s)),
    decreases s.len(),
{
    if s.len() > 0 {
        lemma_count_healthy_views(s.drop_last());
        assert(target_views(s).drop_last() =~= target_views(s.drop_last()));
    }
}

pub(crate) fn bluetooth_output_count(targets: &Vec<PlaybackTarget>) -> (r: usize)
    ensures
        r == count_bluetooth(crate::models::target_views(targets@)),
{
    let ghost views = crate::models::target_views(targets@);
    let mut count: usize = 0;
    let mut i: usize = 0;
    while i < targets.len()
        invariant
            i <= targets@.len(),
            views == crate::models::target_views(targets@),
            count == count_bluetooth(views.subrange(0, i as int)),
            count <= i,
        decreases targets@.len() - i,
    {
        assert(views.subrange(0, i + 1).drop_last() =~= views.subrange(0, i as int));
        if targets[i].is_bluetooth() {
            count = count + 1;
        }
        i = i + 1;
    }
    assert(views.subrange(0, targets@.len() as int) =~= views);
    count
}

pub open spec fn dashboard_head_text(s: AppStateView) -> Seq<char> {
    "Session: "@ + cast_session_text(s.cast_session) + "\nCapture: "@ + capture_state_text(s.capture_state)
        + "\nStreaming: "@ + session_state_text(s.streaming.state) + "\nSelected receiver: "@
        + or_text(s.selected_receiver_device_id, "none"@)
}

pub open spec fn dashboard_counts_text(s: AppStateView) -> Seq<char> {
    "\nTarget sessions: total="@ + decimal(s.streaming.targets.len()) + " healthy="@
        + decimal(count_healthy_views(s.streaming.targets)) + "\nPlayback outputs: total="@
        + decimal(s.playback_targets.len()) + " bluetooth="@ + decimal(count_bluetooth(s.playback_targets))
}

pub open spec fn dashboard_outputs_text(s: AppStateView) -> Seq<char> {
    "\nLocal mirror output: "@ + local_output_text(s) + "\nReceiver output: "@
        + selected_target_text(s.playback_targets, s.config.receiver.playback_target_id) + " (available="@
        + bool_text(target_available(s.config.receiver.playback_target_id, s.playback_targets)) + ")"@
}

pub open spec fn dashboard_mirror_text(s: AppStateView) -> Seq<char> {
    "\nLocal mirror: desired="@ + bool_text(s.streaming.local_mirror.desired_enabled) + " state="@
        + mirror_state_text(s.streaming.local_mirror.state) + mirror_body_text(s.streaming.local_mirror)
}

pub open spec fn dashboard_sender_text(m: StreamMetrics) -> Seq<char> {
    "\nSender aggregate metrics: packets sent="@ + decimal(m.packets_sent as nat) + " bytes sent="@
        + decimal(m.bytes_sent as nat) + " bitrate="@ + decimal(m.estimated_bitrate_bps as nat) + "bps latency="@
        + opt_u32_debug(m.latency_estimate_ms) + "ms gaps="@ + decimal(m.packet_gaps as nat) + " keepalives="@
        + decimal(m.keepalives_sent as nat) + "/"@ + decimal(m.keepalives_received as nat)
}

pub open spec fn dashboard_receiver_text(s: AppStateView) -> Seq<char> {
    "\nReceiver: "@ + receiver_state_text(s.receiver.state) + "\nReceiver buffer: "@
        + decimal(s.receiver.buffer.spec_fill_percent() as nat) + "% ("@
        + decimal(s.receiver.buffer.queued_packets as nat) + " / "@ + decimal(s.receiver.buffer.max_packets as nat)
        + " packets)"@
}

pub open spec fn dashboard_receiver_metrics_text(m: ReceiverMetrics) -> Seq<char> {
    "\nReceiver metrics: packets in="@ + decimal(m.packets_received as nat) + " played="@
        + decimal(m.packets_played as nat) + " underruns="@ + decimal(m.underruns as nat) + " overruns="@
        + decimal(m.overruns as nat) + " reconnects="@ + decimal(m.reconnect_attempts as nat)
}

pub open spec fn dashboard_tail_text(s: AppStateView, backend: Seq<char>, source_summary: Seq<char>) -> Seq<char> {
    "\nAudio backend: "@ + backend + "\n"@ + source_summary + "\nDefault stream port: "@
        + decimal(s.config.transport.stream_port as nat) + "\nLocal playback default: "@
        + if s.config.audio.local_playback_enabled { "enabled"@ } else { "disabled"@ }
}

/// The dashboard: session, capture and streaming states, selected
/// receiver, target and output counts, both outputs, the local mirror,
/// sender and receiver figures, the audio backend with its source summary,
/// the stream port and whether local playback is on by default.
pub open spec fn dashboard_status_text(s: AppStateView, backend: Seq<char>, source_summary: Seq<char>) -> Seq<char> {
    dashboard_head_text(s) + dashboard_counts_text(s) + dashboard_outputs_text(s) + dashboard_mirror_text(s)
        + dashboard_sender_text(s.streaming.metrics) + dashboard_receiver_text(s)
        + dashboard_receiver_metrics_text(s.receiver.metrics) + dashboard_tail_text(s, backend, source_summary)
}

fn append_dashboard_head(out: &mut String, state: &AppState)
    ensures
        final(out)@ == old(out)@ + dashboard_head_text(state@),
{
    append_str(out, "Session: ");
    append_str(out, cast_session_label(state.cast_session));
    append_str(out, "\nCapture: ");
    append_str(out, capture_state_label(state.capture_state));
    append_str(out, "\nStreaming: ");
    append_str(out, session_state_label(state.streaming.state));
    append_str(out, "\nSelected receiver: ");
    append_opt_id(out, &state.selected_receiver_device_id, "none");
    assert(out@ =~= old(out)@ + dashboard_head_text(state@));
}

fn append_dashboard_counts(out: &mut String, state: &AppState)
    ensures
        final(out)@ == old(out)@ + dashboard_counts_text(state@),
{
    let healthy = state.streaming.healthy_target_count();
    let bluetooth = bluetooth_output_count(&state.playback_targets);
    proof {
        lemma_count_healthy_views(state.streaming.targets@);
        assert(target_views(state.streaming.targets@) =~= state@.streaming.targets);
    }
    append_str(out, "\nTarget sessions: total=");
    append_decimal(out, state.streaming.active_target_count() as u64);
    append_str(out, " healthy=");
    append_decimal(out, healthy as u64);
    append_str(out, "\nPlayback outputs: total=");
    append_decimal(out, state.playback_targets.len() as u64);
    append_str(out, " bluetooth=");
    append_decimal(out, bluetooth as u64);
    assert(out@ =~= old(out)@ + dashboard_counts_text(state@));
}

fn append_dashboard_outputs(out: &mut String, state: &AppState)
    ensures
        final(out)@ == old(out)@ + dashboard_outputs_text(state@),
{
    append_str(out, "\nLocal mirror output: ");
    append_local_output(out, state);
    append_str(out, "\nReceiver output: ");
    let target = format_selected_playback_target(state, opt_as_str(&state.config.receiver.playback_target_id));
    append_str(out, target.as_str());
    append_str(out, " (available=");
    let available = bool_string(state.receiver_playback_target_available());
    append_str(out, available.as_str());
    append_str(out, ")");
    assert(out@ =~= old(out)@ + dashboard_outputs_text(state@));
}

fn append_dashboard_mirror(out: &mut String, state: &AppState)
    ensures
        final(out)@ == old(out)@ + dashboard_mirror_text(state@),
{
    let mirror = &state.streaming.local_mirror;
    append_str(out, "\nLocal mirror: desired=");
    let desired = bool_string(mirror.desired_enabled);
    append_str(out, desired.as_str());
    append_str(out, " state=");
    append_str(out, mirror_state_label(mirror.state));
    append_mirror_body(out, mirror);
    assert(out@ =~= old(out)@ + dashboard_mirror_text(state@));
}

fn append_dashboard_sender(out: &mut String, m: &StreamMetrics)
    ensures
        final(out)@ == old(out)@ + dashboard_sender_text(*m),
{
    append_str(out, "\nSender aggregate metrics: packets sent=");
    append_decimal(out, m.packets_sent);
    append_str(out, " bytes sent=");
    append_decimal(out, m.bytes_sent);
    append_str(out, " bitrate=");
    append_decimal(out, m.estimated_bitrate_bps);
    append_str(out, "bps latency=");
    append_opt_u32_debug(out, m.latency_estimate_ms);
    append_str(out, "ms gaps=");
    append_decimal(out, m.packet_gaps);
    append_str(out, " keepalives=");
    append_decimal(out, m.keepalives_sent);
    append_str(out, "/");
    append_decimal(out, m.keepalives_received);
    assert(out@ =~= old(out)@ + dashboard_sender_text(*m));
}

fn append_dashboard_receiver(out: &mut String, state: &AppState)
    ensures
        final(out)@ == old(out)@ + (dashboard_receiver_text(state@)
            + dashboard_receiver_metrics_text(state@.receiver.metrics)),
{
    let receiver = &state.receiver;
    append_str(out, "\nReceiver: ");
    append_str(out, receiver_state_label(receiver.state));
    append_str(out, "\nReceiver buffer: ");
    append_decimal(out, receiver.buffer.fill_percent() as u64);
    append_str(out, "% (");
    append_decimal(out, receiver.buffer.queued_packets as u64);
    append_str(out, " / ");
    append_decimal(out, receiver.buffer.max_packets as u64);
    append_str(out, " packets)");
    let ghost mid = out@;
    assert(mid =~= old(out)@ + dashboard_receiver_text(state@));
    let m = &receiver.metrics;
    append_str(out, "\nReceiver metrics: packets in=");
    append_decimal(out, m.packets_received);
    append_str(out, " played=");
    append_decimal(out, m.packets_played);
    append_str(out, " underruns=");
    append_decimal(out, m.underruns);
    append_str(out, " overruns=");
    append_decimal(out, m.overruns);
    append_str(out, " reconnects=");
    append_decimal(out, m.reconnect_attempts);
    assert(out@ =~= mid + dashboard_receiver_metrics_text(state@.receiver.metrics));
    assert(out@ =~= old(out)@ + (dashboard_receiver_text(state@)
        + dashboard_receiver_metrics_text(state@.receiver.metrics)));
}

/// The dashboard's status text; `audio_backend_name` and
/// `audio_source_summary` come from the audio backend.
#[verifier::spinoff_prover]
pub fn format_dashboard_status(state: &AppState, audio_backend_name: &str, audio_source_summary: &str) -> (r: String)
    ensures
        r@ == dashboard_status_text(state@, audio_backend_name@, audio_source_summary@),
{
    let mut out = String::new();
    append_dashboard_head(&mut out, state);
    append_dashboard_counts(&mut out, state);
    append_dashboard_outputs(&mut out, state);
    append_dashboard_mirror(&mut out, state);
    append_dashboard_sender(&mut out, &state.streaming.metrics);
    append_dashboard_receiver(&mut out, state);
    let ghost mid = out@;
    append_str(&mut out, "\nAudio backend: ");
    append_str(&mut out, audio_backend_name);
    append_str(&mut out, "\n");
    append_str(&mut out, audio_source_summary);
    append_str(&mut out, "\nDefault stream port: ");
    append_decimal(&mut out, state.config.transport.stream_port as u64);
    append_str(&mut out, "\nLocal playback default: ");
    if state.config.audio.local_playback_enabled {
        append_str(&mut out, "enabled");
    } else {
        append_str(&mut out, "disabled");
    }
    assert(out@ =~= mid + dashboard_tail_text(state@, audio_backend_name@, audio_source_summary@));
    assert(out@ =~= dashboard_status_text(state@, audio_backend_name@, audio_source_summary@));
    out
}

} // verus!
