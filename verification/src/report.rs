//! What the diagnostics screen and bug reports show: a configuration
//! summary without identifying names, per-subsystem health snapshots, and
//! the compact plain-text report.

use vstd::prelude::*;
use crate::audio::AudioSampleFormat;
use crate::config::AppConfig;
use crate::diagnostics::{DiagnosticEvent, DiagnosticLevel};
use crate::models::QualityPreset;
use crate::receiver::ReceiverLatencyPreset;
use crate::diagnostics::DiagnosticEventView;
use crate::health::{KnownDeviceSnapshot, KnownDeviceSnapshotView, SubsystemSnapshot, known_views};
use crate::metadata::{
    APP_BUG_TRACKER, APP_NAME, APP_RELEASES, authors_display, colon_pieces, join_nonblank,
    release_channel_label, release_label,
};
use crate::models::opt_string_view;
use crate::text::{append_decimal, append_str, bool_string, bool_text, decimal, is_blank, str_is_blank};

verus! {

pub const MAX_RECENT_WARNINGS_ERRORS: usize = 12;

/// The configuration as diagnostics may show it: whether identifying
/// values are set, never the values themselves.
#[derive(Debug, Clone, PartialEq, Eq)]
pub struct RedactedConfigSummary {
    pub schema_version: u32,
    pub audio: RedactedAudioConfigSummary,
    pub discovery: RedactedDiscoveryConfigSummary,
    pub transport: RedactedTransportConfigSummary,
    pub receiver: RedactedReceiverConfigSummary,
    pub ui: RedactedUiConfigSummary,
    pub diagnostics: RedactedDiagnosticsConfigSummary,
}

#[derive(Debug, Clone, PartialEq, Eq)]
pub struct RedactedAudioConfigSummary {
    pub has_preferred_source_id: bool,
    pub local_playback_enabled: bool,
    pub has_local_playback_target_id: bool,
    pub sample_rate_hz: u32,
    pub channels: u16,
    pub sample_format: String,
    pub capture_buffer_frames: u32,
    pub capture_latency_ms: u16,
}

#[derive(Debug, Clone, PartialEq, Eq)]
pub struct RedactedDiscoveryConfigSummary {
    pub enabled: bool,
    pub service_type: String,
    pub stale_timeout_secs: u64,
}

#[derive(Debug, Clone, PartialEq, Eq)]
pub struct RedactedTransportConfigSummary {
    pub bind_host: String,
    pub stream_port: u16,
    pub quality_preset: String,
    pub target_latency_ms: u16,
    pub connect_timeout_ms: u16,
    pub heartbeat_interval_ms: u16,
}

#[derive(Debug, Clone, PartialEq, Eq)]
pub struct RedactedReceiverConfigSummary {
    pub enabled: bool,
    pub start_on_launch: bool,
    pub has_advertised_name: bool,
    pub bind_host: String,
    pub listen_port: u16,
    pub has_playback_target_id: bool,
    pub latency_preset: String,
}

#[derive(Debug, Clone, PartialEq, Eq)]
pub struct RedactedUiConfigSummary {
    pub prefer_dark_theme: bool,
    pub last_view_name: String,
}

#[derive(Debug, Clone, Copy, PartialEq, Eq, Structural)]
pub struct RedactedDiagnosticsConfigSummary {
    pub verbose_logging: bool,
}

pub open spec fn sample_format_text(f: AudioSampleFormat) -> Seq<char> {
    match f {
        AudioSampleFormat::S16Le => "S16Le"@,
        AudioSampleFormat::F32Le => "F32Le"@,
    }
}

/// The name of a sample format as it is spelled in code.
pub fn sample_format_label(f: AudioSampleFormat) -> (r: &'static str)
    ensures
        r@ == sample_format_text(f),
{
    match f {
        AudioSampleFormat::S16Le => "S16Le",
        AudioSampleFormat::F32Le => "F32Le",
    }
}

pub open spec fn quality_text(q: QualityPreset) -> Seq<char> {
    match q {
        QualityPreset::LowLatency => "LowLatency"@,
        QualityPreset::Balanced => "Balanced"@,
        QualityPreset::HighQuality => "HighQuality"@,
    }
}

pub fn quality_label(q: QualityPreset) -> (r: &'static str)
    ensures
        r@ == quality_text(q),
{
    match q {
        QualityPreset::LowLatency => "LowLatency",
        QualityPreset::Balanced => "Balanced",
        QualityPreset::HighQuality => "HighQuality",
    }
}

pub open spec fn latency_preset_text(p: ReceiverLatencyPreset) -> Seq<char> {
    match p {
        ReceiverLatencyPreset::LowLatency => "LowLatency"@,
        ReceiverLatencyPreset::Balanced => "Balanced"@,
        ReceiverLatencyPreset::Stable => "Stable"@,
    }
}

pub fn latency_preset_label(p: ReceiverLatencyPreset) -> (r: &'static str)
    ensures
        r@ == latency_preset_text(p),
{
    match p {
        ReceiverLatencyPreset::LowLatency => "LowLatency",
        ReceiverLatencyPreset::Balanced => "Balanced",
        ReceiverLatencyPreset::Stable => "Stable",
    }
}

impl RedactedConfigSummary {
    /// The summary of `config`: source, output and advertised names are
    /// only reported as present or absent.
    pub fn from_config(config: &AppConfig) -> (r: Self)
        ensures
            r.schema_version == config.schema_version,
            r.audio.has_preferred_source_id == config.audio.preferred_source_id is Some,
            r.audio.local_playback_enabled == config.audio.local_playback_enabled,
            r.audio.has_local_playback_target_id == config.audio.local_playback_target_id is Some,
            r.audio.sample_rate_hz == config.audio.sample_rate_hz,
            r.audio.channels == config.audio.channels,
            r.audio.sample_format@ == sample_format_text(config.audio.sample_format),
            r.audio.capture_buffer_frames == config.audio.capture_buffer_frames,
            r.audio.capture_latency_ms == config.audio.capture_latency_ms,
            r.discovery.enabled == config.discovery.enabled,
            r.discovery.service_type@ == config.discovery.service_type@,
            r.discovery.stale_timeout_secs == config.discovery.stale_timeout_secs,
            r.transport.bind_host@ == config.transport.bind_host@,
            r.transport.stream_port == config.transport.stream_port,
            r.transport.quality_preset@ == quality_text(config.transport.quality),
            r.transport.target_latency_ms == config.transport.target_latency_ms,
            r.transport.connect_timeout_ms == config.transport.connect_timeout_ms,
            r.transport.heartbeat_interval_ms == config.transport.heartbeat_interval_ms,
            r.receiver.enabled == config.receiver.enabled,
            r.receiver.start_on_launch == config.receiver.start_on_launch,
            r.receiver.has_advertised_name == !is_blank(config.receiver.advertised_name@),
            r.receiver.bind_host@ == config.receiver.bind_host@,
            r.receiver.listen_port == config.receiver.listen_port,
            r.receiver.has_playback_target_id == config.receiver.playback_target_id is Some,
            r.receiver.latency_preset@ == latency_preset_text(config.receiver.latency_preset),
            r.ui.prefer_dark_theme == config.ui.prefer_dark_theme,
            r.ui.last_view_name@ == config.ui.last_view_name@,
            r.diagnostics.verbose_logging == config.diagnostics.verbose_logging,
    {
        RedactedConfigSummary {
            schema_version: config.schema_version,
            audio: RedactedAudioConfigSummary {
                has_preferred_source_id: config.audio.preferred_source_id.is_some(),
                local_playback_enabled: config.audio.local_playback_enabled,
                has_local_playback_target_id: config.audio.local_playback_target_id.is_some(),
                sample_rate_hz: config.audio.sample_rate_hz,
                channels: config.audio.channels,
                sample_format: sample_format_label(config.audio.sample_format).to_owned(),
                capture_buffer_frames: config.audio.capture_buffer_frames,
                capture_latency_ms: config.audio.capture_latency_ms,
            },
            discovery: RedactedDiscoveryConfigSummary {
                enabled: config.discovery.enabled,
                service_type: config.discovery.service_type.clone(),
                stale_timeout_secs: config.discovery.stale_timeout_secs,
            },
            transport: RedactedTransportConfigSummary {
                bind_host: config.transport.bind_host.clone(),
                stream_port: config.transport.stream_port,
                quality_preset: quality_label(config.transport.quality).to_owned(),
                target_latency_ms: config.transport.target_latency_ms,
                connect_timeout_ms: config.transport.connect_timeout_ms,
                heartbeat_interval_ms: config.transport.heartbeat_interval_ms,
            },
            receiver: RedactedReceiverConfigSummary {
                enabled: config.receiver.enabled,
                start_on_launch: config.receiver.start_on_launch,
                has_advertised_name: !str_is_blank(config.receiver.advertised_name.as_str()),
                bind_host: config.receiver.bind_host.clone(),
                listen_port: config.receiver.listen_port,
                has_playback_target_id: config.receiver.playback_target_id.is_some(),
                latency_preset: latency_preset_label(config.receiver.latency_preset).to_owned(),
            },
            ui: RedactedUiConfigSummary {
                prefer_dark_theme: config.ui.prefer_dark_theme,
                last_view_name: config.ui.last_view_name.clone(),
            },
            diagnostics: RedactedDiagnosticsConfigSummary { verbose_logging: config.diagnostics.verbose_logging },
        }
    }
}

/// Build and host facts that the compact report quotes.
#[derive(Debug, Clone, PartialEq, Eq)]
pub struct ReportContext {
    pub app_version: String,
    pub authors: String,
    pub repository: String,
    pub os: String,
    pub kernel: String,
    pub config_path: String,
    pub log_path: String,
    pub crash_reports_path: String,
}

/// `timestamp component message`.
pub open spec fn event_text(e: DiagnosticEventView) -> Seq<char> {
    decimal(e.timestamp_unix_ms as nat) + " "@ + e.component + " "@ + e.message
}

/// The texts of the warnings and errors among `events`, newest first.
pub open spec fn problems_newest_first(events: Seq<DiagnosticEventView>) -> Seq<Seq<char>>
    decreases events.len(),
{
    if events.len() == 0 {
        Seq::empty()
    } else {
        let rest = problems_newest_first(events.drop_first());
        if events[0].level != DiagnosticLevel::Info {
            rest.push(event_text(events[0]))
        } else {
            rest
        }
    }
}

/// At most the first `n` items.
pub open spec fn at_most<A>(s: Seq<A>, n: nat) -> Seq<A> {
    if s.len() <= n { s } else { s.subrange(0, n as int) }
}

/// The parts separated by `sep`.
pub open spec fn joined(parts: Seq<Seq<char>>, sep: Seq<char>) -> Seq<char>
    decreases parts.len(),
{
    if parts.len() == 0 {
        Seq::empty()
    } else if parts.len() == 1 {
        parts[0]
    } else {
        joined(parts.drop_last(), sep) + sep + parts.last()
    }
}

pub open spec fn or_text(o: Option<Seq<char>>, default: Seq<char>) -> Seq<char> {
    match o {
        Some(t) => t,
        None => default,
    }
}

/// `name [status / availability] endpoint`.
pub open spec fn known_device_line(d: KnownDeviceSnapshotView) -> Seq<char> {
    d.display_name + " ["@ + d.status + " / "@ + d.availability + "] "@ + or_text(d.endpoint, "unresolved"@)
}

pub open spec fn known_devices_text(devices: Seq<KnownDeviceSnapshotView>) -> Seq<char> {
    if devices.len() == 0 {
        "none"@
    } else {
        joined(devices.map_values(|d: KnownDeviceSnapshotView| known_device_line(d)), "; "@)
    }
}

/// The newest warnings and errors, at most `MAX_RECENT_WARNINGS_ERRORS`.
pub open spec fn recent_problems_text(events: Seq<DiagnosticEventView>) -> Seq<char> {
    let recent = at_most(problems_newest_first(events), MAX_RECENT_WARNINGS_ERRORS as nat);
    if recent.len() == 0 {
        "none"@
    } else {
        joined(recent, " | "@)
    }
}

/// `label value` on a line of its own.
pub open spec fn field_line(label: Seq<char>, value: Seq<char>) -> Seq<char> {
    label + value + "\n"@
}

pub open spec fn app_line(c: ReportContext) -> Seq<char> {
    "App: "@ + APP_NAME@ + " "@ + c.app_version@ + " ("@ + release_label(c.app_version@) + ")\n"@
}

pub open spec fn report_head(c: ReportContext) -> Seq<char> {
    app_line(c)
        + field_line("Developer / Maintainer: "@, join_nonblank(colon_pieces(c.authors@)))
        + field_line("Repository: "@, c.repository@)
        + field_line("Issues: "@, APP_BUG_TRACKER@)
        + field_line("Releases: "@, APP_RELEASES@)
        + field_line("OS: "@, c.os@ + " / "@ + c.kernel@)
        + field_line("Config path: "@, c.config_path@)
        + field_line("Log path: "@, c.log_path@)
        + field_line("Crash reports path: "@, c.crash_reports_path@)
}

pub open spec fn discovery_lines(s: SubsystemSnapshot) -> Seq<char> {
    "Discovery status: "@ + s.discovery.service_state@ + " ("@ + decimal(s.discovery.discovered_device_count as nat)
        + " device(s))\n"@
        + "Discovery advertisement: "@ + s.discovery.advertisement_state@ + " on "@
        + or_text(opt_string_view(s.discovery.advertised_endpoint), "not advertised"@) + "\n"@
}

pub open spec fn refresh_line(s: SubsystemSnapshot) -> Seq<char> {
    "UI refreshes: requested="@ + decimal(s.ui.refresh_requests as nat) + " applied="@
        + decimal(s.ui.refresh_applied as nat) + " skipped="@ + decimal(s.ui.refresh_skipped as nat)
        + " list_rebuilds="@ + decimal(s.ui.list_rebuilds as nat) + " list_skips="@
        + decimal(s.ui.list_skips as nat) + "\n"@
}

pub open spec fn browser_join_line(s: SubsystemSnapshot) -> Seq<char> {
    "Browser join prototype: active="@ + bool_text(s.ui.browser_join_active) + " url="@
        + or_text(opt_string_view(s.ui.browser_join_url), "not generated"@) + " served="@
        + decimal(s.ui.browser_join_requests_served as nat) + " error="@
        + or_text(opt_string_view(s.ui.browser_join_last_error), "none"@) + "\n"@
}

pub open spec fn report_discovery_ui(s: SubsystemSnapshot) -> Seq<char> {
    discovery_lines(s) + refresh_line(s) + browser_join_line(s)
}

pub open spec fn report_runtime(s: SubsystemSnapshot) -> Seq<char> {
    "Receiver status: "@ + s.receiver.runtime_state@ + " on "@
        + or_text(opt_string_view(s.receiver.listener_bind_addr), "not listening"@) + "\n"@
        + "Sender status: "@ + s.streaming.state@ + " with "@ + decimal(s.streaming.active_target_count as nat)
        + " active target(s)\n"@
        + "Active capture source: "@ + or_text(opt_string_view(s.audio.active_source_id), "none"@) + "\n"@
        + "Active local playback target: "@ + or_text(opt_string_view(s.audio.local_playback_target_id), "system default"@)
        + "\n"@
        + "Active receiver playback target: "@
        + or_text(opt_string_view(s.audio.receiver_playback_target_id), "system default"@) + "\n"@
}

/// The compact plain-text report: build and host, paths, each
/// subsystem's state, known devices, recent problems and the redacted
/// configuration (already encoded as JSON).
pub open spec fn compact_report_text(
    c: ReportContext,
    s: SubsystemSnapshot,
    events: Seq<DiagnosticEventView>,
    config_summary_json: Seq<char>,
) -> Seq<char> {
    report_head(c) + report_discovery_ui(s) + report_runtime(s)
        + "Known discovered devices: "@ + known_devices_text(known_views(s.discovery.known_devices@)) + "\n"@
        + "Recent warnings/errors: "@ + recent_problems_text(events) + "\n"@
        + "Safe config summary: "@ + config_summary_json
}

pub(crate) fn append_or(out: &mut String, o: &Option<String>, default: &str)
    ensures
        final(out)@ == old(out)@ + or_text(opt_string_view(*o), default@),
{
    match o {
        Some(t) => append_str(out, t.as_str()),
        None => append_str(out, default),
    }
}

/// `timestamp component message` for one event.
pub fn format_diagnostic_event(event: &DiagnosticEvent) -> (r: String)
    ensures
        r@ == event_text(event@),
{
    let mut out = String::new();
    append_decimal(&mut out, event.timestamp_unix_ms);
    append_str(&mut out, " ");
    append_str(&mut out, event.component.as_str());
    append_str(&mut out, " ");
    append_str(&mut out, event.message.as_str());
    assert(out@ =~= event_text(event@));
    out
}

fn append_joined(out: &mut String, parts: &Vec<String>, count: usize, sep: &str)
    requires
        count <= parts@.len(),
    ensures
        final(out)@ == old(out)@ + joined(parts@.subrange(0, count as int).map_values(|p: String| p@), sep@),
{
    let mut i: usize = 0;
    while i < count
        invariant
            i <= count <= parts@.len(),
            out@ == old(out)@ + joined(parts@.subrange(0, i as int).map_values(|p: String| p@), sep@),
        decreases count - i,
    {
        if i > 0 {
            append_str(out, sep);
        }
        append_str(out, parts[i].as_str());
        proof {
            let prev = parts@.subrange(0, i as int).map_values(|p: String| p@);
            let next = parts@.subrange(0, i + 1).map_values(|p: String| p@);
            assert(next.drop_last() =~= prev);
            assert(next.last() == parts@[i as int]@);
            if i == 0 {
                assert(joined(prev, sep@) =~= Seq::<char>::empty());
            }
        }
        i = i + 1;
    }
}

fn recent_problem_texts(events: &[DiagnosticEvent]) -> (r: Vec<String>)
    ensures
        r@.map_values(|p: String| p@) == problems_newest_first(events@.map_values(|e: DiagnosticEvent| e@)),
{
    let mut out: Vec<String> = Vec::new();
    let mut i = events.len();
    while i > 0
        invariant
            i <= events@.len(),
            out@.map_values(|p: String| p@) == problems_newest_first(
                events@.subrange(i as int, events@.len() as int).map_values(|e: DiagnosticEvent| e@),
            ),
        decreases i,
    {
        let ghost before = events@.subrange(i as int, events@.len() as int).map_values(|e: DiagnosticEvent| e@);
        i = i - 1;
        let ghost after = events@.subrange(i as int, events@.len() as int).map_values(|e: DiagnosticEvent| e@);
        assert(after.drop_first() =~= before);
        assert(after[0] == events@[i as int]@);
        if events[i].level != DiagnosticLevel::Info {
            let text = format_diagnostic_event(&events[i]);
            out.push(text);
            assert(out@.map_values(|p: String| p@) =~= problems_newest_first(before).push(event_text(after[0])));
        }
    }
    assert(events@.subrange(0, events@.len() as int) =~= events@);
    out
}

fn append_known_device_line(out: &mut String, d: &KnownDeviceSnapshot)
    ensures
        final(out)@ == old(out)@ + known_device_line(d@),
{
    append_str(out, d.display_name.as_str());
    append_str(out, " [");
    append_str(out, d.status.as_str());
    append_str(out, " / ");
    append_str(out, d.availability.as_str());
    append_str(out, "] ");
    append_or(out, &d.endpoint, "unresolved");
    assert(final(out)@ =~= old(out)@ + known_device_line(d@));
}

fn append_known_devices(out: &mut String, devices: &Vec<KnownDeviceSnapshot>)
    ensures
        final(out)@ == old(out)@ + known_devices_text(known_views(devices@)),
{
    proof {
        reveal_strlit("none");
        reveal_strlit("; ");
    }
    if devices.len() == 0 {
        append_str(out, "none");
        return;
    }
    let ghost lines = known_views(devices@).map_values(|d: KnownDeviceSnapshotView| known_device_line(d));
    let mut i: usize = 0;
    while i < devices.len()
        invariant
            1 <= devices@.len(),
            i <= devices@.len(),
            lines == known_views(devices@).map_values(|d: KnownDeviceSnapshotView| known_device_line(d)),
            out@ == old(out)@ + joined(lines.subrange(0, i as int), "; "@),
        decreases devices@.len() - i,
    {
        if i > 0 {
            append_str(out, "; ");
        }
        append_known_device_line(out, &devices[i]);
        proof {
            let prev = lines.subrange(0, i as int);
            let next = lines.subrange(0, i + 1);
            assert(next.drop_last() =~= prev);
            assert(next.last() == known_device_line(devices@[i as int]@));
            if i == 0 {
                assert(joined(prev, "; "@) =~= Seq::<char>::empty());
            }
        }
        i = i + 1;
    }
    assert(lines.subrange(0, devices@.len() as int) =~= lines);
}

fn append_field(out: &mut String, label: &str, value: &str)
    ensures
        final(out)@ == old(out)@ + field_line(label@, value@),
{
    append_str(out, label);
    append_str(out, value);
    append_str(out, "\n");
    proof {
        reveal_strlit("\n");
    }
    assert(final(out)@ =~= old(out)@ + field_line(label@, value@));
}

fn append_app_line(out: &mut String, c: &ReportContext)
    ensures
        final(out)@ == old(out)@ + app_line(*c),
{
    append_str(out, "App: ");
    append_str(out, APP_NAME);
    append_str(out, " ");
    append_str(out, c.app_version.as_str());
    append_str(out, " (");
    append_str(out, release_channel_label(c.app_version.as_str()));
    append_str(out, ")\n");
    assert(final(out)@ =~= old(out)@ + app_line(*c));
}

fn append_report_head(out: &mut String, c: &ReportContext)
    ensures
        final(out)@ == old(out)@ + report_head(*c),
{
    let ghost o0 = out@;
    append_app_line(out, c);
    let maintainer = authors_display(c.authors.as_str());
    append_field(out, "Developer / Maintainer: ", maintainer.as_str());
    append_field(out, "Repository: ", c.repository.as_str());
    append_field(out, "Issues: ", APP_BUG_TRACKER);
    append_field(out, "Releases: ", APP_RELEASES);
    let mut host = c.os.clone();
    append_str(&mut host, " / ");
    append_str(&mut host, c.kernel.as_str());
    append_field(out, "OS: ", host.as_str());
    append_field(out, "Config path: ", c.config_path.as_str());
    append_field(out, "Log path: ", c.log_path.as_str());
    append_field(out, "Crash reports path: ", c.crash_reports_path.as_str());
    assert(host@ =~= c.os@ + " / "@ + c.kernel@);
    assert(out@ =~= o0 + report_head(*c));
}

fn append_discovery_lines(out: &mut String, s: &SubsystemSnapshot)
    ensures
        final(out)@ == old(out)@ + discovery_lines(*s),
{
    append_str(out, "Discovery status: ");
    append_str(out, s.discovery.service_state.as_str());
    append_str(out, " (");
    append_decimal(out, s.discovery.discovered_device_count as u64);
    append_str(out, " device(s))\n");
    append_str(out, "Discovery advertisement: ");
    append_str(out, s.discovery.advertisement_state.as_str());
    append_str(out, " on ");
    append_or(out, &s.discovery.advertised_endpoint, "not advertised");
    append_str(out, "\n");
    assert(final(out)@ =~= old(out)@ + discovery_lines(*s));
}

fn append_refresh_line(out: &mut String, s: &SubsystemSnapshot)
    ensures
        final(out)@ == old(out)@ + refresh_line(*s),
{
    append_str(out, "UI refreshes: requested=");
    append_decimal(out, s.ui.refresh_requests);
    append_str(out, " applied=");
    append_decimal(out, s.ui.refresh_applied);
    append_str(out, " skipped=");
    append_decimal(out, s.ui.refresh_skipped);
    append_str(out, " list_rebuilds=");
    append_decimal(out, s.ui.list_rebuilds);
    append_str(out, " list_skips=");
    append_decimal(out, s.ui.list_skips);
    append_str(out, "\n");
    assert(final(out)@ =~= old(out)@ + refresh_line(*s));
}

fn append_browser_join_line(out: &mut String, s: &SubsystemSnapshot)
    ensures
        final(out)@ == old(out)@ + browser_join_line(*s),
{
    append_str(out, "Browser join prototype: active=");
    let active = bool_string(s.ui.browser_join_active);
    append_str(out, active.as_str());
    append_str(out, " url=");
    append_or(out, &s.ui.browser_join_url, "not generated");
    append_str(out, " served=");
    append_decimal(out, s.ui.browser_join_requests_served);
    append_str(out, " error=");
    append_or(out, &s.ui.browser_join_last_error, "none");
    append_str(out, "\n");
    assert(final(out)@ =~= old(out)@ + browser_join_line(*s));
}

fn append_report_discovery_ui(out: &mut String, s: &SubsystemSnapshot)
    ensures
        final(out)@ == old(out)@ + report_discovery_ui(*s),
{
    let ghost o0 = out@;
    append_discovery_lines(out, s);
    append_refresh_line(out, s);
    append_browser_join_line(out, s);
    assert(out@ =~= o0 + report_discovery_ui(*s));
}

fn append_report_runtime(out: &mut String, s: &SubsystemSnapshot)
    ensures
        final(out)@ == old(out)@ + report_runtime(*s),
{
    append_str(out, "Receiver status: ");
    append_str(out, s.receiver.runtime_state.as_str());
    append_str(out, " on ");
    append_or(out, &s.receiver.listener_bind_addr, "not listening");
    append_str(out, "\n");
    append_str(out, "Sender status: ");
    append_str(out, s.streaming.state.as_str());
    append_str(out, " with ");
    append_decimal(out, s.streaming.active_target_count as u64);
    append_str(out, " active target(s)\n");
    append_str(out, "Active capture source: ");
    append_or(out, &s.audio.active_source_id, "none");
    append_str(out, "\n");
    append_str(out, "Active local playback target: ");
    append_or(out, &s.audio.local_playback_target_id, "system default");
    append_str(out, "\n");
    append_str(out, "Active receiver playback target: ");
    append_or(out, &s.audio.receiver_playback_target_id, "system default");
    append_str(out, "\n");
    assert(out@ =~= old(out)@ + report_runtime(*s));
}

/// The compact plain-text diagnostics report. `config_summary_json` is the
/// redacted configuration summary, already encoded.
pub fn build_compact_diagnostics_report(
    context: &ReportContext,
    snapshot: &SubsystemSnapshot,
    diagnostics: &[DiagnosticEvent],
    config_summary_json: &str,
) -> (r: String)
    ensures
        r@ == compact_report_text(
            *context,
            *snapshot,
            diagnostics@.map_values(|e: DiagnosticEvent| e@),
            config_summary_json@,
        ),
{
    let mut out = String::new();
    append_report_head(&mut out, context);
    append_report_discovery_ui(&mut out, snapshot);
    append_report_runtime(&mut out, snapshot);
    append_str(&mut out, "Known discovered devices: ");
    append_known_devices(&mut out, &snapshot.discovery.known_devices);
    append_str(&mut out, "\n");
    append_str(&mut out, "Recent warnings/errors: ");
    let problems = recent_problem_texts(diagnostics);
    proof {
        reveal_strlit("none");
        reveal_strlit(" | ");
    }
    if problems.len() == 0 {
        append_str(&mut out, "none");
    } else {
        let count = if problems.len() < MAX_RECENT_WARNINGS_ERRORS { problems.len() } else { MAX_RECENT_WARNINGS_ERRORS };
        append_joined(&mut out, &problems, count, " | ");
        assert(problems@.subrange(0, count as int).map_values(|p: String| p@) =~= at_most(
            problems@.map_values(|p: String| p@),
            MAX_RECENT_WARNINGS_ERRORS as nat,
        ));
    }
    append_str(&mut out, "\n");
    append_str(&mut out, "Safe config summary: ");
    append_str(&mut out, config_summary_json);
    assert(out@ =~= compact_report_text(
        *context,
        *snapshot,
        diagnostics@.map_values(|e: DiagnosticEvent| e@),
        config_summary_json@,
    ));
    out
}

} // verus!
