//! Application configuration, its defaults, and the repair pass that turns a
//! loaded configuration with out-of-range values into a usable one.

use vstd::prelude::*;
use crate::audio::{AudioSampleFormat, CaptureOutputs, CaptureSettings};
use crate::error::ConfigError;
use crate::models::{opt_string_view, clone_opt_string, QualityPreset};
use crate::receiver::ReceiverLatencyPreset;
use crate::text::{append_decimal, append_str, decimal, is_blank, str_is_blank};

verus! {

pub const APP_CONFIG_SCHEMA_VERSION: u32 = 1;

/// The schema version a freshly written configuration carries.
pub fn current_config_schema_version() -> (r: u32)
    ensures
        r == APP_CONFIG_SCHEMA_VERSION,
{
    APP_CONFIG_SCHEMA_VERSION
}

#[derive(Debug, Clone, PartialEq, Eq)]
pub struct AudioConfig {
    pub preferred_source_id: Option<String>,
    pub local_playback_enabled: bool,
    pub local_playback_target_id: Option<String>,
    pub sample_rate_hz: u32,
    pub channels: u16,
    pub sample_format: AudioSampleFormat,
    pub capture_buffer_frames: u32,
    pub capture_latency_ms: u16,
}

pub struct AudioConfigView {
    pub preferred_source_id: Option<Seq<char>>,
    pub local_playback_enabled: bool,
    pub local_playback_target_id: Option<Seq<char>>,
    pub sample_rate_hz: u32,
    pub channels: u16,
    pub sample_format: AudioSampleFormat,
    pub capture_buffer_frames: u32,
    pub capture_latency_ms: u16,
}

impl View for AudioConfig {
    type V = AudioConfigView;

    open spec fn view(&self) -> AudioConfigView {
        AudioConfigView {
            preferred_source_id: opt_string_view(self.preferred_source_id),
            local_playback_enabled: self.local_playback_enabled,
            local_playback_target_id: opt_string_view(self.local_playback_target_id),
            sample_rate_hz: self.sample_rate_hz,
            channels: self.channels,
            sample_format: self.sample_format,
            capture_buffer_frames: self.capture_buffer_frames,
            capture_latency_ms: self.capture_latency_ms,
        }
    }
}

impl Default for AudioConfig {
    fn default() -> (r: Self)
        ensures
            r@ == (AudioConfigView {
                preferred_source_id: None,
                local_playback_enabled: true,
                local_playback_target_id: None,
                sample_rate_hz: 48_000,
                channels: 2,
                sample_format: AudioSampleFormat::S16Le,
                capture_buffer_frames: 480,
                capture_latency_ms: 50,
            }),
    {
        AudioConfig {
            preferred_source_id: None,
            local_playback_enabled: true,
            local_playback_target_id: None,
            sample_rate_hz: 48_000,
            channels: 2,
            sample_format: AudioSampleFormat::S16Le,
            capture_buffer_frames: 480,
            capture_latency_ms: 50,
        }
    }
}

impl AudioConfig {
    /// The capture settings this configuration asks for; network streaming is
    /// always on and local monitoring follows local playback.
    pub fn capture_settings(&self) -> (r: CaptureSettings)
        ensures
            opt_string_view(r.source_id) == self@.preferred_source_id,
            r.sample_rate_hz == self.sample_rate_hz,
            r.channels == self.channels,
            r.sample_format == self.sample_format,
            r.buffer_frames == self.capture_buffer_frames,
            r.target_latency_ms == self.capture_latency_ms,
            r.outputs == (CaptureOutputs {
                local_monitoring: self.local_playback_enabled,
                network_streaming: true,
            }),
    {
        CaptureSettings {
            source_id: clone_opt_string(&self.preferred_source_id),
            sample_rate_hz: self.sample_rate_hz,
            channels: self.channels,
            sample_format: self.sample_format,
            buffer_frames: self.capture_buffer_frames,
            target_latency_ms: self.capture_latency_ms,
            outputs: CaptureOutputs {
                local_monitoring: self.local_playback_enabled,
                network_streaming: true,
            },
        }
    }
}

#[derive(Debug, Clone, PartialEq, Eq)]
pub struct DiscoveryConfig {
    pub enabled: bool,
    pub service_type: String,
    pub stale_timeout_secs: u64,
}

pub struct DiscoveryConfigView {
    pub enabled: bool,
    pub service_type: Seq<char>,
    pub stale_timeout_secs: u64,
}

impl View for DiscoveryConfig {
    type V = DiscoveryConfigView;

    open spec fn view(&self) -> DiscoveryConfigView {
        DiscoveryConfigView {
            enabled: self.enabled,
            service_type: self.service_type@,
            stale_timeout_secs: self.stale_timeout_secs,
        }
    }
}

pub open spec fn default_service_type() -> Seq<char> {
    "_synchrosonic._tcp.local."@
}

impl Default for DiscoveryConfig {
    fn default() -> (r: Self)
        ensures
            r@ == (DiscoveryConfigView {
                enabled: true,
                service_type: default_service_type(),
                stale_timeout_secs: 30,
            }),
    {
        DiscoveryConfig {
            enabled: true,
            service_type: "_synchrosonic._tcp.local.".to_owned(),
            stale_timeout_secs: 30,
        }
    }
}

#[derive(Debug, Clone, PartialEq, Eq)]
pub struct TransportConfig {
    pub bind_host: String,
    pub stream_port: u16,
    pub quality: QualityPreset,
    pub target_latency_ms: u16,
    pub connect_timeout_ms: u16,
    pub heartbeat_interval_ms: u16,
}

pub struct TransportConfigView {
    pub bind_host: Seq<char>,
    pub stream_port: u16,
    pub quality: QualityPreset,
    pub target_latency_ms: u16,
    pub connect_timeout_ms: u16,
    pub heartbeat_interval_ms: u16,
}

impl View for TransportConfig {
    type V = TransportConfigView;

    open spec fn view(&self) -> TransportConfigView {
        TransportConfigView {
            bind_host: self.bind_host@,
            stream_port: self.stream_port,
            quality: self.quality,
            target_latency_ms: self.target_latency_ms,
            connect_timeout_ms: self.connect_timeout_ms,
            heartbeat_interval_ms: self.heartbeat_interval_ms,
        }
    }
}

pub open spec fn any_host() -> Seq<char> {
    "0.0.0.0"@
}

impl Default for TransportConfig {
    fn default() -> (r: Self)
        ensures
            r@ == (TransportConfigView {
                bind_host: any_host(),
                stream_port: 51_700,
                quality: QualityPreset::Balanced,
                target_latency_ms: 150,
                connect_timeout_ms: 2_000,
                heartbeat_interval_ms: 1_000,
            }),
    {
        TransportConfig {
            bind_host: "0.0.0.0".to_owned(),
            stream_port: 51_700,
            quality: QualityPreset::Balanced,
            target_latency_ms: 150,
            connect_timeout_ms: 2_000,
            heartbeat_interval_ms: 1_000,
        }
    }
}

#[derive(Debug, Clone, PartialEq, Eq)]
pub struct ReceiverConfig {
    pub enabled: bool,
    pub start_on_launch: bool,
    pub advertised_name: String,
    pub bind_host: String,
    pub listen_port: u16,
    pub playback_target_id: Option<String>,
    pub latency_preset: ReceiverLatencyPreset,
}

pub struct ReceiverConfigView {
    pub enabled: bool,
    pub start_on_launch: bool,
    pub advertised_name: Seq<char>,
    pub bind_host: Seq<char>,
    pub listen_port: u16,
    pub playback_target_id: Option<Seq<char>>,
    pub latency_preset: ReceiverLatencyPreset,
}

impl View for ReceiverConfig {
    type V = ReceiverConfigView;

    open spec fn view(&self) -> ReceiverConfigView {
        ReceiverConfigView {
            enabled: self.enabled,
            start_on_launch: self.start_on_launch,
            advertised_name: self.advertised_name@,
            bind_host: self.bind_host@,
            listen_port: self.listen_port,
            playback_target_id: opt_string_view(self.playback_target_id),
            latency_preset: self.latency_preset,
        }
    }
}

pub open spec fn default_advertised_name() -> Seq<char> {
    "SynchroSonic Receiver"@
}

impl Default for ReceiverConfig {
    fn default() -> (r: Self)
        ensures
            r@ == (ReceiverConfigView {
                enabled: true,
                start_on_launch: false,
                advertised_name: default_advertised_name(),
                bind_host: any_host(),
                listen_port: 51_700,
                playback_target_id: None,
                latency_preset: ReceiverLatencyPreset::Balanced,
            }),
    {
        ReceiverConfig {
            enabled: true,
            start_on_launch: false,
            advertised_name: "SynchroSonic Receiver".to_owned(),
            bind_host: "0.0.0.0".to_owned(),
            listen_port: 51_700,
            playback_target_id: None,
            latency_preset: ReceiverLatencyPreset::Balanced,
        }
    }
}

impl ReceiverConfig {
    pub fn duplicate(&self) -> (r: Self)
        ensures
            r@ == self@,
    {
        ReceiverConfig {
            enabled: self.enabled,
            start_on_launch: self.start_on_launch,
            advertised_name: self.advertised_name.clone(),
            bind_host: self.bind_host.clone(),
            listen_port: self.listen_port,
            playback_target_id: clone_opt_string(&self.playback_target_id),
            latency_preset: self.latency_preset,
        }
    }
}

#[derive(Debug, Clone, PartialEq, Eq)]
pub struct UiConfig {
    pub prefer_dark_theme: bool,
    pub last_view_name: String,
}

pub struct UiConfigView {
    pub prefer_dark_theme: bool,
    pub last_view_name: Seq<char>,
}

impl View for UiConfig {
    type V = UiConfigView;

    open spec fn view(&self) -> UiConfigView {
        UiConfigView { prefer_dark_theme: self.prefer_dark_theme, last_view_name: self.last_view_name@ }
    }
}

pub open spec fn default_view_name() -> Seq<char> {
    "dashboard"@
}

impl Default for UiConfig {
    fn default() -> (r: Self)
        ensures
            r@ == (UiConfigView { prefer_dark_theme: true, last_view_name: default_view_name() }),
    {
        UiConfig { prefer_dark_theme: true, last_view_name: "dashboard".to_owned() }
    }
}

#[derive(Debug, Clone, Copy, PartialEq, Eq, Structural)]
pub struct DiagnosticsConfig {
    pub verbose_logging: bool,
}

impl Default for DiagnosticsConfig {
    fn default() -> (r: Self)
        ensures
            !r.verbose_logging,
    {
        DiagnosticsConfig { verbose_logging: false }
    }
}

#[derive(Debug, Clone, PartialEq, Eq)]
pub struct AppConfig {
    pub schema_version: u32,
    pub audio: AudioConfig,
    pub discovery: DiscoveryConfig,
    pub transport: TransportConfig,
    pub receiver: ReceiverConfig,
    pub ui: UiConfig,
    pub diagnostics: DiagnosticsConfig,
}

pub struct AppConfigView {
    pub schema_version: u32,
    pub audio: AudioConfigView,
    pub discovery: DiscoveryConfigView,
    pub transport: TransportConfigView,
    pub receiver: ReceiverConfigView,
    pub ui: UiConfigView,
    pub diagnostics: DiagnosticsConfig,
}

impl View for AppConfig {
    type V = AppConfigView;

    open spec fn view(&self) -> AppConfigView {
        AppConfigView {
            schema_version: self.schema_version,
            audio: self.audio@,
            discovery: self.discovery@,
            transport: self.transport@,
            receiver: self.receiver@,
            ui: self.ui@,
            diagnostics: self.diagnostics,
        }
    }
}

/// The configuration a fresh installation starts with.
pub open spec fn default_config() -> AppConfigView {
    AppConfigView {
        schema_version: APP_CONFIG_SCHEMA_VERSION,
        audio: AudioConfigView {
            preferred_source_id: None,
            local_playback_enabled: true,
            local_playback_target_id: None,
            sample_rate_hz: 48_000,
            channels: 2,
            sample_format: AudioSampleFormat::S16Le,
            capture_buffer_frames: 480,
            capture_latency_ms: 50,
        },
        discovery: DiscoveryConfigView {
            enabled: true,
            service_type: default_service_type(),
            stale_timeout_secs: 30,
        },
        transport: TransportConfigView {
            bind_host: any_host(),
            stream_port: 51_700,
            quality: QualityPreset::Balanced,
            target_latency_ms: 150,
            connect_timeout_ms: 2_000,
            heartbeat_interval_ms: 1_000,
        },
        receiver: ReceiverConfigView {
            enabled: true,
            start_on_launch: false,
            advertised_name: default_advertised_name(),
            bind_host: any_host(),
            listen_port: 51_700,
            playback_target_id: None,
            latency_preset: ReceiverLatencyPreset::Balanced,
        },
        ui: UiConfigView { prefer_dark_theme: true, last_view_name: default_view_name() },
        diagnostics: DiagnosticsConfig { verbose_logging: false },
    }
}

impl Default for AppConfig {
    fn default() -> (r: Self)
        ensures
            r@ == default_config(),
    {
        AppConfig {
            schema_version: APP_CONFIG_SCHEMA_VERSION,
            audio: AudioConfig::default(),
            discovery: DiscoveryConfig::default(),
            transport: TransportConfig::default(),
            receiver: ReceiverConfig::default(),
            ui: UiConfig::default(),
            diagnostics: DiagnosticsConfig::default(),
        }
    }
}


/// One warning when `cond` holds, none otherwise.
pub open spec fn warn_if(cond: bool, message: Seq<char>) -> Seq<Seq<char>> {
    if cond { seq![message] } else { Seq::empty() }
}

pub open spec fn schema_warnings(version: u32) -> Seq<Seq<char>> {
    warn_if(
        version != APP_CONFIG_SCHEMA_VERSION,
        "Config schema version "@ + decimal(version as nat) + " was upgraded to 1."@,
    )
}

pub open spec fn audio_warnings(a: AudioConfigView) -> Seq<Seq<char>> {
    warn_if(a.sample_rate_hz == 0, "audio.sample_rate_hz must be greater than zero; using 48000."@)
        + warn_if(a.channels == 0, "audio.channels must be greater than zero; using 2."@)
        + warn_if(
        a.capture_buffer_frames == 0,
        "audio.capture_buffer_frames must be greater than zero; using 480."@,
    ) + warn_if(
        a.capture_latency_ms == 0,
        "audio.capture_latency_ms must be greater than zero; using 50."@,
    )
}

pub open spec fn discovery_warnings(d: DiscoveryConfigView) -> Seq<Seq<char>> {
    warn_if(
        is_blank(d.service_type),
        "discovery.service_type cannot be empty; using _synchrosonic._tcp.local."@,
    ) + warn_if(
        d.stale_timeout_secs == 0,
        "discovery.stale_timeout_secs must be greater than zero; using 30."@,
    )
}

pub open spec fn transport_warnings(t: TransportConfigView) -> Seq<Seq<char>> {
    warn_if(is_blank(t.bind_host), "transport.bind_host cannot be empty; using 0.0.0.0."@)
        + warn_if(
        t.stream_port == 0,
        "transport.stream_port must be greater than zero; using 51700."@,
    ) + warn_if(
        t.target_latency_ms == 0,
        "transport.target_latency_ms must be greater than zero; using 150."@,
    ) + warn_if(
        t.connect_timeout_ms < 250,
        "transport.connect_timeout_ms must be at least 250; using 2000."@,
    ) + warn_if(
        t.heartbeat_interval_ms < 250,
        "transport.heartbeat_interval_ms must be at least 250; using 1000."@,
    )
}

pub open spec fn receiver_warnings(r: ReceiverConfigView) -> Seq<Seq<char>> {
    warn_if(
        is_blank(r.advertised_name),
        "receiver.advertised_name cannot be empty; using SynchroSonic Receiver."@,
    ) + warn_if(is_blank(r.bind_host), "receiver.bind_host cannot be empty; using 0.0.0.0."@)
        + warn_if(
        r.listen_port == 0,
        "receiver.listen_port must be greater than zero; using 51700."@,
    )
}

pub open spec fn ui_warnings(u: UiConfigView) -> Seq<Seq<char>> {
    warn_if(is_blank(u.last_view_name), "ui.last_view_name cannot be empty; using dashboard."@)
}

/// The warnings a repair pass reports for `c`, in the order the checks run.
pub open spec fn repair_warnings(c: AppConfigView) -> Seq<Seq<char>> {
    schema_warnings(c.schema_version) + audio_warnings(c.audio) + discovery_warnings(c.discovery)
        + transport_warnings(c.transport) + receiver_warnings(c.receiver) + ui_warnings(c.ui)
}

pub open spec fn repaired_audio(a: AudioConfigView) -> AudioConfigView {
    AudioConfigView {
        sample_rate_hz: if a.sample_rate_hz == 0 { 48_000 } else { a.sample_rate_hz },
        channels: if a.channels == 0 { 2 } else { a.channels },
        capture_buffer_frames: if a.capture_buffer_frames == 0 { 480 } else { a.capture_buffer_frames },
        capture_latency_ms: if a.capture_latency_ms == 0 { 50 } else { a.capture_latency_ms },
        ..a
    }
}

pub open spec fn repaired_discovery(d: DiscoveryConfigView) -> DiscoveryConfigView {
    DiscoveryConfigView {
        service_type: if is_blank(d.service_type) { default_service_type() } else { d.service_type },
        stale_timeout_secs: if d.stale_timeout_secs == 0 { 30 } else { d.stale_timeout_secs },
        ..d
    }
}

pub open spec fn repaired_transport(t: TransportConfigView) -> TransportConfigView {
    TransportConfigView {
        bind_host: if is_blank(t.bind_host) { any_host() } else { t.bind_host },
        stream_port: if t.stream_port == 0 { 51_700 } else { t.stream_port },
        target_latency_ms: if t.target_latency_ms == 0 { 150 } else { t.target_latency_ms },
        connect_timeout_ms: if t.connect_timeout_ms < 250 { 2_000 } else { t.connect_timeout_ms },
        heartbeat_interval_ms: if t.heartbeat_interval_ms < 250 { 1_000 } else { t.heartbeat_interval_ms },
        ..t
    }
}

pub open spec fn repaired_receiver(r: ReceiverConfigView) -> ReceiverConfigView {
    ReceiverConfigView {
        advertised_name: if is_blank(r.advertised_name) { default_advertised_name() } else { r.advertised_name },
        bind_host: if is_blank(r.bind_host) { any_host() } else { r.bind_host },
        listen_port: if r.listen_port == 0 { 51_700 } else { r.listen_port },
        ..r
    }
}

pub open spec fn repaired_ui(u: UiConfigView) -> UiConfigView {
    UiConfigView {
        last_view_name: if is_blank(u.last_view_name) { default_view_name() } else { u.last_view_name },
        ..u
    }
}

/// `c` with every out-of-range value replaced by its default.
pub open spec fn repaired_view(c: AppConfigView) -> AppConfigView {
    AppConfigView {
        schema_version: APP_CONFIG_SCHEMA_VERSION,
        audio: repaired_audio(c.audio),
        discovery: repaired_discovery(c.discovery),
        transport: repaired_transport(c.transport),
        receiver: repaired_receiver(c.receiver),
        ui: repaired_ui(c.ui),
        diagnostics: c.diagnostics,
    }
}

/// Every value of `c` is within the range the application accepts.
pub open spec fn config_is_valid(c: AppConfigView) -> bool {
    &&& c.schema_version == APP_CONFIG_SCHEMA_VERSION
    &&& c.audio.sample_rate_hz != 0
    &&& c.audio.channels != 0
    &&& c.audio.capture_buffer_frames != 0
    &&& c.audio.capture_latency_ms != 0
    &&& !is_blank(c.discovery.service_type)
    &&& c.discovery.stale_timeout_secs != 0
    &&& !is_blank(c.transport.bind_host)
    &&& c.transport.stream_port != 0
    &&& c.transport.target_latency_ms != 0
    &&& c.transport.connect_timeout_ms >= 250
    &&& c.transport.heartbeat_interval_ms >= 250
    &&& !is_blank(c.receiver.advertised_name)
    &&& !is_blank(c.receiver.bind_host)
    &&& c.receiver.listen_port != 0
    &&& !is_blank(c.ui.last_view_name)
}

#[derive(Debug, Clone, PartialEq, Eq)]
pub struct ConfigLoadReport {
    pub config: AppConfig,
    pub warnings: Vec<String>,
    pub repaired: bool,
}

pub open spec fn strings_view(v: Seq<String>) -> Seq<Seq<char>> {
    v.map_values(|s: String| s@)
}

proof fn lemma_defaults_not_blank()
    ensures
        !is_blank(default_service_type()),
        !is_blank(any_host()),
        !is_blank(default_advertised_name()),
        !is_blank(default_view_name()),
{
    reveal_strlit("_synchrosonic._tcp.local.");
    reveal_strlit("0.0.0.0");
    reveal_strlit("SynchroSonic Receiver");
    reveal_strlit("dashboard");
    assert(!crate::text::is_whitespace(default_service_type()[0]));
    assert(!crate::text::is_whitespace(any_host()[0]));
    assert(!crate::text::is_whitespace(default_advertised_name()[0]));
    assert(!crate::text::is_whitespace(default_view_name()[0]));
}

/// A repaired configuration is valid.
pub proof fn lemma_repaired_is_valid(c: AppConfigView)
    ensures
        config_is_valid(repaired_view(c)),
{
    lemma_defaults_not_blank();
}

/// A valid configuration passes the repair pass unchanged and without warnings.
pub proof fn lemma_valid_config_is_untouched(c: AppConfigView)
    requires
        config_is_valid(c),
    ensures
        repaired_view(c) == c,
        repair_warnings(c).len() == 0,
{
    assert(repair_warnings(c) =~= Seq::<Seq<char>>::empty());
}

/// Repairing twice gives what repairing once gives, and the second pass
/// reports nothing.
pub proof fn lemma_repair_idempotent(c: AppConfigView)
    ensures
        repaired_view(repaired_view(c)) == repaired_view(c),
        repair_warnings(repaired_view(c)).len() == 0,
{
    lemma_repaired_is_valid(c);
    lemma_valid_config_is_untouched(repaired_view(c));
}

/// The repair pass changes the configuration exactly when it warns.
pub proof fn lemma_repair_changes_iff_warned(c: AppConfigView)
    ensures
        (repaired_view(c) != c) <== repair_warnings(c).len() > 0,
        (repaired_view(c) != c) ==> repair_warnings(c).len() > 0,
{
    lemma_defaults_not_blank();
    if repair_warnings(c).len() == 0 {
        if !config_is_valid(c) {
            assert(repair_warnings(c).len() > 0);
        }
        lemma_valid_config_is_untouched(c);
    } else {
        lemma_repaired_is_valid(c);
        if repaired_view(c) == c {
            lemma_valid_config_is_untouched(c);
        }
    }
}

fn push_warning(warnings: &mut Vec<String>, message: &str)
    ensures
        strings_view(final(warnings)@) == strings_view(old(warnings)@).push(message@),
{
    warnings.push(message.to_owned());
    assert(strings_view(final(warnings)@) =~= strings_view(old(warnings)@).push(message@));
}

fn repair_audio(a: &mut AudioConfig, warnings: &mut Vec<String>)
    ensures
        final(a)@ == repaired_audio(old(a)@),
        strings_view(final(warnings)@) == strings_view(old(warnings)@) + audio_warnings(old(a)@),
{
    let ghost w0 = strings_view(warnings@);
    if a.sample_rate_hz == 0 {
        push_warning(warnings, "audio.sample_rate_hz must be greater than zero; using 48000.");
        a.sample_rate_hz = 48_000;
    }
    if a.channels == 0 {
        push_warning(warnings, "audio.channels must be greater than zero; using 2.");
        a.channels = 2;
    }
    if a.capture_buffer_frames == 0 {
        push_warning(warnings, "audio.capture_buffer_frames must be greater than zero; using 480.");
        a.capture_buffer_frames = 480;
    }
    if a.capture_latency_ms == 0 {
        push_warning(warnings, "audio.capture_latency_ms must be greater than zero; using 50.");
        a.capture_latency_ms = 50;
    }
    assert(strings_view(warnings@) =~= w0 + audio_warnings(old(a)@));
}

fn repair_discovery(d: &mut DiscoveryConfig, warnings: &mut Vec<String>)
    ensures
        final(d)@ == repaired_discovery(old(d)@),
        strings_view(final(warnings)@) == strings_view(old(warnings)@) + discovery_warnings(old(d)@),
{
    let ghost w0 = strings_view(warnings@);
    if str_is_blank(d.service_type.as_str()) {
        push_warning(warnings, "discovery.service_type cannot be empty; using _synchrosonic._tcp.local.");
        d.service_type = "_synchrosonic._tcp.local.".to_owned();
    }
    if d.stale_timeout_secs == 0 {
        push_warning(warnings, "discovery.stale_timeout_secs must be greater than zero; using 30.");
        d.stale_timeout_secs = 30;
    }
    assert(strings_view(warnings@) =~= w0 + discovery_warnings(old(d)@));
}

fn repair_transport(t: &mut TransportConfig, warnings: &mut Vec<String>)
    ensures
        final(t)@ == repaired_transport(old(t)@),
        strings_view(final(warnings)@) == strings_view(old(warnings)@) + transport_warnings(old(t)@),
{
    let ghost w0 = strings_view(warnings@);
    if str_is_blank(t.bind_host.as_str()) {
        push_warning(warnings, "transport.bind_host cannot be empty; using 0.0.0.0.");
        t.bind_host = "0.0.0.0".to_owned();
    }
    if t.stream_port == 0 {
        push_warning(warnings, "transport.stream_port must be greater than zero; using 51700.");
        t.stream_port = 51_700;
    }
    if t.target_latency_ms == 0 {
        push_warning(warnings, "transport.target_latency_ms must be greater than zero; using 150.");
        t.target_latency_ms = 150;
    }
    if t.connect_timeout_ms < 250 {
        push_warning(warnings, "transport.connect_timeout_ms must be at least 250; using 2000.");
        t.connect_timeout_ms = 2_000;
    }
    if t.heartbeat_interval_ms < 250 {
        push_warning(warnings, "transport.heartbeat_interval_ms must be at least 250; using 1000.");
        t.heartbeat_interval_ms = 1_000;
    }
    assert(strings_view(warnings@) =~= w0 + transport_warnings(old(t)@));
}

fn repair_receiver(r: &mut ReceiverConfig, warnings: &mut Vec<String>)
    ensures
        final(r)@ == repaired_receiver(old(r)@),
        strings_view(final(warnings)@) == strings_view(old(warnings)@) + receiver_warnings(old(r)@),
{
    let ghost w0 = strings_view(warnings@);
    if str_is_blank(r.advertised_name.as_str()) {
        push_warning(warnings, "receiver.advertised_name cannot be empty; using SynchroSonic Receiver.");
        r.advertised_name = "SynchroSonic Receiver".to_owned();
    }
    if str_is_blank(r.bind_host.as_str()) {
        push_warning(warnings, "receiver.bind_host cannot be empty; using 0.0.0.0.");
        r.bind_host = "0.0.0.0".to_owned();
    }
    if r.listen_port == 0 {
        push_warning(warnings, "receiver.listen_port must be greater than zero; using 51700.");
        r.listen_port = 51_700;
    }
    assert(strings_view(warnings@) =~= w0 + receiver_warnings(old(r)@));
}

fn repair_ui(u: &mut UiConfig, warnings: &mut Vec<String>)
    ensures
        final(u)@ == repaired_ui(old(u)@),
        strings_view(final(warnings)@) == strings_view(old(warnings)@) + ui_warnings(old(u)@),
{
    let ghost w0 = strings_view(warnings@);
    if str_is_blank(u.last_view_name.as_str()) {
        push_warning(warnings, "ui.last_view_name cannot be empty; using dashboard.");
        u.last_view_name = "dashboard".to_owned();
    }
    assert(strings_view(warnings@) =~= w0 + ui_warnings(old(u)@));
}

impl AppConfig {
    /// Replaces every out-of-range value by its default and reports one
    /// warning per replacement; `repaired` tells whether anything changed.
    pub fn repaired(self) -> (r: ConfigLoadReport)
        ensures
            r.config@ == repaired_view(self@),
            strings_view(r.warnings@) == repair_warnings(self@),
            r.repaired == (repaired_view(self@) != self@),
            r.repaired == (r.warnings@.len() > 0),
    {
        let ghost orig = self@;
        let mut c = self;
        let mut warnings: Vec<String> = Vec::new();
        if c.schema_version != APP_CONFIG_SCHEMA_VERSION {
            let mut m = String::new();
            append_str(&mut m, "Config schema version ");
            append_decimal(&mut m, c.schema_version as u64);
            append_str(&mut m, " was upgraded to 1.");
            warnings.push(m);
            c.schema_version = APP_CONFIG_SCHEMA_VERSION;
        }
        assert(strings_view(warnings@) =~= schema_warnings(orig.schema_version));
        repair_audio(&mut c.audio, &mut warnings);
        repair_discovery(&mut c.discovery, &mut warnings);
        repair_transport(&mut c.transport, &mut warnings);
        repair_receiver(&mut c.receiver, &mut warnings);
        repair_ui(&mut c.ui, &mut warnings);
        proof {
            assert(strings_view(warnings@) =~= repair_warnings(orig));
            assert(c@ == repaired_view(orig));
            lemma_repair_changes_iff_warned(orig);
        }
        let repaired = warnings.len() > 0;
        ConfigLoadReport { config: c, warnings, repaired }
    }

    /// Accepts a configuration read from storage: one written by a newer
    /// schema is refused, any other is repaired.
    pub fn check_loaded(self, path: &str) -> (r: Result<ConfigLoadReport, ConfigError>)
        ensures
            self.schema_version > APP_CONFIG_SCHEMA_VERSION ==> r is Err && (match r {
                Err(ConfigError::UnsupportedVersion { path: p, found, supported }) => p@ == path@
                    && found == self.schema_version && supported == APP_CONFIG_SCHEMA_VERSION,
                _ => false,
            }),
            self.schema_version <= APP_CONFIG_SCHEMA_VERSION ==> r is Ok && (match r {
                Ok(report) => report.config@ == repaired_view(self@) && strings_view(report.warnings@)
                    == repair_warnings(self@) && report.repaired == (repaired_view(self@) != self@),
                _ => false,
            }),
    {
        if self.schema_version > APP_CONFIG_SCHEMA_VERSION {
            return Err(ConfigError::UnsupportedVersion {
                path: path.to_owned(),
                found: self.schema_version,
                supported: APP_CONFIG_SCHEMA_VERSION,
            });
        }
        Ok(self.repaired())
    }
}

/// The default configuration is valid.
pub proof fn lemma_default_config_is_valid()
    ensures
        config_is_valid(default_config()),
{
    lemma_defaults_not_blank();
}

} // verus!
