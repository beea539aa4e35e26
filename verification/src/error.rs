//! Error types of every subsystem. Operating-system failures are carried as
//! plain values: the kind of failure and its message.

use vstd::prelude::*;
use crate::text::{append_decimal, append_str, decimal};

verus! {

/// The kinds of I/O failure the session logic tells apart.
#[derive(Debug, Clone, Copy, PartialEq, Eq, Structural)]
pub enum IoErrorKind {
    NotFound,
    PermissionDenied,
    ConnectionRefused,
    ConnectionReset,
    UnexpectedEof,
    WouldBlock,
    TimedOut,
    BrokenPipe,
    Other,
}

/// An I/O failure: its kind and its rendered message.
#[derive(Debug, Clone, PartialEq, Eq)]
pub struct IoFailure {
    pub kind: IoErrorKind,
    pub message: String,
}

pub struct IoFailureView {
    pub kind: IoErrorKind,
    pub message: Seq<char>,
}

impl View for IoFailure {
    type V = IoFailureView;

    open spec fn view(&self) -> IoFailureView {
        IoFailureView { kind: self.kind, message: self.message@ }
    }
}

#[derive(Debug, Clone, PartialEq, Eq)]
pub enum ConfigError {
    Read { path: String, source: IoFailure },
    Parse { path: String, message: String },
    Serialize(String),
    Write { path: String, source: IoFailure },
    UnsupportedVersion { path: String, found: u32, supported: u32 },
}

#[derive(Debug, Clone, PartialEq, Eq)]
pub enum AudioError {
    BackendUnavailable(String),
    CommandUnavailable(String),
    CommandFailed { command: String, stderr: String },
    ProcessStart { command: String, source: IoFailure },
    ProcessIo { context: String, source: IoFailure },
    InvalidSettings(String),
    CaptureEnded,
    NotActive(String),
}

pub enum AudioErrorView {
    BackendUnavailable(Seq<char>),
    CommandUnavailable(Seq<char>),
    CommandFailed { command: Seq<char>, stderr: Seq<char> },
    ProcessStart { command: Seq<char>, source: IoFailureView },
    ProcessIo { context: Seq<char>, source: IoFailureView },
    InvalidSettings(Seq<char>),
    CaptureEnded,
    NotActive(Seq<char>),
}

impl View for AudioError {
    type V = AudioErrorView;

    open spec fn view(&self) -> AudioErrorView {
        match self {
            AudioError::BackendUnavailable(m) => AudioErrorView::BackendUnavailable(m@),
            AudioError::CommandUnavailable(m) => AudioErrorView::CommandUnavailable(m@),
            AudioError::CommandFailed { command, stderr } => AudioErrorView::CommandFailed {
                command: command@,
                stderr: stderr@,
            },
            AudioError::ProcessStart { command, source } => AudioErrorView::ProcessStart {
                command: command@,
                source: source@,
            },
            AudioError::ProcessIo { context, source } => AudioErrorView::ProcessIo {
                context: context@,
                source: source@,
            },
            AudioError::InvalidSettings(m) => AudioErrorView::InvalidSettings(m@),
            AudioError::CaptureEnded => AudioErrorView::CaptureEnded,
            AudioError::NotActive(m) => AudioErrorView::NotActive(m@),
        }
    }
}

#[derive(Debug, Clone, PartialEq, Eq)]
pub enum DiscoveryError {
    Daemon(String),
    ServiceInfo(String),
    Register(String),
    Browse(String),
    Stop(String),
    Event(String),
    NotActive(String),
}

#[derive(Debug, Clone, PartialEq, Eq)]
pub enum TransportError {
    NotActive(String),
    InvalidProtocol(String),
    Io { context: String, source: IoFailure },
    Bind { address: String, source: IoFailure },
    Connect { address: String, source: IoFailure },
    Negotiation(String),
    ReceiverCallback(String),
    Audio(AudioError),
    ChannelClosed,
    ThreadJoin,
    NotRunning,
}

pub enum TransportErrorView {
    NotActive(Seq<char>),
    InvalidProtocol(Seq<char>),
    Io { context: Seq<char>, source: IoFailureView },
    Bind { address: Seq<char>, source: IoFailureView },
    Connect { address: Seq<char>, source: IoFailureView },
    Negotiation(Seq<char>),
    ReceiverCallback(Seq<char>),
    Audio(AudioErrorView),
    ChannelClosed,
    ThreadJoin,
    NotRunning,
}

impl View for TransportError {
    type V = TransportErrorView;

    open spec fn view(&self) -> TransportErrorView {
        match self {
            TransportError::NotActive(m) => TransportErrorView::NotActive(m@),
            TransportError::InvalidProtocol(m) => TransportErrorView::InvalidProtocol(m@),
            TransportError::Io { context, source } => TransportErrorView::Io {
                context: context@,
                source: source@,
            },
            TransportError::Bind { address, source } => TransportErrorView::Bind {
                address: address@,
                source: source@,
            },
            TransportError::Connect { address, source } => TransportErrorView::Connect {
                address: address@,
                source: source@,
            },
            TransportError::Negotiation(m) => TransportErrorView::Negotiation(m@),
            TransportError::ReceiverCallback(m) => TransportErrorView::ReceiverCallback(m@),
            TransportError::Audio(e) => TransportErrorView::Audio(e@),
            TransportError::ChannelClosed => TransportErrorView::ChannelClosed,
            TransportError::ThreadJoin => TransportErrorView::ThreadJoin,
            TransportError::NotRunning => TransportErrorView::NotRunning,
        }
    }
}

#[derive(Debug, Clone, PartialEq, Eq)]
pub enum ReceiverError {
    NotActive(String),
    InvalidTransport(String),
    Disabled(String),
    NotStarted,
    ChannelClosed,
    ThreadJoin,
}

pub enum ReceiverErrorView {
    NotActive(Seq<char>),
    InvalidTransport(Seq<char>),
    Disabled(Seq<char>),
    NotStarted,
    ChannelClosed,
    ThreadJoin,
}

impl View for ReceiverError {
    type V = ReceiverErrorView;

    open spec fn view(&self) -> ReceiverErrorView {
        match self {
            ReceiverError::NotActive(m) => ReceiverErrorView::NotActive(m@),
            ReceiverError::InvalidTransport(m) => ReceiverErrorView::InvalidTransport(m@),
            ReceiverError::Disabled(m) => ReceiverErrorView::Disabled(m@),
            ReceiverError::NotStarted => ReceiverErrorView::NotStarted,
            ReceiverError::ChannelClosed => ReceiverErrorView::ChannelClosed,
            ReceiverError::ThreadJoin => ReceiverErrorView::ThreadJoin,
        }
    }
}

#[derive(Debug, Clone, PartialEq, Eq)]
pub enum AppError {
    Config(ConfigError),
    Audio(AudioError),
    Discovery(DiscoveryError),
    Transport(TransportError),
    Receiver(ReceiverError),
}

/// `prefix` followed by `detail`.
fn prefixed(prefix: &str, detail: &str) -> (r: String)
    ensures
        r@ == prefix@ + detail@,
{
    let mut out = prefix.to_owned();
    append_str(&mut out, detail);
    out
}

/// `head`, `middle`, `": "` and `detail`.
fn labelled(head: &str, middle: &str, detail: &str) -> (r: String)
    ensures
        r@ == head@ + middle@ + ": "@ + detail@,
{
    let mut out = head.to_owned();
    append_str(&mut out, middle);
    append_str(&mut out, ": ");
    append_str(&mut out, detail);
    out
}

pub open spec fn config_error_text(e: ConfigError) -> Seq<char> {
    match e {
        ConfigError::Read { path, source } => "failed to read config at "@ + path@ + ": "@ + source.message@,
        ConfigError::Parse { path, message } => "failed to parse config at "@ + path@ + ": "@ + message@,
        ConfigError::Serialize(m) => "failed to serialize config: "@ + m@,
        ConfigError::Write { path, source } => "failed to write config at "@ + path@ + ": "@ + source.message@,
        ConfigError::UnsupportedVersion { path, found, supported } => "config at "@ + path@
            + " uses schema version "@ + decimal(found as nat) + ", but this build supports up to "@
            + decimal(supported as nat),
    }
}

impl ConfigError {
    /// How the error reads in logs and diagnostics.
    pub fn to_string(&self) -> (r: String)
        ensures
            r@ == config_error_text(*self),
    {
        match self {
            ConfigError::Read { path, source } => labelled("failed to read config at ", path.as_str(), source.message.as_str()),
            ConfigError::Parse { path, message } => labelled("failed to parse config at ", path.as_str(), message.as_str()),
            ConfigError::Serialize(m) => prefixed("failed to serialize config: ", m.as_str()),
            ConfigError::Write { path, source } => labelled("failed to write config at ", path.as_str(), source.message.as_str()),
            ConfigError::UnsupportedVersion { path, found, supported } => {
                let mut out = prefixed("config at ", path.as_str());
                append_str(&mut out, " uses schema version ");
                append_decimal(&mut out, *found as u64);
                append_str(&mut out, ", but this build supports up to ");
                append_decimal(&mut out, *supported as u64);
                assert(out@ =~= config_error_text(*self));
                out
            },
        }
    }
}

pub open spec fn audio_error_text(e: AudioErrorView) -> Seq<char> {
    match e {
        AudioErrorView::BackendUnavailable(m) => "audio backend is unavailable: "@ + m,
        AudioErrorView::CommandUnavailable(m) => "audio command is unavailable: "@ + m,
        AudioErrorView::CommandFailed { command, stderr } => "audio command `"@ + command + "` failed: "@ + stderr,
        AudioErrorView::ProcessStart { command, source } => "failed to start audio process `"@ + command + "`: "@
            + source.message,
        AudioErrorView::ProcessIo { context, source } => "audio process I/O failed while "@ + context + ": "@
            + source.message,
        AudioErrorView::InvalidSettings(m) => "invalid capture settings: "@ + m,
        AudioErrorView::CaptureEnded => "capture stream ended"@,
        AudioErrorView::NotActive(m) => "audio operation is not active in this build phase: "@ + m,
    }
}

impl AudioError {
    /// How the error reads in logs and diagnostics.
    pub fn to_string(&self) -> (r: String)
        ensures
            r@ == audio_error_text(self@),
    {
        match self {
            AudioError::BackendUnavailable(m) => prefixed("audio backend is unavailable: ", m.as_str()),
            AudioError::CommandUnavailable(m) => prefixed("audio command is unavailable: ", m.as_str()),
            AudioError::CommandFailed { command, stderr } => {
                let mut out = prefixed("audio command `", command.as_str());
                append_str(&mut out, "` failed: ");
                append_str(&mut out, stderr.as_str());
                assert(out@ =~= audio_error_text(self@));
                out
            },
            AudioError::ProcessStart { command, source } => {
                let mut out = prefixed("failed to start audio process `", command.as_str());
                append_str(&mut out, "`: ");
                append_str(&mut out, source.message.as_str());
                assert(out@ =~= audio_error_text(self@));
                out
            },
            AudioError::ProcessIo { context, source } => labelled(
                "audio process I/O failed while ",
                context.as_str(),
                source.message.as_str(),
            ),
            AudioError::InvalidSettings(m) => prefixed("invalid capture settings: ", m.as_str()),
            AudioError::CaptureEnded => "capture stream ended".to_owned(),
            AudioError::NotActive(m) => prefixed("audio operation is not active in this build phase: ", m.as_str()),
        }
    }
}

pub open spec fn discovery_error_text(e: DiscoveryError) -> Seq<char> {
    match e {
        DiscoveryError::Daemon(m) => "failed to start discovery daemon: "@ + m@,
        DiscoveryError::ServiceInfo(m) => "failed to build mDNS service info: "@ + m@,
        DiscoveryError::Register(m) => "failed to register mDNS service: "@ + m@,
        DiscoveryError::Browse(m) => "failed to browse mDNS service: "@ + m@,
        DiscoveryError::Stop(m) => "failed to stop discovery service: "@ + m@,
        DiscoveryError::Event(m) => "failed to process discovery event: "@ + m@,
        DiscoveryError::NotActive(m) => "discovery is not active in this build phase: "@ + m@,
    }
}

impl DiscoveryError {
    /// How the error reads in logs and diagnostics.
    pub fn to_string(&self) -> (r: String)
        ensures
            r@ == discovery_error_text(*self),
    {
        match self {
            DiscoveryError::Daemon(m) => prefixed("failed to start discovery daemon: ", m.as_str()),
            DiscoveryError::ServiceInfo(m) => prefixed("failed to build mDNS service info: ", m.as_str()),
            DiscoveryError::Register(m) => prefixed("failed to register mDNS service: ", m.as_str()),
            DiscoveryError::Browse(m) => prefixed("failed to browse mDNS service: ", m.as_str()),
            DiscoveryError::Stop(m) => prefixed("failed to stop discovery service: ", m.as_str()),
            DiscoveryError::Event(m) => prefixed("failed to process discovery event: ", m.as_str()),
            DiscoveryError::NotActive(m) => prefixed("discovery is not active in this build phase: ", m.as_str()),
        }
    }
}

pub open spec fn transport_error_text(e: TransportErrorView) -> Seq<char> {
    match e {
        TransportErrorView::NotActive(m) => "transport is not active in this build phase: "@ + m,
        TransportErrorView::InvalidProtocol(m) => "invalid transport protocol: "@ + m,
        TransportErrorView::Io { context, source } => "transport I/O failed while "@ + context + ": "@ + source.message,
        TransportErrorView::Bind { address, source } => "failed to bind transport listener on "@ + address + ": "@
            + source.message,
        TransportErrorView::Connect { address, source } => "failed to connect to receiver at "@ + address + ": "@
            + source.message,
        TransportErrorView::Negotiation(m) => "stream negotiation failed: "@ + m,
        TransportErrorView::ReceiverCallback(m) => "receiver rejected transport event: "@ + m,
        TransportErrorView::Audio(a) => audio_error_text(a),
        TransportErrorView::ChannelClosed => "transport channel closed"@,
        TransportErrorView::ThreadJoin => "transport worker thread panicked"@,
        TransportErrorView::NotRunning => "transport is not running"@,
    }
}

impl TransportError {
    /// How the error reads in logs and diagnostics.
    pub fn to_string(&self) -> (r: String)
        ensures
            r@ == transport_error_text(self@),
    {
        match self {
            TransportError::NotActive(m) => prefixed("transport is not active in this build phase: ", m.as_str()),
            TransportError::InvalidProtocol(m) => prefixed("invalid transport protocol: ", m.as_str()),
            TransportError::Io { context, source } => labelled(
                "transport I/O failed while ",
                context.as_str(),
                source.message.as_str(),
            ),
            TransportError::Bind { address, source } => labelled(
                "failed to bind transport listener on ",
                address.as_str(),
                source.message.as_str(),
            ),
            TransportError::Connect { address, source } => labelled(
                "failed to connect to receiver at ",
                address.as_str(),
                source.message.as_str(),
            ),
            TransportError::Negotiation(m) => prefixed("stream negotiation failed: ", m.as_str()),
            TransportError::ReceiverCallback(m) => prefixed("receiver rejected transport event: ", m.as_str()),
            TransportError::Audio(a) => a.to_string(),
            TransportError::ChannelClosed => "transport channel closed".to_owned(),
            TransportError::ThreadJoin => "transport worker thread panicked".to_owned(),
            TransportError::NotRunning => "transport is not running".to_owned(),
        }
    }
}

pub open spec fn receiver_error_text(e: ReceiverErrorView) -> Seq<char> {
    match e {
        ReceiverErrorView::NotActive(m) => "receiver mode is not active in this build phase: "@ + m,
        ReceiverErrorView::InvalidTransport(m) => "invalid receiver transport event: "@ + m,
        ReceiverErrorView::Disabled(m) => "receiver is disabled: "@ + m,
        ReceiverErrorView::NotStarted => "receiver runtime is not started"@,
        ReceiverErrorView::ChannelClosed => "receiver runtime channel closed"@,
        ReceiverErrorView::ThreadJoin => "receiver worker thread panicked"@,
    }
}

impl ReceiverError {
    /// How the error reads in logs and diagnostics.
    pub fn to_string(&self) -> (r: String)
        ensures
            r@ == receiver_error_text(self@),
    {
        match self {
            ReceiverError::NotActive(m) => prefixed("receiver mode is not active in this build phase: ", m.as_str()),
            ReceiverError::InvalidTransport(m) => prefixed("invalid receiver transport event: ", m.as_str()),
            ReceiverError::Disabled(m) => prefixed("receiver is disabled: ", m.as_str()),
            ReceiverError::NotStarted => "receiver runtime is not started".to_owned(),
            ReceiverError::ChannelClosed => "receiver runtime channel closed".to_owned(),
            ReceiverError::ThreadJoin => "receiver worker thread panicked".to_owned(),
        }
    }
}

pub open spec fn app_error_text(e: AppError) -> Seq<char> {
    match e {
        AppError::Config(c) => config_error_text(c),
        AppError::Audio(a) => audio_error_text(a@),
        AppError::Discovery(d) => discovery_error_text(d),
        AppError::Transport(t) => transport_error_text(t@),
        AppError::Receiver(r) => receiver_error_text(r@),
    }
}

impl AppError {
    /// How the error reads: that of the subsystem error it carries.
    pub fn to_string(&self) -> (r: String)
        ensures
            r@ == app_error_text(*self),
    {
        match self {
            AppError::Config(c) => c.to_string(),
            AppError::Audio(a) => a.to_string(),
            AppError::Discovery(d) => d.to_string(),
            AppError::Transport(t) => t.to_string(),
            AppError::Receiver(r) => r.to_string(),
        }
    }
}

} // verus!
