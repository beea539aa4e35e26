//! PipeWire playback: the request to start a stream, its validation, and the
//! `pw-play` command line a request turns into.

use vstd::prelude::*;
use crate::audio::AudioSampleFormat;
use crate::error::{AudioError, AudioErrorView, IoErrorKind, IoFailure};
use crate::models::{clone_opt_string, opt_string_view};
use crate::receiver::ReceiverStreamConfig;
use crate::text::{append_decimal, decimal, decimal_string};

verus! {

/// What a playback stream is started with.
#[derive(Debug, PartialEq, Eq)]
pub struct PlaybackStartRequest {
    pub stream: ReceiverStreamConfig,
    pub target_id: Option<String>,
    pub latency_ms: u16,
}

pub struct PlaybackStartRequestView {
    pub stream: ReceiverStreamConfig,
    pub target_id: Option<Seq<char>>,
    pub latency_ms: u16,
}

impl View for PlaybackStartRequest {
    type V = PlaybackStartRequestView;

    open spec fn view(&self) -> PlaybackStartRequestView {
        PlaybackStartRequestView {
            stream: self.stream,
            target_id: opt_string_view(self.target_id),
            latency_ms: self.latency_ms,
        }
    }
}

impl Clone for PlaybackStartRequest {
    fn clone(&self) -> (r: Self)
        ensures
            r@ == self@,
    {
        PlaybackStartRequest {
            stream: self.stream,
            target_id: clone_opt_string(&self.target_id),
            latency_ms: self.latency_ms,
        }
    }
}

impl PlaybackStartRequest {
    pub fn new(stream: ReceiverStreamConfig, target_id: &Option<String>, latency_ms: u16) -> (r: Self)
        ensures
            r@ == (PlaybackStartRequestView { stream, target_id: opt_string_view(*target_id), latency_ms }),
    {
        PlaybackStartRequest { stream, target_id: clone_opt_string(target_id), latency_ms }
    }
}

/// Why a playback request is refused, if it is: a stream needs a sample
/// rate, channels and frames per packet.
pub open spec fn playback_refusal(stream: ReceiverStreamConfig) -> Option<Seq<char>> {
    if stream.sample_rate_hz == 0 {
        Some("sample_rate_hz must be greater than zero"@)
    } else if stream.channels == 0 {
        Some("channels must be greater than zero"@)
    } else if stream.frames_per_packet == 0 {
        Some("frames_per_packet must be greater than zero"@)
    } else {
        None
    }
}

pub fn validate_playback_request(request: &PlaybackStartRequest) -> (r: Result<(), AudioError>)
    ensures
        match playback_refusal(request.stream) {
            Some(m) => r is Err && r->Err_0@ == AudioErrorView::InvalidSettings(m),
            None => r is Ok,
        },
{
    if request.stream.sample_rate_hz == 0 {
        return Err(AudioError::InvalidSettings("sample_rate_hz must be greater than zero".to_owned()));
    }
    if request.stream.channels == 0 {
        return Err(AudioError::InvalidSettings("channels must be greater than zero".to_owned()));
    }
    if request.stream.frames_per_packet == 0 {
        return Err(AudioError::InvalidSettings("frames_per_packet must be greater than zero".to_owned()));
    }
    Ok(())
}

pub open spec fn format_name(format: AudioSampleFormat) -> Seq<char> {
    match format {
        AudioSampleFormat::S16Le => "s16"@,
        AudioSampleFormat::F32Le => "f32"@,
    }
}

/// The PipeWire name of a sample format.
pub fn pipewire_format_name(sample_format: AudioSampleFormat) -> (r: &'static str)
    ensures
        r@ == format_name(sample_format),
{
    match sample_format {
        AudioSampleFormat::S16Le => "s16",
        AudioSampleFormat::F32Le => "f32",
    }
}

/// A latency as PipeWire tools take it: the milliseconds and `ms`.
pub fn latency_arg(latency_ms: u16) -> (r: String)
    ensures
        r@ == decimal(latency_ms as nat) + "ms"@,
{
    let mut text = String::new();
    append_decimal(&mut text, latency_ms as u64);
    crate::text::append_str(&mut text, "ms");
    text
}

/// The error a failed process start is reported as: a missing program is
/// unavailable, any other failure a failed start.
pub open spec fn spawn_error_view(program: Seq<char>, kind: IoErrorKind, message: Seq<char>) -> AudioErrorView {
    if kind == IoErrorKind::NotFound {
        AudioErrorView::CommandUnavailable(program)
    } else {
        AudioErrorView::ProcessStart {
            command: program,
            source: crate::error::IoFailureView { kind, message },
        }
    }
}

pub fn spawn_error(program: &str, source: IoFailure) -> (r: AudioError)
    ensures
        r@ == spawn_error_view(program@, source.kind, source.message@),
{
    match source.kind {
        IoErrorKind::NotFound => AudioError::CommandUnavailable(program.to_owned()),
        _ => AudioError::ProcessStart { command: program.to_owned(), source },
    }
}

/// Plays streams through the `pw-play` program.
#[derive(Debug, Clone)]
pub struct LinuxPlaybackEngine {
    pub pw_play_bin: String,
}

pub open spec fn play_args_view(request: PlaybackStartRequestView) -> Seq<Seq<char>> {
    let head = seq![
        "--raw"@,
        "--rate"@,
        decimal(request.stream.sample_rate_hz as nat),
        "--channels"@,
        decimal(request.stream.channels as nat),
        "--format"@,
        format_name(request.stream.sample_format),
        "--latency"@,
        decimal(request.latency_ms as nat) + "ms"@,
    ];
    let with_target = match request.target_id {
        Some(t) => head + seq!["--target"@, t],
        None => head,
    };
    with_target.push("-"@)
}

pub open spec fn strings_view(v: Seq<String>) -> Seq<Seq<char>> {
    v.map_values(|s: String| s@)
}

impl LinuxPlaybackEngine {
    pub fn new() -> (r: Self)
        ensures
            r.pw_play_bin@ == "pw-play"@,
    {
        LinuxPlaybackEngine { pw_play_bin: "pw-play".to_owned() }
    }

    pub fn with_pw_play_bin(pw_play_bin: &str) -> (r: Self)
        ensures
            r.pw_play_bin@ == pw_play_bin@,
    {
        LinuxPlaybackEngine { pw_play_bin: pw_play_bin.to_owned() }
    }

    pub fn backend_name(&self) -> (r: &'static str)
        ensures
            r@ == "linux-pipewire-playback"@,
    {
        "linux-pipewire-playback"
    }

    /// The `pw-play` arguments for a request, once it is valid.
    pub fn playback_args(&self, request: &PlaybackStartRequest) -> (r: Result<Vec<String>, AudioError>)
        ensures
            match playback_refusal(request.stream) {
                Some(m) => r is Err && r->Err_0@ == AudioErrorView::InvalidSettings(m),
                None => r is Ok && strings_view(r->Ok_0@) == play_args_view(request@),
            },
    {
        validate_playback_request(request)?;
        let mut args: Vec<String> = Vec::new();
        args.push("--raw".to_owned());
        args.push("--rate".to_owned());
        args.push(decimal_string(request.stream.sample_rate_hz as u64));
        args.push("--channels".to_owned());
        args.push(decimal_string(request.stream.channels as u64));
        args.push("--format".to_owned());
        args.push(pipewire_format_name(request.stream.sample_format).to_owned());
        args.push("--latency".to_owned());
        args.push(latency_arg(request.latency_ms));
        match &request.target_id {
            Some(target) => {
                args.push("--target".to_owned());
                args.push(target.clone());
            },
            None => {},
        }
        args.push("-".to_owned());
        assert(strings_view(args@) =~= play_args_view(request@));
        Ok(args)
    }
}

impl Default for LinuxPlaybackEngine {
    fn default() -> (r: Self)
        ensures
            r.pw_play_bin@ == "pw-play"@,
    {
        LinuxPlaybackEngine::new()
    }
}

} // verus!
