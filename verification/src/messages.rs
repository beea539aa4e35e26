//! The messages carried in frame metadata, and the checks each side makes
//! when a stream is negotiated.

use vstd::prelude::*;
use crate::error::{IoErrorKind, TransportError, TransportErrorView};
use crate::models::QualityPreset;
use crate::net::SocketAddress;
use crate::receiver::{ReceiverConnectionInfo, ReceiverConnectionInfoView, ReceiverLatencyPreset, spec_profile};
use crate::streaming::{STREAM_PROTOCOL_VERSION, StreamCodec};
use crate::protocol::{FrameKind, kind_name};
use crate::receiver::ReceiverStreamConfig;
use crate::text::{append_decimal, append_str, decimal, str_eq};

verus! {

/// The sender's opening message.
#[derive(Debug, Clone, PartialEq, Eq)]
pub struct HelloMessage {
    pub protocol_version: u16,
    pub session_id: String,
    pub sender_name: String,
    pub supported_codecs: Vec<StreamCodec>,
    pub desired_codec: StreamCodec,
    pub stream: ReceiverStreamConfig,
    pub quality: QualityPreset,
    pub target_latency_ms: u16,
    pub keepalive_interval_ms: u16,
}

impl HelloMessage {
    pub fn new(
        session_id: &str,
        sender_name: &str,
        stream: ReceiverStreamConfig,
        quality: QualityPreset,
        target_latency_ms: u16,
        keepalive_interval_ms: u16,
    ) -> (r: Self)
        ensures
            r.protocol_version == STREAM_PROTOCOL_VERSION,
            r.session_id@ == session_id@,
            r.sender_name@ == sender_name@,
            r.supported_codecs@ == seq![StreamCodec::RawPcm],
            r.desired_codec == StreamCodec::RawPcm,
            r.stream == stream,
            r.quality == quality,
            r.target_latency_ms == target_latency_ms,
            r.keepalive_interval_ms == keepalive_interval_ms,
    {
        let mut supported_codecs = Vec::new();
        supported_codecs.push(StreamCodec::RawPcm);
        HelloMessage {
            protocol_version: STREAM_PROTOCOL_VERSION,
            session_id: session_id.to_owned(),
            sender_name: sender_name.to_owned(),
            supported_codecs,
            desired_codec: StreamCodec::RawPcm,
            stream,
            quality,
            target_latency_ms,
            keepalive_interval_ms,
        }
    }
}

/// The receiver's answer to a hello it takes.
#[derive(Debug, Clone, PartialEq, Eq)]
pub struct AcceptMessage {
    pub protocol_version: u16,
    pub session_id: String,
    pub receiver_name: String,
    pub codec: StreamCodec,
    pub stream: ReceiverStreamConfig,
    pub keepalive_interval_ms: u16,
    pub receiver_latency_ms: u16,
}

/// The metadata of an audio frame.
#[derive(Debug, Clone, Copy, PartialEq, Eq, Structural)]
pub struct AudioMessage {
    pub sequence: u64,
    pub captured_at_ms: u64,
}

#[derive(Debug, Clone, Copy, PartialEq, Eq, Structural)]
pub struct HeartbeatMessage {
    pub nonce: u64,
}

#[derive(Debug, Clone, PartialEq, Eq)]
pub struct StopMessage {
    pub reason: String,
}

#[derive(Debug, Clone, PartialEq, Eq)]
pub struct ErrorMessage {
    pub code: String,
    pub message: String,
}

/// Why a receiver refuses a hello, if it does.
pub open spec fn hello_refusal(
    protocol_version: u16,
    supported: Seq<StreamCodec>,
    desired: StreamCodec,
) -> Option<Seq<char>> {
    if protocol_version != STREAM_PROTOCOL_VERSION {
        Some("protocol version "@ + decimal(protocol_version as nat) + " is unsupported"@)
    } else if !supported.contains(desired) {
        Some("sender requested a codec it did not advertise"@)
    } else if desired != StreamCodec::RawPcm {
        Some("receiver currently only supports raw PCM"@)
    } else {
        None
    }
}

/// A receiver takes a hello of this protocol version that asks for raw PCM
/// among the codecs it lists.
pub fn validate_hello(hello: &HelloMessage) -> (r: Result<(), TransportError>)
    ensures
        match hello_refusal(hello.protocol_version, hello.supported_codecs@, hello.desired_codec) {
            Some(m) => r is Err && r->Err_0@ == TransportErrorView::Negotiation(m),
            None => r is Ok,
        },
{
    if hello.protocol_version != STREAM_PROTOCOL_VERSION {
        let mut message = "protocol version ".to_owned();
        append_decimal(&mut message, hello.protocol_version as u64);
        append_str(&mut message, " is unsupported");
        return Err(TransportError::Negotiation(message));
    }
    let mut listed = false;
    let mut i: usize = 0;
    while i < hello.supported_codecs.len()
        invariant
            i <= hello.supported_codecs@.len(),
            listed == exists|j: int| 0 <= j < i && hello.supported_codecs@[j] == hello.desired_codec,
        decreases hello.supported_codecs@.len() - i,
    {
        if hello.supported_codecs[i] == hello.desired_codec {
            listed = true;
        }
        i = i + 1;
    }
    if !listed {
        return Err(TransportError::Negotiation("sender requested a codec it did not advertise".to_owned()));
    }
    if hello.desired_codec != StreamCodec::RawPcm {
        return Err(TransportError::Negotiation("receiver currently only supports raw PCM".to_owned()));
    }
    Ok(())
}

/// Why a sender refuses an accept, if it does.
pub open spec fn accept_refusal(
    accept: AcceptMessage,
    expected_session_id: Seq<char>,
    requested: ReceiverStreamConfig,
) -> Option<Seq<char>> {
    if accept.protocol_version != STREAM_PROTOCOL_VERSION {
        Some("receiver negotiated unsupported protocol version "@ + decimal(accept.protocol_version as nat))
    } else if accept.session_id@ != expected_session_id {
        Some("receiver accepted a different session id"@)
    } else if accept.codec != StreamCodec::RawPcm {
        Some("receiver negotiated unsupported codec"@)
    } else if accept.stream != requested {
        Some("receiver changed stream parameters; renegotiation is not yet supported"@)
    } else {
        None
    }
}

/// A sender takes an accept of its protocol version for its own session,
/// with raw PCM and the stream it asked for.
pub fn validate_accept(
    accept: &AcceptMessage,
    expected_session_id: &str,
    requested_stream: &ReceiverStreamConfig,
) -> (r: Result<(), TransportError>)
    ensures
        match accept_refusal(*accept, expected_session_id@, *requested_stream) {
            Some(m) => r is Err && r->Err_0@ == TransportErrorView::Negotiation(m),
            None => r is Ok,
        },
{
    if accept.protocol_version != STREAM_PROTOCOL_VERSION {
        let mut message = "receiver negotiated unsupported protocol version ".to_owned();
        append_decimal(&mut message, accept.protocol_version as u64);
        return Err(TransportError::Negotiation(message));
    }
    if !str_eq(accept.session_id.as_str(), expected_session_id) {
        return Err(TransportError::Negotiation("receiver accepted a different session id".to_owned()));
    }
    if accept.codec != StreamCodec::RawPcm {
        return Err(TransportError::Negotiation("receiver negotiated unsupported codec".to_owned()));
    }
    if accept.stream != *requested_stream {
        return Err(
            TransportError::Negotiation(
                "receiver changed stream parameters; renegotiation is not yet supported".to_owned(),
            ),
        );
    }
    Ok(())
}

/// The keepalive interval a receiver grants: the sender's wish, at least
/// 250 ms, but never above the receiver's own interval.
pub open spec fn granted_keepalive_ms(receiver_interval_ms: u16, requested_ms: u16) -> u16 {
    let wish = if requested_ms > 250 { requested_ms } else { 250 };
    if receiver_interval_ms < wish { receiver_interval_ms } else { wish }
}

/// The accept a receiver sends for a hello it takes.
pub fn accept_for_hello(
    hello: &HelloMessage,
    receiver_name: &str,
    latency_preset: ReceiverLatencyPreset,
    heartbeat_interval_ms: u16,
) -> (r: AcceptMessage)
    ensures
        r.protocol_version == hello.protocol_version,
        r.session_id@ == hello.session_id@,
        r.receiver_name@ == receiver_name@,
        r.codec == hello.desired_codec,
        r.stream == hello.stream,
        r.keepalive_interval_ms == granted_keepalive_ms(heartbeat_interval_ms, hello.keepalive_interval_ms),
        r.receiver_latency_ms == spec_profile(latency_preset).spec_expected_output_latency_ms(),
{
    let wish = if hello.keepalive_interval_ms > 250 { hello.keepalive_interval_ms } else { 250 };
    let keepalive_interval_ms = if heartbeat_interval_ms < wish { heartbeat_interval_ms } else { wish };
    AcceptMessage {
        protocol_version: hello.protocol_version,
        session_id: hello.session_id.clone(),
        receiver_name: receiver_name.to_owned(),
        codec: hello.desired_codec,
        stream: hello.stream,
        keepalive_interval_ms,
        receiver_latency_ms: latency_preset.profile().expected_output_latency_ms(),
    }
}

/// What the receiver reports once a hello from `peer` is taken.
pub fn connection_info_for(hello: &HelloMessage, peer: SocketAddress) -> (r: ReceiverConnectionInfo)
    ensures
        r@ == (ReceiverConnectionInfoView {
            session_id: hello.session_id@,
            remote_addr: Some(peer),
            stream: hello.stream,
            requested_latency_ms: hello.target_latency_ms,
        }),
{
    ReceiverConnectionInfo {
        session_id: hello.session_id.clone(),
        remote_addr: Some(peer),
        stream: hello.stream,
        requested_latency_ms: hello.target_latency_ms,
    }
}

/// What a streaming receiver does after a failed frame read.
#[derive(Debug, Clone, Copy, PartialEq, Eq, Structural)]
pub enum ReadFailureAction {
    /// The sender went away; report a disconnect that suggests reconnecting.
    Disconnected,
    /// Nothing arrived in time; read again.
    Retry,
    /// Report the error, tell the sender, and end the session.
    Fail,
}

pub open spec fn spec_read_failure_action(error: TransportErrorView) -> ReadFailureAction {
    match error {
        TransportErrorView::Io { source, .. } => if source.kind == IoErrorKind::UnexpectedEof
            || source.kind == IoErrorKind::ConnectionReset {
            ReadFailureAction::Disconnected
        } else if source.kind == IoErrorKind::WouldBlock || source.kind == IoErrorKind::TimedOut {
            ReadFailureAction::Retry
        } else {
            ReadFailureAction::Fail
        },
        _ => ReadFailureAction::Fail,
    }
}

pub fn read_failure_action(error: &TransportError) -> (r: ReadFailureAction)
    ensures
        r == spec_read_failure_action(error@),
{
    match error {
        TransportError::Io { source, .. } => match source.kind {
            IoErrorKind::UnexpectedEof | IoErrorKind::ConnectionReset => ReadFailureAction::Disconnected,
            IoErrorKind::WouldBlock | IoErrorKind::TimedOut => ReadFailureAction::Retry,
            _ => ReadFailureAction::Fail,
        },
        _ => ReadFailureAction::Fail,
    }
}

/// The error a receiver reports for an error frame from the sender.
pub fn sender_error_text(error: &ErrorMessage) -> (r: String)
    ensures
        r@ == "sender reported "@ + error.code@ + ": "@ + error.message@,
{
    let mut text = "sender reported ".to_owned();
    append_str(&mut text, error.code.as_str());
    append_str(&mut text, ": ");
    append_str(&mut text, error.message.as_str());
    text
}

/// What a receiver does with a frame that arrives while it streams.
#[derive(Debug, Clone, Copy, PartialEq, Eq, Structural)]
pub enum StreamingFrameAction {
    /// Hand the audio to the playback runtime.
    DeliverAudio,
    /// Tell the runtime the link is alive and echo the heartbeat back.
    AnswerHeartbeat,
    /// The sender stopped; report a disconnect that does not suggest
    /// reconnecting, and end the session.
    PeerStopped,
    /// The sender reported an error; pass it on and end the session.
    PeerFailed,
    /// Any other frame: tell the sender and end the session with a
    /// protocol error.
    Refuse,
}

pub open spec fn spec_streaming_frame_action(kind: FrameKind) -> StreamingFrameAction {
    match kind {
        FrameKind::Audio => StreamingFrameAction::DeliverAudio,
        FrameKind::Heartbeat => StreamingFrameAction::AnswerHeartbeat,
        FrameKind::Stop => StreamingFrameAction::PeerStopped,
        FrameKind::Error => StreamingFrameAction::PeerFailed,
        _ => StreamingFrameAction::Refuse,
    }
}

pub fn streaming_frame_action(kind: FrameKind) -> (r: StreamingFrameAction)
    ensures
        r == spec_streaming_frame_action(kind),
{
    match kind {
        FrameKind::Audio => StreamingFrameAction::DeliverAudio,
        FrameKind::Heartbeat => StreamingFrameAction::AnswerHeartbeat,
        FrameKind::Stop => StreamingFrameAction::PeerStopped,
        FrameKind::Error => StreamingFrameAction::PeerFailed,
        _ => StreamingFrameAction::Refuse,
    }
}

/// The text sent to the sender, and the error the session ends with, for a
/// frame the receiver does not take while streaming.
pub fn refused_frame_texts(kind: FrameKind) -> (r: (String, String))
    ensures
        r.0@ == "receiver does not accept "@ + kind_name(kind) + " during active streaming"@,
        r.1@ == "unexpected "@ + kind_name(kind) + " frame during active streaming"@,
{
    let mut told = "receiver does not accept ".to_owned();
    append_str(&mut told, kind.name());
    append_str(&mut told, " during active streaming");
    let mut error = "unexpected ".to_owned();
    append_str(&mut error, kind.name());
    append_str(&mut error, " frame during active streaming");
    (told, error)
}

/// How many audio packets went missing between the last sequence number
/// seen and `current`; none when nothing was seen or nothing is missing.
pub fn sequence_gap(last_sequence: Option<u64>, current: u64) -> (r: Option<u64>)
    ensures
        r == match last_sequence {
            Some(previous) => if current > previous + 1 { Some((current - previous - 1) as u64) } else { None },
            None => None,
        },
{
    match last_sequence {
        Some(previous) => {
            if previous < u64::MAX && current > previous + 1 {
                Some(current - previous - 1)
            } else {
                None
            }
        },
        None => None,
    }
}

} // verus!
