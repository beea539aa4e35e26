//! The SynchroSonic stream framing.
//!
//! Every frame is a 13-byte header (the magic `SSN1`, one kind byte, the
//! metadata length and the payload length as big-endian `u32`) followed by
//! the metadata bytes and the payload bytes.

use vstd::prelude::*;
use crate::error::{IoErrorKind, IoFailure, IoFailureView, TransportError, TransportErrorView};
use crate::text::{append_decimal, append_str, decimal};

verus! {

pub const FRAME_HEADER_LEN: usize = 13;
pub const MAX_METADATA_BYTES: usize = 8192;
pub const MAX_PAYLOAD_BYTES: usize = 262144;

pub open spec fn frame_magic() -> Seq<u8> {
    seq![0x53u8, 0x53u8, 0x4eu8, 0x31u8]
}

#[derive(Debug, Clone, Copy, PartialEq, Eq, Structural)]
pub enum FrameKind {
    Hello,
    Accept,
    Audio,
    Heartbeat,
    HeartbeatAck,
    Stop,
    Error,
}

/// The byte that identifies each frame kind on the wire.
pub open spec fn kind_byte(kind: FrameKind) -> u8 {
    match kind {
        FrameKind::Hello => 1,
        FrameKind::Accept => 2,
        FrameKind::Audio => 3,
        FrameKind::Heartbeat => 4,
        FrameKind::HeartbeatAck => 5,
        FrameKind::Stop => 6,
        FrameKind::Error => 7,
    }
}

/// The frame kind a byte names, if any.
pub open spec fn kind_of_byte(value: u8) -> Option<FrameKind> {
    if value == 1 { Some(FrameKind::Hello) }
    else if value == 2 { Some(FrameKind::Accept) }
    else if value == 3 { Some(FrameKind::Audio) }
    else if value == 4 { Some(FrameKind::Heartbeat) }
    else if value == 5 { Some(FrameKind::HeartbeatAck) }
    else if value == 6 { Some(FrameKind::Stop) }
    else if value == 7 { Some(FrameKind::Error) }
    else { None }
}

/// The `Debug` name of a frame kind, as error messages show it.
pub open spec fn kind_name(kind: FrameKind) -> Seq<char> {
    match kind {
        FrameKind::Hello => "Hello"@,
        FrameKind::Accept => "Accept"@,
        FrameKind::Audio => "Audio"@,
        FrameKind::Heartbeat => "Heartbeat"@,
        FrameKind::HeartbeatAck => "HeartbeatAck"@,
        FrameKind::Stop => "Stop"@,
        FrameKind::Error => "Error"@,
    }
}

impl FrameKind {
    pub fn to_u8(self) -> (r: u8)
        ensures
            r == kind_byte(self),
    {
        match self {
            FrameKind::Hello => 1,
            FrameKind::Accept => 2,
            FrameKind::Audio => 3,
            FrameKind::Heartbeat => 4,
            FrameKind::HeartbeatAck => 5,
            FrameKind::Stop => 6,
            FrameKind::Error => 7,
        }
    }

    pub fn name(self) -> (r: &'static str)
        ensures
            r@ == kind_name(self),
    {
        match self {
            FrameKind::Hello => "Hello",
            FrameKind::Accept => "Accept",
            FrameKind::Audio => "Audio",
            FrameKind::Heartbeat => "Heartbeat",
            FrameKind::HeartbeatAck => "HeartbeatAck",
            FrameKind::Stop => "Stop",
            FrameKind::Error => "Error",
        }
    }

    /// The frame kind a byte names; any other byte is a protocol error.
    pub fn from_u8(value: u8) -> (r: Result<FrameKind, TransportError>)
        ensures
            kind_of_byte(value) is Some ==> r == Ok::<FrameKind, TransportError>(
                kind_of_byte(value)->0,
            ),
            kind_of_byte(value) is None ==> r is Err && r->Err_0@ == TransportErrorView::InvalidProtocol(
                "unknown frame kind byte "@ + decimal(value as nat),
            ),
    {
        if value == 1 {
            Ok(FrameKind::Hello)
        } else if value == 2 {
            Ok(FrameKind::Accept)
        } else if value == 3 {
            Ok(FrameKind::Audio)
        } else if value == 4 {
            Ok(FrameKind::Heartbeat)
        } else if value == 5 {
            Ok(FrameKind::HeartbeatAck)
        } else if value == 6 {
            Ok(FrameKind::Stop)
        } else if value == 7 {
            Ok(FrameKind::Error)
        } else {
            let mut message = String::new();
            append_str(&mut message, "unknown frame kind byte ");
            append_decimal(&mut message, value as u64);
            Err(TransportError::InvalidProtocol(message))
        }
    }
}

/// Big-endian bytes of a 32-bit length.
pub open spec fn u32_be_bytes(x: u32) -> Seq<u8> {
    seq![(x >> 24u32) as u8, ((x >> 16u32) & 0xffu32) as u8, ((x >> 8u32) & 0xffu32) as u8, (x & 0xffu32) as u8]
}

/// The 32-bit value of four big-endian bytes.
pub open spec fn u32_from_be(b0: u8, b1: u8, b2: u8, b3: u8) -> u32 {
    ((b0 as u32) << 24u32) | ((b1 as u32) << 16u32) | ((b2 as u32) << 8u32) | (b3 as u32)
}

pub proof fn lemma_u32_be_roundtrip(x: u32)
    ensures
        u32_from_be(u32_be_bytes(x)[0], u32_be_bytes(x)[1], u32_be_bytes(x)[2], u32_be_bytes(x)[3])
            == x,
{
    let b0 = (x >> 24u32) as u8;
    let b1 = ((x >> 16u32) & 0xffu32) as u8;
    let b2 = ((x >> 8u32) & 0xffu32) as u8;
    let b3 = (x & 0xffu32) as u8;
    assert(((b0 as u32) << 24u32) | ((b1 as u32) << 16u32) | ((b2 as u32) << 8u32) | (b3 as u32)
        == x) by (bit_vector)
        requires
            b0 == (x >> 24u32) as u8,
            b1 == ((x >> 16u32) & 0xffu32) as u8,
            b2 == ((x >> 8u32) & 0xffu32) as u8,
            b3 == (x & 0xffu32) as u8,
    ;
}

/// The 13-byte frame header.
pub open spec fn frame_header(kind: FrameKind, metadata_len: u32, payload_len: u32) -> Seq<u8> {
    frame_magic() + seq![kind_byte(kind)] + u32_be_bytes(metadata_len) + u32_be_bytes(payload_len)
}

/// The complete wire encoding of one frame.
pub open spec fn encode_frame(kind: FrameKind, metadata: Seq<u8>, payload: Seq<u8>) -> Seq<u8> {
    frame_header(kind, metadata.len() as u32, payload.len() as u32) + metadata + payload
}

#[derive(Debug, Clone, PartialEq, Eq)]
pub struct Frame {
    pub kind: FrameKind,
    pub metadata: Vec<u8>,
    pub payload: Vec<u8>,
    pub wire_bytes: usize,
}

pub struct FrameView {
    pub kind: FrameKind,
    pub metadata: Seq<u8>,
    pub payload: Seq<u8>,
    pub wire_bytes: nat,
}

impl View for Frame {
    type V = FrameView;

    open spec fn view(&self) -> FrameView {
        FrameView {
            kind: self.kind,
            metadata: self.metadata@,
            payload: self.payload@,
            wire_bytes: self.wire_bytes as nat,
        }
    }
}

fn append_u32_be(out: &mut Vec<u8>, x: u32)
    ensures
        final(out)@ == old(out)@ + u32_be_bytes(x),
{
    out.push((x >> 24u32) as u8);
    out.push(((x >> 16u32) & 0xffu32) as u8);
    out.push(((x >> 8u32) & 0xffu32) as u8);
    out.push((x & 0xffu32) as u8);
    assert(final(out)@ =~= old(out)@ + u32_be_bytes(x));
}

fn append_bytes(out: &mut Vec<u8>, bytes: &[u8])
    ensures
        final(out)@ == old(out)@ + bytes@,
{
    let mut i: usize = 0;
    while i < bytes.len()
        invariant
            i <= bytes@.len(),
            out@ == old(out)@ + bytes@.subrange(0, i as int),
        decreases bytes@.len() - i,
    {
        out.push(bytes[i]);
        i = i + 1;
        assert(out@ =~= old(out)@ + bytes@.subrange(0, i as int));
    }
    assert(bytes@.subrange(0, bytes@.len() as int) =~= bytes@);
}

/// Writes one frame after `out`'s current contents and returns the number of
/// bytes written. Metadata above `MAX_METADATA_BYTES` or a payload above
/// `MAX_PAYLOAD_BYTES` is refused before anything is written.
pub fn write_frame(out: &mut Vec<u8>, kind: FrameKind, metadata: &[u8], payload: &[u8]) -> (r:
    Result<usize, TransportError>)
    ensures
        metadata@.len() > MAX_METADATA_BYTES ==> r is Err && r->Err_0@
            == TransportErrorView::InvalidProtocol("metadata frame exceeded 8192 bytes"@)
            && final(out)@ == old(out)@,
        metadata@.len() <= MAX_METADATA_BYTES && payload@.len() > MAX_PAYLOAD_BYTES ==> r is Err
            && r->Err_0@ == TransportErrorView::InvalidProtocol(
            "payload frame exceeded 262144 bytes"@,
        ) && final(out)@ == old(out)@,
        metadata@.len() <= MAX_METADATA_BYTES && payload@.len() <= MAX_PAYLOAD_BYTES ==> r
            == Ok::<usize, TransportError>((FRAME_HEADER_LEN + metadata@.len() + payload@.len()) as usize)
            && final(out)@ == old(out)@ + encode_frame(kind, metadata@, payload@),
{
    if metadata.len() > MAX_METADATA_BYTES {
        return Err(TransportError::InvalidProtocol("metadata frame exceeded 8192 bytes".to_owned()));
    }
    if payload.len() > MAX_PAYLOAD_BYTES {
        return Err(TransportError::InvalidProtocol("payload frame exceeded 262144 bytes".to_owned()));
    }
    out.push(0x53u8);
    out.push(0x53u8);
    out.push(0x4eu8);
    out.push(0x31u8);
    out.push(kind.to_u8());
    append_u32_be(out, metadata.len() as u32);
    append_u32_be(out, payload.len() as u32);
    append_bytes(out, metadata);
    append_bytes(out, payload);
    assert(final(out)@ =~= old(out)@ + encode_frame(kind, metadata@, payload@));
    Ok(FRAME_HEADER_LEN + metadata.len() + payload.len())
}


/// The `std::io` message of a `read_exact` that ran out of input.
pub open spec fn short_read_failure() -> IoFailureView {
    IoFailureView { kind: IoErrorKind::UnexpectedEof, message: "failed to fill whole buffer"@ }
}

/// What reading one frame from the front of `bytes` gives.
pub open spec fn spec_read_frame(bytes: Seq<u8>) -> Result<FrameView, TransportErrorView> {
    if bytes.len() < 13 {
        Err(TransportErrorView::Io {
            context: "reading transport frame header"@,
            source: short_read_failure(),
        })
    } else if bytes.subrange(0, 4) != frame_magic() {
        Err(TransportErrorView::InvalidProtocol("frame magic did not match SynchroSonic protocol"@))
    } else {
        match kind_of_byte(bytes[4]) {
            None => Err(
                TransportErrorView::InvalidProtocol(
                    "unknown frame kind byte "@ + decimal(bytes[4] as nat),
                ),
            ),
            Some(kind) => {
                let m = u32_from_be(bytes[5], bytes[6], bytes[7], bytes[8]) as int;
                let p = u32_from_be(bytes[9], bytes[10], bytes[11], bytes[12]) as int;
                if m > MAX_METADATA_BYTES {
                    Err(
                        TransportErrorView::InvalidProtocol(
                            "metadata length "@ + decimal(m as nat) + " exceeded 8192"@,
                        ),
                    )
                } else if p > MAX_PAYLOAD_BYTES {
                    Err(
                        TransportErrorView::InvalidProtocol(
                            "payload length "@ + decimal(p as nat) + " exceeded 262144"@,
                        ),
                    )
                } else if bytes.len() < 13 + m + p {
                    Err(TransportErrorView::Io {
                        context: "reading "@ + kind_name(kind) + " frame body"@,
                        source: short_read_failure(),
                    })
                } else {
                    Ok(FrameView {
                        kind,
                        metadata: bytes.subrange(13, 13 + m),
                        payload: bytes.subrange(13 + m, 13 + m + p),
                        wire_bytes: (13 + m + p) as nat,
                    })
                }
            },
        }
    }
}

pub open spec fn frame_result_view(r: Result<Frame, TransportError>) -> Result<FrameView, TransportErrorView> {
    match r {
        Ok(f) => Ok(f@),
        Err(e) => Err(e@),
    }
}

fn copy_range(bytes: &[u8], start: usize, end: usize) -> (r: Vec<u8>)
    requires
        start <= end <= bytes@.len(),
    ensures
        r@ == bytes@.subrange(start as int, end as int),
{
    let mut out: Vec<u8> = Vec::new();
    let mut i = start;
    while i < end
        invariant
            start <= i <= end,
            end <= bytes@.len(),
            out@ == bytes@.subrange(start as int, i as int),
        decreases end - i,
    {
        out.push(bytes[i]);
        i = i + 1;
        assert(out@ =~= bytes@.subrange(start as int, i as int));
    }
    out
}

fn short_read(context: String) -> (r: TransportError)
    ensures
        r@ == (TransportErrorView::Io { context: context@, source: short_read_failure() }),
{
    TransportError::Io {
        context,
        source: IoFailure {
            kind: IoErrorKind::UnexpectedEof,
            message: "failed to fill whole buffer".to_owned(),
        },
    }
}

/// Reads one frame from the front of `input`; the frame's `wire_bytes` is the
/// number of bytes it took.
pub fn read_frame(input: &[u8]) -> (r: Result<Frame, TransportError>)
    ensures
        frame_result_view(r) == spec_read_frame(input@),
{
    if input.len() < FRAME_HEADER_LEN {
        return Err(short_read("reading transport frame header".to_owned()));
    }
    if !(input[0] == 0x53u8 && input[1] == 0x53u8 && input[2] == 0x4eu8 && input[3] == 0x31u8) {
        proof {
            if input@.subrange(0, 4) == frame_magic() {
                assert(input@.subrange(0, 4)[0] == input@[0]);
                assert(input@.subrange(0, 4)[1] == input@[1]);
                assert(input@.subrange(0, 4)[2] == input@[2]);
                assert(input@.subrange(0, 4)[3] == input@[3]);
            }
        }
        return Err(
            TransportError::InvalidProtocol(
                "frame magic did not match SynchroSonic protocol".to_owned(),
            ),
        );
    }
    assert(input@.subrange(0, 4) =~= frame_magic());
    let kind = match FrameKind::from_u8(input[4]) {
        Ok(kind) => kind,
        Err(error) => return Err(error),
    };
    let metadata_len = ((input[5] as u32) << 24u32) | ((input[6] as u32) << 16u32) | ((input[7] as u32) << 8u32) | (input[8] as u32);
    let payload_len = ((input[9] as u32) << 24u32) | ((input[10] as u32) << 16u32) | ((input[11] as u32) << 8u32) | (input[12] as u32);
    if metadata_len as usize > MAX_METADATA_BYTES {
        let mut message = String::new();
        append_str(&mut message, "metadata length ");
        append_decimal(&mut message, metadata_len as u64);
        append_str(&mut message, " exceeded 8192");
        return Err(TransportError::InvalidProtocol(message));
    }
    if payload_len as usize > MAX_PAYLOAD_BYTES {
        let mut message = String::new();
        append_str(&mut message, "payload length ");
        append_decimal(&mut message, payload_len as u64);
        append_str(&mut message, " exceeded 262144");
        return Err(TransportError::InvalidProtocol(message));
    }
    let m = metadata_len as usize;
    let p = payload_len as usize;
    if input.len() - FRAME_HEADER_LEN < m + p {
        let mut context = String::new();
        append_str(&mut context, "reading ");
        append_str(&mut context, kind.name());
        append_str(&mut context, " frame body");
        return Err(short_read(context));
    }
    let metadata = copy_range(input, FRAME_HEADER_LEN, FRAME_HEADER_LEN + m);
    let payload = copy_range(input, FRAME_HEADER_LEN + m, FRAME_HEADER_LEN + m + p);
    Ok(Frame { kind, metadata, payload, wire_bytes: FRAME_HEADER_LEN + m + p })
}

/// A frame written by `write_frame` reads back as the same kind, metadata and
/// payload, whatever bytes follow it, and its `wire_bytes` is the encoded length.
pub proof fn lemma_frame_roundtrip(kind: FrameKind, metadata: Seq<u8>, payload: Seq<u8>, rest: Seq<u8>)
    requires
        metadata.len() <= MAX_METADATA_BYTES,
        payload.len() <= MAX_PAYLOAD_BYTES,
    ensures
        spec_read_frame(encode_frame(kind, metadata, payload) + rest) == Ok::<FrameView, TransportErrorView>(
            FrameView {
                kind,
                metadata,
                payload,
                wire_bytes: 13 + metadata.len() + payload.len(),
            },
        ),
{
    let bytes = encode_frame(kind, metadata, payload) + rest;
    let ml = metadata.len() as u32;
    let pl = payload.len() as u32;
    lemma_u32_be_roundtrip(ml);
    lemma_u32_be_roundtrip(pl);
    let header = frame_header(kind, ml, pl);
    assert(header.len() == 13);
    assert(bytes.subrange(0, 4) =~= frame_magic());
    assert(bytes[4] == kind_byte(kind));
    assert(bytes[5] == u32_be_bytes(ml)[0]);
    assert(bytes[6] == u32_be_bytes(ml)[1]);
    assert(bytes[7] == u32_be_bytes(ml)[2]);
    assert(bytes[8] == u32_be_bytes(ml)[3]);
    assert(bytes[9] == u32_be_bytes(pl)[0]);
    assert(bytes[10] == u32_be_bytes(pl)[1]);
    assert(bytes[11] == u32_be_bytes(pl)[2]);
    assert(bytes[12] == u32_be_bytes(pl)[3]);
    assert(kind_of_byte(kind_byte(kind)) == Some(kind));
    assert(bytes.subrange(13, 13 + metadata.len() as int) =~= metadata);
    assert(bytes.subrange(13 + metadata.len() as int, 13 + metadata.len() as int + payload.len() as int) =~= payload);
}

pub open spec fn header_metadata_len(h: Seq<u8>) -> int {
    u32_from_be(h[5], h[6], h[7], h[8]) as int
}

pub open spec fn header_payload_len(h: Seq<u8>) -> int {
    u32_from_be(h[9], h[10], h[11], h[12]) as int
}

/// Whether a frame header is one `read_frame` accepts: the magic, a known
/// kind, and lengths within the limits.
pub open spec fn header_ok(h: Seq<u8>) -> bool {
    &&& h.subrange(0, 4) == frame_magic()
    &&& kind_of_byte(h[4]) is Some
    &&& header_metadata_len(h) <= MAX_METADATA_BYTES
    &&& header_payload_len(h) <= MAX_PAYLOAD_BYTES
}

/// How many bytes follow a frame header: its metadata and payload lengths
/// together. A header `read_frame` would refuse gives the same error.
pub fn frame_body_len(header: &[u8]) -> (r: Result<usize, TransportError>)
    requires
        header@.len() == FRAME_HEADER_LEN,
    ensures
        r is Ok <==> header_ok(header@),
        r matches Ok(n) ==> n == header_metadata_len(header@) + header_payload_len(header@),
        r matches Err(e) ==> frame_result_view(Err(e)) == spec_read_frame(header@),
{
    match read_frame(header) {
        Err(error) => {
            if header[0] == 0x53u8 && header[1] == 0x53u8 && header[2] == 0x4eu8 && header[3] == 0x31u8
                && FrameKind::from_u8(header[4]).is_ok() {
                let metadata_len = ((header[5] as u32) << 24u32) | ((header[6] as u32) << 16u32) | ((header[7] as u32) << 8u32) | (header[8] as u32);
                let payload_len = ((header[9] as u32) << 24u32) | ((header[10] as u32) << 16u32) | ((header[11] as u32) << 8u32) | (header[12] as u32);
                assert(header@.subrange(0, 4) =~= frame_magic());
                if metadata_len as usize <= MAX_METADATA_BYTES && payload_len as usize <= MAX_PAYLOAD_BYTES {
                    return Ok(metadata_len as usize + payload_len as usize);
                }
            } else {
                proof {
                    if header@.subrange(0, 4) == frame_magic() {
                        assert(header@.subrange(0, 4)[0] == header@[0]);
                        assert(header@.subrange(0, 4)[1] == header@[1]);
                        assert(header@.subrange(0, 4)[2] == header@[2]);
                        assert(header@.subrange(0, 4)[3] == header@[3]);
                    }
                }
            }
            Err(error)
        },
        Ok(_) => Ok(0),
    }
}

} // verus!
