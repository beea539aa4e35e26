//! The receiver's jitter buffer: a bounded FIFO of decoded audio packets that
//! drops its oldest packet when a new one arrives while it is full.

use vstd::prelude::*;
use std::collections::VecDeque;
use crate::error::ReceiverError;
use crate::receiver::{
    ReceiverAudioPacket, ReceiverBufferSnapshot, ReceiverLatencyProfile, ReceiverStreamConfig,
};
use crate::text::decimal;

verus! {

#[derive(Debug, Clone, Copy, PartialEq, Eq, Structural)]
pub enum BufferPushOutcome {
    Accepted,
    DroppedOldest { dropped_sequence: u64 },
}

#[derive(Debug, Clone, PartialEq, Eq)]
pub struct BufferedPacket {
    pub packet: ReceiverAudioPacket,
    pub frame_count: u32,
}

/// Total frames held by a sequence of buffered packets.
pub open spec fn sum_frames(s: Seq<BufferedPacket>) -> nat
    decreases s.len(),
{
    if s.len() == 0 {
        0
    } else {
        sum_frames(s.drop_last()) + s.last().frame_count as nat
    }
}

pub proof fn lemma_sum_frames_drop_first(s: Seq<BufferedPacket>)
    requires
        s.len() > 0,
    ensures
        sum_frames(s) == s[0].frame_count as nat + sum_frames(s.subrange(1, s.len() as int)),
    decreases s.len(),
{
    if s.len() == 1 {
        assert(s.drop_last() =~= Seq::<BufferedPacket>::empty());
        assert(s.subrange(1, 1) =~= Seq::<BufferedPacket>::empty());
    } else {
        lemma_sum_frames_drop_first(s.drop_last());
        assert(s.drop_last().subrange(1, s.len() - 1) =~= s.subrange(1, s.len() as int).drop_last());
        assert(s.subrange(1, s.len() as int).last() == s.last());
    }
}

/// `min(sat64(frames * 1000) / rate, u32::MAX)`, zero without a rate or frames.
pub open spec fn spec_audio_ms(frames: u64, rate: u32) -> u32 {
    if rate == 0 || frames == 0 {
        0
    } else {
        let scaled = if frames * 1000 > u64::MAX { u64::MAX as int } else { frames * 1000 };
        let q = scaled / (rate as int);
        if q > u32::MAX { u32::MAX } else { q as u32 }
    }
}

pub struct ReceiverPacketBuffer {
    packets: VecDeque<BufferedPacket>,
    queued_frames: u64,
    sample_rate_hz: u32,
    target_buffer_ms: u32,
    max_buffer_ms: u32,
    start_threshold_packets: usize,
    max_packets: usize,
}

impl ReceiverPacketBuffer {
    /// The queued packets, oldest first.
    pub closed spec fn contents(&self) -> Seq<BufferedPacket> {
        self.packets@
    }

    pub closed spec fn spec_queued_frames(&self) -> u64 {
        self.queued_frames
    }

    pub closed spec fn spec_sample_rate_hz(&self) -> u32 {
        self.sample_rate_hz
    }

    pub closed spec fn spec_target_buffer_ms(&self) -> u32 {
        self.target_buffer_ms
    }

    pub closed spec fn spec_max_buffer_ms(&self) -> u32 {
        self.max_buffer_ms
    }

    pub closed spec fn spec_start_threshold(&self) -> usize {
        self.start_threshold_packets
    }

    pub closed spec fn spec_max_packets(&self) -> usize {
        self.max_packets
    }

    /// The buffer's invariant: the frame counter is the sum of the queued
    /// packets' frames, at most `max_packets` packets are queued, and the
    /// limits are ordered.
    pub open spec fn wf(&self) -> bool {
        &&& self.spec_queued_frames() as nat == sum_frames(self.contents())
        &&& self.contents().len() <= self.spec_max_packets()
        &&& 1 <= self.spec_start_threshold() <= self.spec_max_packets()
        &&& self.spec_target_buffer_ms() <= self.spec_max_buffer_ms()
    }

    /// What `snapshot` reports.
    pub open spec fn spec_snapshot(&self) -> ReceiverBufferSnapshot {
        ReceiverBufferSnapshot {
            queued_packets: self.contents().len() as u32,
            queued_frames: self.spec_queued_frames(),
            queued_audio_ms: self.spec_queued_audio_ms(),
            target_buffer_ms: self.spec_target_buffer_ms(),
            max_buffer_ms: self.spec_max_buffer_ms(),
            start_threshold_packets: self.spec_start_threshold() as u32,
            max_packets: self.spec_max_packets() as u32,
        }
    }

    pub open spec fn spec_queued_audio_ms(&self) -> u32 {
        spec_audio_ms(self.spec_queued_frames(), self.spec_sample_rate_hz())
    }

    pub open spec fn spec_is_ready(&self) -> bool {
        self.contents().len() >= self.spec_start_threshold() && self.spec_queued_audio_ms() >= (
        if self.spec_target_buffer_ms() > 1 { self.spec_target_buffer_ms() } else { 1 })
    }

    /// An empty buffer sized by the profile's targets for this stream shape:
    /// the start threshold is at least one packet and the capacity at least
    /// the start threshold.
    pub fn new(profile: ReceiverLatencyProfile, stream: &ReceiverStreamConfig) -> (r: Self)
        ensures
            r.wf(),
            r.contents().len() == 0,
            r.spec_queued_frames() == 0,
            r.spec_sample_rate_hz() == stream.sample_rate_hz,
            r.spec_target_buffer_ms() == profile.target_buffer_ms as u32,
            r.spec_max_buffer_ms() == (if profile.max_buffer_ms > profile.target_buffer_ms {
                profile.max_buffer_ms
            } else {
                profile.target_buffer_ms
            }) as u32,
            r.spec_start_threshold() == (if profile.spec_buffer_packet_limits(*stream).0 > 1 {
                profile.spec_buffer_packet_limits(*stream).0
            } else {
                1
            }),
            r.spec_max_packets() == (if profile.spec_buffer_packet_limits(*stream).1
                > r.spec_start_threshold() {
                profile.spec_buffer_packet_limits(*stream).1
            } else {
                r.spec_start_threshold()
            }),
    {
        let (start_threshold_packets, max_packets) = profile.buffer_packet_limits(stream);
        let start = if start_threshold_packets > 1 { start_threshold_packets } else { 1 };
        let max = if max_packets > start { max_packets } else { start };
        let max_ms = if profile.max_buffer_ms > profile.target_buffer_ms {
            profile.max_buffer_ms
        } else {
            profile.target_buffer_ms
        };
        let r = ReceiverPacketBuffer {
            packets: VecDeque::new(),
            queued_frames: 0,
            sample_rate_hz: stream.sample_rate_hz,
            target_buffer_ms: profile.target_buffer_ms as u32,
            max_buffer_ms: max_ms as u32,
            start_threshold_packets: start,
            max_packets: max,
        };
        assert(r.packets@ =~= Seq::<BufferedPacket>::empty());
        r
    }

    /// Drops every queued packet.
    pub fn clear(&mut self)
        requires
            old(self).wf(),
        ensures
            final(self).wf(),
            final(self).contents().len() == 0,
            final(self).spec_queued_frames() == 0,
            final(self).spec_sample_rate_hz() == old(self).spec_sample_rate_hz(),
            final(self).spec_target_buffer_ms() == old(self).spec_target_buffer_ms(),
            final(self).spec_max_buffer_ms() == old(self).spec_max_buffer_ms(),
            final(self).spec_start_threshold() == old(self).spec_start_threshold(),
            final(self).spec_max_packets() == old(self).spec_max_packets(),
    {
        self.packets.clear();
        self.queued_frames = 0;
        assert(self.packets@ =~= Seq::<BufferedPacket>::empty());
    }

    /// Audio time the queued frames amount to at the stream's sample rate.
    pub fn queued_audio_ms(&self) -> (r: u32)
        ensures
            r == self.spec_queued_audio_ms(),
    {
        if self.sample_rate_hz == 0 || self.queued_frames == 0 {
            return 0;
        }
        let scaled: u64 = if self.queued_frames > 18_446_744_073_709_551 {
            u64::MAX
        } else {
            self.queued_frames * 1000
        };
        let q = scaled / self.sample_rate_hz as u64;
        if q > u32::MAX as u64 { u32::MAX } else { q as u32 }
    }

    /// Playback may start: enough packets and enough queued audio.
    pub fn is_ready(&self) -> (r: bool)
        ensures
            r == self.spec_is_ready(),
    {
        let target = if self.target_buffer_ms > 1 { self.target_buffer_ms } else { 1 };
        self.packets.len() >= self.start_threshold_packets && self.queued_audio_ms() >= target
    }

    /// Queues a packet at the back. A packet whose payload is not whole frames
    /// of `stream` is refused and nothing changes; when the buffer is full the
    /// oldest packet is dropped first and its sequence number reported.
    pub fn push(&mut self, packet: ReceiverAudioPacket, stream: &ReceiverStreamConfig) -> (r:
        Result<BufferPushOutcome, ReceiverError>)
        requires
            old(self).wf(),
            old(self).spec_queued_frames() + packet.payload@.len() <= u64::MAX,
        ensures
            final(self).wf(),
            final(self).spec_sample_rate_hz() == old(self).spec_sample_rate_hz(),
            final(self).spec_target_buffer_ms() == old(self).spec_target_buffer_ms(),
            final(self).spec_max_buffer_ms() == old(self).spec_max_buffer_ms(),
            final(self).spec_start_threshold() == old(self).spec_start_threshold(),
            final(self).spec_max_packets() == old(self).spec_max_packets(),
            (stream.spec_bytes_per_frame() == 0 || packet.payload@.len()
                % stream.spec_bytes_per_frame() != 0) ==> r is Err && final(self).contents()
                == old(self).contents() && final(self).spec_queued_frames()
                == old(self).spec_queued_frames() && (match r {
                Err(ReceiverError::InvalidTransport(m)) => if stream.spec_bytes_per_frame() == 0 {
                    m@ == "stream bytes_per_frame cannot be zero"@
                } else {
                    m@ == "packet payload size "@ + decimal(packet.payload@.len()) + " is not divisible by bytes_per_frame "@
                        + decimal(stream.spec_bytes_per_frame())
                },
                _ => false,
            }),
            (stream.spec_bytes_per_frame() != 0 && packet.payload@.len()
                % stream.spec_bytes_per_frame() == 0) ==> {
                let fc = (packet.payload@.len() / stream.spec_bytes_per_frame()) as u32;
                let full = old(self).contents().len() == old(self).spec_max_packets();
                let kept = if full {
                    old(self).contents().subrange(1, old(self).contents().len() as int)
                } else {
                    old(self).contents()
                };
                &&& final(self).contents() == kept.push(
                    BufferedPacket { packet, frame_count: fc },
                )
                &&& r == if full {
                    Ok::<BufferPushOutcome, ReceiverError>(
                        BufferPushOutcome::DroppedOldest {
                            dropped_sequence: old(self).contents()[0].packet.sequence,
                        },
                    )
                } else {
                    Ok::<BufferPushOutcome, ReceiverError>(BufferPushOutcome::Accepted)
                }
            },
    {
        let frame_count = match packet.frame_count(stream) {
            Ok(frame_count) => frame_count,
            Err(message) => return Err(ReceiverError::InvalidTransport(message)),
        };
        proof {
            assert(frame_count as nat <= packet.payload@.len()) by (nonlinear_arith)
                requires
                    stream.spec_bytes_per_frame() >= 1,
                    frame_count as nat <= packet.payload@.len() / stream.spec_bytes_per_frame(),
            ;
        }
        let mut outcome = BufferPushOutcome::Accepted;
        if self.packets.len() == self.max_packets {
            let ghost before = self.packets@;
            let dropped = self.packets.pop_front();
            match dropped {
                Some(dropped) => {
                    proof {
                        lemma_sum_frames_drop_first(before);
                    }
                    self.queued_frames = self.queued_frames - dropped.frame_count as u64;
                    outcome = BufferPushOutcome::DroppedOldest {
                        dropped_sequence: dropped.packet.sequence,
                    };
                },
                None => {},
            }
        }
        let ghost kept = self.packets@;
        self.queued_frames = self.queued_frames + frame_count as u64;
        self.packets.push_back(BufferedPacket { packet, frame_count });
        proof {
            assert(self.packets@.drop_last() =~= kept);
        }
        Ok(outcome)
    }

    /// Takes the oldest packet.
    pub fn pop(&mut self) -> (r: Option<BufferedPacket>)
        requires
            old(self).wf(),
        ensures
            final(self).wf(),
            final(self).spec_sample_rate_hz() == old(self).spec_sample_rate_hz(),
            final(self).spec_target_buffer_ms() == old(self).spec_target_buffer_ms(),
            final(self).spec_max_buffer_ms() == old(self).spec_max_buffer_ms(),
            final(self).spec_start_threshold() == old(self).spec_start_threshold(),
            final(self).spec_max_packets() == old(self).spec_max_packets(),
            old(self).contents().len() == 0 ==> r is None && final(self).contents() == old(
                self,
            ).contents(),
            old(self).contents().len() > 0 ==> r == Some(old(self).contents()[0])
                && final(self).contents() == old(self).contents().subrange(
                1,
                old(self).contents().len() as int,
            ),
    {
        let ghost before = self.packets@;
        let packet = self.packets.pop_front();
        match packet {
            Some(p) => {
                proof {
                    lemma_sum_frames_drop_first(before);
                }
                self.queued_frames = self.queued_frames - p.frame_count as u64;
                Some(p)
            },
            None => None,
        }
    }

    /// The oldest packet, if any.
    pub fn front(&self) -> (r: Option<&BufferedPacket>)
        ensures
            self.contents().len() == 0 ==> r is None,
            self.contents().len() > 0 ==> r == Some(&self.contents()[0]),
    {
        if self.packets.len() == 0 {
            None
        } else {
            Some(&self.packets[0])
        }
    }

    pub fn len(&self) -> (r: usize)
        ensures
            r == self.contents().len(),
    {
        self.packets.len()
    }

    /// Counters and limits of the buffer as the receiver snapshot shows them.
    pub fn snapshot(&self) -> (r: ReceiverBufferSnapshot)
        ensures
            r == (ReceiverBufferSnapshot {
                queued_packets: self.contents().len() as u32,
                queued_frames: self.spec_queued_frames(),
                queued_audio_ms: self.spec_queued_audio_ms(),
                target_buffer_ms: self.spec_target_buffer_ms(),
                max_buffer_ms: self.spec_max_buffer_ms(),
                start_threshold_packets: self.spec_start_threshold() as u32,
                max_packets: self.spec_max_packets() as u32,
            }),
    {
        ReceiverBufferSnapshot {
            queued_packets: self.packets.len() as u32,
            queued_frames: self.queued_frames,
            queued_audio_ms: self.queued_audio_ms(),
            target_buffer_ms: self.target_buffer_ms,
            max_buffer_ms: self.max_buffer_ms,
            start_threshold_packets: self.start_threshold_packets as u32,
            max_packets: self.max_packets as u32,
        }
    }
}

} // verus!
