//! Audio device and capture models.

use vstd::prelude::*;

verus! {

#[derive(Debug, Clone, Copy, PartialEq, Eq, Structural)]
pub enum AudioDeviceDirection {
    Input,
    Output,
    Monitor,
}

#[derive(Debug, Clone, PartialEq, Eq)]
pub struct AudioDevice {
    pub id: String,
    pub display_name: String,
    pub direction: AudioDeviceDirection,
    pub backend_name: String,
    pub is_default: bool,
}

#[derive(Debug, Clone, Copy, PartialEq, Eq, Structural)]
pub enum AudioSampleFormat {
    S16Le,
    F32Le,
}

impl AudioSampleFormat {
    pub open spec fn spec_bytes_per_sample(self) -> nat {
        match self {
            AudioSampleFormat::S16Le => 2,
            AudioSampleFormat::F32Le => 4,
        }
    }

    pub fn bytes_per_sample(self) -> (r: usize)
        ensures
            r == self.spec_bytes_per_sample(),
    {
        match self {
            AudioSampleFormat::S16Le => 2,
            AudioSampleFormat::F32Le => 4,
        }
    }
}

#[derive(Debug, Clone, Copy, PartialEq, Eq, Structural)]
pub enum CaptureState {
    Idle,
    Starting,
    Capturing,
    SourceChanged,
    DeviceDisconnected,
    Stopped,
    Failed,
}

impl Default for CaptureState {
    fn default() -> (r: Self)
        ensures
            r == CaptureState::Idle,
    {
        CaptureState::Idle
    }
}

#[derive(Debug, Clone, Copy, PartialEq, Eq, Structural)]
pub struct CaptureOutputs {
    pub local_monitoring: bool,
    pub network_streaming: bool,
}

impl Default for CaptureOutputs {
    fn default() -> (r: Self)
        ensures
            r.local_monitoring,
            r.network_streaming,
    {
        CaptureOutputs { local_monitoring: true, network_streaming: true }
    }
}

#[derive(Debug, Clone, PartialEq, Eq)]
pub struct CaptureSettings {
    pub source_id: Option<String>,
    pub sample_rate_hz: u32,
    pub channels: u16,
    pub sample_format: AudioSampleFormat,
    pub buffer_frames: u32,
    pub target_latency_ms: u16,
    pub outputs: CaptureOutputs,
}

impl CaptureSettings {
    pub open spec fn spec_bytes_per_frame(&self) -> nat {
        self.channels as nat * self.sample_format.spec_bytes_per_sample()
    }

    pub open spec fn spec_chunk_bytes(&self) -> nat {
        self.buffer_frames as nat * self.spec_bytes_per_frame()
    }

    /// Bytes in one interleaved frame: channels times sample width.
    pub fn bytes_per_frame(&self) -> (r: usize)
        ensures
            r == self.spec_bytes_per_frame(),
    {
        assert(self.channels as nat * self.sample_format.spec_bytes_per_sample() <= 0xffff * 4)
            by (nonlinear_arith)
            requires
                self.channels <= 0xffff,
                self.sample_format.spec_bytes_per_sample() <= 4,
        ;
        self.channels as usize * self.sample_format.bytes_per_sample()
    }

    /// Bytes in one capture chunk of `buffer_frames` frames.
    pub fn chunk_bytes(&self) -> (r: usize)
        requires
            self.spec_chunk_bytes() <= usize::MAX,
        ensures
            r == self.spec_chunk_bytes(),
    {
        self.buffer_frames as usize * self.bytes_per_frame()
    }

    /// The capture defaults: 48 kHz stereo S16LE, 480-frame chunks, 50 ms.
    pub open spec fn spec_default() -> CaptureSettings {
        CaptureSettings {
            source_id: None,
            sample_rate_hz: 48_000,
            channels: 2,
            sample_format: AudioSampleFormat::S16Le,
            buffer_frames: 480,
            target_latency_ms: 50,
            outputs: CaptureOutputs { local_monitoring: true, network_streaming: true },
        }
    }
}

impl Default for CaptureSettings {
    fn default() -> (r: Self)
        ensures
            r == CaptureSettings::spec_default(),
    {
        CaptureSettings {
            source_id: None,
            sample_rate_hz: 48_000,
            channels: 2,
            sample_format: AudioSampleFormat::S16Le,
            buffer_frames: 480,
            target_latency_ms: 50,
            outputs: CaptureOutputs { local_monitoring: true, network_streaming: true },
        }
    }
}

} // verus!
