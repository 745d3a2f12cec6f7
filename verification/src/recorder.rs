//! Capture backends. Each backend owns the sample buffer its native input
//! stream writes into; the set of backends is small and closed, so they live
//! in one tagged union.

pub mod cpal;
pub mod pulse;

pub use cpal::CPalBuilder;
pub use cpal::CPalRecorder;
pub use pulse::PulseBuilder;
pub use pulse::PulseRecorder;

use crate::analyzer::sample_buffer::SampleBuffer;
use vstd::prelude::*;

verus! {

/// A capture backend bound to its sample buffer.
pub enum Recorder {
    /// Cross-platform host-audio backend.
    CPal(cpal::CPalRecorder),
    /// PulseAudio backend.
    Pulse(pulse::PulseRecorder),
}

impl Recorder {
    pub open spec fn wf(&self) -> bool {
        match self {
            Recorder::CPal(r) => r.wf(),
            Recorder::Pulse(r) => r.wf(),
        }
    }

    /// The backend's sample buffer, as a value.
    pub open spec fn spec_buffer(&self) -> SampleBuffer {
        match self {
            Recorder::CPal(r) => r.buffer,
            Recorder::Pulse(r) => r.buffer,
        }
    }

    /// The backend's configured sample rate.
    pub open spec fn spec_rate(&self) -> usize {
        match self {
            Recorder::CPal(r) => r.rate,
            Recorder::Pulse(r) => r.rate,
        }
    }

    /// The same backend with its buffer replaced: what any operation that
    /// touches only the buffer leaves behind.
    pub open spec fn with_buffer(self, b: SampleBuffer) -> Recorder {
        match self {
            Recorder::CPal(r) => Recorder::CPal(cpal::CPalRecorder { buffer: b, ..r }),
            Recorder::Pulse(r) => Recorder::Pulse(pulse::PulseRecorder { buffer: b, ..r }),
        }
    }

    /// Read-only view of the backend's sample buffer.
    pub fn sample_buffer(&self) -> (r: &SampleBuffer)
        ensures
            *r == self.spec_buffer(),
    {
        match self {
            Recorder::CPal(r) => r.sample_buffer(),
            Recorder::Pulse(r) => r.sample_buffer(),
        }
    }

    /// Write access to the backend's sample buffer: the capture path pushes
    /// interleaved frames through this. Only the buffer changes; the backend
    /// variant and its configuration stay as they were.
    pub fn buffer_mut(&mut self) -> (r: &mut SampleBuffer)
        ensures
            *r == old(self).spec_buffer(),
            *final(self) == old(self).with_buffer(*final(r)),
    {
        match self {
            Recorder::CPal(r) => &mut r.buffer,
            Recorder::Pulse(r) => &mut r.buffer,
        }
    }
}

} // verus!
