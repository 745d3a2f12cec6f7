//! PulseAudio capture backend: the second backend variant, configured the
//! same way as the host-audio one and owning its own ring buffer.
//!
//! The native PulseAudio stream (server connection, the record callback) is
//! platform I/O that lives with the embedding application; the logic here is
//! the configuration resolution, the buffer, and the conversion path from an
//! interleaved chunk into the per-channel ring.

use crate::analyzer::sample_buffer::channel_of;
use crate::analyzer::sample_buffer::SampleBuffer;
use crate::recorder::cpal::DEFAULT_BUFFER_SIZE;
use crate::recorder::cpal::DEFAULT_CHANNELS;
use crate::recorder::cpal::DEFAULT_RATE;
use crate::recorder::cpal::DEFAULT_READ_SIZE;
use crate::recorder::Recorder;
use vstd::prelude::*;

verus! {

/// Configures a PulseAudio recorder; every unset field falls back to the
/// process-wide default.
#[derive(Debug, Default)]
pub struct PulseBuilder {
    /// Sample rate in samples per second.
    pub rate: Option<usize>,
    /// Ring capacity per channel.
    pub buffer_size: Option<usize>,
    /// Frames handed over per callback read.
    pub read_size: Option<usize>,
    /// Channels captured from the stream.
    pub channels: Option<usize>,
}

impl PulseBuilder {
    pub open spec fn resolved_rate(&self) -> usize {
        if self.rate is Some {
            self.rate->0
        } else {
            DEFAULT_RATE
        }
    }

    pub open spec fn resolved_buffer_size(&self) -> usize {
        if self.buffer_size is Some {
            self.buffer_size->0
        } else {
            DEFAULT_BUFFER_SIZE
        }
    }

    pub open spec fn resolved_read_size(&self) -> usize {
        if self.read_size is Some {
            self.read_size->0
        } else {
            DEFAULT_READ_SIZE
        }
    }

    pub open spec fn resolved_channels(&self) -> usize {
        if self.channels is Some {
            self.channels->0
        } else {
            DEFAULT_CHANNELS
        }
    }

    /// The configuration describes a buffer that can exist.
    pub open spec fn valid(&self) -> bool {
        &&& self.resolved_buffer_size() >= 1
        &&& self.resolved_channels() >= 1
        &&& self.resolved_channels() * self.resolved_buffer_size() <= usize::MAX
    }

    /// Starts an empty configuration.
    pub fn new() -> (r: PulseBuilder)
        ensures
            r.rate is None,
            r.buffer_size is None,
            r.read_size is None,
            r.channels is None,
    {
        PulseBuilder { rate: None, buffer_size: None, read_size: None, channels: None }
    }

    /// Sets the sample rate.
    pub fn rate(&mut self, rate: usize) -> (r: &mut PulseBuilder)
        ensures
            *r == (PulseBuilder { rate: Some(rate), ..*old(self) }),
            *final(self) == *final(r),
    {
        self.rate = Some(rate);
        self
    }

    /// Sets the ring capacity per channel.
    pub fn buffer_size(&mut self, buffer_size: usize) -> (r: &mut PulseBuilder)
        ensures
            *r == (PulseBuilder { buffer_size: Some(buffer_size), ..*old(self) }),
            *final(self) == *final(r),
    {
        self.buffer_size = Some(buffer_size);
        self
    }

    /// Sets the frames handed over per callback read.
    pub fn read_size(&mut self, read_size: usize) -> (r: &mut PulseBuilder)
        ensures
            *r == (PulseBuilder { read_size: Some(read_size), ..*old(self) }),
            *final(self) == *final(r),
    {
        self.read_size = Some(read_size);
        self
    }

    /// Sets the captured channel count.
    pub fn channels(&mut self, channels: usize) -> (r: &mut PulseBuilder)
        ensures
            *r == (PulseBuilder { channels: Some(channels), ..*old(self) }),
            *final(self) == *final(r),
    {
        self.channels = Some(channels);
        self
    }

    /// Builds the recorder with its empty ring buffer.
    pub fn create(&self) -> (r: PulseRecorder)
        requires
            self.valid(),
        ensures
            r.wf(),
            r.rate == self.resolved_rate(),
            r.read_size == self.resolved_read_size(),
            r.buffer.capacity == self.resolved_buffer_size(),
            r.buffer.channels == self.resolved_channels(),
            r.buffer.written() == 0,
    {
        PulseRecorder::from_builder(self)
    }

    /// Builds the recorder and wraps it as the generic backend.
    pub fn build(&self) -> (r: Recorder)
        requires
            self.valid(),
        ensures
            r is Pulse,
            r.wf(),
            r.spec_rate() == self.resolved_rate(),
            r.spec_buffer().capacity == self.resolved_buffer_size(),
            r.spec_buffer().channels == self.resolved_channels(),
            r.spec_buffer().written() == 0,
    {
        Recorder::Pulse(self.create())
    }
}

/// PulseAudio recorder: owns the ring buffer the record callback writes
/// into. The native stream handle stays with the embedding application,
/// which feeds converted frames through `push_interleaved`.
pub struct PulseRecorder {
    /// Configured sample rate.
    pub rate: usize,
    /// Frames handed over per callback read.
    pub read_size: usize,
    /// The ring buffer shared with readers.
    pub buffer: SampleBuffer,
}

impl PulseRecorder {
    pub open spec fn wf(&self) -> bool {
        &&& self.buffer.wf()
        &&& self.buffer.rate == self.rate
    }

    fn from_builder(build: &PulseBuilder) -> (r: PulseRecorder)
        requires
            build.valid(),
        ensures
            r.wf(),
            r.rate == build.resolved_rate(),
            r.read_size == build.resolved_read_size(),
            r.buffer.capacity == build.resolved_buffer_size(),
            r.buffer.channels == build.resolved_channels(),
            r.buffer.written() == 0,
    {
        let rate: usize = match build.rate {
            Some(r) => r,
            None => DEFAULT_RATE,
        };
        let buffer_size: usize = match build.buffer_size {
            Some(b) => b,
            None => DEFAULT_BUFFER_SIZE,
        };
        let read_size: usize = match build.read_size {
            Some(s) => s,
            None => DEFAULT_READ_SIZE,
        };
        let channels: usize = match build.channels {
            Some(c) => c,
            None => DEFAULT_CHANNELS,
        };
        let buf = SampleBuffer::new(buffer_size, rate, channels);
        PulseRecorder { rate, read_size, buffer: buf }
    }

    /// Read-only view of the ring buffer.
    pub fn sample_buffer(&self) -> (r: &SampleBuffer)
        ensures
            *r == self.buffer,
    {
        &self.buffer
    }

    /// The record-callback path: appends one interleaved chunk of converted
    /// samples to the ring, one sample per channel per frame.
    pub fn push_interleaved(&mut self, chunk: &[i16])
        requires
            old(self).wf(),
            chunk@.len() as int % (old(self).buffer.channels as int) == 0,
        ensures
            final(self).wf(),
            final(self).rate == old(self).rate,
            final(self).read_size == old(self).read_size,
            final(self).buffer.channels == old(self).buffer.channels,
            final(self).buffer.capacity == old(self).buffer.capacity,
            forall|ch: int|
                0 <= ch < old(self).buffer.channels ==> final(self).buffer.history(ch) == old(
                    self,
                ).buffer.history(ch) + channel_of(chunk@, old(self).buffer.channels as int, ch),
    {
        self.buffer.push(chunk);
    }
}

} // verus!
