//! Frame-production loop: pulls the latest samples from the attached
//! recorder, hands a user-supplied analysis step exclusive access to the
//! "info" value together with those samples, and publishes the result as a
//! stamped frame whose readers always see a consistent value.
//!
//! Cadence is the caller's: a frame is produced whenever the loop is polled,
//! so no wall-clock dependency lives here.

use crate::analyzer::sample_buffer::channel_of;
use crate::analyzer::sample_buffer::SampleBuffer;
use crate::recorder::Recorder;
use vstd::prelude::*;

verus! {

/// One analysis step per frame: the user-supplied transform from the latest
/// samples and the previous info value to the next info value. Implemented
/// by the embedding application; the loop promises it exclusive access.
pub trait AnalysisStep<I>: Sized {
    /// What one step does: relates the step's own state and the info value
    /// before the call to their values after it, given the samples it read.
    /// Each implementor declares this as strongly as it can prove of its
    /// `step`; the loop's contract carries it through to the published frame.
    spec fn step_post(pre_s: Self, pre_i: I, post_s: Self, post_i: I, samples: SampleBuffer) -> bool;

    /// Transforms `info` in place, reading the freshest samples.
    fn step(&mut self, info: &mut I, samples: &SampleBuffer)
        ensures
            Self::step_post(*old(self), *old(info), *final(self), *final(info), *samples),
    ;
}

/// One published snapshot of the info value, stamped with its frame number.
/// The stamp counts polls; wall-clock pacing belongs to the caller.
pub struct Frame<'a, I> {
    /// The published info value.
    pub info: &'a I,
    /// Sequence number of the poll that produced this frame.
    pub stamp: usize,
}

impl<'a, I> Frame<'a, I> {
    /// Scoped read access to the published info value: the callback sees one
    /// consistent value for its whole run.
    pub fn lock_info<R, F: Fn(&I) -> R>(&self, f: F) -> (r: R)
        requires
            call_requires(f, (self.info,)),
        ensures
            call_ensures(f, (self.info,), r),
    {
        f(self.info)
    }
}

/// The pipeline under configuration: an info value and an analysis step,
/// waiting for a recorder before frames can flow.
pub struct Visualizer<I, A> {
    /// The user-defined analysis state handed to every step.
    pub info: I,
    /// The user-supplied analysis step.
    pub analysis: A,
    /// The capture backend, once attached.
    pub recorder: Option<Recorder>,
}

impl<I, A: AnalysisStep<I>> Visualizer<I, A> {
    /// Starts an unconfigured visualizer around an initial info value and an
    /// analysis step.
    pub fn new(initial: I, analysis: A) -> (r: Visualizer<I, A>)
        ensures
            r.info == initial,
            r.analysis == analysis,
            r.recorder is None,
    {
        Visualizer { info: initial, analysis, recorder: None }
    }

    /// Attaches the capture backend the loop will pull samples from.
    pub fn recorder(self, recorder: Recorder) -> (r: Visualizer<I, A>)
        ensures
            r.info == self.info,
            r.analysis == self.analysis,
            r.recorder == Some(recorder),
    {
        Visualizer { info: self.info, analysis: self.analysis, recorder: Some(recorder) }
    }

    /// Begins frame production. A recorder must have been attached first;
    /// starting without one is a configuration error ruled out here, so the
    /// caller checks before entering the loop.
    pub fn frames(self) -> (r: Frames<I, A>)
        requires
            self.recorder is Some,
        ensures
            r.info == self.info,
            r.analysis == self.analysis,
            r.recorder == self.recorder->0,
            r.stamp == 0,
    {
        let rec = match self.recorder {
            Some(rec) => rec,
            None => unreached(),
        };
        Frames { info: self.info, analysis: self.analysis, recorder: rec, stamp: 0 }
    }
}

/// The running frame loop: owns the info value, the analysis step and the
/// recorder, and produces one frame per poll.
pub struct Frames<I, A> {
    /// The analysis state published after every poll.
    pub info: I,
    /// The user-supplied analysis step.
    pub analysis: A,
    /// The capture backend frames are pulled from.
    pub recorder: Recorder,
    /// Number of polls so far; the current frame's stamp.
    pub stamp: usize,
}

impl<I, A: AnalysisStep<I>> Frames<I, A> {
    /// Runs one cycle: hands the analysis step the info value and the
    /// recorder's buffer, then stamps the updated info as the next frame.
    /// The published info is exactly what the step made of the previous one,
    /// as the step's own `step_post` relation states it.
    pub fn poll(&mut self)
        requires
            old(self).stamp < usize::MAX,
        ensures
            final(self).stamp == old(self).stamp + 1,
            final(self).recorder == old(self).recorder,
            A::step_post(
                old(self).analysis,
                old(self).info,
                final(self).analysis,
                final(self).info,
                old(self).recorder.spec_buffer(),
            ),
    {
        let buf: &SampleBuffer = self.recorder.sample_buffer();
        self.analysis.step(&mut self.info, buf);
        self.stamp = self.stamp + 1;
    }

    /// The current frame: a consistent snapshot of the info value, stamped
    /// with the number of polls that produced it.
    pub fn frame(&self) -> (r: Frame<'_, I>)
        ensures
            *r.info == self.info,
            r.stamp == self.stamp,
    {
        Frame { info: &self.info, stamp: self.stamp }
    }

    /// Scoped read access to the current info value, as `Frame::lock_info`
    /// but without constructing the frame handle.
    pub fn lock_info<R, F: Fn(&I) -> R>(&self, f: F) -> (r: R)
        requires
            call_requires(f, (&self.info,)),
        ensures
            call_ensures(f, (&self.info,), r),
    {
        f(&self.info)
    }

    /// The capture path into the running loop: appends one interleaved chunk
    /// of converted samples to the recorder's ring buffer.
    pub fn push_samples(&mut self, chunk: &[i16])
        requires
            old(self).recorder.wf(),
            chunk@.len() as int % (old(self).recorder.spec_buffer().channels as int) == 0,
        ensures
            final(self).recorder.wf(),
            final(self).info == old(self).info,
            final(self).analysis == old(self).analysis,
            final(self).stamp == old(self).stamp,
            final(self).recorder == old(self).recorder.with_buffer(
                final(self).recorder.spec_buffer(),
            ),
            final(self).recorder.spec_buffer().channels
                == old(self).recorder.spec_buffer().channels,
            final(self).recorder.spec_buffer().capacity
                == old(self).recorder.spec_buffer().capacity,
            final(self).recorder.spec_rate() == old(self).recorder.spec_rate(),
            forall|ch: int|
                0 <= ch < old(self).recorder.spec_buffer().channels
                    ==> final(self).recorder.spec_buffer().history(ch)
                    == old(self).recorder.spec_buffer().history(ch) + channel_of(
                    chunk@,
                    old(self).recorder.spec_buffer().channels as int,
                    ch,
                ),
    {
        let buf = self.recorder.buffer_mut();
        buf.push(chunk);
    }
}

} // verus!
