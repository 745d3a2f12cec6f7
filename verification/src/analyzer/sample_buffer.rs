//! Fixed-capacity multi-channel sample ring buffer.
//!
//! The buffer keeps the most recent `capacity` samples of each channel;
//! older samples are silently overwritten (ring semantics, no backpressure).
//! A ghost history records every sample ever pushed, per channel, so the
//! contracts can say exactly which samples a read returns.

use vstd::arithmetic::div_mod::lemma_add_mod_noop;
use vstd::arithmetic::div_mod::lemma_mod_division_less_than_divisor;
use vstd::arithmetic::div_mod::lemma_mod_equivalence;
use vstd::arithmetic::div_mod::lemma_mod_multiples_vanish;
use vstd::arithmetic::div_mod::lemma_mod_self_0;
use vstd::arithmetic::div_mod::lemma_small_mod;
use vstd::prelude::*;

verus! {

/// One channel's worth of an interleaved chunk: the samples at indices
/// `j * channels + ch`, in order.
pub open spec fn channel_of(chunk: Seq<i16>, channels: int, ch: int) -> Seq<i16> {
    Seq::new((chunk.len() as int / channels) as nat, |j: int| chunk[j * channels + ch])
}

/// Absolute value of one sample.
pub open spec fn abs16(x: i16) -> int {
    if x < 0 {
        -(x as int)
    } else {
        x as int
    }
}

/// Largest absolute sample value in a sequence; 0 if it is empty.
pub open spec fn seq_peak(s: Seq<i16>) -> int
    decreases s.len(),
{
    if s.len() == 0 {
        0
    } else {
        vstd::math::max(seq_peak(s.drop_last()), abs16(s.last()))
    }
}

/// Fixed-capacity ring buffer holding the most recent `capacity` samples of
/// each of `channels` channels, at a fixed sample `rate`.
pub struct SampleBuffer {
    /// Sample rate in samples per second (per channel).
    pub rate: usize,
    /// Number of interleaved channels.
    pub channels: usize,
    /// Retained samples per channel.
    pub capacity: usize,
    /// Ring slot the next sample of each channel is written to.
    pub pos: usize,
    /// Number of valid samples per channel: total pushed, clamped to capacity.
    pub count: usize,
    /// Ring storage; channel `ch` occupies `data[ch * capacity .. (ch + 1) * capacity]`.
    pub data: Vec<i16>,
    /// Every sample ever pushed, per channel, oldest first.
    pub hist: Ghost<Seq<Seq<i16>>>,
}

impl SampleBuffer {
    /// Total samples pushed so far, per channel.
    pub open spec fn written(&self) -> int {
        self.hist@[0].len() as int
    }

    /// The full push history of channel `ch`, oldest first.
    pub open spec fn history(&self, ch: int) -> Seq<i16> {
        self.hist@[ch]
    }

    pub open spec fn wf(&self) -> bool {
        &&& self.channels >= 1
        &&& self.capacity >= 1
        &&& self.channels * self.capacity <= usize::MAX
        &&& self.data@.len() == self.channels * self.capacity
        &&& self.hist@.len() == self.channels
        &&& forall|ch: int|
            0 <= ch < self.channels ==> (#[trigger] self.hist@[ch]).len() == self.written()
        &&& self.count == vstd::math::min(self.written(), self.capacity as int)
        &&& self.pos == self.written() % (self.capacity as int)
        &&& forall|ch: int, i: int|
            0 <= ch < self.channels && self.written() - self.count <= i < self.written()
                ==> #[trigger] self.data@[ch * self.capacity + (i % (self.capacity as int))]
                == self.hist@[ch][i]
    }

    /// Creates an empty buffer retaining `buffer_size` samples per channel.
    pub fn new(buffer_size: usize, rate: usize, channels: usize) -> (r: SampleBuffer)
        requires
            buffer_size >= 1,
            channels >= 1,
            channels * buffer_size <= usize::MAX,
        ensures
            r.wf(),
            r.rate == rate,
            r.channels == channels,
            r.capacity == buffer_size,
            r.written() == 0,
            forall|ch: int| 0 <= ch < channels ==> r.history(ch) == Seq::<i16>::empty(),
    {
        let total: usize = channels * buffer_size;
        let data: Vec<i16> = vec![0i16; total];
        let r = SampleBuffer {
            rate,
            channels,
            capacity: buffer_size,
            pos: 0,
            count: 0,
            data,
            hist: Ghost(Seq::new(channels as nat, |ch: int| Seq::<i16>::empty())),
        };
        proof {
            assert forall|ch: int| 0 <= ch < channels implies r.history(ch)
                == Seq::<i16>::empty() by {
                assert(r.hist@[ch] =~= Seq::<i16>::empty());
            }
        }
        r
    }

    /// Writes one frame (one sample per channel, read from
    /// `chunk[base .. base + channels]`) into the ring, advancing the cursor.
    #[verifier::loop_isolation(false)]
    fn push_frame(&mut self, chunk: &[i16], base: usize)
        requires
            old(self).wf(),
            base + old(self).channels <= chunk@.len(),
        ensures
            final(self).wf(),
            final(self).rate == old(self).rate,
            final(self).channels == old(self).channels,
            final(self).capacity == old(self).capacity,
            final(self).written() == old(self).written() + 1,
            forall|ch: int|
                0 <= ch < old(self).channels ==> final(self).history(ch) == old(self).history(
                    ch,
                ).push(chunk@[base + ch]),
    {
        let ghost prev = *self;
        let ghost cap = self.capacity as int;
        let ghost w = prev.written();
        let chunk_len: usize = chunk.len();
        proof {
            lemma_mod_division_less_than_divisor(w, cap);
            assert(chunk_len <= usize::MAX);
        }
        let mut ch: usize = 0;
        while ch < self.channels
            invariant
                prev.wf(),
                0 <= ch <= self.channels,
                base + self.channels <= chunk@.len(),
                self.rate == prev.rate,
                self.channels == prev.channels,
                self.capacity == prev.capacity,
                self.pos == prev.pos,
                self.pos < self.capacity,
                self.count == prev.count,
                self.hist == prev.hist,
                self.data@.len() == prev.data@.len(),
                forall|k: int|
                    0 <= k < self.data@.len() && k % cap != self.pos
                        ==> #[trigger] self.data@[k] == prev.data@[k],
                forall|c: int|
                    0 <= c < ch ==> #[trigger] self.data@[c * cap + self.pos] == chunk@[base + c],
            decreases self.channels - ch,
        {
            proof {
                assert(ch * cap + cap <= self.channels * cap) by (nonlinear_arith)
                    requires
                        0 <= ch,
                        ch + 1 <= self.channels as int,
                        cap >= 1,
                ;
                assert(self.data@.len() == self.channels * cap);
            }
            let idx: usize = ch * self.capacity + self.pos;
            self.data[idx] = chunk[base + ch];
            proof {
                lemma_mod_multiples_vanish(ch as int, self.pos as int, cap);
                lemma_small_mod(self.pos as nat, cap as nat);
                assert(idx as int % cap == self.pos as int);
                assert forall|c: int| 0 <= c < ch + 1 implies #[trigger] self.data@[c * cap
                    + self.pos] == chunk@[base + c] by {
                    if c < ch {
                        assert(c * cap + cap <= ch * cap) by (nonlinear_arith)
                            requires
                                c + 1 <= ch,
                                cap >= 1,
                        ;
                    }
                }
            }
            ch += 1;
        }
        let newpos: usize = if self.pos + 1 == self.capacity {
            0
        } else {
            self.pos + 1
        };
        let newcount: usize = if self.count < self.capacity {
            self.count + 1
        } else {
            self.count
        };
        self.pos = newpos;
        self.count = newcount;
        proof {
            self.hist@ = Seq::new(
                self.channels as nat,
                |c: int| prev.hist@[c].push(chunk@[base + c]),
            );
        }
        proof {
            // New write cursor still mirrors the history length:
            // (w + 1) % cap == (prev.pos + 1) % cap, then case on wraparound.
            lemma_add_mod_noop(w, 1, cap);
            lemma_add_mod_noop(prev.pos as int, 1, cap);
            lemma_small_mod(prev.pos as nat, cap as nat);
            assert((w + 1) % cap == (prev.pos + 1) % cap);
            if prev.pos + 1 == cap {
                lemma_mod_self_0(cap);
            } else {
                lemma_small_mod((prev.pos + 1) as nat, cap as nat);
            }
            assert(self.pos == (w + 1) % cap);
            // Ring window: every retained history index still maps to its slot.
            assert forall|ch2: int, i: int|
                0 <= ch2 < self.channels && self.written() - self.count <= i
                    < self.written() implies #[trigger] self.data@[ch2 * cap + (i % cap)]
                == self.hist@[ch2][i] by {
                if i == w {
                    assert(self.data@[ch2 * cap + prev.pos] == chunk@[base + ch2]);
                    assert(i % cap == prev.pos) by {
                        lemma_mod_equivalence(i, prev.pos as int, cap);
                        lemma_small_mod(prev.pos as nat, cap as nat);
                    };
                } else {
                    // An older retained index: its slot was not overwritten.
                    assert(w - prev.count <= i < w);
                    assert(i % cap != prev.pos) by {
                        if i % cap == prev.pos {
                            lemma_mod_equivalence(w, i, cap);
                            lemma_small_mod((w - i) as nat, cap as nat);
                        }
                    };
                    assert(self.data@[ch2 * cap + (i % cap)] == prev.data@[ch2 * cap + (i
                        % cap)]) by {
                        lemma_mod_multiples_vanish(ch2, i % cap, cap);
                        lemma_small_mod((i % cap) as nat, cap as nat);
                        assert(ch2 * cap + cap <= self.channels * cap) by (nonlinear_arith)
                            requires
                                ch2 + 1 <= self.channels,
                                cap >= 1,
                        ;
                    };
                }
            }
        }
    }

    /// Copies an interleaved chunk (a whole number of frames) into the ring,
    /// appending one sample per frame to each channel and overwriting the
    /// oldest samples once capacity is exceeded. Never fails, never blocks:
    /// ring semantics absorb any volume of input.
    #[verifier::loop_isolation(false)]
    pub fn push(&mut self, chunk: &[i16])
        requires
            old(self).wf(),
            chunk@.len() as int % (old(self).channels as int) == 0,
        ensures
            final(self).wf(),
            final(self).rate == old(self).rate,
            final(self).channels == old(self).channels,
            final(self).capacity == old(self).capacity,
            forall|ch: int|
                0 <= ch < old(self).channels ==> final(self).history(ch) == old(self).history(ch)
                    + channel_of(chunk@, old(self).channels as int, ch),
    {
        let ghost prev = *self;
        let ghost chans = self.channels as int;
        let len: usize = chunk.len();
        let frames: usize = len / self.channels;
        proof {
            vstd::arithmetic::div_mod::lemma_fundamental_div_mod(len as int, chans);
            vstd::arithmetic::mul::lemma_mul_is_commutative(chans, frames as int);
            assert(frames * chans == len);
        }
        let mut f: usize = 0;
        while f < frames
            invariant
                self.wf(),
                0 <= f <= frames,
                self.rate == prev.rate,
                self.channels == prev.channels,
                self.capacity == prev.capacity,
                self.written() == prev.written() + f,
                forall|ch: int|
                    0 <= ch < chans ==> #[trigger] self.history(ch) == prev.history(ch)
                        + channel_of(chunk@, chans, ch).take(f as int),
            decreases frames - f,
        {
            proof {
                assert((f + 1) * chans <= frames * chans) by (nonlinear_arith)
                    requires
                        f + 1 <= frames,
                        chans >= 1,
                ;
                assert((f + 1) * chans == f * chans + chans) by (nonlinear_arith);
            }
            let base: usize = f * self.channels;
            let ghost mid = *self;
            self.push_frame(chunk, base);
            proof {
                assert forall|ch: int| 0 <= ch < chans implies #[trigger] self.history(ch)
                    == prev.history(ch) + channel_of(chunk@, chans, ch).take(f + 1) by {
                    assert(channel_of(chunk@, chans, ch).take(f + 1) =~= channel_of(
                        chunk@,
                        chans,
                        ch,
                    ).take(f as int).push(chunk@[f * chans + ch]));
                    assert(self.history(ch) =~= prev.history(ch) + channel_of(
                        chunk@,
                        chans,
                        ch,
                    ).take(f as int).push(chunk@[f * chans + ch]));
                }
            }
            f += 1;
        }
        proof {
            assert forall|ch: int| 0 <= ch < chans implies #[trigger] self.history(ch)
                == prev.history(ch) + channel_of(chunk@, chans, ch) by {
                assert(channel_of(chunk@, chans, ch).take(frames as int) =~= channel_of(
                    chunk@,
                    chans,
                    ch,
                ));
            }
        }
    }

    /// Copies out the most recent `n` samples of channel `ch`, oldest first.
    /// The request is clamped to the capacity, and fewer samples come back
    /// only if fewer have ever been pushed.
    #[verifier::loop_isolation(false)]
    pub fn read(&self, ch: usize, n: usize) -> (r: Vec<i16>)
        requires
            self.wf(),
            ch < self.channels,
        ensures
            r@.len() == vstd::math::min(
                vstd::math::min(n as int, self.capacity as int),
                self.count as int,
            ),
            r@ == self.history(ch as int).subrange(self.written() - r@.len(), self.written()),
    {
        let ghost cap = self.capacity as int;
        let ghost w = self.written();
        let mut m: usize = n;
        if m > self.capacity {
            m = self.capacity;
        }
        if m > self.count {
            m = self.count;
        }
        proof {
            lemma_mod_division_less_than_divisor(w, cap);
        }
        let start: usize = if self.pos >= m {
            self.pos - m
        } else {
            self.pos + (self.capacity - m)
        };
        proof {
            // start == (w - m) % cap
            vstd::arithmetic::div_mod::lemma_fundamental_div_mod(w, cap);
            vstd::arithmetic::mul::lemma_mul_is_commutative(cap, w / cap);
            vstd::arithmetic::div_mod::lemma_mod_multiples_basic(w / cap, cap);
            assert(w - self.pos == (w / cap) * cap);
            assert((w - self.pos) % cap == 0);
            if self.pos >= m {
                lemma_mod_equivalence(w - m, self.pos - m, cap);
                lemma_small_mod((self.pos - m) as nat, cap as nat);
            } else {
                vstd::arithmetic::div_mod::lemma_mod_sub_multiples_vanish(w - self.pos, cap);
                lemma_mod_equivalence(w - m, self.pos + cap - m, cap);
                lemma_small_mod((self.pos + cap - m) as nat, cap as nat);
            }
            assert(start == (w - m) % cap);
        }
        let mut r: Vec<i16> = Vec::new();
        let mut i: usize = 0;
        while i < m
            invariant
                0 <= i <= m,
                r@.len() == i,
                forall|j: int|
                    0 <= j < i ==> #[trigger] r@[j] == self.history(ch as int)[w - m + j],
            decreases m - i,
        {
            let rem: usize = self.capacity - start;
            let idx: usize = if i < rem {
                start + i
            } else {
                i - rem
            };
            proof {
                // idx == (w - m + i) % cap, which the ring invariant maps to
                // history index w - m + i.
                if i < rem {
                    lemma_mod_equivalence(w - m + i, start + i, cap);
                    lemma_small_mod((start + i) as nat, cap as nat);
                } else {
                    lemma_mod_equivalence(w - m + i, start + i - cap, cap);
                    lemma_small_mod((start + i - cap) as nat, cap as nat);
                }
                assert(idx == (w - m + i) % cap);
                assert(ch * cap + cap <= self.channels * cap) by (nonlinear_arith)
                    requires
                        ch + 1 <= self.channels as int,
                        cap >= 1,
                ;
            }
            let slot: usize = ch * self.capacity + idx;
            r.push(self.data[slot]);
            i += 1;
        }
        proof {
            assert(r@ =~= self.history(ch as int).subrange(w - m, w));
        }
        r
    }

    /// Number of samples per channel that a window of `window_ms`
    /// milliseconds covers, clamped to what the buffer holds.
    pub open spec fn vol_samples(&self, window_ms: usize) -> int {
        vstd::math::min((window_ms as int * self.rate as int) / 1000, self.count as int)
    }

    /// Peak absolute sample value over the most recent `k` samples of the
    /// first `ch` channels.
    pub open spec fn peak_upto(&self, k: int, ch: int) -> int
        decreases ch,
    {
        if ch <= 0 {
            0
        } else {
            vstd::math::max(
                self.peak_upto(k, ch - 1),
                seq_peak(self.history(ch - 1).subrange(self.written() - k, self.written())),
            )
        }
    }

    /// Peak measure of loudness: the largest absolute sample value, over all
    /// channels, within the most recent `window_ms` milliseconds of audio.
    #[verifier::loop_isolation(false)]
    pub fn volume(&self, window_ms: usize) -> (r: u32)
        requires
            self.wf(),
        ensures
            r as int == self.peak_upto(self.vol_samples(window_ms), self.channels as int),
    {
        proof {
            assert(window_ms as int * self.rate as int <= u128::MAX) by (nonlinear_arith)
                requires
                    window_ms as int <= u64::MAX,
                    self.rate as int <= u64::MAX,
            ;
        }
        let k128: u128 = (window_ms as u128) * (self.rate as u128) / 1000;
        let k: usize = if k128 > (self.count as u128) {
            self.count
        } else {
            k128 as usize
        };
        assert(k as int == self.vol_samples(window_ms));
        let mut acc: u32 = 0;
        let mut ch: usize = 0;
        while ch < self.channels
            invariant
                0 <= ch <= self.channels,
                acc as int == self.peak_upto(k as int, ch as int),
            decreases self.channels - ch,
        {
            let chunk = self.read(ch, k);
            let ghost target = self.history(ch as int).subrange(
                self.written() - k,
                self.written(),
            );
            let mut i: usize = 0;
            let mut m: u32 = 0;
            while i < chunk.len()
                invariant
                    0 <= i <= chunk@.len(),
                    chunk@ == target,
                    m as int == seq_peak(target.take(i as int)),
                    m <= 32768,
                decreases chunk@.len() - i,
            {
                let x: i16 = chunk[i];
                let a: u32 = if x < 0 {
                    (-(x as i32)) as u32
                } else {
                    x as u32
                };
                if a > m {
                    m = a;
                }
                proof {
                    assert(target.take(i + 1).drop_last() =~= target.take(i as int));
                    assert(target.take(i + 1).last() == target[i as int]);
                }
                i += 1;
            }
            proof {
                assert(target.take(chunk@.len() as int) =~= target);
            }
            if m > acc {
                acc = m;
            }
            ch += 1;
        }
        acc
    }
}

} // verus!
