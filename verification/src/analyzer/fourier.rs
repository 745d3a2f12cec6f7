//! Windowed Fourier transform: a builder fixes the transform length and
//! window function, `plan` precomputes every working table, and `analyze`
//! turns the most recent samples of each channel into an amplitude spectrum.
//!
//! The transform is a direct discrete Fourier transform in integer fixed
//! point: samples are weighted by the Q15 window, correlated against Q15
//! sine/cosine tables, and each bucket's amplitude is the integer square
//! root of the squared correlation sums, scaled back down.

use crate::analyzer::sample_buffer::SampleBuffer;
use crate::analyzer::spectrum::Spectrum;
use crate::analyzer::window::spec_cos_cycle;
use crate::analyzer::window::spec_sin_cycle;
use crate::analyzer::window::spec_weight;
use crate::analyzer::window::Window;
use vstd::prelude::*;

verus! {

/// Integer square root: the unique `r >= 0` with `r * r <= v < (r+1) * (r+1)`.
pub open spec fn isqrt_spec(v: int) -> int {
    choose|r: int| r >= 0 && #[trigger] (r * r) <= v && v < (r + 1) * (r + 1)
}

/// Any nonnegative `r` whose square brackets `v` is the integer square root.
pub proof fn lemma_isqrt_unique(v: int, r: int)
    requires
        r >= 0,
        r * r <= v,
        v < (r + 1) * (r + 1),
    ensures
        isqrt_spec(v) == r,
{
    assert(exists|x: int| x >= 0 && #[trigger] (x * x) <= v && v < (x + 1) * (x + 1)) by {
        assert(r >= 0 && r * r <= v && v < (r + 1) * (r + 1));
    }
    let c = isqrt_spec(v);
    assert(c >= 0 && c * c <= v && v < (c + 1) * (c + 1));
    assert(c == r) by (nonlinear_arith)
        requires
            r >= 0,
            r * r <= v,
            v < (r + 1) * (r + 1),
            c >= 0,
            c * c <= v,
            v < (c + 1) * (c + 1),
    ;
}

/// Integer square root by bisection.
fn isqrt128(v: u128) -> (r: u64)
    requires
        v < 21267647932558653966460912964485513216u128,
    ensures
        r as int == isqrt_spec(v as int),
        r as int * r as int <= v as int,
        (v as int) < ((r as int + 1) * (r as int + 1)),
{
    let mut lo: u64 = 0;
    let mut hi: u64 = 4611686018427387904u64;
    proof {
        assert(21267647932558653966460912964485513216 == 4611686018427387904int
            * 4611686018427387904int) by (nonlinear_arith);
    }
    while hi - lo > 1
        invariant
            lo < hi <= 4611686018427387904u64,
            lo as int * lo as int <= v as int,
            (v as int) < ((hi as int) * (hi as int)),
        decreases hi - lo,
    {
        let mid: u64 = lo + (hi - lo) / 2;
        proof {
            assert((mid as int) * (mid as int) <= u128::MAX) by (nonlinear_arith)
                requires
                    0 <= (mid as int) && (mid as int) <= 4611686018427387904,
            ;
        }
        let sq: u128 = (mid as u128) * (mid as u128);
        if sq <= v {
            lo = mid;
        } else {
            hi = mid;
        }
    }
    proof {
        lemma_isqrt_unique(v as int, lo as int);
    }
    lo
}

/// The last `n` values of `chunk`, zero-padded at the front when `chunk` is
/// shorter than `n`: sample `j` of the transform input.
pub open spec fn padded(chunk: Seq<i16>, n: int, j: int) -> int {
    if j < n - chunk.len() {
        0
    } else {
        chunk[j - (n - chunk.len())] as int
    }
}

/// Real (cosine) correlation sum of bucket `k` over the first `j` windowed
/// samples of an `n`-point transform.
pub open spec fn dft_re(chunk: Seq<i16>, w: Window, n: int, k: int, j: int) -> int
    decreases j,
{
    if j <= 0 {
        0
    } else {
        dft_re(chunk, w, n, k, j - 1) + padded(chunk, n, j - 1) * spec_weight(w, j - 1, n)
            * spec_cos_cycle(k * (j - 1), n)
    }
}

/// Imaginary (sine) correlation sum of bucket `k` over the first `j` windowed
/// samples of an `n`-point transform.
pub open spec fn dft_im(chunk: Seq<i16>, w: Window, n: int, k: int, j: int) -> int
    decreases j,
{
    if j <= 0 {
        0
    } else {
        dft_im(chunk, w, n, k, j - 1) + padded(chunk, n, j - 1) * spec_weight(w, j - 1, n)
            * spec_sin_cycle(k * (j - 1), n)
    }
}

/// Amplitude of bucket `k` of the `n`-point windowed transform of `chunk`:
/// the magnitude of the complex correlation sum, scaled down by the transform
/// length and the Q15 scale.
pub open spec fn spec_bucket(chunk: Seq<i16>, w: Window, n: int, k: int) -> int {
    let re = dft_re(chunk, w, n, k, n);
    let im = dft_im(chunk, w, n, k, n);
    isqrt_spec(re * re + im * im) / (n * 32768)
}

/// The samples `analyze` reads for channel `ch`: the most recent `n` pushed,
/// or all of them when fewer are held.
pub open spec fn recent(samples: SampleBuffer, ch: int, n: int) -> Seq<i16> {
    let m = vstd::math::min(
        vstd::math::min(n, samples.capacity as int),
        samples.count as int,
    );
    samples.history(ch).subrange(samples.written() - m, samples.written())
}

/// The transform is deterministic: identical input samples and an identical
/// configuration yield bit-identical amplitudes, bucket for bucket.
pub proof fn lemma_analyze_deterministic(
    chunk1: Seq<i16>,
    chunk2: Seq<i16>,
    w1: Window,
    w2: Window,
    n1: int,
    n2: int,
    k: int,
)
    requires
        chunk1 == chunk2,
        w1 == w2,
        n1 == n2,
    ensures
        spec_bucket(chunk1, w1, n1, k) == spec_bucket(chunk2, w2, n2, k),
{
}

/// Configures a windowed Fourier transform: transform length and window
/// function, finalized by `plan`.
#[derive(Debug, Default)]
pub struct FourierBuilder {
    /// Transform length in samples; `plan` requires it to be set.
    pub length: Option<usize>,
    /// Window function; rectangular when unset.
    pub window: Option<Window>,
}

/// A planned windowed Fourier transform with all working tables
/// pre-allocated.
pub struct Analyzer {
    /// Transform length in samples.
    pub length: usize,
    /// Window function applied before the transform.
    pub window: Window,
    /// Number of amplitude buckets: `length / 2`.
    pub buckets: usize,
    /// Q15 window weight per sample index.
    pub weights: Vec<u32>,
    /// Q15 cosine of one full turn scaled by `k / length`, per `k`.
    pub cos_tab: Vec<i32>,
    /// Q15 sine of one full turn scaled by `k / length`, per `k`.
    pub sin_tab: Vec<i32>,
}

impl Analyzer {
    /// `newsp` is `oldsp` with its magnitudes replaced by the amplitude
    /// spectrum of the most recent samples of channel `ch`.
    pub open spec fn analyzed_channel(
        self,
        samples: SampleBuffer,
        oldsp: Spectrum,
        newsp: Spectrum,
        ch: int,
    ) -> bool {
        &&& newsp.data@.len() == self.buckets
        &&& newsp.min_freq == oldsp.min_freq
        &&& newsp.max_freq == oldsp.max_freq
        &&& forall|k: int|
            0 <= k < self.buckets ==> (#[trigger] newsp.data@[k]) as int == spec_bucket(
                recent(samples, ch, self.length as int),
                self.window,
                self.length as int,
                k,
            )
    }

    /// Reads the most recent `length` samples of every channel (zero-padded
    /// when fewer are held), applies the window, performs the transform, and
    /// writes the amplitude per bucket into the matching output spectrum in
    /// place. Deterministic: the output is a function of the samples and the
    /// planned configuration alone.
    #[verifier::loop_isolation(false)]
    pub fn analyze(&self, samples: &SampleBuffer, out: &mut Vec<Spectrum>)
        requires
            self.wf(),
            samples.wf(),
            old(out)@.len() == samples.channels,
            forall|c: int|
                0 <= c < old(out)@.len() ==> (#[trigger] old(out)@[c]).data@.len() == self.buckets,
        ensures
            final(out)@.len() == old(out)@.len(),
            forall|c: int|
                0 <= c < old(out)@.len() ==> self.analyzed_channel(
                    *samples,
                    old(out)@[c],
                    #[trigger] final(out)@[c],
                    c,
                ),
    {
        let n: usize = self.length;
        let nb: usize = self.buckets;
        let ghost w = self.window;
        let mut c: usize = 0;
        while c < out.len()
            invariant
                out@.len() == old(out)@.len(),
                0 <= c <= out@.len(),
                forall|t: int| c <= t < out@.len() ==> #[trigger] out@[t] == old(out)@[t],
                forall|t: int|
                    0 <= t < c ==> self.analyzed_channel(
                        *samples,
                        old(out)@[t],
                        #[trigger] out@[t],
                        t,
                    ),
            decreases out@.len() - c,
        {
            let chunk: Vec<i16> = samples.read(c, n);
            let ghost cseq = chunk@;
            proof {
                assert(cseq == recent(*samples, c as int, n as int));
            }
            let pad: usize = n - chunk.len();
            let mut wd: Vec<i64> = Vec::new();
            let mut j: usize = 0;
            while j < n
                invariant
                    0 <= j <= n,
                    wd@.len() == j,
                    pad == n - cseq.len(),
                    forall|t: int|
                        0 <= t < j ==> (#[trigger] wd@[t]) as int == padded(cseq, n as int, t)
                            * spec_weight(w, t, n as int) && -1073741824 <= wd@[t] <= 1073741824,
                decreases n - j,
            {
                let v: i64 = if j < pad {
                    0
                } else {
                    chunk[j - pad] as i64
                };
                let wt: i64 = self.weights[j] as i64;
                proof {
                    assert(-1073741824 <= v as int * wt as int <= 1073741824) by (nonlinear_arith)
                        requires
                            -32768 <= (v as int) && (v as int) <= 32767,
                            0 <= (wt as int) && (wt as int) <= 32768,
                    ;
                }
                wd.push(v * wt);
                j += 1;
            }
            let mut mags: Vec<u64> = Vec::new();
            let mut k: usize = 0;
            while k < nb
                invariant
                    0 <= k <= nb,
                    mags@.len() == k,
                    forall|t: int|
                        0 <= t < k ==> (#[trigger] mags@[t]) as int == spec_bucket(
                            cseq,
                            w,
                            n as int,
                            t,
                        ),
                decreases nb - k,
            {
                let mut re: i64 = 0;
                let mut im: i64 = 0;
                let mut j2: usize = 0;
                while j2 < n
                    invariant
                        0 <= j2 <= n,
                        re as int == dft_re(cseq, w, n as int, k as int, j2 as int),
                        im as int == dft_im(cseq, w, n as int, k as int, j2 as int),
                        -(j2 as int) * 35184372088832 <= (re as int) && (re as int) <= (j2 as int)
                            * 35184372088832,
                        -(j2 as int) * 35184372088832 <= (im as int) && (im as int) <= (j2 as int)
                            * 35184372088832,
                    decreases n - j2,
                {
                    proof {
                        assert((k as int) * (j2 as int) <= 65536 * 65536) by (nonlinear_arith)
                            requires
                                0 <= (k as int) && (k as int) <= 65536,
                                0 <= (j2 as int) && (j2 as int) <= 65536,
                        ;
                    }
                    let idx: usize = (((k as u64) * (j2 as u64)) % (n as u64)) as usize;
                    let cv: i64 = self.cos_tab[idx] as i64;
                    let sv: i64 = self.sin_tab[idx] as i64;
                    let wv: i64 = wd[j2];
                    proof {
                        crate::analyzer::window::lemma_cos_cycle_mod(
                            k as int * j2 as int,
                            n as int,
                        );
                        crate::analyzer::window::lemma_sin_cycle_mod(
                            k as int * j2 as int,
                            n as int,
                        );
                        assert(cv as int == spec_cos_cycle(k as int * j2 as int, n as int));
                        assert(sv as int == spec_sin_cycle(k as int * j2 as int, n as int));
                        assert(-35184372088832 <= wv as int * cv as int
                            <= 35184372088832) by (nonlinear_arith)
                            requires
                                -1073741824 <= (wv as int) && (wv as int) <= 1073741824,
                                -32768 <= (cv as int) && (cv as int) <= 32768,
                        ;
                        assert(-35184372088832 <= wv as int * sv as int
                            <= 35184372088832) by (nonlinear_arith)
                            requires
                                -1073741824 <= (wv as int) && (wv as int) <= 1073741824,
                                -32768 <= (sv as int) && (sv as int) <= 32768,
                        ;
                        assert((j2 as int + 1) * 35184372088832 == (j2 as int) * 35184372088832
                            + 35184372088832) by (nonlinear_arith);
                        assert((j2 as int + 1) * 35184372088832 <= 65536
                            * 35184372088832) by (nonlinear_arith)
                            requires
                                (j2 as int) + 1 <= 65536,
                        ;
                    }
                    re = re + wv * cv;
                    im = im + wv * sv;
                    j2 += 1;
                }
                proof {
                    assert((n as int) * 35184372088832 <= 2305843009213693952) by (nonlinear_arith)
                        requires
                            (n as int) <= 65536,
                    ;
                    assert((re as int) * (re as int) + (im as int) * (im as int)
                        < 21267647932558653966460912964485513216 && (re as int) * (re as int) >= 0
                        && (im as int) * (im as int) >= 0) by (nonlinear_arith)
                        requires
                            -2305843009213693952 <= (re as int) && (re as int)
                                <= 2305843009213693952,
                            -2305843009213693952 <= (im as int) && (im as int)
                                <= 2305843009213693952,
                    ;
                }
                let re2: i128 = (re as i128) * (re as i128);
                let im2: i128 = (im as i128) * (im as i128);
                let v: u128 = (re2 + im2) as u128;
                let s: u64 = isqrt128(v);
                let mag: u64 = s / ((n as u64) * 32768);
                proof {
                    assert(mag as int == spec_bucket(cseq, w, n as int, k as int));
                }
                mags.push(mag);
                k += 1;
            }
            let lo: u64 = out[c].min_freq;
            let hi: u64 = out[c].max_freq;
            out[c] = Spectrum { data: mags, min_freq: lo, max_freq: hi };
            c += 1;
        }
    }

    pub open spec fn wf(&self) -> bool {
        &&& 1 <= self.length <= 65536
        &&& self.buckets == self.length / 2
        &&& self.weights@.len() == self.length
        &&& self.cos_tab@.len() == self.length
        &&& self.sin_tab@.len() == self.length
        &&& forall|i: int|
            0 <= i < self.length ==> (#[trigger] self.weights@[i]) as int == spec_weight(
                self.window,
                i,
                self.length as int,
            ) && self.weights@[i] <= 32768
        &&& forall|i: int|
            0 <= i < self.length ==> (#[trigger] self.cos_tab@[i]) as int == spec_cos_cycle(
                i,
                self.length as int,
            ) && -32768 <= self.cos_tab@[i] <= 32768
        &&& forall|i: int|
            0 <= i < self.length ==> (#[trigger] self.sin_tab@[i]) as int == spec_sin_cycle(
                i,
                self.length as int,
            ) && -32768 <= self.sin_tab@[i] <= 32768
    }
}

impl FourierBuilder {
    /// Starts an unconfigured builder.
    pub fn new() -> (r: FourierBuilder)
        ensures
            r.length is None,
            r.window is None,
    {
        FourierBuilder { length: None, window: None }
    }

    /// Sets the transform length.
    pub fn length(&mut self, length: usize) -> (r: &mut FourierBuilder)
        ensures
            *r == (FourierBuilder { length: Some(length), ..*old(self) }),
            *final(self) == *final(r),
    {
        self.length = Some(length);
        self
    }

    /// Sets the window function.
    pub fn window(&mut self, window: Window) -> (r: &mut FourierBuilder)
        ensures
            *r == (FourierBuilder { window: Some(window), ..*old(self) }),
            *final(self) == *final(r),
    {
        self.window = Some(window);
        self
    }

    /// Finalizes the configuration: precomputes the window weights and the
    /// sine/cosine tables, and derives the bucket count. The transform length
    /// must be set, positive, and small enough for the fixed-point tables.
    #[verifier::loop_isolation(false)]
    pub fn plan(&self) -> (r: Analyzer)
        requires
            self.length is Some,
            1 <= self.length->0 <= 65536,
        ensures
            r.wf(),
            r.length == self.length->0,
            r.window == if self.window is Some {
                self.window->0
            } else {
                Window::Rectangular
            },
    {
        let n: usize = match self.length {
            Some(n) => n,
            None => 1,
        };
        let w: Window = match self.window {
            Some(w) => w,
            None => Window::Rectangular,
        };
        let mut weights: Vec<u32> = Vec::new();
        let mut cos_tab: Vec<i32> = Vec::new();
        let mut sin_tab: Vec<i32> = Vec::new();
        let mut i: usize = 0;
        while i < n
            invariant
                0 <= i <= n,
                weights@.len() == i,
                cos_tab@.len() == i,
                sin_tab@.len() == i,
                forall|t: int|
                    0 <= t < i ==> (#[trigger] weights@[t]) as int == spec_weight(w, t, n as int)
                        && weights@[t] <= 32768,
                forall|t: int|
                    0 <= t < i ==> (#[trigger] cos_tab@[t]) as int == spec_cos_cycle(t, n as int)
                        && -32768 <= cos_tab@[t] <= 32768,
                forall|t: int|
                    0 <= t < i ==> (#[trigger] sin_tab@[t]) as int == spec_sin_cycle(t, n as int)
                        && -32768 <= sin_tab@[t] <= 32768,
            decreases n - i,
        {
            weights.push(crate::analyzer::window::weight(w, i as u64, n as u64));
            cos_tab.push(crate::analyzer::window::cos_cycle(i as u64, n as u64));
            sin_tab.push(crate::analyzer::window::sin_cycle(i as u64, n as u64));
            i += 1;
        }
        Analyzer { length: n, window: w, buckets: n / 2, weights, cos_tab, sin_tab }
    }
}

} // verus!
