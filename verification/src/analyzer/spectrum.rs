//! Frequency-indexed magnitude container with range-query ("slice") and
//! aggregate ("max") operations, plus element-wise spectrum averaging.

use vstd::arithmetic::div_mod::lemma_div_by_multiple;
use vstd::arithmetic::div_mod::lemma_div_is_ordered;
use vstd::arithmetic::div_mod::lemma_div_pos_is_pos;
use vstd::arithmetic::mul::lemma_mul_inequality;
use vstd::prelude::*;

verus! {

/// Largest value among `s[lo .. hi]`; 0 if the range is empty.
pub open spec fn seq_max_range(s: Seq<u64>, lo: int, hi: int) -> int
    decreases hi - lo,
{
    if hi <= lo {
        0
    } else {
        vstd::math::max(seq_max_range(s, lo, hi - 1), s[hi - 1] as int)
    }
}

/// Sum of the magnitudes at bucket `i` of the first `j` spectra.
pub open spec fn sum_at(spectra: Seq<Spectrum>, i: int, j: int) -> int
    decreases j,
{
    if j <= 0 {
        0
    } else {
        sum_at(spectra, i, j - 1) + spectra[j - 1].data@[i]
    }
}

/// An ordered sequence of magnitude values, one per frequency bucket, spanning
/// the frequency range `[min_freq, max_freq]` linearly.
pub struct Spectrum {
    /// Magnitude per bucket.
    pub data: Vec<u64>,
    /// Frequency the first bucket maps to.
    pub min_freq: u64,
    /// Frequency the last bucket maps to.
    pub max_freq: u64,
}

/// A contiguous borrowed view of the buckets `[start, end)` of a spectrum.
pub struct SpectrumView<'a> {
    /// The spectrum the view borrows from.
    pub sp: &'a Spectrum,
    /// First bucket of the view.
    pub start: usize,
    /// One past the last bucket of the view.
    pub end: usize,
}

impl Spectrum {
    pub open spec fn wf(&self) -> bool {
        self.min_freq <= self.max_freq
    }

    /// Frequency that bucket `i` maps to: a monotone linear mapping from
    /// bucket index to `[min_freq, max_freq]`.
    pub open spec fn freq_of(&self, i: int) -> int {
        if self.data@.len() <= 1 {
            self.min_freq as int
        } else {
            self.min_freq + i * (self.max_freq - self.min_freq) / (self.data@.len() - 1)
        }
    }

    /// Bucket `i` exists and its frequency lies within `[low, high]`.
    pub open spec fn in_range(&self, low: int, high: int, i: int) -> bool {
        &&& 0 <= i < self.data@.len()
        &&& low <= self.freq_of(i) <= high
    }

    /// Largest magnitude among the first `j` buckets whose frequency lies
    /// within `[low, high]`; 0 if there is none.
    pub open spec fn slice_max_upto(&self, low: int, high: int, j: int) -> int
        decreases j,
    {
        if j <= 0 {
            0
        } else {
            let m = self.slice_max_upto(low, high, j - 1);
            if self.in_range(low, high, j - 1) && self.data@[j - 1] > m {
                self.data@[j - 1] as int
            } else {
                m
            }
        }
    }

    /// Largest magnitude among all buckets whose frequency lies within
    /// `[low, high]`; 0 if there is none.
    pub open spec fn slice_max(&self, low: int, high: int) -> int {
        self.slice_max_upto(low, high, self.data@.len() as int)
    }

    /// Wraps a magnitude sequence spanning `[min_freq, max_freq]`.
    pub fn new(data: Vec<u64>, min_freq: u64, max_freq: u64) -> (r: Spectrum)
        requires
            min_freq <= max_freq,
        ensures
            r.wf(),
            r.data == data,
            r.min_freq == min_freq,
            r.max_freq == max_freq,
    {
        Spectrum { data, min_freq, max_freq }
    }

    /// Number of frequency buckets.
    pub fn len(&self) -> (r: usize)
        ensures
            r == self.data@.len(),
    {
        self.data.len()
    }

    /// Magnitude of bucket `i`.
    pub fn get(&self, i: usize) -> (r: u64)
        requires
            i < self.data@.len(),
        ensures
            r == self.data@[i as int],
    {
        self.data[i]
    }

    /// Frequency of bucket `i`.
    fn freq_at(&self, i: usize) -> (r: u64)
        requires
            self.wf(),
            i < self.data@.len(),
        ensures
            r as int == self.freq_of(i as int),
    {
        let n = self.data.len();
        if n <= 1 {
            self.min_freq
        } else {
            let d: u64 = self.max_freq - self.min_freq;
            proof {
                lemma_mul_inequality(i as int, n - 1, d as int);
                lemma_div_is_ordered(i as int * d as int, (n - 1) * d as int, n - 1);
                lemma_div_by_multiple(d as int, n - 1);
                assert((i as int * d as int) / (n - 1) <= d as int);
                lemma_div_pos_is_pos(i as int * d as int, n - 1);
            }
            proof {
                assert(i as int * d as int <= u128::MAX) by (nonlinear_arith)
                    requires
                        i as int <= u64::MAX,
                        d as int <= u64::MAX,
                ;
            }
            let step: u128 = (i as u128) * (d as u128) / ((n - 1) as u128);
            self.min_freq + (step as u64)
        }
    }

    /// Every bucket's frequency lies within `[min_freq, max_freq]`, and the
    /// mapping is monotone in the bucket index.
    pub proof fn lemma_freq_monotone(&self, i: int, j: int)
        requires
            self.wf(),
            0 <= i <= j < self.data@.len(),
        ensures
            self.min_freq <= self.freq_of(i) <= self.freq_of(j) <= self.max_freq,
    {
        let n = self.data@.len() as int;
        let d = self.max_freq - self.min_freq;
        if n > 1 {
            lemma_mul_inequality(i, j, d);
            lemma_div_is_ordered(i * d, j * d, n - 1);
            lemma_mul_inequality(j, n - 1, d);
            lemma_div_is_ordered(j * d, (n - 1) * d, n - 1);
            lemma_div_by_multiple(d, n - 1);
            lemma_div_pos_is_pos(i * d, n - 1);
        }
    }

    /// Returns the view of the buckets whose frequency falls within
    /// `[low, high]` (inclusive); the view is empty whenever the range misses
    /// the spectrum's own `[min_freq, max_freq]` entirely.
    #[verifier::loop_isolation(false)]
    pub fn slice(&self, low: u64, high: u64) -> (r: SpectrumView<'_>)
        requires
            self.wf(),
        ensures
            r.sp == self,
            r.wf(),
            forall|i: int| self.in_range(low as int, high as int, i) <==> r.start <= i < r.end,
            (high < self.min_freq || low > self.max_freq) ==> r.start == r.end,
    {
        let n = self.data.len();
        let mut s: usize = 0;
        while s < n && self.freq_at(s) < low
            invariant
                0 <= s <= n,
                forall|j: int| 0 <= j < s ==> self.freq_of(j) < low,
            decreases n - s,
        {
            s += 1;
        }
        let mut e: usize = n;
        while e > s && self.freq_at(e - 1) > high
            invariant
                s <= e <= n,
                forall|j: int| e <= j < n ==> self.freq_of(j) > high,
            decreases e,
        {
            e -= 1;
        }
        proof {
            assert forall|i: int| self.in_range(low as int, high as int, i) implies s <= i
                < e by {
                if i < s {
                    assert(self.freq_of(i) < low);
                }
                if i >= e {
                    if e < n {
                        assert(self.freq_of(i) > high) by {
                            if i >= n {
                            } else {
                                self.lemma_freq_monotone(e as int, i);
                                assert(self.freq_of(e as int) > high || e == i);
                            }
                        };
                    }
                }
            }
            assert forall|i: int| s <= i < e implies self.in_range(
                low as int,
                high as int,
                i,
            ) by {
                // freq is monotone, s reached a bucket at or above low and
                // e - 1 one at or below high.
                assert(0 <= i < n);
                if s < n && i >= s {
                    self.lemma_freq_monotone(s as int, i);
                    assert(self.freq_of(s as int) >= low);
                }
                self.lemma_freq_monotone(i, e - 1);
                assert(self.freq_of(e - 1) <= high);
            }
            if high < self.min_freq || low > self.max_freq {
                if s < e {
                    assert(self.in_range(low as int, high as int, s as int));
                    self.lemma_freq_monotone(s as int, s as int);
                    assert(false);
                }
            }
        }
        SpectrumView { sp: self, start: s, end: e }
    }
}

impl<'a> SpectrumView<'a> {
    pub open spec fn wf(&self) -> bool {
        self.start <= self.end <= self.sp.data@.len()
    }

    /// Number of buckets in the view.
    pub fn len(&self) -> (r: usize)
        requires
            self.wf(),
        ensures
            r == self.end - self.start,
    {
        self.end - self.start
    }

    /// Largest magnitude in the view; 0 if the view is empty.
    #[verifier::loop_isolation(false)]
    pub fn max(&self) -> (r: u64)
        requires
            self.wf(),
        ensures
            r as int == seq_max_range(self.sp.data@, self.start as int, self.end as int),
    {
        let mut m: u64 = 0;
        let mut i: usize = self.start;
        while i < self.end
            invariant
                self.start <= i <= self.end,
                m as int == seq_max_range(self.sp.data@, self.start as int, i as int),
            decreases self.end - i,
        {
            let v = self.sp.data[i];
            if v > m {
                m = v;
            }
            i += 1;
        }
        m
    }
}

/// Largest magnitude over a contiguous index range equals the largest
/// magnitude over a frequency range, whenever the index range holds exactly
/// the buckets whose frequency falls in that frequency range.
pub proof fn lemma_range_max_is_slice_max(
    sp: Spectrum,
    low: int,
    high: int,
    start: int,
    end: int,
    j: int,
)
    requires
        0 <= start <= end <= sp.data@.len(),
        forall|i: int| sp.in_range(low, high, i) <==> start <= i < end,
        0 <= j <= sp.data@.len(),
    ensures
        sp.slice_max_upto(low, high, j) == seq_max_range(
            sp.data@,
            start,
            vstd::math::min(j, end),
        ),
    decreases j,
{
    if j > 0 {
        lemma_range_max_is_slice_max(sp, low, high, start, end, j - 1);
    }
}

/// The largest magnitude over a frequency slice can only grow as the slice
/// widens: `[low1, high1]` inside `[low2, high2]` gives a smaller or equal
/// maximum.
pub proof fn lemma_slice_max_monotone_upto(
    sp: Spectrum,
    low1: int,
    high1: int,
    low2: int,
    high2: int,
    j: int,
)
    requires
        low2 <= low1,
        high1 <= high2,
    ensures
        sp.slice_max_upto(low1, high1, j) <= sp.slice_max_upto(low2, high2, j),
    decreases j,
{
    if j > 0 {
        lemma_slice_max_monotone_upto(sp, low1, high1, low2, high2, j - 1);
    }
}

/// Widening the queried frequency range never decreases `slice(..).max()`.
pub proof fn lemma_slice_max_monotone(sp: Spectrum, low1: int, high1: int, low2: int, high2: int)
    requires
        low2 <= low1,
        high1 <= high2,
    ensures
        sp.slice_max(low1, high1) <= sp.slice_max(low2, high2),
{
    lemma_slice_max_monotone_upto(sp, low1, high1, low2, high2, sp.data@.len() as int);
}

/// Element-wise mean of the given spectra, written into `dest` in place.
/// All inputs must share `dest`'s bucket count; `dest`'s frequency bounds are
/// kept.
#[verifier::loop_isolation(false)]
pub fn average_spectrum(dest: &mut Spectrum, spectra: &Vec<Spectrum>)
    requires
        spectra@.len() >= 1,
        forall|j: int|
            0 <= j < spectra@.len() ==> (#[trigger] spectra@[j]).data@.len() == old(
                dest,
            ).data@.len(),
    ensures
        final(dest).min_freq == old(dest).min_freq,
        final(dest).max_freq == old(dest).max_freq,
        final(dest).data@.len() == old(dest).data@.len(),
        forall|i: int|
            0 <= i < final(dest).data@.len() ==> #[trigger] final(dest).data@[i] as int == sum_at(
                spectra@,
                i,
                spectra@.len() as int,
            ) / (spectra@.len() as int),
{
    let k = spectra.len();
    let n = dest.data.len();
    let mut i: usize = 0;
    while i < n
        invariant
            0 <= i <= n,
            dest.data@.len() == n,
            dest.min_freq == old(dest).min_freq,
            dest.max_freq == old(dest).max_freq,
            forall|t: int|
                0 <= t < i ==> #[trigger] dest.data@[t] as int == sum_at(spectra@, t, k as int) / (
                k as int),
        decreases n - i,
    {
        let mut sum: u128 = 0;
        let mut j: usize = 0;
        while j < k
            invariant
                0 <= j <= k,
                0 <= i < n,
                sum as int == sum_at(spectra@, i as int, j as int),
                sum as int <= j as int * u64::MAX as int,
            decreases k - j,
        {
            proof {
                assert((j + 1) as int * u64::MAX as int == j as int * u64::MAX as int
                    + u64::MAX as int) by (nonlinear_arith);
                assert(k as int * u64::MAX as int <= u128::MAX) by (nonlinear_arith)
                    requires
                        k as int <= u64::MAX,
                ;
                assert(j as int * u64::MAX as int <= k as int * u64::MAX as int)
                    by (nonlinear_arith)
                    requires
                        0 <= (j as int) && (j as int) < (k as int),
                ;
            }
            sum = sum + (spectra[j].data[i] as u128);
            j += 1;
        }
        proof {
            assert(sum as int / (k as int) <= u64::MAX) by (nonlinear_arith)
                requires
                    k as int >= 1,
                    0 <= sum as int <= k as int * u64::MAX as int,
            ;
            lemma_div_pos_is_pos(sum as int, k as int);
        }
        let q: u64 = (sum / (k as u128)) as u64;
        dest.data[i] = q;
        i += 1;
    }
}

/// Averaging two spectra with identical magnitudes gives those magnitudes
/// back, element-wise.
pub proof fn lemma_average_identity(spectra: Seq<Spectrum>)
    requires
        spectra.len() == 2,
        spectra[0].data@ == spectra[1].data@,
    ensures
        forall|i: int|
            0 <= i < spectra[0].data@.len() ==> sum_at(spectra, i, 2) / 2
                == #[trigger] spectra[0].data@[i],
{
    assert forall|i: int| 0 <= i < spectra[0].data@.len() implies sum_at(spectra, i, 2) / 2
        == #[trigger] spectra[0].data@[i] by {
        let d = spectra[0].data@[i] as int;
        assert(sum_at(spectra, i, 0) == 0);
        assert(sum_at(spectra, i, 1) == d);
        assert(sum_at(spectra, i, 2) == d + d);
        assert((d + d) / 2 == d) by (nonlinear_arith);
    }
}

} // verus!
