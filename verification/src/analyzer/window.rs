//! Window functions and the fixed-point trigonometry they and the Fourier
//! transform are built on.
//!
//! All values are integer fixed-point: angles in Q30 radians, sine and cosine
//! results and window weights in Q15 (32768 is 1.0). A four-term Taylor
//! polynomial on the first quadrant, extended by symmetry, keeps every
//! computation exact integer arithmetic that the verifier reasons about
//! directly.

use vstd::arithmetic::div_mod::lemma_fundamental_div_mod;
use vstd::arithmetic::div_mod::lemma_mod_multiples_vanish;
use vstd::arithmetic::div_mod::lemma_mod_twice;
use vstd::prelude::*;

verus! {

/// First-quadrant sine in Q15: `sin((pi/2) * t / n)`, computed by a four-term
/// Taylor polynomial in Q30 fixed point and rounded to Q15.
pub open spec fn spec_sinq(t: int, n: int) -> int
    recommends
        1 <= n,
        0 <= t <= n,
{
    let phi = (1686629713 * t) / n;
    let u = (phi * phi) / 1073741824;
    let t3 = (u * 213044) / 1073741824;
    let t2 = (u * (8947849 - t3)) / 1073741824;
    let t1 = (u * (178956971 - t2)) / 1073741824;
    let s = (phi * (1073741824 - t1)) / 1073741824;
    let r = (s + 16384) / 32768;
    if r > 32768 {
        32768
    } else {
        r
    }
}

/// Full-circle sine in Q15: `sin(2 * pi * k / n)`, by quadrant symmetry from
/// the first-quadrant polynomial.
pub open spec fn spec_sin_cycle(k: int, n: int) -> int
    recommends
        1 <= n,
        0 <= k,
{
    let m = k % n;
    let q = (4 * m) / n;
    let t4 = (4 * m) % n;
    if q == 0 {
        spec_sinq(t4, n)
    } else if q == 1 {
        spec_sinq(n - t4, n)
    } else if q == 2 {
        -spec_sinq(t4, n)
    } else {
        -spec_sinq(n - t4, n)
    }
}

/// Full-circle cosine in Q15: `cos(2 * pi * k / n)`, as the sine a quarter
/// turn ahead.
pub open spec fn spec_cos_cycle(k: int, n: int) -> int
    recommends
        1 <= n,
        0 <= k,
{
    spec_sin_cycle(4 * k + n, 4 * n)
}

/// The cycle index only matters modulo the period.
pub proof fn lemma_sin_cycle_mod(k: int, n: int)
    requires
        1 <= n,
        0 <= k,
    ensures
        spec_sin_cycle(k, n) == spec_sin_cycle(k % n, n),
{
    lemma_mod_twice(k, n);
}

/// Likewise for the cosine.
pub proof fn lemma_cos_cycle_mod(k: int, n: int)
    requires
        1 <= n,
        0 <= k,
    ensures
        spec_cos_cycle(k, n) == spec_cos_cycle(k % n, n),
{
    lemma_fundamental_div_mod(k, n);
    lemma_mod_multiples_vanish(k / n, 4 * (k % n) + n, 4 * n);
    assert(4 * n * (k / n) + (4 * (k % n) + n) == 4 * k + n) by (nonlinear_arith)
        requires
            k == n * (k / n) + k % n,
    ;
    assert((4 * k + n) % (4 * n) == (4 * (k % n) + n) % (4 * n));
    lemma_sin_cycle_mod(4 * k + n, 4 * n);
    lemma_sin_cycle_mod(4 * (k % n) + n, 4 * n);
}

/// First-quadrant sine, Q15.
fn sinq(t: u64, n: u64) -> (r: u32)
    requires
        1 <= n <= 262144,
        t <= n,
    ensures
        r as int == spec_sinq(t as int, n as int),
        r <= 32768,
{
    proof {
        assert(1686629713 * t as int <= 1686629713 * 262144) by (nonlinear_arith)
            requires
                t as int <= 262144,
        ;
        assert((1686629713 * t as int) / n as int <= 1686629713) by (nonlinear_arith)
            requires
                1 <= n as int,
                t as int <= n as int,
        ;
    }
    let phi: u64 = 1686629713u64 * t / n;
    proof {
        assert(phi * phi <= 1686629713 * 1686629713) by (nonlinear_arith)
            requires
                phi as int <= 1686629713,
        ;
    }
    let u: u64 = phi * phi / 1073741824;
    proof {
        assert(u as int <= 2649416696) by (nonlinear_arith)
            requires
                u as int <= 1686629713 * 1686629713 / 1073741824,
        ;
        assert(u * 213044 <= 2649416696 * 213044) by (nonlinear_arith)
            requires
                u as int <= 2649416696,
        ;
    }
    let t3: u64 = u * 213044 / 1073741824;
    proof {
        assert(t3 as int <= 525701) by (nonlinear_arith)
            requires
                t3 as int <= 2649416696 * 213044 / 1073741824,
        ;
        assert(u * (8947849 - t3) <= 2649416696 * 8947849) by (nonlinear_arith)
            requires
                u as int <= 2649416696,
                t3 as int <= 525701,
        ;
    }
    let t2: u64 = u * (8947849 - t3) / 1073741824;
    proof {
        assert(t2 as int <= 22078853) by (nonlinear_arith)
            requires
                t2 as int <= 2649416696 * 8947849 / 1073741824,
        ;
        assert(u * (178956971 - t2) <= 2649416696 * 178956971) by (nonlinear_arith)
            requires
                u as int <= 2649416696,
                t2 as int <= 22078853,
        ;
    }
    let t1: u64 = u * (178956971 - t2) / 1073741824;
    proof {
        assert(t1 as int <= 441594557) by (nonlinear_arith)
            requires
                t1 as int <= 2649416696 * 178956971 / 1073741824,
        ;
        assert(phi * (1073741824 - t1) <= 1686629713 * 1073741824) by (nonlinear_arith)
            requires
                phi as int <= 1686629713,
                t1 as int <= 441594557,
        ;
    }
    let s: u64 = phi * (1073741824 - t1) / 1073741824;
    proof {
        assert(s as int <= 1686629713) by (nonlinear_arith)
            requires
                s as int <= 1686629713 * 1073741824 / 1073741824,
        ;
    }
    let r: u64 = (s + 16384) / 32768;
    if r > 32768 {
        32768
    } else {
        r as u32
    }
}

/// Full-circle sine, Q15.
pub fn sin_cycle(k: u64, n: u64) -> (r: i32)
    requires
        1 <= n <= 262144,
    ensures
        r as int == spec_sin_cycle(k as int, n as int),
        -32768 <= r <= 32768,
{
    let m: u64 = k % n;
    let fm: u64 = 4 * m;
    let q: u64 = fm / n;
    let t4: u64 = fm % n;
    proof {
        assert(fm as int / n as int <= 3) by (nonlinear_arith)
            requires
                1 <= n as int,
                fm as int <= 4 * (n as int - 1),
        ;
        vstd::arithmetic::div_mod::lemma_mod_division_less_than_divisor(fm as int, n as int);
    }
    if q == 0 {
        sinq(t4, n) as i32
    } else if q == 1 {
        sinq(n - t4, n) as i32
    } else if q == 2 {
        -(sinq(t4, n) as i32)
    } else {
        -(sinq(n - t4, n) as i32)
    }
}

/// Full-circle cosine, Q15.
pub fn cos_cycle(k: u64, n: u64) -> (r: i32)
    requires
        1 <= n <= 65536,
        k <= 4194304,
    ensures
        r as int == spec_cos_cycle(k as int, n as int),
        -32768 <= r <= 32768,
{
    sin_cycle(4 * k + n, 4 * n)
}

/// Window functions applied sample-wise before the transform to reduce
/// spectral leakage. A small closed set, selected at plan time.
#[derive(Clone, Copy, PartialEq, Eq, Structural, Debug)]
pub enum Window {
    /// No weighting: every sample keeps its full value.
    Rectangular,
    /// Raised cosine.
    Hann,
    /// Nuttall's four-term low-sidelobe window.
    Nuttall,
}

/// Clamps a Q15 value into `[0, 32768]`.
pub open spec fn clamp_q15(v: int) -> int {
    if v < 0 {
        0
    } else if v > 32768 {
        32768
    } else {
        v
    }
}

/// Window weight for index `i` of an `n`-point window, in Q15.
pub open spec fn spec_weight(w: Window, i: int, n: int) -> int
    recommends
        1 <= n,
        0 <= i < n,
{
    match w {
        Window::Rectangular => 32768,
        Window::Hann => {
            if n <= 1 {
                32768
            } else {
                (32768 - spec_cos_cycle(i, n - 1)) / 2
            }
        },
        Window::Nuttall => {
            if n <= 1 {
                32768
            } else {
                let c1 = spec_cos_cycle(i, n - 1);
                let c2 = spec_cos_cycle(2 * i, n - 1);
                let c3 = spec_cos_cycle(3 * i, n - 1);
                clamp_q15((11915 * 32768 - 16030 * c1 + 4476 * c2 - 349 * c3) / 32768)
            }
        },
    }
}

/// Window weight for index `i` of an `n`-point window, in Q15.
pub fn weight(w: Window, i: u64, n: u64) -> (r: u32)
    requires
        1 <= n <= 65536,
        i < n,
    ensures
        r as int == spec_weight(w, i as int, n as int),
        r <= 32768,
{
    match w {
        Window::Rectangular => 32768,
        Window::Hann => {
            if n <= 1 {
                32768
            } else {
                let c = cos_cycle(i, n - 1);
                ((32768 - c) / 2) as u32
            }
        },
        Window::Nuttall => {
            if n <= 1 {
                32768
            } else {
                let c1 = cos_cycle(i, n - 1) as i64;
                let c2 = cos_cycle(2 * i, n - 1) as i64;
                let c3 = cos_cycle(3 * i, n - 1) as i64;
                let v: i64 = (11915i64 * 32768 - 16030 * c1 + 4476 * c2 - 349 * c3) / 32768;
                if v < 0 {
                    0
                } else if v > 32768 {
                    32768
                } else {
                    v as u32
                }
            }
        },
    }
}

} // verus!
