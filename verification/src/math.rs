//! Integer helpers shared by the geometry and gradient modules: coordinate
//! range bounds, an exact integer square root, and a rational approximation
//! of the sine function on whole degrees.

use vstd::prelude::*;

verus! {

/// Largest magnitude allowed for a device-space coordinate.  Keeping every
/// coordinate within this bound lets all derived quantities (edge lengths,
/// diagonals, scaled chord offsets) fit comfortably in 64-bit arithmetic.
pub const COORD_LIMIT: i64 = 16777216;

/// A coordinate value the library accepts.
pub open spec fn in_coord_range(v: i64) -> bool {
    -COORD_LIMIT <= v <= COORD_LIMIT
}

/// Floor of the square root, as a recursive specification: halving the
/// argument's square root (computed on `n / 4`) brackets the result within
/// one, and the final unit is decided by one comparison.
pub open spec fn spec_isqrt(n: int) -> int
    decreases n,
{
    if n < 1 {
        0
    } else {
        let h = spec_isqrt(n / 4);
        if (2 * h + 1) * (2 * h + 1) <= n {
            2 * h + 1
        } else {
            2 * h
        }
    }
}

pub proof fn lemma_spec_isqrt_bounds(n: int)
    requires
        0 <= n,
    ensures
        0 <= spec_isqrt(n),
        spec_isqrt(n) * spec_isqrt(n) <= n,
        n < (spec_isqrt(n) + 1) * (spec_isqrt(n) + 1),
    decreases n,
{
    if n >= 1 {
        vstd::arithmetic::div_mod::lemma_div_pos_is_pos(n, 4);
        vstd::arithmetic::div_mod::lemma_div_is_strictly_smaller(n, 4);
        lemma_spec_isqrt_bounds(n / 4);
        let h = spec_isqrt(n / 4);
        let q = n / 4;
        vstd::arithmetic::div_mod::lemma_fundamental_div_mod(n, 4);
        assert(n == 4 * q + n % 4);
        vstd::arithmetic::div_mod::lemma_mod_division_less_than_divisor(n, 4);
        assert((2 * h) * (2 * h) <= n) by (nonlinear_arith)
            requires
                h * h <= q,
                n >= 4 * q,
            ;
        assert(n < (2 * h + 2) * (2 * h + 2)) by (nonlinear_arith)
            requires
                q < (h + 1) * (h + 1),
                n < 4 * q + 4,
            ;
    }
}

/// Any value bracketed between consecutive squares is the square root.
pub proof fn lemma_isqrt_unique(n: int, r: int)
    requires
        0 <= n,
        0 <= r,
        r * r <= n,
        n < (r + 1) * (r + 1),
    ensures
        r == spec_isqrt(n),
{
    lemma_spec_isqrt_bounds(n);
    let s = spec_isqrt(n);
    if r < s {
        assert((r + 1) * (r + 1) <= s * s) by (nonlinear_arith)
            requires
                0 <= r,
                r + 1 <= s,
            ;
    }
    if s < r {
        assert((s + 1) * (s + 1) <= r * r) by (nonlinear_arith)
            requires
                0 <= s,
                s + 1 <= r,
            ;
    }
}

/// Floor of the square root: the unique `r` with `r * r <= n < (r + 1) * (r + 1)`.
pub fn isqrt(n: u64) -> (r: u64)
    ensures
        r * r <= n,
        n < (r + 1) * (r + 1),
        r == spec_isqrt(n as int),
{
    let mut lo: u64 = 0;
    let mut hi: u64 = 4294967296;
    proof {
        assert(hi * hi > n) by (nonlinear_arith)
            requires
                hi == 4294967296u64,
                n <= u64::MAX,
            ;
    }
    while hi - lo > 1
        invariant
            lo < hi,
            hi <= 4294967296,
            lo * lo <= n,
            n < hi * hi,
        decreases hi - lo,
    {
        let mid: u64 = lo + (hi - lo) / 2;
        proof {
            assert(mid * mid <= u64::MAX) by (nonlinear_arith)
                requires
                    mid < 4294967296u64,
                ;
        }
        if mid * mid <= n {
            lo = mid;
        } else {
            hi = mid;
        }
    }
    proof {
        lemma_isqrt_unique(n as int, lo as int);
    }
    lo
}

/// The sine of `d` degrees in thousandths, by the classical rational
/// approximation `4 d (180 - d) / (40500 - d (180 - d))`, exact at 0, 30
/// and 90 degrees and within three thousandths everywhere on `[0, 90]`.
pub open spec fn spec_sin_milli(d: int) -> int {
    4000 * d * (180 - d) / (40500 - d * (180 - d))
}

/// The cosine of `d` degrees in thousandths, via the complementary angle.
pub open spec fn spec_cos_milli(d: int) -> int {
    spec_sin_milli(90 - d)
}

pub fn sin_milli(d: u64) -> (r: u64)
    requires
        d <= 90,
    ensures
        r == spec_sin_milli(d as int),
        r <= 1000,
{
    proof {
        assert(d * (180 - d) <= 8100) by (nonlinear_arith)
            requires
                0 <= d <= 90,
            ;
    }
    let p: u64 = d * (180 - d);
    let num: u64 = 4000 * p;
    let den: u64 = 40500 - p;
    let r: u64 = num / den;
    proof {
        assert(r == spec_sin_milli(d as int)) by {
            assert(4000 * (d as int) * (180 - d as int) == 4000 * (d * (180 - d)) as int)
                by (nonlinear_arith);
        };
        assert(num <= 1000 * den) by (nonlinear_arith)
            requires
                p <= 8100,
                num == 4000 * p,
                den == 40500 - p,
            ;
        assert(r <= 1000) by (nonlinear_arith)
            requires
                num <= 1000 * den,
                den > 0,
                r == num as int / den as int,
            ;
    }
    r
}

pub fn cos_milli(d: u64) -> (r: u64)
    requires
        d <= 90,
    ensures
        r == spec_cos_milli(d as int),
        r <= 1000,
{
    sin_milli(90 - d)
}

} // verus!
