//! The number representations shared by the whole crate, and the small integer
//! helpers that work on them.

use vstd::arithmetic::div_mod::{
    lemma_fundamental_div_mod, lemma_fundamental_div_mod_converse, lemma_mod_bound,
};
use vstd::prelude::*;

verus! {

/// Length units in one pixel. A length is an `i64` count of these units, so a
/// single-precision coordinate of magnitude one half or more is held exactly.
pub const PX: i64 = 16_777_216;

/// The interaction weight 1.0. A weight is an `i64` count of `1 / WEIGHT_ONE`.
/// Hundredths are exact, and so is the weight that a drag of one length unit adds.
pub const WEIGHT_ONE: i64 = 5_033_164_800;

/// One hundredth of [`WEIGHT_ONE`].
pub const HUNDREDTH: i64 = 50_331_648;

/// The camera magnification 1.0. A zoom is an `i64` count of `1 / ZOOM_ONE`.
pub const ZOOM_ONE: i64 = 1_677_721_600;

/// The largest magnitude of a screen coordinate that comes in from outside
/// (2^31 pixels).
pub const COORD_MAX: i64 = 36_028_797_018_963_968;

/// The exact quotient `num / den`.
#[derive(Clone, Copy, PartialEq, Eq, Structural, Debug)]
pub struct Ratio {
    pub num: i128,
    pub den: i128,
}

impl Ratio {
    /// The quotient lies between 0 and 1.
    pub open spec fn is_unit(self) -> bool {
        self.den > 0 && 0 <= self.num <= self.den
    }

    /// The quotient is the number `p / q`.
    pub open spec fn equals(self, p: int, q: int) -> bool {
        self.num * q == p * self.den
    }

    /// `h` hundredths.
    pub open spec fn spec_hundredths(h: i128) -> Ratio {
        Ratio { num: h, den: 100 }
    }

    /// `h` hundredths.
    #[verifier::when_used_as_spec(spec_hundredths)]
    pub fn hundredths(h: i128) -> (r: Ratio)
        ensures
            r == Ratio::spec_hundredths(h),
    {
        Ratio { num: h, den: 100 }
    }
}

/// A point of the screen, in length units: the origin is the centre of the window
/// and y grows upwards.
#[derive(Clone, Copy, PartialEq, Eq, Structural, Debug)]
pub struct Point {
    pub x: i64,
    pub y: i64,
}

/// `x` is no larger than a coordinate from outside may be.
pub open spec fn coord_ok(x: int) -> bool {
    -COORD_MAX <= x <= COORD_MAX
}

/// `x` is no larger than twice what a coordinate from outside may be, which
/// leaves room for the panel's own offsets.
pub open spec fn near_coord_ok(x: int) -> bool {
    -2 * COORD_MAX <= x <= 2 * COORD_MAX
}

/// `v` moved into the range from `lo` to `hi`.
pub open spec fn clamped(v: int, lo: int, hi: int) -> int {
    if v < lo {
        lo
    } else if v > hi {
        hi
    } else {
        v
    }
}

/// `v` moved into the range from `lo` to `hi`.
pub fn clamp(v: i128, lo: i128, hi: i128) -> (r: i128)
    requires
        lo <= hi,
    ensures
        r == clamped(v as int, lo as int, hi as int),
{
    if v < lo {
        lo
    } else if v > hi {
        hi
    } else {
        v
    }
}

/// The quotient of `a` by `b`, rounded down.
pub fn floor_div(a: i128, b: i128) -> (r: i128)
    requires
        0 < b,
        i128::MIN < a,
    ensures
        r == a as int / b as int,
{
    let q: i128 = a / b;
    let m: i128 = a % b;
    proof {
        let p: int = if a >= 0 { a as int } else { -a };
        lemma_fundamental_div_mod(p, b as int);
        lemma_mod_bound(p, b as int);
        if a < 0 {
            assert((b as int) * (-(p / (b as int))) == -((b as int) * (p / (b as int))))
                by (nonlinear_arith);
            assert((b as int) * (q - 1) == (b as int) * (q as int) - b) by (nonlinear_arith);
        }
        if m >= 0 {
            lemma_fundamental_div_mod_converse(a as int, b as int, q as int, m as int);
        } else {
            lemma_fundamental_div_mod_converse(a as int, b as int, q - 1, m + b);
        }
    }
    if m < 0 {
        q - 1
    } else {
        q
    }
}

/// The remainder of `a` by `b` that is not negative.
pub fn floor_mod(a: i128, b: i128) -> (r: i128)
    requires
        0 < b,
        i128::MIN < a,
    ensures
        r == a as int % b as int,
{
    let m: i128 = a % b;
    proof {
        let p: int = if a >= 0 { a as int } else { -a };
        lemma_mod_bound(p, b as int);
        if a < 0 {
            lemma_fundamental_div_mod(p, b as int);
            let q: int = p / (b as int);
            assert((b as int) * (-q) == -((b as int) * q)) by (nonlinear_arith);
            assert((b as int) * (-q - 1) == -((b as int) * q) - b) by (nonlinear_arith);
            if m == 0 {
                lemma_fundamental_div_mod_converse(a as int, b as int, -q, 0);
            } else {
                lemma_fundamental_div_mod_converse(a as int, b as int, -q - 1, m + b);
            }
        }
    }
    if m < 0 {
        m + b
    } else {
        m
    }
}

/// Clamping picks the point of the range that is nearest: it lies in the range, and no
/// other point of the range is closer to the number.
pub proof fn law_clamp_is_nearest(v: int, lo: int, hi: int, x: int)
    requires
        lo <= x <= hi,
    ensures
        lo <= clamped(v, lo, hi) <= hi,
        v <= x ==> v <= clamped(v, lo, hi) <= x,
        x <= v ==> x <= clamped(v, lo, hi) <= v,
{
}

/// Row and column of an entry of an `n` by `n` matrix.
pub proof fn lemma_entry_position(k: int, n: int)
    requires
        0 <= k < n * n,
        0 <= n,
    ensures
        0 < n,
        0 <= k / n < n,
        0 <= k % n < n,
{
    assert(n != 0) by (nonlinear_arith)
        requires
            0 <= k < n * n,
    ;
    lemma_mod_bound(k, n);
    lemma_fundamental_div_mod(k, n);
    assert(0 <= k / n < n) by (nonlinear_arith)
        requires
            0 <= k < n * n,
            0 < n,
            k == n * (k / n) + k % n,
            0 <= k % n < n,
    ;
}

} // verus!
