//! The scalar type of the renderer: a signed fixed-point number.
//!
//! A real quantity `q` is stored as the integer `q * SCALE` truncated toward
//! zero, in an `i64`.  Every operation saturates at `FX_MAX` in magnitude, so
//! the operations are total and their exact results are stated by the spec
//! functions below; contracts throughout the crate are phrased over those
//! spec functions.

pub mod vector;

use vstd::prelude::*;

verus! {

/// Number of fractional steps per unit; `1/SCALE` is the machine epsilon of `Fx`.
pub const SCALE: i64 = 65536;

/// The fixed-point value one.
pub const FX_ONE: i64 = 65536;

/// The fixed-point value one half.
pub const FX_HALF: i64 = 32768;

/// The fixed-point value two.
pub const FX_TWO: i64 = 131072;

/// Largest magnitude an `Fx` produced by the arithmetic here can carry.
pub const FX_MAX: i64 = i64::MAX;

/// One fractional step: quantities within `(-EPSILON, EPSILON)` raw units of
/// zero count as nearly zero, the analogue of being within machine epsilon.
pub const EPSILON: i64 = 1;

/// Magnitude (absolute value) of a mathematical integer.
pub open spec fn mag(a: int) -> int {
    if a < 0 {
        -a
    } else {
        a
    }
}

/// Saturation into the symmetric representable range `[-FX_MAX, FX_MAX]`.
pub open spec fn sat(a: int) -> int {
    if a > FX_MAX {
        FX_MAX as int
    } else if a < -FX_MAX {
        -FX_MAX as int
    } else {
        a
    }
}

/// Exact result of fixed-point addition.
pub open spec fn fx_add(a: int, b: int) -> int {
    sat(a + b)
}

/// Exact result of fixed-point subtraction.
pub open spec fn fx_sub(a: int, b: int) -> int {
    sat(a - b)
}

/// Exact result of fixed-point negation.
pub open spec fn fx_neg(a: int) -> int {
    sat(-a)
}

/// Exact result of fixed-point absolute value.
pub open spec fn fx_abs(a: int) -> int {
    sat(mag(a))
}

/// Exact result of fixed-point multiplication: the product of the magnitudes
/// is rescaled with truncation, and the sign is reapplied.
pub open spec fn fx_mul(a: int, b: int) -> int {
    if (a < 0) == (b < 0) {
        sat(mag(a) * mag(b) / (SCALE as int))
    } else {
        sat(-(mag(a) * mag(b) / (SCALE as int)))
    }
}

/// Exact result of fixed-point division (unspecified for `b == 0`; the
/// executable division requires a nonzero divisor).
pub open spec fn fx_div(a: int, b: int) -> int {
    if (a < 0) == (b < 0) {
        sat(mag(a) * (SCALE as int) / mag(b))
    } else {
        sat(-(mag(a) * (SCALE as int) / mag(b)))
    }
}

/// Conversion of a whole number into fixed point.
pub open spec fn fx_of_int(n: int) -> int {
    sat(n * (SCALE as int))
}

/// `r` is the floor square root of `n`.
pub open spec fn is_isqrt(n: int, r: int) -> bool {
    0 <= r && r * r <= n && n < (r + 1) * (r + 1)
}

/// The floor square root of `n` (for `n >= 0`).
pub open spec fn isqrt(n: int) -> int {
    choose|r: int| is_isqrt(n, r)
}

/// Exact result of the fixed-point square root: the floor square root of the
/// raw value brought back to scale.
pub open spec fn fx_sqrt(a: int) -> int {
    isqrt(a * (SCALE as int))
}

/// The larger of `a` and zero.
pub open spec fn fx_max0(a: int) -> int {
    if a < 0 {
        0
    } else {
        a
    }
}

/// Exact result of clamping `v` into `[lo, hi]`.
pub open spec fn fx_clamp(v: int, lo: int, hi: int) -> int {
    if v < lo {
        lo
    } else if v > hi {
        hi
    } else {
        v
    }
}

/// A value within one fractional step of zero.
pub open spec fn nearly_zero_i(a: int) -> bool {
    -EPSILON < a && a < EPSILON
}

/// The fixed-point scalar: `v` raw fractional steps stand for the real
/// quantity `v / SCALE`.
#[derive(Clone, Copy, Debug, PartialEq, Eq, Structural)]
pub struct Fx {
    pub v: i64,
}

impl View for Fx {
    type V = int;

    open spec fn view(&self) -> int {
        self.v as int
    }
}

/// The floor square root of `n`, for any of `isqrt`'s claimants: two floor
/// square roots of the same number are equal, so the chosen one is `r`.
pub proof fn lemma_isqrt_is(n: int, r: int)
    requires
        is_isqrt(n, r),
    ensures
        isqrt(n) == r,
{
    assert(exists|s: int| is_isqrt(n, s));
    let s = choose|s: int| is_isqrt(n, s);
    if s < r {
        assert((s + 1) * (s + 1) <= r * r) by (nonlinear_arith)
            requires
                0 <= s + 1,
                s + 1 <= r,
        ;
        assert(false);
    }
    if r < s {
        assert((r + 1) * (r + 1) <= s * s) by (nonlinear_arith)
            requires
                0 <= r + 1,
                r + 1 <= s,
        ;
        assert(false);
    }
}

/// Saturates an `i128` intermediate into the `Fx` range.
fn sat_i128(s: i128) -> (r: i64)
    ensures
        r as int == sat(s as int),
{
    if s > i64::MAX as i128 {
        i64::MAX
    } else if s < -(i64::MAX as i128) {
        -i64::MAX
    } else {
        s as i64
    }
}

/// Floor integer square root by bisection.
fn isqrt_u128(n: u128) -> (r: u128)
    ensures
        is_isqrt(n as int, r as int),
{
    let mut lo: u128 = 0;
    let mut hi: u128 = 0x1_0000_0000_0000_0000u128;
    proof {
        assert((0x1_0000_0000_0000_0000int) * (0x1_0000_0000_0000_0000int) > u128::MAX)
            by (nonlinear_arith);
    }
    while lo + 1 < hi
        invariant
            lo < hi,
            hi <= 0x1_0000_0000_0000_0000u128,
            lo * lo <= n,
            n < hi * hi,
        decreases hi - lo,
    {
        let mid: u128 = lo + (hi - lo) / 2;
        assert(mid * mid <= u128::MAX) by (nonlinear_arith)
            requires
                mid < 0x1_0000_0000_0000_0000u128,
        ;
        if mid * mid <= n {
            lo = mid;
        } else {
            hi = mid;
        }
    }
    lo
}

impl Fx {
    /// The zero scalar.
    pub fn zero() -> (r: Fx)
        ensures
            r@ == 0,
    {
        Fx { v: 0 }
    }

    /// The scalar one.
    pub fn one() -> (r: Fx)
        ensures
            r@ == FX_ONE,
    {
        Fx { v: FX_ONE }
    }

    /// A whole number as a scalar.
    pub fn from_int(n: i64) -> (r: Fx)
        ensures
            r@ == fx_of_int(n as int),
    {
        Fx { v: sat_i128(n as i128 * 65536i128) }
    }

    /// Saturating addition.
    pub fn add(self, rhs: Fx) -> (r: Fx)
        ensures
            r@ == fx_add(self@, rhs@),
    {
        Fx { v: sat_i128(self.v as i128 + rhs.v as i128) }
    }

    /// Saturating subtraction.
    pub fn sub(self, rhs: Fx) -> (r: Fx)
        ensures
            r@ == fx_sub(self@, rhs@),
    {
        Fx { v: sat_i128(self.v as i128 - rhs.v as i128) }
    }

    /// Saturating negation.
    pub fn neg(self) -> (r: Fx)
        ensures
            r@ == fx_neg(self@),
    {
        if self.v == i64::MIN {
            Fx { v: i64::MAX }
        } else {
            Fx { v: -self.v }
        }
    }

    /// Saturating absolute value.
    pub fn abs(self) -> (r: Fx)
        ensures
            r@ == fx_abs(self@),
    {
        if self.v < 0 {
            self.neg()
        } else {
            self
        }
    }

    /// Saturating fixed-point multiplication, truncated toward zero.
    pub fn mul(self, rhs: Fx) -> (r: Fx)
        ensures
            r@ == fx_mul(self@, rhs@),
    {
        let neg: bool = (self.v < 0) != (rhs.v < 0);
        let ma: u128 = if self.v < 0 {
            (-(self.v as i128)) as u128
        } else {
            self.v as u128
        };
        let mb: u128 = if rhs.v < 0 {
            (-(rhs.v as i128)) as u128
        } else {
            rhs.v as u128
        };
        assert(ma * mb <= u128::MAX) by (nonlinear_arith)
            requires
                ma <= 0x8000_0000_0000_0000u128,
                mb <= 0x8000_0000_0000_0000u128,
        ;
        let q: u128 = (ma * mb) / (SCALE as u128);
        let m: i64 = if q > i64::MAX as u128 {
            i64::MAX
        } else {
            q as i64
        };
        if neg {
            Fx { v: -m }
        } else {
            Fx { v: m }
        }
    }

    /// Saturating fixed-point division, truncated toward zero.
    pub fn div(self, rhs: Fx) -> (r: Fx)
        requires
            rhs@ != 0,
        ensures
            r@ == fx_div(self@, rhs@),
    {
        let neg: bool = (self.v < 0) != (rhs.v < 0);
        let ma: u128 = if self.v < 0 {
            (-(self.v as i128)) as u128
        } else {
            self.v as u128
        };
        let mb: u128 = if rhs.v < 0 {
            (-(rhs.v as i128)) as u128
        } else {
            rhs.v as u128
        };
        let q: u128 = (ma * (SCALE as u128)) / mb;
        let m: i64 = if q > i64::MAX as u128 {
            i64::MAX
        } else {
            q as i64
        };
        if neg {
            Fx { v: -m }
        } else {
            Fx { v: m }
        }
    }

    /// The scalar floored at zero.
    pub fn max_zero(self) -> (r: Fx)
        ensures
            r@ == fx_max0(self@),
    {
        if self.v < 0 {
            Fx { v: 0 }
        } else {
            self
        }
    }

    /// Fixed-point square root of a nonnegative scalar.
    pub fn sqrt(self) -> (r: Fx)
        requires
            self@ >= 0,
        ensures
            r@ == fx_sqrt(self@),
    {
        let n: u128 = (self.v as u128) * 65536u128;
        let q: u128 = isqrt_u128(n);
        assert(q < 0x1_0000_0000_0000u128) by (nonlinear_arith)
            requires
                q * q <= n,
                n < 0x8000_0000_0000_0000_0000u128,
        ;
        proof {
            lemma_isqrt_is(n as int, q as int);
        }
        Fx { v: q as i64 }
    }
}

/// Clamps `v` into the closed interval `[min, max]`.
pub fn clamp(v: Fx, min: Fx, max: Fx) -> (r: Fx)
    ensures
        r@ == fx_clamp(v@, min@, max@),
{
    if v.v < min.v {
        min
    } else if v.v > max.v {
        max
    } else {
        v
    }
}

/// Numeric predicates shared by the renderer's scalar types.
pub trait Math {
    /// What it means for the value to be nearly zero.
    spec fn nearly_zero(&self) -> bool;

    /// Whether the value lies within machine epsilon of zero.
    fn is_nearly_zero(&self) -> (r: bool)
        ensures
            r == self.nearly_zero(),
    ;
}

impl Math for Fx {
    open spec fn nearly_zero(&self) -> bool {
        nearly_zero_i(self@)
    }

    fn is_nearly_zero(&self) -> (r: bool) {
        -EPSILON < self.v && self.v < EPSILON
    }
}

} // verus!
