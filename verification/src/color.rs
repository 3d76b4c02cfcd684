//! Linear-space color with four channels and clamped addition.

use vstd::prelude::*;

use crate::math::{fx_add, fx_clamp, fx_mul, Fx, FX_ONE};

verus! {

/// Mathematical model of a color: the four raw fixed-point channels.
pub struct ColorM {
    pub r: int,
    pub g: int,
    pub b: int,
    pub a: int,
}

/// A linear-space color.  A color produced by `add` has every channel in
/// `[0, 1]`; one produced only by multiplication may exceed 1 transiently.
#[derive(Clone, Copy, Debug, PartialEq, Eq, Structural)]
pub struct Color {
    pub r: Fx,
    pub g: Fx,
    pub b: Fx,
    pub a: Fx,
}

impl View for Color {
    type V = ColorM;

    open spec fn view(&self) -> ColorM {
        ColorM { r: self.r@, g: self.g@, b: self.b@, a: self.a@ }
    }
}

/// Channelwise sum with each channel clamped to `[0, 1]` immediately.
pub open spec fn c_add(a: ColorM, b: ColorM) -> ColorM {
    ColorM {
        r: fx_clamp(fx_add(a.r, b.r), 0, FX_ONE as int),
        g: fx_clamp(fx_add(a.g, b.g), 0, FX_ONE as int),
        b: fx_clamp(fx_add(a.b, b.b), 0, FX_ONE as int),
        a: fx_clamp(fx_add(a.a, b.a), 0, FX_ONE as int),
    }
}

/// Channelwise (Hadamard) product.
pub open spec fn c_mul(a: ColorM, b: ColorM) -> ColorM {
    ColorM {
        r: fx_mul(a.r, b.r),
        g: fx_mul(a.g, b.g),
        b: fx_mul(a.b, b.b),
        a: fx_mul(a.a, b.a),
    }
}

/// Every channel scaled by `s`.
pub open spec fn c_scale(c: ColorM, s: int) -> ColorM {
    ColorM {
        r: fx_mul(c.r, s),
        g: fx_mul(c.g, s),
        b: fx_mul(c.b, s),
        a: fx_mul(c.a, s),
    }
}

/// Whether every channel of `c` lies in `[0, 1]`.
pub open spec fn c_in_range(c: ColorM) -> bool {
    &&& 0 <= c.r <= FX_ONE
    &&& 0 <= c.g <= FX_ONE
    &&& 0 <= c.b <= FX_ONE
    &&& 0 <= c.a <= FX_ONE
}

/// Clamped addition keeps every channel of the sum of any two colors in
/// `[0, 1]`, even when the unclamped sum would exceed 1 or go negative.
pub proof fn lemma_color_add_clamped(a: ColorM, b: ColorM)
    ensures
        c_in_range(c_add(a, b)),
{
}

impl Color {
    /// Channelwise sum, each channel clamped to `[0, 1]`.
    pub fn add(self, rhs: Color) -> (r: Color)
        ensures
            r@ == c_add(self@, rhs@),
            c_in_range(r@),
    {
        proof {
            lemma_color_add_clamped(self@, rhs@);
        }
        let one = Fx { v: FX_ONE };
        let zero = Fx { v: 0 };
        Color {
            r: crate::math::clamp(self.r.add(rhs.r), zero, one),
            g: crate::math::clamp(self.g.add(rhs.g), zero, one),
            b: crate::math::clamp(self.b.add(rhs.b), zero, one),
            a: crate::math::clamp(self.a.add(rhs.a), zero, one),
        }
    }

    /// Channelwise (Hadamard) product.
    pub fn mul(self, rhs: Color) -> (r: Color)
        ensures
            r@ == c_mul(self@, rhs@),
    {
        Color {
            r: self.r.mul(rhs.r),
            g: self.g.mul(rhs.g),
            b: self.b.mul(rhs.b),
            a: self.a.mul(rhs.a),
        }
    }

    /// Every channel scaled by `s`.
    pub fn scale(self, s: Fx) -> (r: Color)
        ensures
            r@ == c_scale(self@, s@),
    {
        Color {
            r: self.r.mul(s),
            g: self.g.mul(s),
            b: self.b.mul(s),
            a: self.a.mul(s),
        }
    }
}

} // verus!
