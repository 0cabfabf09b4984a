//! Bilinear-transform biquad filter state.
//!
//! A two-pole, two-zero recursive filter: five coefficients plus a
//! two-sample history of both input and output.  The difference equation
//! itself is single-precision arithmetic and is evaluated by the embedding
//! application; the library owns the registers and verifies the routing
//! around that evaluation — above all the delay-line discipline (the
//! one-step shift of the input and output histories), which is the part
//! that silently corrupts the filter when its order is wrong.
//!
//! All numeric fields are opaque 32-bit words, single-precision bit
//! patterns to the application.

use crate::repr::ONE_BITS;
use crate::repr::ZERO_BITS;
use vstd::prelude::*;

verus! {

/// Direct-form-I biquad: coefficients `b0..a2`, input history `x1, x2`,
/// output history `y1, y2`.  `sample_rate` is in hertz.
#[derive(Clone, Copy, Debug, PartialEq, Eq, Structural)]
pub struct BiQuadFilter {
    pub sample_rate: u32,
    pub b0: u32,
    pub b1: u32,
    pub b2: u32,
    pub a0: u32,
    pub a1: u32,
    pub a2: u32,
    pub x1: u32,
    pub x2: u32,
    pub y1: u32,
    pub y2: u32,
}

/// A fresh pass-through filter: `b0` and `a0` are one, every other
/// coefficient and all delay registers are zero.
pub open spec fn spec_new(sample_rate: u32) -> BiQuadFilter {
    BiQuadFilter {
        sample_rate,
        b0: ONE_BITS,
        b1: ZERO_BITS,
        b2: ZERO_BITS,
        a0: ONE_BITS,
        a1: ZERO_BITS,
        a2: ZERO_BITS,
        x1: ZERO_BITS,
        x2: ZERO_BITS,
        y1: ZERO_BITS,
        y2: ZERO_BITS,
    }
}

/// The filter with its coefficients replaced and everything else kept.
/// `b0` stays fixed at one; only the derived coefficients move.
pub open spec fn spec_set_coefficients(
    f: BiQuadFilter,
    b1: u32,
    b2: u32,
    a0: u32,
    a1: u32,
    a2: u32,
) -> BiQuadFilter {
    BiQuadFilter { b1, b2, a0, a1, a2, ..f }
}

/// The filter after one step of the delay line: the input history takes
/// `input`, the output history takes `output`, each pushing its older
/// entry down one slot; coefficients are untouched.
pub open spec fn spec_shift(f: BiQuadFilter, input: u32, output: u32) -> BiQuadFilter {
    BiQuadFilter { x1: input, x2: f.x1, y1: output, y2: f.y1, ..f }
}

/// The filter with its delay registers zeroed and its coefficients kept.
pub open spec fn spec_reset(f: BiQuadFilter) -> BiQuadFilter {
    BiQuadFilter { x1: ZERO_BITS, x2: ZERO_BITS, y1: ZERO_BITS, y2: ZERO_BITS, ..f }
}

impl BiQuadFilter {
    /// A fresh pass-through filter: `b0` and `a0` are one, every other
    /// coefficient and all delay registers are zero.
    pub fn new(sample_rate: u32) -> (r: Self)
        ensures
            r == spec_new(sample_rate),
    {
        BiQuadFilter {
            sample_rate,
            b0: ONE_BITS,
            b1: ZERO_BITS,
            b2: ZERO_BITS,
            a0: ONE_BITS,
            a1: ZERO_BITS,
            a2: ZERO_BITS,
            x1: ZERO_BITS,
            x2: ZERO_BITS,
            y1: ZERO_BITS,
            y2: ZERO_BITS,
        }
    }

    /// Install freshly derived coefficients.  The delay registers keep
    /// their values: a parameter change never resets the filter.
    pub fn set_coefficients(&mut self, b1: u32, b2: u32, a0: u32, a1: u32, a2: u32)
        ensures
            *final(self) == spec_set_coefficients(*old(self), b1, b2, a0, a1, a2),
    {
        self.b1 = b1;
        self.b2 = b2;
        self.a0 = a0;
        self.a1 = a1;
        self.a2 = a2;
    }

    /// Advance the delay line one sample: record the input just consumed
    /// and the output just produced, pushing the previous pair down.  The
    /// older history entries must move before the newer ones overwrite
    /// them; this method fixes that order once, verified.
    pub fn shift_state(&mut self, input: u32, output: u32)
        ensures
            *final(self) == spec_shift(*old(self), input, output),
    {
        self.x2 = self.x1;
        self.x1 = input;
        self.y2 = self.y1;
        self.y1 = output;
    }

    /// Zero the delay registers without touching the coefficients.
    pub fn reset(&mut self)
        ensures
            *final(self) == spec_reset(*old(self)),
    {
        self.x1 = ZERO_BITS;
        self.x2 = ZERO_BITS;
        self.y1 = ZERO_BITS;
        self.y2 = ZERO_BITS;
    }
}

/// Installing the same coefficients twice is the same as installing them
/// once: coefficient derivation is idempotent at the state level.
pub proof fn lemma_set_coefficients_idempotent(
    f: BiQuadFilter,
    b1: u32,
    b2: u32,
    a0: u32,
    a1: u32,
    a2: u32,
)
    ensures
        spec_set_coefficients(spec_set_coefficients(f, b1, b2, a0, a1, a2), b1, b2, a0, a1, a2)
            == spec_set_coefficients(f, b1, b2, a0, a1, a2),
{
}

/// A reset zeroes only the delay registers: the coefficients recorded by
/// the last parameter change survive it.
pub proof fn lemma_reset_preserves_coefficients(f: BiQuadFilter)
    ensures
        spec_reset(f).b0 == f.b0,
        spec_reset(f).b1 == f.b1,
        spec_reset(f).b2 == f.b2,
        spec_reset(f).a0 == f.a0,
        spec_reset(f).a1 == f.a1,
        spec_reset(f).a2 == f.a2,
        spec_reset(f).sample_rate == f.sample_rate,
        spec_reset(f).x1 == ZERO_BITS,
        spec_reset(f).x2 == ZERO_BITS,
        spec_reset(f).y1 == ZERO_BITS,
        spec_reset(f).y2 == ZERO_BITS,
{
}

} // verus!
