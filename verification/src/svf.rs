//! State-variable filter (trapezoidal-integrator form) state.
//!
//! Two integrator registers `ic1eq`, `ic2eq` and five derived
//! coefficients `g, k, a1, a2, a3`.  The zero-delay-feedback update that
//! produces the low-pass output is single-precision arithmetic and lives
//! with the embedding application; the library owns the registers and
//! verifies the routing: a parameter change replaces exactly the
//! coefficients, a render step replaces exactly the integrator state, and
//! a reset zeroes the integrators while the coefficients survive.

use crate::repr::ZERO_BITS;
use vstd::prelude::*;

verus! {

/// Two-integrator state-variable filter.  `sample_rate` is in hertz; the
/// other fields are single-precision bit patterns.
#[derive(Clone, Copy, Debug, PartialEq, Eq, Structural)]
pub struct StateVariableFilter {
    pub sample_rate: u32,
    pub g: u32,
    pub k: u32,
    pub a1: u32,
    pub a2: u32,
    pub a3: u32,
    pub ic1eq: u32,
    pub ic2eq: u32,
}

/// A fresh filter: every coefficient and both integrators zero.
pub open spec fn spec_new(sample_rate: u32) -> StateVariableFilter {
    StateVariableFilter {
        sample_rate,
        g: ZERO_BITS,
        k: ZERO_BITS,
        a1: ZERO_BITS,
        a2: ZERO_BITS,
        a3: ZERO_BITS,
        ic1eq: ZERO_BITS,
        ic2eq: ZERO_BITS,
    }
}

/// The filter with its coefficients replaced and its integrator state
/// kept.
pub open spec fn spec_set_coefficients(
    f: StateVariableFilter,
    g: u32,
    k: u32,
    a1: u32,
    a2: u32,
    a3: u32,
) -> StateVariableFilter {
    StateVariableFilter { g, k, a1, a2, a3, ..f }
}

/// The filter with its integrator state replaced and its coefficients
/// kept.
pub open spec fn spec_set_state(f: StateVariableFilter, ic1eq: u32, ic2eq: u32) -> StateVariableFilter {
    StateVariableFilter { ic1eq, ic2eq, ..f }
}

/// The filter with its integrators zeroed and its coefficients kept.
pub open spec fn spec_reset(f: StateVariableFilter) -> StateVariableFilter {
    StateVariableFilter { ic1eq: ZERO_BITS, ic2eq: ZERO_BITS, ..f }
}

impl StateVariableFilter {
    /// A fresh filter: every coefficient and both integrators zero.
    pub fn new(sample_rate: u32) -> (r: Self)
        ensures
            r == spec_new(sample_rate),
    {
        StateVariableFilter {
            sample_rate,
            g: ZERO_BITS,
            k: ZERO_BITS,
            a1: ZERO_BITS,
            a2: ZERO_BITS,
            a3: ZERO_BITS,
            ic1eq: ZERO_BITS,
            ic2eq: ZERO_BITS,
        }
    }

    /// Install freshly derived coefficients.  The integrators keep their
    /// charge: a parameter change never resets the filter.
    pub fn set_coefficients(&mut self, g: u32, k: u32, a1: u32, a2: u32, a3: u32)
        ensures
            *final(self) == spec_set_coefficients(*old(self), g, k, a1, a2, a3),
    {
        self.g = g;
        self.k = k;
        self.a1 = a1;
        self.a2 = a2;
        self.a3 = a3;
    }

    /// Store the integrator state a render step produced.  The
    /// coefficients are untouched.
    pub fn set_state(&mut self, ic1eq: u32, ic2eq: u32)
        ensures
            *final(self) == spec_set_state(*old(self), ic1eq, ic2eq),
    {
        self.ic1eq = ic1eq;
        self.ic2eq = ic2eq;
    }

    /// Discharge the integrators without touching the coefficients.
    pub fn reset(&mut self)
        ensures
            *final(self) == spec_reset(*old(self)),
    {
        self.ic1eq = ZERO_BITS;
        self.ic2eq = ZERO_BITS;
    }
}

/// Installing the same coefficients twice is the same as installing them
/// once, and leaves the integrator state alone both times.
pub proof fn lemma_set_coefficients_idempotent(
    f: StateVariableFilter,
    g: u32,
    k: u32,
    a1: u32,
    a2: u32,
    a3: u32,
)
    ensures
        spec_set_coefficients(spec_set_coefficients(f, g, k, a1, a2, a3), g, k, a1, a2, a3)
            == spec_set_coefficients(f, g, k, a1, a2, a3),
        spec_set_coefficients(f, g, k, a1, a2, a3).ic1eq == f.ic1eq,
        spec_set_coefficients(f, g, k, a1, a2, a3).ic2eq == f.ic2eq,
{
}

/// A reset zeroes only the integrators: the coefficients recorded by the
/// last parameter change survive it.
pub proof fn lemma_reset_preserves_coefficients(f: StateVariableFilter)
    ensures
        spec_reset(f).g == f.g,
        spec_reset(f).k == f.k,
        spec_reset(f).a1 == f.a1,
        spec_reset(f).a2 == f.a2,
        spec_reset(f).a3 == f.a3,
        spec_reset(f).sample_rate == f.sample_rate,
        spec_reset(f).ic1eq == ZERO_BITS,
        spec_reset(f).ic2eq == ZERO_BITS,
{
}

} // verus!
