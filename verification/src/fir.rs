//! Two-tap FIR low-pass filter state.
//!
//! The smallest filter of the bank: the output is the sum of the current
//! input, the previous input and a spare register, so the only state is
//! that short input history.  Its parameter update is deliberately a
//! no-op — the difference equation has no cutoff- or resonance-dependent
//! coefficient — and that no-op is part of the contract: anything computed
//! downstream of this filter is independent of cutoff and resonance.

use crate::repr::ZERO_BITS;
use vstd::prelude::*;

verus! {

/// Fixed-coefficient moving-sum filter: `s1` holds the previous input,
/// `s2` a spare delay slot that the render equation reads but never
/// writes.  `sample_rate` is in hertz.
#[derive(Clone, Copy, Debug, PartialEq, Eq, Structural)]
pub struct FirLowPassFilter {
    pub sample_rate: u32,
    pub s1: u32,
    pub s2: u32,
}

/// A fresh filter with an empty delay line.
pub open spec fn spec_new(sample_rate: u32) -> FirLowPassFilter {
    FirLowPassFilter { sample_rate, s1: ZERO_BITS, s2: ZERO_BITS }
}

/// The filter after consuming one input sample: the input moves into
/// `s1`; `s2` keeps its value.
pub open spec fn spec_push_input(f: FirLowPassFilter, input: u32) -> FirLowPassFilter {
    FirLowPassFilter { s1: input, ..f }
}

/// The filter with its delay registers zeroed.
pub open spec fn spec_reset(f: FirLowPassFilter) -> FirLowPassFilter {
    FirLowPassFilter { s1: ZERO_BITS, s2: ZERO_BITS, ..f }
}

/// The filter after a parameter change: the identity, whatever the cutoff
/// and resonance handed in.
pub open spec fn spec_update_coefficients(
    f: FirLowPassFilter,
    cutoff_hz: u32,
    resonance: u32,
) -> FirLowPassFilter {
    f
}

impl FirLowPassFilter {
    /// A fresh filter with an empty delay line.
    pub fn new(sample_rate: u32) -> (r: Self)
        ensures
            r == spec_new(sample_rate),
    {
        FirLowPassFilter { sample_rate, s1: ZERO_BITS, s2: ZERO_BITS }
    }

    /// Accept a parameter change and do nothing: this filter has no
    /// derived coefficients, so cutoff and resonance cannot influence it.
    /// The contract pins the whole filter unchanged.
    pub fn update_coefficients(&mut self, cutoff_hz: u32, resonance: u32)
        ensures
            *final(self) == spec_update_coefficients(*old(self), cutoff_hz, resonance),
            *final(self) == *old(self),
    {
        let _ = cutoff_hz;
        let _ = resonance;
    }

    /// Record the input just consumed as the new previous sample.
    pub fn push_input(&mut self, input: u32)
        ensures
            *final(self) == spec_push_input(*old(self), input),
    {
        self.s1 = input;
    }

    /// Zero the delay registers.
    pub fn reset(&mut self)
        ensures
            *final(self) == spec_reset(*old(self)),
    {
        self.s1 = ZERO_BITS;
        self.s2 = ZERO_BITS;
    }
}

/// Cutoff and resonance do not reach this filter: updating with any two
/// parameter pairs — or not updating at all — leaves the same filter, so
/// any response computed from it is independent of both parameters.
pub proof fn lemma_parameters_ignored(f: FirLowPassFilter, c1: u32, q1: u32, c2: u32, q2: u32)
    ensures
        spec_update_coefficients(f, c1, q1) == spec_update_coefficients(f, c2, q2),
        spec_update_coefficients(f, c1, q1) == f,
{
}

} // verus!
