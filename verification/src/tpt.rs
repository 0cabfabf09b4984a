//! Topology-preserving-transform state-variable filter state.
//!
//! Like the plain state-variable filter it keeps two state registers and
//! derived coefficients, but it exposes a selectable output tap: one
//! render step produces the low-pass, band-pass and high-pass values
//! together, and the filter returns the one its `filter_type` selects.
//! The tap selection is pure routing and is verified here; the arithmetic
//! producing the three candidate outputs is single-precision and lives
//! with the embedding application.

use crate::repr::ZERO_BITS;
use vstd::prelude::*;

verus! {

/// Which output tap of the filter is returned.
#[derive(Clone, Copy, Debug, PartialEq, Eq, Structural)]
pub enum FilterType {
    LowPass,
    HighPass,
    BandPass,
}

/// TPT state-variable filter: coefficients `g, r2, h`, state registers
/// `s1, s2`, and the selected output tap.  `sample_rate` is in hertz; the
/// numeric fields are single-precision bit patterns.
#[derive(Clone, Copy, Debug, PartialEq, Eq, Structural)]
pub struct StateVariableTPTFilter {
    pub sample_rate: u32,
    pub filter_type: FilterType,
    pub g: u32,
    pub h: u32,
    pub r2: u32,
    pub s1: u32,
    pub s2: u32,
}

/// A fresh filter: band-pass tap selected, every coefficient and both
/// state registers zero.
pub open spec fn spec_new(sample_rate: u32) -> StateVariableTPTFilter {
    StateVariableTPTFilter {
        sample_rate,
        filter_type: FilterType::BandPass,
        g: ZERO_BITS,
        h: ZERO_BITS,
        r2: ZERO_BITS,
        s1: ZERO_BITS,
        s2: ZERO_BITS,
    }
}

/// The filter with its coefficients replaced and its state and tap kept.
pub open spec fn spec_set_coefficients(
    f: StateVariableTPTFilter,
    g: u32,
    r2: u32,
    h: u32,
) -> StateVariableTPTFilter {
    StateVariableTPTFilter { g, r2, h, ..f }
}

/// The filter with its state registers replaced and its coefficients and
/// tap kept.
pub open spec fn spec_set_state(f: StateVariableTPTFilter, s1: u32, s2: u32) -> StateVariableTPTFilter {
    StateVariableTPTFilter { s1, s2, ..f }
}

/// The filter with its state registers zeroed.
pub open spec fn spec_reset(f: StateVariableTPTFilter) -> StateVariableTPTFilter {
    StateVariableTPTFilter { s1: ZERO_BITS, s2: ZERO_BITS, ..f }
}

/// The output the tap `t` selects out of the three candidates a render
/// step produces.
pub open spec fn spec_select_output(t: FilterType, y_low: u32, y_band: u32, y_high: u32) -> u32 {
    match t {
        FilterType::LowPass => y_low,
        FilterType::BandPass => y_band,
        FilterType::HighPass => y_high,
    }
}

impl StateVariableTPTFilter {
    /// A fresh filter: band-pass tap selected, every coefficient and both
    /// state registers zero.
    pub fn new(sample_rate: u32) -> (r: Self)
        ensures
            r == spec_new(sample_rate),
    {
        StateVariableTPTFilter {
            sample_rate,
            filter_type: FilterType::BandPass,
            g: ZERO_BITS,
            h: ZERO_BITS,
            r2: ZERO_BITS,
            s1: ZERO_BITS,
            s2: ZERO_BITS,
        }
    }

    /// Install freshly derived coefficients.  State registers and the
    /// selected tap keep their values.
    pub fn set_coefficients(&mut self, g: u32, r2: u32, h: u32)
        ensures
            *final(self) == spec_set_coefficients(*old(self), g, r2, h),
    {
        self.g = g;
        self.r2 = r2;
        self.h = h;
    }

    /// Store the state a render step produced.  Coefficients and tap are
    /// untouched.
    pub fn set_state(&mut self, s1: u32, s2: u32)
        ensures
            *final(self) == spec_set_state(*old(self), s1, s2),
    {
        self.s1 = s1;
        self.s2 = s2;
    }

    /// Select which output tap the filter returns.  Coefficients and
    /// state registers keep their values.
    pub fn set_filter_type(&mut self, t: FilterType)
        ensures
            *final(self) == (StateVariableTPTFilter { filter_type: t, ..*old(self) }),
    {
        self.filter_type = t;
    }

    /// Pick the output the active tap selects from the three candidates a
    /// render step produced.
    pub fn select_output(&self, y_low: u32, y_band: u32, y_high: u32) -> (r: u32)
        ensures
            r == spec_select_output(self.filter_type, y_low, y_band, y_high),
    {
        match self.filter_type {
            FilterType::LowPass => y_low,
            FilterType::BandPass => y_band,
            FilterType::HighPass => y_high,
        }
    }

    /// Zero the state registers without touching coefficients or tap.
    pub fn reset(&mut self)
        ensures
            *final(self) == spec_reset(*old(self)),
    {
        self.s1 = ZERO_BITS;
        self.s2 = ZERO_BITS;
    }
}

/// A reset zeroes only the state registers: coefficients and the selected
/// tap survive it.
pub proof fn lemma_reset_preserves_coefficients(f: StateVariableTPTFilter)
    ensures
        spec_reset(f).g == f.g,
        spec_reset(f).r2 == f.r2,
        spec_reset(f).h == f.h,
        spec_reset(f).filter_type == f.filter_type,
        spec_reset(f).sample_rate == f.sample_rate,
        spec_reset(f).s1 == ZERO_BITS,
        spec_reset(f).s2 == ZERO_BITS,
{
}

/// Installing the same coefficients twice is the same as installing them
/// once, and leaves the state registers alone both times.
pub proof fn lemma_set_coefficients_idempotent(f: StateVariableTPTFilter, g: u32, r2: u32, h: u32)
    ensures
        spec_set_coefficients(spec_set_coefficients(f, g, r2, h), g, r2, h)
            == spec_set_coefficients(f, g, r2, h),
        spec_set_coefficients(f, g, r2, h).s1 == f.s1,
        spec_set_coefficients(f, g, r2, h).s2 == f.s2,
{
}

} // verus!
