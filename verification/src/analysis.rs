//! The verified side of the frequency-response analysis.
//!
//! The analysis itself — running the impulse through a filter and
//! transforming the response — is single-precision work on the control
//! thread, outside this library.  What is verified here is the data the
//! analysis starts from and the bookkeeping around it: the unit impulse
//! signal, the length of the one-sided spectrum, and the decision when
//! an analysis is due at all.

use crate::repr::ONE_BITS;
use crate::repr::ZERO_BITS;
use vstd::prelude::*;

verus! {

/// The unit impulse of length `len`: a word of one followed by silence.
/// Feeding it through a filter yields the impulse response whose
/// transform magnitude is the frequency response.
pub fn make_impulse(len: usize) -> (r: Vec<u32>)
    requires
        len >= 1,
    ensures
        r@.len() == len,
        r@[0] == ONE_BITS,
        forall|i: int| 1 <= i < len ==> r@[i] == ZERO_BITS,
{
    let mut r: Vec<u32> = Vec::new();
    r.push(ONE_BITS);
    let mut i: usize = 1;
    while i < len
        invariant
            1 <= i <= len,
            r@.len() == i,
            r@[0] == ONE_BITS,
            forall|j: int| 1 <= j < i ==> r@[j] == ZERO_BITS,
        decreases len - i,
    {
        r.push(ZERO_BITS);
        i = i + 1;
    }
    r
}

/// How many bins the one-sided transform of a real signal of length
/// `sample_rate` has: half the length, plus the zero-frequency bin.
pub fn spectrum_bins(sample_rate: usize) -> (r: usize)
    ensures
        r == sample_rate / 2 + 1,
{
    sample_rate / 2 + 1
}

/// Whether the frequency-response analysis must be recomputed: on the
/// first look, when no result exists yet, and after any change to the
/// coefficients or to the selected filter.  It is the control side's
/// decision; the analysis never runs in the render path.
pub fn analysis_due(have_result: bool, coefficients_changed: bool, selection_changed: bool) -> (r:
    bool)
    ensures
        r == (!have_result || coefficients_changed || selection_changed),
{
    !have_result || coefficients_changed || selection_changed
}

} // verus!
