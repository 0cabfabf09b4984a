//! The opaque sample representation shared by the filter modules.
//!
//! Samples, coefficients and parameters are carried as 32-bit words that
//! the embedding application reads as IEEE-754 single-precision numbers.
//! The library never does arithmetic on them; the two constants below are
//! the only word values it writes of its own accord.

use vstd::prelude::*;

verus! {

/// Bit pattern of positive zero, the value every delay register starts
/// from and returns to on reset.
pub const ZERO_BITS: u32 = 0x0000_0000;

/// Bit pattern of one, the pass-through gain a fresh biquad carries.
pub const ONE_BITS: u32 = 0x3F80_0000;

} // verus!
