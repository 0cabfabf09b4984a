//! Deterministic pseudo-random noise source.
//!
//! A 32-bit linear congruential generator.  Each step advances the seed by
//! `seed * 196314165 + 907633515` (mod 2^32) and derives a raw sample from
//! the new seed: the top 25 bits, recentred around zero.  The embedding
//! application divides the raw sample by 2^24 to obtain a value in roughly
//! [-1, 1]; the generator itself is pure integer arithmetic and fully
//! deterministic, which is what makes rendered noise reproducible.

use vstd::prelude::*;

verus! {

/// The seed every generator starts from, and returns to on `reset`.
pub const DEFAULT_SEED: u32 = 22222;

/// Multiplier of the linear congruential recurrence.
pub const LCG_MUL: u32 = 196314165;

/// Increment of the linear congruential recurrence.
pub const LCG_ADD: u32 = 907633515;

/// The seed that follows `s` in the linear congruential recurrence,
/// taken modulo 2^32.
pub open spec fn next_seed(s: u32) -> u32 {
    (((s as int) * (LCG_MUL as int) + (LCG_ADD as int)) % 0x1_0000_0000) as u32
}

/// The raw sample derived from seed `s`: the seed's top 25 bits shifted
/// down by 2^24, giving a value in [-2^24, 2^24).
pub open spec fn raw_sample(s: u32) -> i32 {
    ((s as int) / 128 - 16777216) as i32
}

/// The seed after `n` steps of the recurrence from `s`.
pub open spec fn seed_after(s: u32, n: nat) -> u32
    decreases n,
{
    if n == 0 {
        s
    } else {
        next_seed(seed_after(s, (n - 1) as nat))
    }
}

/// The stream of the first `n` raw samples drawn from seed `s`: position
/// `i` holds the sample derived from the seed after `i + 1` steps.
pub open spec fn noise_stream(s: u32, n: nat) -> Seq<i32> {
    Seq::new(n, |i: int| raw_sample(seed_after(s, (i + 1) as nat)))
}

/// Deterministic pseudo-random sample generator.
pub struct NoiseGen {
    noise_seed: u32,
}

impl NoiseGen {
    /// The current seed.
    pub closed spec fn seed(&self) -> u32 {
        self.noise_seed
    }

    /// A fresh generator, seeded with `DEFAULT_SEED`.
    pub fn new() -> (r: Self)
        ensures
            r.seed() == DEFAULT_SEED,
    {
        Self { noise_seed: DEFAULT_SEED }
    }

    /// Restore the initial seed, so the generator replays the same stream
    /// a fresh generator would produce.
    pub fn reset(&mut self)
        ensures
            final(self).seed() == DEFAULT_SEED,
    {
        self.noise_seed = DEFAULT_SEED;
    }

    /// Advance the recurrence one step and return the raw sample derived
    /// from the new seed.  The result lies in [-2^24, 2^24) and depends on
    /// nothing but the seed held before the call.
    pub fn next_raw(&mut self) -> (r: i32)
        ensures
            final(self).seed() == next_seed(old(self).seed()),
            r == raw_sample(final(self).seed()),
            -16777216 <= r < 16777216,
    {
        let s: u32 = self.noise_seed;
        proof {
            assert((s as int) * (LCG_MUL as int) <= 0xFFFF_FFFF * (LCG_MUL as int))
                by (nonlinear_arith)
                requires
                    s <= 0xFFFF_FFFFu32,
            ;
        }
        let wide: u64 = (s as u64) * (LCG_MUL as u64) + (LCG_ADD as u64);
        let seed: u32 = (wide % 0x1_0000_0000) as u32;
        self.noise_seed = seed;
        let shifted: u32 = seed >> 7;
        proof {
            assert(seed >> 7 == seed / 128) by (bit_vector);
        }
        (shifted as i32) - 16777216
    }

    /// Draw `n` consecutive raw samples, advancing the seed `n` steps.
    pub fn take(&mut self, n: usize) -> (r: Vec<i32>)
        ensures
            r@ == noise_stream(old(self).seed(), n as nat),
            final(self).seed() == seed_after(old(self).seed(), n as nat),
    {
        let ghost s0: u32 = self.noise_seed;
        let mut r: Vec<i32> = Vec::new();
        let mut i: usize = 0;
        while i < n
            invariant
                i <= n,
                r@ == noise_stream(s0, i as nat),
                self.seed() == seed_after(s0, i as nat),
            decreases n - i,
        {
            let v = self.next_raw();
            r.push(v);
            i = i + 1;
            proof {
                assert(seed_after(s0, i as nat) == next_seed(seed_after(s0, (i - 1) as nat)));
                assert(r@ =~= noise_stream(s0, i as nat));
            }
        }
        r
    }
}

/// The noise stream is determined by the seed alone: generators started
/// from equal seeds produce equal samples at every position.
pub proof fn lemma_noise_reproducible(s1: u32, s2: u32, n: nat)
    requires
        s1 == s2,
    ensures
        noise_stream(s1, n) == noise_stream(s2, n),
{
}

/// A longer run agrees with a shorter one sample for sample: drawing `n`
/// samples and keeping the first `m` gives exactly the stream a fresh run
/// of `m` samples from the same seed produces.
pub proof fn lemma_noise_stream_prefix(s: u32, m: nat, n: nat)
    requires
        m <= n,
    ensures
        noise_stream(s, n).take(m as int) =~= noise_stream(s, m),
{
}

} // verus!
