//! Deterministic seeded random numbers.
//!
//! A linear-congruential generator over the 32-bit seed stored in the
//! state; every procedural decision in the core draws from it. Both runs
//! of a game with equal seeds draw identical values forever, which is the
//! root of the determinism guarantee.

use vstd::prelude::*;
use crate::state::{GameState, StateV, with_seed};

verus! {

/// One LCG step: `seed * 1103515245 + 12345` modulo `2^32`.
pub open spec fn lcg(seed: int) -> int {
    (seed * 1103515245 + 12345) % 0x1_0000_0000
}

/// The value a draw returns: bits 16..31 of the advanced seed, 15 bits.
pub open spec fn draw_val(seed: int) -> int {
    (lcg(seed) / 0x1_0000) % 0x8000
}

/// The value `random_range_milli(min, max)` returns for a given seed:
/// `draw % 1000` mapped linearly onto `[min, max)`. Opaque: callers rely
/// on [`lemma_range_bounds`], not the mapping arithmetic.
#[verifier::opaque]
pub open spec fn range_milli_val(seed: int, min: int, max: int) -> int {
    min + (max - min) * (draw_val(seed) % 1000) / 1000
}

/// A ranged draw lands in `[min, max)` whenever the range is nonempty.
pub proof fn lemma_range_bounds(seed: int, min: int, max: int)
    requires
        min < max,
    ensures
        min <= range_milli_val(seed, min, max) < max,
{
    reveal(range_milli_val);
    let d = draw_val(seed) % 1000;
    let span = max - min;
    assert(0 <= d <= 999);
    assert(0 <= span * d <= span * 999) by (nonlinear_arith)
        requires
            0 <= d <= 999,
            span >= 1,
    ;
    vstd::arithmetic::div_mod::lemma_fundamental_div_mod(span * d, 1000);
    assert(span * d == 1000 * (span * d / 1000) + (span * d) % 1000);
    vstd::arithmetic::div_mod::lemma_mod_bound(span * d, 1000);
    assert(span * d / 1000 < span);
}

impl GameState {
    /// Advance the seed by one LCG step and return a 15-bit value.
    pub fn random(&mut self) -> (r: u32)
        ensures
            final(self)@ == with_seed(old(self)@, lcg(old(self).rng_seed as int)),
            r as int == draw_val(old(self).rng_seed as int),
            r < 0x8000,
    {
        proof {
            let s0 = old(self).rng_seed as int;
            assert(s0 * 1103515245 + 12345 <= 0xffff_ffff * 1103515245 + 12345)
                by (nonlinear_arith)
                requires
                    s0 <= 0xffff_ffff,
            ;
        }
        let next64: u64 = (self.rng_seed as u64) * 1103515245u64 + 12345u64;
        let next: u32 = (next64 % 0x1_0000_0000u64) as u32;
        self.rng_seed = next;
        (next / 0x1_0000) % 0x8000
    }

    /// Draw a value uniformly-ish from `[min, max)` in milli-pixels
    /// (1000 distinct steps; returns `min` when `min == max`).
    pub fn random_range_milli(&mut self, min: i32, max: i32) -> (r: i32)
        requires
            -1_000_000 <= min <= max <= 1_000_000,
        ensures
            final(self)@ == with_seed(old(self)@, lcg(old(self).rng_seed as int)),
            r as int == range_milli_val(old(self).rng_seed as int, min as int, max as int),
            min <= r <= max,
            min < max ==> r < max,
    {
        let d: u32 = self.random();
        let k: u32 = d % 1000;
        let span: u64 = (max - min) as u64;
        proof {
            reveal(range_milli_val);
            assert(span * (k as u64) <= span * 999) by (nonlinear_arith)
                requires
                    k as u64 <= 999,
                    span <= 2_000_000,
            ;
        }
        let num: u64 = span * (k as u64);
        let off: u64 = num / 1000;
        proof {
            vstd::arithmetic::div_mod::lemma_fundamental_div_mod(num as int, 1000);
            assert(num as int == 1000 * (num as int / 1000) + (num as int % 1000));
            assert(span >= 1 ==> off < span);
        }
        min + off as i32
    }
}

} // verus!
