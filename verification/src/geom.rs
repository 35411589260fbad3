//! Fixed-point arithmetic for the simulation.
//!
//! World coordinates and velocities are `i32` milli-pixels (1 pixel = 1000
//! units). Every operation here is total: results saturate at the `i32`
//! range instead of overflowing, matching the design rule that the core
//! clamps rather than fails.

use vstd::prelude::*;

verus! {

/// Milli-pixel units per pixel.
pub const MILLI: i32 = 1000;

/// Clamp a mathematical integer into the `i32` range.
pub open spec fn sat32(x: int) -> int {
    if x > i32::MAX as int {
        i32::MAX as int
    } else if x < i32::MIN as int {
        i32::MIN as int
    } else {
        x
    }
}

/// Clamp a non-negative mathematical integer into the `u32` range.
pub open spec fn sat_u32(x: int) -> int {
    if x > u32::MAX as int {
        u32::MAX as int
    } else {
        x
    }
}

/// Decrement a countdown timer, stopping at zero.
pub open spec fn dec(x: int) -> int {
    if x > 0 {
        x - 1
    } else {
        0
    }
}

/// Saturating signed addition: `a + b` clamped to the `i32` range.
pub fn sat_add(a: i32, b: i32) -> (r: i32)
    ensures
        r as int == sat32(a + b),
{
    let s: i64 = a as i64 + b as i64;
    if s > i32::MAX as i64 {
        i32::MAX
    } else if s < i32::MIN as i64 {
        i32::MIN
    } else {
        s as i32
    }
}

/// Saturating signed subtraction: `a - b` clamped to the `i32` range.
pub fn sat_sub(a: i32, b: i32) -> (r: i32)
    ensures
        r as int == sat32(a - b),
{
    let s: i64 = a as i64 - b as i64;
    if s > i32::MAX as i64 {
        i32::MAX
    } else if s < i32::MIN as i64 {
        i32::MIN
    } else {
        s as i32
    }
}

/// Saturating unsigned addition: `a + b` clamped to the `u32` range.
pub fn sat_add_u32(a: u32, b: u32) -> (r: u32)
    ensures
        r as int == sat_u32(a + b),
{
    if b > u32::MAX - a {
        u32::MAX
    } else {
        a + b
    }
}

/// `a * b / d`, rounded toward zero and clamped to the `i32` range.
/// `b` scales the magnitude of `a`; the sign of `a` is kept.
pub open spec fn mul_div_spec(a: int, b: int, d: int) -> int
    recommends
        b >= 0,
        d >= 1,
{
    let m = if a >= 0 {
        a
    } else {
        -a
    };
    let q = (m * b) / d;
    if a >= 0 {
        sat32(q)
    } else {
        -sat32(q)
    }
}

/// Fixed-point multiply-divide on magnitudes, keeping the sign of `a`.
pub fn mul_div(a: i32, b: i32, d: u64) -> (r: i32)
    requires
        0 <= b <= 0x7fff_ffff,
        1 <= d,
    ensures
        r as int == mul_div_spec(a as int, b as int, d as int),
{
    let m: u64 = if a >= 0 {
        a as u64
    } else {
        (-(a as i64)) as u64
    };
    proof {
        assert(m as int * (b as int) <= 0x4000_0000_0000_0000) by (nonlinear_arith)
            requires
                m as int <= 0x8000_0000,
                0 <= b as int <= 0x7fff_ffff,
        ;
    }
    let q: u64 = m * (b as u64) / d;
    let mag: i32 = if q > i32::MAX as u64 {
        i32::MAX
    } else {
        q as i32
    };
    if a >= 0 {
        mag
    } else {
        -mag
    }
}

/// Scale a milli-pixel quantity by `num / 1000` (for example `num == 850`
/// multiplies by 0.85), rounding toward zero.
pub fn scale_milli(a: i32, num: i32) -> (r: i32)
    requires
        0 <= num <= 1_000_000,
    ensures
        r as int == mul_div_spec(a as int, num as int, 1000),
{
    mul_div(a, num, 1000)
}

/// Squared Euclidean distance between two milli-pixel points, exactly.
pub fn dist_sq(ax: i32, ay: i32, bx: i32, by: i32) -> (r: u128)
    ensures
        r as int == (ax - bx) * (ax - bx) + (ay - by) * (ay - by),
{
    let dx: i64 = ax as i64 - bx as i64;
    let dy: i64 = ay as i64 - by as i64;
    let mx: u64 = if dx >= 0 {
        dx as u64
    } else {
        (-dx) as u64
    };
    let my: u64 = if dy >= 0 {
        dy as u64
    } else {
        (-dy) as u64
    };
    proof {
        assert(mx as int * mx as int == dx as int * dx as int) by (nonlinear_arith)
            requires
                mx as int == dx as int || mx as int == -(dx as int),
        ;
        assert(my as int * my as int == dy as int * dy as int) by (nonlinear_arith)
            requires
                my as int == dy as int || my as int == -(dy as int),
        ;
        assert(mx <= 0x1_0000_0000u64 && my <= 0x1_0000_0000u64);
        assert((mx as u128) * (mx as u128) <= 0x1_0000_0000_0000_0000u128) by (nonlinear_arith)
            requires
                mx as u128 <= 0x1_0000_0000u128,
        ;
        assert((my as u128) * (my as u128) <= 0x1_0000_0000_0000_0000u128) by (nonlinear_arith)
            requires
                my as u128 <= 0x1_0000_0000u128,
        ;
    }
    (mx as u128) * (mx as u128) + (my as u128) * (my as u128)
}

/// Integer square root: the unique `r` with `r * r <= n < (r + 1) * (r + 1)`.
pub fn isqrt(n: u128) -> (r: u64)
    ensures
        (r as int) * (r as int) <= n as int,
        (r as int + 1) * (r as int + 1) > n as int,
{
    let mut lo: u128 = 0;
    let mut hi: u128 = 0x1_0000_0000_0000_0000u128;
    proof {
        assert(hi as int * hi as int > n as int) by (nonlinear_arith)
            requires
                hi == 0x1_0000_0000_0000_0000u128,
                n as int <= u128::MAX as int,
        ;
    }
    while lo + 1 < hi
        invariant
            lo < hi,
            hi <= 0x1_0000_0000_0000_0000u128,
            lo as int * lo as int <= n as int,
            hi as int * hi as int > n as int,
        decreases hi - lo,
    {
        let mid: u128 = lo + (hi - lo) / 2;
        proof {
            assert(mid as int * mid as int <= u128::MAX as int) by (nonlinear_arith)
                requires
                    0 <= mid as int <= 0xffff_ffff_ffff_ffff,
            ;
        }
        let sq: u128 = mid * mid;
        if sq <= n {
            lo = mid;
        } else {
            hi = mid;
        }
    }
    proof {
        assert(hi == lo + 1);
    }
    lo as u64
}

/// Quarter-wave sine table: `sin(k * 2 * pi / 64)` scaled by 1000,
/// for `0 <= k <= 16`.
pub open spec fn sin_q_spec(k: int) -> int {
    if k <= 0 {
        0
    } else if k == 1 {
        98
    } else if k == 2 {
        195
    } else if k == 3 {
        290
    } else if k == 4 {
        383
    } else if k == 5 {
        471
    } else if k == 6 {
        556
    } else if k == 7 {
        634
    } else if k == 8 {
        707
    } else if k == 9 {
        773
    } else if k == 10 {
        831
    } else if k == 11 {
        882
    } else if k == 12 {
        924
    } else if k == 13 {
        957
    } else if k == 14 {
        981
    } else if k == 15 {
        995
    } else {
        1000
    }
}

/// Full-wave sine, period 64 steps, amplitude 1000: the deterministic
/// integer stand-in for `sin` used by all cosmetic bobbing and drift.
pub open spec fn sin_milli_spec(phase: int) -> int {
    let p = phase % 64;
    if p <= 16 {
        sin_q_spec(p)
    } else if p <= 32 {
        sin_q_spec(32 - p)
    } else if p <= 48 {
        -sin_q_spec(p - 32)
    } else {
        -sin_q_spec(64 - p)
    }
}

fn sin_q(k: u32) -> (r: i32)
    requires
        k <= 16,
    ensures
        r as int == sin_q_spec(k as int),
{
    if k == 0 {
        0
    } else if k == 1 {
        98
    } else if k == 2 {
        195
    } else if k == 3 {
        290
    } else if k == 4 {
        383
    } else if k == 5 {
        471
    } else if k == 6 {
        556
    } else if k == 7 {
        634
    } else if k == 8 {
        707
    } else if k == 9 {
        773
    } else if k == 10 {
        831
    } else if k == 11 {
        882
    } else if k == 12 {
        924
    } else if k == 13 {
        957
    } else if k == 14 {
        981
    } else if k == 15 {
        995
    } else {
        1000
    }
}

/// Integer sine wave with period 64 and amplitude 1000.
pub fn sin_milli(phase: u32) -> (r: i32)
    ensures
        r as int == sin_milli_spec(phase as int),
        -1000 <= r <= 1000,
{
    let p: u32 = phase % 64;
    if p <= 16 {
        sin_q(p)
    } else if p <= 32 {
        sin_q(32 - p)
    } else if p <= 48 {
        -sin_q(p - 32)
    } else {
        -sin_q(64 - p)
    }
}

} // verus!
