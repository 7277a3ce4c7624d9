//! Fixed-point helpers in milli-units: an integer value of 1000 stands for
//! the real number 1.0.  The simulator's whole arithmetic is carried out on
//! these scaled integers.

use vstd::prelude::*;
use vstd::arithmetic::div_mod::lemma_div_is_ordered;
use vstd::arithmetic::div_mod::lemma_div_pos_is_pos;

verus! {

/// The fixed-point scale: how many integer steps stand for 1.0.
pub const MILLI: i64 = 1000;

/// `r` is the integer square root of `n`.
pub open spec fn is_isqrt(n: int, r: int) -> bool {
    0 <= r && r * r <= n && n < (r + 1) * (r + 1)
}

/// The integer square root of `n` (the largest `r` with `r * r <= n`).
pub open spec fn spec_isqrt(n: int) -> int {
    choose|r: int| is_isqrt(n, r)
}

/// There is at most one integer square root, so any witness is the root.
pub proof fn lemma_isqrt_unique(n: int, r: int)
    requires
        is_isqrt(n, r),
    ensures
        r == spec_isqrt(n),
{
    assert(exists|q: int| is_isqrt(n, q)) by {
        assert(is_isqrt(n, r));
    }
    let q = spec_isqrt(n);
    assert(is_isqrt(n, q));
    assert(r == q) by (nonlinear_arith)
        requires
            is_isqrt(n, r),
            is_isqrt(n, q),
    {
    }
}

/// Integer square root by upward search.
pub fn isqrt(n: u64) -> (r: u64)
    requires
        n <= 0xffff_ffff,
    ensures
        is_isqrt(n as int, r as int),
        r == spec_isqrt(n as int),
        r <= 0xffff,
{
    let mut r: u64 = 0;
    while (r + 1) * (r + 1) <= n
        invariant
            n <= 0xffff_ffff,
            r * r <= n,
            r <= 0xffff,
            (r + 1) * (r + 1) <= 0x1_0000_0000,
        decreases n - r,
    {
        r = r + 1;
        assert(r <= 0xffff) by (nonlinear_arith)
            requires
                r * r <= 0xffff_ffffu64,
                r >= 1,
        {
        }
        assert(r <= n) by (nonlinear_arith)
            requires
                r * r <= n,
                r >= 1,
        {
        }
        assert((r + 1) * (r + 1) <= 0x1_0000_0000) by (nonlinear_arith)
            requires
                r <= 0xffffu64,
        {
        }
    }
    proof {
        lemma_isqrt_unique(n as int, r as int);
    }
    r
}

/// Bounds on the powers of a milli-unit angle, used throughout the
/// trigonometric approximations.
proof fn lemma_pow_bounds(u: int)
    requires
        0 <= u <= 1000,
    ensures
        0 <= u * u <= 1000000,
        0 <= u * u * u <= 1000000000,
        0 <= u * u * u * u <= 1000000000000,
        0 <= u * u * u * u * u <= 1000000000000000,
{
    assert(0 <= u * u <= 1000000 && 0 <= u * u * u <= 1000000000 && 0 <= u * u * u * u
        <= 1000000000000 && 0 <= u * u * u * u * u <= 1000000000000000) by (nonlinear_arith)
        requires
            0 <= u <= 1000,
    {
    }
}

/// 1000 * sin(a / 1000) for 0 <= a <= 1000, as the truncated Taylor series
/// x - x^3/6 + x^5/120, carried out in milli-units with flooring division.
pub open spec fn spec_sin_milli_nonneg(a: int) -> int {
    a - (a * a * a) / 6000000 + (a * a * a * a * a) / 120000000000000
}

/// 1000 * sin(a / 1000) for -1000 <= a <= 1000; sine is odd.
pub open spec fn spec_sin_milli(a: int) -> int {
    if a < 0 {
        -spec_sin_milli_nonneg(-a)
    } else {
        spec_sin_milli_nonneg(a)
    }
}

/// 1000 * cos(a / 1000) for -1000 <= a <= 1000, as the truncated Taylor
/// series 1 - x^2/2 + x^4/24 in milli-units; cosine is even.
pub open spec fn spec_cos_milli(a: int) -> int {
    let u = if a < 0 {
        -a
    } else {
        a
    };
    1000 - (u * u) / 2000 + (u * u * u * u) / 24000000000
}

/// The truncated sine stays within one percent slack of the scale.
pub proof fn lemma_sin_milli_bounds(a: int)
    requires
        -1000 <= a <= 1000,
    ensures
        -1009 <= spec_sin_milli(a) <= 1009,
{
    let u = if a < 0 {
        -a
    } else {
        a
    };
    lemma_pow_bounds(u);
    lemma_div_pos_is_pos(u * u * u, 6000000);
    lemma_div_is_ordered(u * u * u, 1000000000, 6000000);
    assert(1000000000int / 6000000int == 166);
    lemma_div_pos_is_pos(u * u * u * u * u, 120000000000000);
    lemma_div_is_ordered(u * u * u * u * u, 1000000000000000, 120000000000000);
    assert(1000000000000000int / 120000000000000int == 8);
}

/// The truncated cosine lies between 0.5 and about 1.042 on the steering
/// cone, and in particular is never negative.
pub proof fn lemma_cos_milli_bounds(a: int)
    requires
        -1000 <= a <= 1000,
    ensures
        500 <= spec_cos_milli(a) <= 1041,
{
    let u = if a < 0 {
        -a
    } else {
        a
    };
    lemma_pow_bounds(u);
    lemma_div_pos_is_pos(u * u, 2000);
    lemma_div_is_ordered(u * u, 1000000, 2000);
    assert(1000000int / 2000int == 500);
    lemma_div_pos_is_pos(u * u * u * u, 24000000000);
    lemma_div_is_ordered(u * u * u * u, 1000000000000, 24000000000);
    assert(1000000000000int / 24000000000int == 41);
}

/// Fixed-point sine on the steering cone, exactly the truncated series.
pub fn sin_milli(a: i64) -> (r: i64)
    requires
        -1000 <= a <= 1000,
    ensures
        r == spec_sin_milli(a as int),
        -1009 <= r <= 1009,
{
    proof {
        lemma_sin_milli_bounds(a as int);
    }
    let neg = a < 0;
    let u: u64 = if neg {
        (-a) as u64
    } else {
        a as u64
    };
    proof {
        lemma_pow_bounds(u as int);
        lemma_div_pos_is_pos(u as int * u as int * u as int, 6000000);
        lemma_div_is_ordered(u as int * u as int * u as int, 1000000000, 6000000);
        assert(1000000000int / 6000000int == 166);
        lemma_div_pos_is_pos(u as int * u as int * u as int * u as int * u as int, 120000000000000);
        lemma_div_is_ordered(
            u as int * u as int * u as int * u as int * u as int,
            1000000000000000,
            120000000000000,
        );
        assert(1000000000000000int / 120000000000000int == 8);
    }
    let t3: u64 = (u * u * u) / 6000000;
    let t5: u64 = (u * u * u * u * u) / 120000000000000;
    let s: i64 = (u as i64) - (t3 as i64) + (t5 as i64);
    if neg {
        -s
    } else {
        s
    }
}

/// Fixed-point cosine on the steering cone, exactly the truncated series.
pub fn cos_milli(a: i64) -> (r: i64)
    requires
        -1000 <= a <= 1000,
    ensures
        r == spec_cos_milli(a as int),
        500 <= r <= 1041,
{
    proof {
        lemma_cos_milli_bounds(a as int);
    }
    let u: u64 = if a < 0 {
        (-a) as u64
    } else {
        a as u64
    };
    proof {
        lemma_pow_bounds(u as int);
        lemma_div_pos_is_pos(u as int * u as int, 2000);
        lemma_div_is_ordered(u as int * u as int, 1000000, 2000);
        assert(1000000int / 2000int == 500);
        lemma_div_pos_is_pos(u as int * u as int * u as int * u as int, 24000000000);
        lemma_div_is_ordered(u as int * u as int * u as int * u as int, 1000000000000, 24000000000);
        assert(1000000000000int / 24000000000int == 41);
    }
    let t2: u64 = (u * u) / 2000;
    let t4: u64 = (u * u * u * u) / 24000000000;
    1000 - (t2 as i64) + (t4 as i64)
}

} // verus!
