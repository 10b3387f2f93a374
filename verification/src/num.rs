//! Saturating integer helpers shared by the combat arithmetic.

use vstd::prelude::*;

verus! {

/// Cap applied to every scaled combat quantity (damage, speed, distance).
pub const VALUE_CAP: i64 = 1_000_000_000_000_000;

/// What [`mul_capped`] returns: the product, saturated at [`VALUE_CAP`].
pub open spec fn mul_capped_spec(a: int, b: int) -> int {
    if a * b > VALUE_CAP {
        VALUE_CAP as int
    } else {
        a * b
    }
}

/// Product of two non-negative quantities, saturated at [`VALUE_CAP`].
pub fn mul_capped(a: i64, b: i64) -> (r: i64)
    requires
        0 <= a <= VALUE_CAP,
        0 <= b <= VALUE_CAP,
    ensures
        r == mul_capped_spec(a as int, b as int),
        0 <= r <= VALUE_CAP,
{
    proof {
        lemma_product_of_capped_fits(a as int, b as int);
    }
    let p: i128 = (a as i128) * (b as i128);
    if p > VALUE_CAP as i128 {
        VALUE_CAP
    } else {
        p as i64
    }
}

/// The product of two values at most [`VALUE_CAP`] fits comfortably in `i128`.
proof fn lemma_product_of_capped_fits(a: int, b: int)
    requires
        0 <= a <= VALUE_CAP,
        0 <= b <= VALUE_CAP,
    ensures
        0 <= a * b <= 0x1_0000_0000_0000_0000_0000_0000_0000,
{
    assert(0 <= a * b <= 1_000_000_000_000_000int * 1_000_000_000_000_000int)
        by (nonlinear_arith)
        requires
            0 <= a <= 1_000_000_000_000_000int,
            0 <= b <= 1_000_000_000_000_000int,
    ;
}

/// What [`scale_by_ms`] returns: `a * ms / 1000`, saturated at [`VALUE_CAP`].
pub open spec fn scale_by_ms_spec(a: int, ms: int) -> int {
    if a * ms / 1000 > VALUE_CAP {
        VALUE_CAP as int
    } else {
        a * ms / 1000
    }
}

/// Scales a quantity by a duration given in milliseconds, interpreting the
/// duration in seconds: `a * ms / 1000`, saturated at [`VALUE_CAP`].
pub fn scale_by_ms(a: i64, ms: i64) -> (r: i64)
    requires
        0 <= a <= VALUE_CAP,
        0 <= ms <= VALUE_CAP,
    ensures
        r == scale_by_ms_spec(a as int, ms as int),
        0 <= r <= VALUE_CAP,
{
    proof {
        lemma_product_of_capped_fits(a as int, ms as int);
    }
    let p: i128 = (a as i128) * (ms as i128) / 1000;
    assert(p == a * ms / 1000);
    if p > VALUE_CAP as i128 {
        VALUE_CAP
    } else {
        p as i64
    }
}

/// Floor of the base-two logarithm, with all inputs below `2` mapped to `0`.
pub open spec fn log2_floor_spec(n: int) -> int
    decreases n,
{
    if n < 2 {
        0
    } else {
        1 + log2_floor_spec(n / 2)
    }
}

/// Floor of the base-two logarithm of `n`; `0` for `n < 2`.
pub fn log2_floor(n: i64) -> (r: i64)
    requires
        0 <= n,
    ensures
        r == log2_floor_spec(n as int),
        0 <= r <= 62,
{
    proof {
        lemma_log2_floor_at_most_62(n as int);
    }
    let mut v: i64 = n;
    let mut r: i64 = 0;
    while v >= 2
        invariant
            0 <= v,
            0 <= r,
            log2_floor_spec(n as int) == r + log2_floor_spec(v as int),
            log2_floor_spec(n as int) <= 62,
        decreases v,
    {
        proof {
            lemma_log2_floor_nonneg(v as int / 2);
        }
        v = v / 2;
        r = r + 1;
    }
    r
}

/// Powers of two, for bounding the floor logarithm.
pub open spec fn twopow(k: nat) -> int
    decreases k,
{
    if k == 0 {
        1
    } else {
        2 * twopow((k - 1) as nat)
    }
}

/// Anything below `twopow(k + 1)` has floor logarithm at most `k`.
pub proof fn lemma_log2_floor_below_pow(n: int, k: nat)
    requires
        0 <= n,
        n < twopow(k + 1),
    ensures
        log2_floor_spec(n) <= k,
    decreases k,
{
    if n >= 2 {
        if k == 0 {
            assert(twopow(1) == 2) by {
                reveal_with_fuel(twopow, 3);
            }
        } else {
            assert(twopow(k + 1) == 2 * twopow(k));
            lemma_log2_floor_below_pow(n / 2, (k - 1) as nat);
        }
    }
}

/// The floor logarithm of anything an `i64` can hold is at most 62.
pub proof fn lemma_log2_floor_at_most_62(n: int)
    requires
        0 <= n <= 0x7fff_ffff_ffff_ffff,
    ensures
        log2_floor_spec(n) <= 62,
{
    assert(twopow(63) == 0x8000_0000_0000_0000) by {
        reveal_with_fuel(twopow, 64);
    }
    lemma_log2_floor_below_pow(n, 62);
}

/// The floor logarithm never decreases as its argument grows.
pub proof fn lemma_log2_floor_monotone(a: int, b: int)
    requires
        0 <= a <= b,
    ensures
        log2_floor_spec(a) <= log2_floor_spec(b),
    decreases b,
{
    if a < 2 {
        lemma_log2_floor_nonneg(b);
    } else {
        lemma_log2_floor_monotone(a / 2, b / 2);
    }
}

/// The floor logarithm is never negative.
pub proof fn lemma_log2_floor_nonneg(n: int)
    ensures
        log2_floor_spec(n) >= 0,
    decreases n,
{
    if n >= 2 {
        lemma_log2_floor_nonneg(n / 2);
    }
}

} // verus!
