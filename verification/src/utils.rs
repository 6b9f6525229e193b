//! Checked multiply-then-divide, the one arithmetic step that fees are made of.

use vstd::prelude::*;

verus! {

/// `a * b / d`, rounded down, over the naturals. Meaningful for `d > 0`.
pub open spec fn mul_div(a: nat, b: nat, d: nat) -> nat {
    (a * b) / d
}

/// `a * b / d`, rounded up, over the naturals. Meaningful for `d > 0`.
pub open spec fn mul_div_ceil(a: nat, b: nat, d: nat) -> nat {
    if (a * b) % d == 0 {
        (a * b) / d
    } else {
        (a * b) / d + 1
    }
}

/// The product of two 64-bit numbers fits in 128 bits, with room to spare.
pub proof fn lemma_product_fits(a: u64, b: u64)
    ensures
        (a as nat) * (b as nat) <= 0xffff_ffff_ffff_ffff * 0xffff_ffff_ffff_ffff,
        (a as nat) * (b as nat) < u128::MAX,
{
    assert((a as nat) * (b as nat) <= 0xffff_ffff_ffff_ffff * 0xffff_ffff_ffff_ffff)
        by (nonlinear_arith)
        requires
            a <= 0xffff_ffff_ffff_ffff,
            b <= 0xffff_ffff_ffff_ffff,
    ;
}

/// A withdrawal that is within a share uses up no more than the claim behind
/// the share: if `amount` is at most the part of `pool` that `claim` is of
/// `total`, rounded down, then the part of `total` that `amount` is of
/// `pool`, rounded up, is at most `claim`.
pub proof fn lemma_share_round_trip(amount: nat, claim: nat, pool: nat, total: nat)
    requires
        pool > 0,
        total > 0,
        amount <= mul_div(claim, pool, total),
    ensures
        mul_div_ceil(amount, total, pool) <= claim,
{
    lemma_mul_div_bounds(claim, pool, total);
    lemma_mul_div_bounds(amount, total, pool);
    let share = mul_div(claim, pool, total);
    let units = mul_div_ceil(amount, total, pool);
    assert(units <= claim) by (nonlinear_arith)
        requires
            amount <= share,
            share * total <= claim * pool,
            (units - 1) * pool < amount * total,
            pool > 0,
            total > 0,
    {
        assert(amount * total <= share * total);
        if units > claim {
            assert((units - 1) * pool >= claim * pool);
        }
    }
}

/// Rounding down and rounding up enclose the exact quotient.
pub proof fn lemma_mul_div_bounds(a: nat, b: nat, d: nat)
    requires
        d > 0,
    ensures
        mul_div(a, b, d) * d <= a * b < (mul_div(a, b, d) + 1) * d,
        (mul_div_ceil(a, b, d) - 1) * d < a * b <= mul_div_ceil(a, b, d) * d,
        mul_div(a, b, d) <= mul_div_ceil(a, b, d) <= mul_div(a, b, d) + 1,
{
    let x = a * b;
    vstd::arithmetic::div_mod::lemma_fundamental_div_mod(x as int, d as int);
    let q = x / d;
    let r = x % d;
    assert(0 <= r < d) by (nonlinear_arith)
        requires
            d > 0,
            r == x % d,
    ;
    assert(q * d == d * q && (q + 1) * d == d * q + d && (q - 1) * d == d * q - d)
        by (nonlinear_arith);
}

/// A part of a whole, taken at a ratio of at most one, is at most the whole.
pub proof fn lemma_mul_div_within(a: nat, b: nat, d: nat)
    requires
        d > 0,
        b <= d,
    ensures
        mul_div(a, b, d) <= a,
        mul_div_ceil(a, b, d) <= a,
{
    lemma_mul_div_bounds(a, b, d);
    let q = mul_div(a, b, d);
    let c = mul_div_ceil(a, b, d);
    assert(q <= a && c <= a) by (nonlinear_arith)
        requires
            q * d <= a * b,
            (c - 1) * d < a * b,
            b <= d,
            d > 0,
            q >= 0,
            c >= 0,
    {
        assert(a * b <= a * d);
        if q > a {
            assert(q * d >= (a + 1) * d);
            assert((a + 1) * d == a * d + d);
        }
        if c > a {
            assert((c - 1) * d >= a * d);
        }
    }
}

/// `a * b / d`, rounded down, with a 128-bit divisor.
pub fn mul_div_wide(a: u64, b: u64, d: u128) -> (r: u128)
    requires
        d > 0,
    ensures
        r == mul_div(a as nat, b as nat, d as nat),
{
    proof {
        lemma_product_fits(a, b);
    }
    ((a as u128) * (b as u128)) / d
}

/// `a * b / d`, rounded up, with a 128-bit divisor.
pub fn mul_div_ceil_wide(a: u64, b: u64, d: u128) -> (r: u128)
    requires
        d > 0,
    ensures
        r == mul_div_ceil(a as nat, b as nat, d as nat),
{
    proof {
        lemma_product_fits(a, b);
    }
    let product: u128 = (a as u128) * (b as u128);
    if product % d == 0 {
        product / d
    } else {
        product / d + 1
    }
}

/// A larger rate never yields less.
pub proof fn lemma_mul_div_ordered(a: nat, b1: nat, b2: nat, d: nat)
    requires
        b1 <= b2,
        d > 0,
    ensures
        mul_div(a, b1, d) <= mul_div(a, b2, d),
{
    assert(a * b1 <= a * b2) by (nonlinear_arith)
        requires
            b1 <= b2,
    ;
    vstd::arithmetic::div_mod::lemma_div_is_ordered((a * b1) as int, (a * b2) as int, d as int);
}

/// Multiplies `value` by `bps` and divides by `divisor`, with a 128-bit
/// intermediate. `None` exactly when `divisor` is zero.
pub fn bps_mul_raw(bps: u64, value: u64, divisor: u64) -> (r: Option<u128>)
    ensures
        divisor == 0 ==> r.is_none(),
        divisor != 0 ==> r == Some(mul_div(value as nat, bps as nat, divisor as nat) as u128),
        divisor != 0 ==> mul_div(value as nat, bps as nat, divisor as nat) <= u128::MAX,
{
    proof {
        lemma_product_fits(value, bps);
    }
    match (value as u128).checked_mul(bps as u128) {
        None => None,
        Some(product) => product.checked_div(divisor as u128),
    }
}

/// Applies a rate to a value: `value * bps / divisor`, rounded down. `None`
/// exactly when `divisor` is zero or the quotient does not fit in 64 bits.
pub fn bps_mul(bps: u64, value: u64, divisor: u64) -> (r: Option<u64>)
    ensures
        divisor == 0 ==> r is None,
        divisor != 0 ==> (r is Some <==> mul_div(value as nat, bps as nat, divisor as nat)
            <= u64::MAX),
        divisor != 0 && r is Some ==> r->0 == mul_div(value as nat, bps as nat, divisor as nat),
{
    match bps_mul_raw(bps, value, divisor) {
        None => None,
        Some(wide) => {
            if wide <= u64::MAX as u128 {
                Some(wide as u64)
            } else {
                None
            }
        },
    }
}

} // verus!
