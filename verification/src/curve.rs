//! The constant-product curve that prices one side of a market.
//!
//! A side holds two reserves, base currency and outcome tokens. A trade adds to
//! one of them and takes from the other so that their product does not grow:
//! what stays in the reserve that pays out is the old product divided by the
//! new size of the reserve that was paid into, rounded down.

use vstd::prelude::*;
use vstd::arithmetic::div_mod::lemma_fundamental_div_mod;
use crate::utils::lemma_product_fits;

verus! {

/// The depth of base currency that a side is priced with: the virtual
/// liquidity under every curve plus what the side really holds.
pub open spec fn effective_sol(min_sol_liquidity: nat, real_sol_reserves: nat) -> nat {
    min_sol_liquidity + real_sol_reserves
}

/// The product of the two reserves of a side, the quantity a trade is solved
/// against.
pub open spec fn curve_product(sol: nat, token: nat) -> nat {
    sol * token
}

/// What is left in the reserve `out_of` once `added` has gone into the reserve
/// `into`: the product of the two before, over the new `into`, rounded down.
/// Meaningful for `into + added > 0`.
pub open spec fn remaining(into: nat, out_of: nat, added: nat) -> nat {
    (into * out_of) / (into + added)
}

/// What a trade takes out of the reserve `out_of` for `added` paid into the
/// reserve `into`. For a buy `into` is the effective base currency and `out_of`
/// the tokens; for a sell the two change places.
pub open spec fn curve_out(into: nat, out_of: nat, added: nat) -> nat {
    (out_of - remaining(into, out_of, added)) as nat
}

/// Solves one trade: what comes out of the reserve `out_of` for `added` paid
/// into the reserve `into`. `None` exactly when the reserve paid into would be
/// empty afterwards or would not fit in 64 bits.
pub fn quote(into: u64, out_of: u64, added: u64) -> (r: Option<u64>)
    ensures
        r.is_some() <==> 0 < into + added <= u64::MAX,
        r.is_some() ==> r.unwrap() == curve_out(into as nat, out_of as nat, added as nat),
        r.is_some() ==> r.unwrap() <= out_of,
{
    let grown: u64 = match into.checked_add(added) {
        Some(g) => g,
        None => {
            return None;
        },
    };
    if grown == 0 {
        return None;
    }
    proof {
        lemma_out_within_reserve(into as nat, out_of as nat, added as nat);
        lemma_product_fits(into, out_of);
    }
    let product: u128 = (into as u128) * (out_of as u128);
    let left: u128 = product / (grown as u128);
    Some(out_of - (left as u64))
}

/// What the rounding of one trade takes off the product of the reserves.
pub open spec fn rounding_loss(into: nat, out_of: nat, added: nat) -> nat {
    (into * out_of) % (into + added)
}

/// A trade never takes out more than the reserve holds, and leaves in it
/// exactly `remaining`.
pub proof fn lemma_out_within_reserve(into: nat, out_of: nat, added: nat)
    requires
        into + added > 0,
    ensures
        remaining(into, out_of, added) <= out_of,
        curve_out(into, out_of, added) <= out_of,
        curve_out(into, out_of, added) + remaining(into, out_of, added) == out_of,
{
    let k = into * out_of;
    let d = into + added;
    lemma_fundamental_div_mod(k as int, d as int);
    let q = k / d;
    assert(q <= out_of) by (nonlinear_arith)
        requires
            k == d * q + k % d,
            k % d >= 0,
            k == into * out_of,
            d == into + added,
            d > 0,
            q >= 0,
    {
        if q > out_of {
            assert(d * q >= d * (out_of + 1));
            assert(d * (out_of + 1) == d * out_of + d);
            assert(d * out_of >= into * out_of);
        }
    }
}

/// The product of the reserves after a trade is the product before it less the
/// rounding loss, which is smaller than the reserve that was paid into. So the
/// product never grows by trading alone, and one more unit left in the reserve
/// that paid out would already exceed the old product.
pub proof fn lemma_product_after_trade(into: nat, out_of: nat, added: nat)
    requires
        into + added > 0,
    ensures
        curve_product(into + added, remaining(into, out_of, added)) + rounding_loss(
            into,
            out_of,
            added,
        ) == curve_product(into, out_of),
        rounding_loss(into, out_of, added) < into + added,
        curve_product(into + added, remaining(into, out_of, added)) <= curve_product(into, out_of),
        curve_product(into + added, remaining(into, out_of, added) + 1) > curve_product(
            into,
            out_of,
        ),
{
    let k = into * out_of;
    let d = into + added;
    let q = k / d;
    lemma_fundamental_div_mod(k as int, d as int);
    assert(0 <= k % d < d) by (nonlinear_arith)
        requires
            d > 0,
            k >= 0,
    ;
    assert(d * (q + 1) == d * q + d) by (nonlinear_arith);
}

/// Whole units out for a fraction in: the amount taken out is the exact share
/// `out_of * added / (into + added)` rounded up.
pub proof fn lemma_out_is_share_rounded_up(into: nat, out_of: nat, added: nat)
    requires
        into + added > 0,
    ensures
        curve_out(into, out_of, added) * (into + added) >= out_of * added,
        curve_out(into, out_of, added) * (into + added) < out_of * added + (into + added),
{
    let d = into + added;
    let q = remaining(into, out_of, added);
    let out = curve_out(into, out_of, added);
    lemma_out_within_reserve(into, out_of, added);
    lemma_product_after_trade(into, out_of, added);
    let loss = rounding_loss(into, out_of, added);
    assert(out * d == out_of * added + loss) by (nonlinear_arith)
        requires
            d * q + loss == into * out_of,
            out + q == out_of,
            d == into + added,
    ;
}

/// The price only worsens along one direction. A second trade of the same
/// size, made right after the first into the same reserve, takes out no more
/// than the first did, whatever fee has joined the reserve in between.
pub proof fn lemma_repeat_takes_no_more(into: nat, out_of: nat, added: nat, fee: nat)
    requires
        into + added > 0,
    ensures
        curve_out(into + added + fee, remaining(into, out_of, added), added) <= curve_out(
            into,
            out_of,
            added,
        ),
{
    let first = curve_out(into, out_of, added);
    let left = remaining(into, out_of, added);
    let deeper = into + added + fee;
    let second = curve_out(deeper, left, added);
    lemma_out_within_reserve(into, out_of, added);
    lemma_out_is_share_rounded_up(into, out_of, added);
    lemma_out_is_share_rounded_up(deeper, left, added);
    assert(second <= first) by (nonlinear_arith)
        requires
            first * (into + added) >= out_of * added,
            second * (deeper + added) < left * added + (deeper + added),
            left <= out_of,
            deeper == into + added + fee,
            into + added > 0,
            first >= 0,
            second >= 0,
    {
        if second > first {
            assert(second * (deeper + added) >= (first + 1) * (deeper + added));
            assert((first + 1) * (deeper + added) == first * (deeper + added) + (deeper + added));
            assert(first * (deeper + added) >= first * (into + added));
            assert(left * added <= out_of * added);
        }
    }
}

} // verus!
