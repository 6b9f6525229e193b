//! What holds of every change of liquidity: the ledger stays in order, the
//! base currency moved is accounted for, and a withdrawal leaves the price of
//! each side where it was.

use vstd::prelude::*;
use crate::address::Address;
use crate::constants::{TOKEN_TYPE_NO, TOKEN_TYPE_YES};
use crate::instructions::create_market::CreateMarket;
use crate::state::config::Config;
use crate::state::market::{
    has_position,
    is_first_position,
    ledger_total,
    ledger_with_added,
    ledger_with_removed,
    lemma_position_exists,
    lemma_split_within,
    position_of,
    tokens_to_burn,
    valid_token_type,
    LpInfo,
    MarketView,
    UserInfo,
};
use crate::utils::{
    lemma_mul_div_bounds,
    lemma_mul_div_within,
    lemma_share_round_trip,
    mul_div,
    mul_div_ceil,
};

verus! {

/// No user has two lines in the ledger.
pub open spec fn distinct_users(lps: Seq<LpInfo>) -> bool {
    forall|i: int, j: int|
        0 <= i < j < lps.len() ==> (#[trigger] lps[i]).user != (#[trigger] lps[j]).user
}

impl MarketView {
    /// The ledger is in order: one line for each user, and the sum of all
    /// claims is what the lines add up to.
    pub open spec fn ledger_in_order(self) -> bool {
        &&& distinct_users(self.lps)
        &&& self.total_lp_amount == ledger_total(self.lps)
    }
}

/// A line added at the end adds its claim to the sum.
pub proof fn lemma_total_after_push(lps: Seq<LpInfo>, line: LpInfo)
    ensures
        ledger_total(lps.push(line)) == ledger_total(lps) + line.sol_amount,
{
    assert(lps.push(line).drop_last() =~= lps);
}

/// A line rewritten changes the sum by the difference of its claims.
pub proof fn lemma_total_after_update(lps: Seq<LpInfo>, i: int, line: LpInfo)
    requires
        0 <= i < lps.len(),
    ensures
        ledger_total(lps.update(i, line)) + lps[i].sol_amount == ledger_total(lps)
            + line.sol_amount,
    decreases lps.len(),
{
    if i == lps.len() - 1 {
        assert(lps.update(i, line).drop_last() =~= lps.drop_last());
    } else {
        assert(lps.update(i, line).drop_last() =~= lps.drop_last().update(i, line));
        lemma_total_after_update(lps.drop_last(), i, line);
    }
}

/// A line struck out takes its claim off the sum.
pub proof fn lemma_total_after_remove(lps: Seq<LpInfo>, i: int)
    requires
        0 <= i < lps.len(),
    ensures
        ledger_total(lps.remove(i)) + lps[i].sol_amount == ledger_total(lps),
    decreases lps.len(),
{
    if i == lps.len() - 1 {
        assert(lps.remove(i) =~= lps.drop_last());
    } else {
        assert(lps.remove(i).drop_last() =~= lps.drop_last().remove(i));
        assert(lps.remove(i).last() == lps.last());
        lemma_total_after_remove(lps.drop_last(), i);
    }
}

/// No claim in a ledger is larger than the sum of all claims.
pub proof fn lemma_claim_within_total(lps: Seq<LpInfo>, i: int)
    requires
        0 <= i < lps.len(),
    ensures
        lps[i].sol_amount <= ledger_total(lps),
    decreases lps.len(),
{
    if i < lps.len() - 1 {
        lemma_claim_within_total(lps.drop_last(), i);
    }
}

/// Adding liquidity keeps the ledger in order. The whole contribution, and
/// nothing else, goes into the two sides; the user's claim and the sum of all
/// claims grow by it; no token moves.
pub proof fn lemma_liquidity_added(
    market: MarketView,
    user: Address,
    user_info: UserInfo,
    amount: u64,
)
    requires
        market.liquidity_added(user, user_info, amount) is Ok,
    ensures
        ({
            let effect = market.liquidity_added(user, user_info, amount)->Ok_0;
            let after = effect.market;
            &&& effect.amounts.yes_sol + effect.amounts.no_sol == amount
            &&& after.yes.real_sol_reserves == market.yes.real_sol_reserves
                + effect.amounts.yes_sol
            &&& after.no.real_sol_reserves == market.no.real_sol_reserves + effect.amounts.no_sol
            &&& after.pool_value() == market.pool_value() + amount
            &&& after.yes.real_token_reserves == market.yes.real_token_reserves
            &&& after.no.real_token_reserves == market.no.real_token_reserves
            &&& has_position(after.lps, user)
            &&& effect.user_info.is_lp
            &&& market.ledger_in_order() ==> after.ledger_in_order()
        }),
{
    let effect = market.liquidity_added(user, user_info, amount)->Ok_0;
    let after = effect.market;
    let yes_part = market.yes_share_of_added(amount as nat);
    if market.pool_value() > 0 {
        lemma_mul_div_within(amount as nat, market.yes.real_sol_reserves, market.pool_value());
    }
    assert(yes_part <= amount);
    if has_position(market.lps, user) {
        let k = choose|k: int| 0 <= k < market.lps.len() && (#[trigger] market.lps[k]).user == user;
        lemma_position_exists(market.lps, user, k);
        let i = position_of(market.lps, user);
        let line = LpInfo { user, sol_amount: (market.lps[i].sol_amount + amount) as u64 };
        assert(after.lps == market.lps.update(i, line));
        assert(after.lps[i].user == user);
        lemma_total_after_update(market.lps, i, line);
        if distinct_users(market.lps) {
            assert forall|a: int, b: int| 0 <= a < b < after.lps.len() implies (
            #[trigger] after.lps[a]).user != (#[trigger] after.lps[b]).user by {
                assert(market.lps[a].user != market.lps[b].user);
            }
        }
    } else {
        let line = LpInfo { user, sol_amount: amount };
        assert(after.lps == market.lps.push(line));
        assert(after.lps[market.lps.len() as int].user == user);
        lemma_total_after_push(market.lps, line);
        if distinct_users(market.lps) {
            assert forall|a: int, b: int| 0 <= a < b < after.lps.len() implies (
            #[trigger] after.lps[a]).user != (#[trigger] after.lps[b]).user by {
                if b < market.lps.len() {
                    assert(market.lps[a].user != market.lps[b].user);
                } else {
                    assert(market.lps[a].user != user);
                }
            }
        }
    }
}

/// Withdrawing liquidity keeps the ledger in order. The amount withdrawn is
/// within the user's share, and exactly it leaves the two sides, from neither
/// more than it holds; the claim used up comes off the user's line and off
/// the sum of all claims, and a user whose claim is used up has no line any
/// more.
pub proof fn lemma_liquidity_withdrawn(
    market: MarketView,
    config: Config,
    user: Address,
    user_info: UserInfo,
    amount: u64,
)
    requires
        market.representable(),
        market.liquidity_withdrawn(config, user, user_info, amount) is Ok,
    ensures
        ({
            let effect = market.liquidity_withdrawn(config, user, user_info, amount)->Ok_0;
            let after = effect.market;
            &&& after.representable()
            &&& amount <= market.entitlement(user) <= market.pool_value()
            &&& effect.amounts.yes_sol + effect.amounts.no_sol == amount
            &&& after.yes.real_sol_reserves + effect.amounts.yes_sol
                == market.yes.real_sol_reserves
            &&& after.no.real_sol_reserves + effect.amounts.no_sol == market.no.real_sol_reserves
            &&& after.pool_value() + amount == market.pool_value()
            &&& after.yes.real_token_reserves + effect.amounts.yes_tokens
                == market.yes.real_token_reserves
            &&& after.no.real_token_reserves + effect.amounts.no_tokens
                == market.no.real_token_reserves
            &&& after.total_lp_amount + market.claim_used(amount as nat) == market.total_lp_amount
            &&& market.ledger_in_order() ==> after.ledger_in_order()
            &&& market.ledger_in_order() ==> (effect.user_info.is_lp <==> has_position(
                after.lps,
                user,
            ))
        }),
{
    let effect = market.liquidity_withdrawn(config, user, user_info, amount)->Ok_0;
    let after = effect.market;
    let k = choose|k: int| 0 <= k < market.lps.len() && (#[trigger] market.lps[k]).user == user;
    lemma_position_exists(market.lps, user, k);
    let i = position_of(market.lps, user);
    let claim = market.lps[i].sol_amount as nat;
    let pool = market.pool_value();
    let total = market.total_lp_amount;
    let units = market.claim_used(amount as nat);
    let yes = market.yes.real_sol_reserves;
    let no = market.no.real_sol_reserves;
    lemma_split_within(amount as nat, yes, no);
    let yes_part = mul_div(amount as nat, yes, pool);
    let no_part = (amount - yes_part) as nat;
    // The tokens burnt are within the reserves.
    if yes_part > 0 {
        lemma_mul_div_within(
            market.yes.real_token_reserves,
            yes_part,
            market.depth(config, TOKEN_TYPE_YES),
        );
    }
    if no_part > 0 {
        lemma_mul_div_within(
            market.no.real_token_reserves,
            no_part,
            market.depth(config, TOKEN_TYPE_NO),
        );
    }
    lemma_share_round_trip(amount as nat, claim, pool, total);
    if claim == units {
        assert(after.lps == market.lps.remove(i));
        lemma_total_after_remove(market.lps, i);
        if distinct_users(market.lps) {
            assert forall|a: int, b: int| 0 <= a < b < after.lps.len() implies (
            #[trigger] after.lps[a]).user != (#[trigger] after.lps[b]).user by {
                let a0 = if a < i { a } else { a + 1 };
                let b0 = if b < i { b } else { b + 1 };
                assert(after.lps[a] == market.lps[a0]);
                assert(after.lps[b] == market.lps[b0]);
                assert(market.lps[a0].user != market.lps[b0].user);
            }
            if has_position(after.lps, user) {
                let k = choose|k: int| 0 <= k < after.lps.len() && (#[trigger] after.lps[k]).user == user;
                let k0 = if k < i { k } else { k + 1 };
                assert(after.lps[k] == market.lps[k0]);
                if k0 < i {
                    assert(market.lps[k0].user != market.lps[i].user);
                } else {
                    assert(market.lps[i].user != market.lps[k0].user);
                }
            }
        }
    } else {
        let line = LpInfo { user: market.lps[i].user, sol_amount: (claim - units) as u64 };
        assert(after.lps == market.lps.update(i, line));
        assert(after.lps[i].user == user);
        lemma_total_after_update(market.lps, i, line);
        if distinct_users(market.lps) {
            assert forall|a: int, b: int| 0 <= a < b < after.lps.len() implies (
            #[trigger] after.lps[a]).user != (#[trigger] after.lps[b]).user by {
                assert(market.lps[a].user != market.lps[b].user);
            }
        }
    }
}

/// A market starts with its ledger in order, and neither a trade nor a
/// payout touches the ledger.
pub proof fn lemma_only_liquidity_changes_the_ledger(
    request: CreateMarket,
    start_slot: Option<u64>,
    ending_slot: Option<u64>,
    market: MarketView,
    config: Config,
    user_info: UserInfo,
    amount: u64,
    direction: u8,
    token_type: u8,
    minimum_receive_amount: u64,
    slot: u64,
)
    ensures
        request.created(start_slot, ending_slot).ledger_in_order(),
        request.created(start_slot, ending_slot).representable(),
        market.trade(
            config,
            user_info,
            amount,
            direction,
            token_type,
            minimum_receive_amount,
            slot,
        ) is Ok ==> market.trade(
            config,
            user_info,
            amount,
            direction,
            token_type,
            minimum_receive_amount,
            slot,
        )->Ok_0.market.lps == market.lps && market.trade(
            config,
            user_info,
            amount,
            direction,
            token_type,
            minimum_receive_amount,
            slot,
        )->Ok_0.market.total_lp_amount == market.total_lp_amount,
        market.settled(user_info, token_type) is Ok ==> market.settled(
            user_info,
            token_type,
        )->Ok_0.market.lps == market.lps && market.settled(
            user_info,
            token_type,
        )->Ok_0.market.total_lp_amount == market.total_lp_amount,
{
    assert(request.created(start_slot, ending_slot).lps.len() == 0);
}

/// With a ledger in order, a withdrawal within the user's share is granted.
/// On a market that is open and whose pool fits in 64 bits, whoever has a
/// line in the ledger may withdraw any positive amount up to the user's
/// share.
pub proof fn lemma_withdrawal_within_share_is_granted(
    market: MarketView,
    config: Config,
    user: Address,
    user_info: UserInfo,
    amount: u64,
)
    requires
        market.ledger_in_order(),
        !market.is_completed,
        has_position(market.lps, user),
        market.pool_value() <= u64::MAX,
        0 < amount <= market.entitlement(user),
    ensures
        market.liquidity_withdrawn(config, user, user_info, amount) is Ok,
{
    let k = choose|k: int| 0 <= k < market.lps.len() && (#[trigger] market.lps[k]).user == user;
    lemma_position_exists(market.lps, user, k);
    let i = position_of(market.lps, user);
    let claim = market.lps[i].sol_amount as nat;
    let pool = market.pool_value();
    let total = market.total_lp_amount;
    lemma_claim_within_total(market.lps, i);
    lemma_share_round_trip(amount as nat, claim, pool, total);
}

/// A withdrawal leaves the price of each side where it was. The tokens of a
/// side stand to its effective base currency after the withdrawal as they did
/// before it, as nearly as whole tokens allow: with one token more in the
/// reserve the ratio would be above the old one.
pub proof fn lemma_withdrawal_keeps_price(
    market: MarketView,
    config: Config,
    user: Address,
    user_info: UserInfo,
    amount: u64,
    token_type: u8,
)
    requires
        market.liquidity_withdrawn(config, user, user_info, amount) is Ok,
        valid_token_type(token_type),
    ensures
        ({
            let after = market.liquidity_withdrawn(config, user, user_info, amount)->Ok_0.market;
            let depth = market.depth(config, token_type);
            let tokens = market.side(token_type).real_token_reserves;
            let depth_after = after.depth(config, token_type);
            let tokens_after = after.side(token_type).real_token_reserves;
            &&& depth_after <= depth
            &&& tokens_after <= tokens
            &&& tokens_after * depth <= tokens * depth_after
            &&& tokens * depth_after < (tokens_after + 1) * depth || (depth_after == depth
                && tokens_after == tokens)
        }),
{
    let after = market.liquidity_withdrawn(config, user, user_info, amount)->Ok_0.market;
    let yes = market.yes.real_sol_reserves;
    let no = market.no.real_sol_reserves;
    lemma_split_within(amount as nat, yes, no);
    let yes_part = mul_div(amount as nat, yes, market.pool_value());
    let no_part = (amount - yes_part) as nat;
    let part = if token_type == TOKEN_TYPE_YES { yes_part } else { no_part };
    let depth = market.depth(config, token_type);
    let tokens = market.side(token_type).real_token_reserves;
    let burnt = tokens_to_burn(depth, tokens, part);
    if part > 0 {
        lemma_mul_div_within(tokens, part, depth);
        lemma_mul_div_bounds(tokens, part, depth);
        let depth_after = (depth - part) as nat;
        let tokens_after = (tokens - burnt) as nat;
        assert(after.depth(config, token_type) == depth_after);
        assert(after.side(token_type).real_token_reserves == tokens_after);
        assert(tokens_after * depth <= tokens * depth_after && tokens * depth_after < (
        tokens_after + 1) * depth) by (nonlinear_arith)
            requires
                (burnt - 1) * depth < tokens * part <= burnt * depth,
                depth_after == depth - part,
                tokens_after == tokens - burnt,
        {
            assert(tokens_after * depth == tokens * depth - burnt * depth);
            assert(tokens * depth_after == tokens * depth - tokens * part);
            assert((tokens_after + 1) * depth == tokens * depth - (burnt - 1) * depth);
        }
    } else {
        assert(after.depth(config, token_type) == depth);
        assert(after.side(token_type).real_token_reserves == tokens);
    }
}

} // verus!
