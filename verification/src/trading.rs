//! What holds of every trade: the accounting of the curve's product, the
//! bound on what a buy hands out, and what a round trip returns.

use vstd::prelude::*;
use crate::constants::{BPS_DENOMINATOR, DIRECTION_BUY, DIRECTION_SELL};
use crate::curve::{
    curve_out,
    curve_product,
    lemma_out_within_reserve,
    lemma_product_after_trade,
    lemma_repeat_takes_no_more,
    remaining,
    rounding_loss,
};
use crate::errors::PredictionMarketError;
use crate::state::config::Config;
use crate::state::market::{fee_of, valid_token_type, MarketView, TradeEffect, UserInfo};
use crate::utils::lemma_mul_div_ordered;

verus! {

impl MarketView {
    /// What goes into the curve when `amount` is traded: for a buy the base
    /// currency left after the fee, for a sell the tokens.
    pub open spec fn curve_input(self, config: Config, amount: u64, direction: u8) -> nat {
        if direction == DIRECTION_BUY {
            (amount - fee_of((config.platform_buy_fee + config.lp_buy_fee) as nat, amount as nat)) as nat
        } else {
            amount as nat
        }
    }

    /// What the rounding of a trade takes off the product of the side's
    /// reserves.
    pub open spec fn trade_rounding_loss(
        self,
        config: Config,
        amount: u64,
        direction: u8,
        token_type: u8,
    ) -> nat {
        let depth = self.depth(config, token_type);
        let tokens = self.side(token_type).real_token_reserves;
        if direction == DIRECTION_BUY {
            rounding_loss(depth, tokens, self.curve_input(config, amount, direction))
        } else {
            rounding_loss(tokens, depth, self.curve_input(config, amount, direction))
        }
    }
}

/// No free tokens. A buy that is taken hands out no more tokens than the side
/// held before it, and exactly those leave the side.
pub proof fn lemma_buy_within_reserves(
    market: MarketView,
    config: Config,
    user_info: UserInfo,
    amount: u64,
    token_type: u8,
    minimum_receive_amount: u64,
)
    requires
        market.buy(config, user_info, amount, token_type, minimum_receive_amount) is Ok,
    ensures
        ({
            let effect = market.buy(
                config,
                user_info,
                amount,
                token_type,
                minimum_receive_amount,
            )->Ok_0;
            &&& effect.amounts.token_amount <= market.side(token_type).real_token_reserves
            &&& effect.market.side(token_type).real_token_reserves + effect.amounts.token_amount
                == market.side(token_type).real_token_reserves
            &&& effect.user_info.balance(token_type) == user_info.balance(token_type)
                + effect.amounts.token_amount
        }),
{
}

/// The curve never quotes more tokens than the side holds, whatever is paid
/// in; so no buy is ever refused with `InsufficientTokens`.
pub proof fn lemma_buy_never_short_of_tokens(
    market: MarketView,
    config: Config,
    user_info: UserInfo,
    amount: u64,
    token_type: u8,
    minimum_receive_amount: u64,
)
    ensures
        forall|sol_amount: nat| #[trigger]
            market.buy_defined(config, sol_amount, token_type) ==> market.tokens_for_buy(
                config,
                sol_amount,
                token_type,
            ) <= market.side(token_type).real_token_reserves,
        market.buy(config, user_info, amount, token_type, minimum_receive_amount) != Err::<
            TradeEffect,
            PredictionMarketError,
        >(PredictionMarketError::InsufficientTokens),
{
    assert forall|sol_amount: nat| #[trigger]
        market.buy_defined(config, sol_amount, token_type) implies market.tokens_for_buy(
        config,
        sol_amount,
        token_type,
    ) <= market.side(token_type).real_token_reserves by {
        lemma_out_within_reserve(
            market.depth(config, token_type),
            market.side(token_type).real_token_reserves,
            sol_amount,
        );
    }
    let net_in = market.curve_input(config, amount, DIRECTION_BUY);
    if market.buy_defined(config, net_in, token_type) {
        assert(market.tokens_for_buy(config, net_in, token_type) <= market.side(
            token_type,
        ).real_token_reserves);
    }
}

/// The product of a side's reserves through one trade. After a trade that is
/// taken, the product of the side traded is the product before, less what
/// the rounding took, plus the liquidity providers' fee times the tokens now
/// in the side. The rounding takes less than the reserve that the trade paid
/// into holds afterwards, so the product falls by less than one unit of the
/// other reserve would restore; and it does not fall at all exactly when the
/// fee that stayed makes up for the rounding. The other side is as it was.
pub proof fn lemma_trade_product(
    market: MarketView,
    config: Config,
    user_info: UserInfo,
    amount: u64,
    direction: u8,
    token_type: u8,
    minimum_receive_amount: u64,
    slot: u64,
)
    requires
        market.trade(
            config,
            user_info,
            amount,
            direction,
            token_type,
            minimum_receive_amount,
            slot,
        ) is Ok,
    ensures
        ({
            let effect = market.trade(
                config,
                user_info,
                amount,
                direction,
                token_type,
                minimum_receive_amount,
                slot,
            )->Ok_0;
            let after = effect.market;
            let loss = market.trade_rounding_loss(config, amount, direction, token_type);
            let stayed = effect.amounts.lp_fee * after.side(token_type).real_token_reserves;
            &&& after.product(config, token_type) + loss == market.product(config, token_type)
                + stayed
            &&& direction == DIRECTION_BUY ==> loss < after.depth(config, token_type)
                && curve_product(
                after.depth(config, token_type),
                after.side(token_type).real_token_reserves + 1,
            ) > market.product(config, token_type)
            &&& direction == DIRECTION_SELL ==> loss < after.side(token_type).real_token_reserves
                && curve_product(
                after.depth(config, token_type) + 1,
                after.side(token_type).real_token_reserves,
            ) > market.product(config, token_type)
            &&& after.product(config, token_type) >= market.product(config, token_type) <==> stayed
                >= loss
            &&& forall|other: u8|
                valid_token_type(other) && other != token_type ==> #[trigger] after.side(other)
                    == market.side(other)
        }),
{
    let effect = market.trade(
        config,
        user_info,
        amount,
        direction,
        token_type,
        minimum_receive_amount,
        slot,
    )->Ok_0;
    let after = effect.market;
    let depth = market.depth(config, token_type);
    let tokens = market.side(token_type).real_token_reserves;
    let input = market.curve_input(config, amount, direction);
    let lp_fee = effect.amounts.lp_fee as nat;
    let tokens_after = after.side(token_type).real_token_reserves;
    let depth_after = after.depth(config, token_type);
    if direction == DIRECTION_BUY {
        lemma_out_within_reserve(depth, tokens, input);
        lemma_product_after_trade(depth, tokens, input);
        assert(tokens_after == remaining(depth, tokens, input));
        assert(depth_after == depth + input + lp_fee);
        assert(depth_after * tokens_after == (depth + input) * tokens_after + lp_fee
            * tokens_after) by (nonlinear_arith)
            requires
                depth_after == depth + input + lp_fee,
        ;
        assert(depth_after * (tokens_after + 1) >= (depth + input) * (tokens_after + 1))
            by (nonlinear_arith)
            requires
                depth_after >= depth + input,
        ;
    } else {
        lemma_out_within_reserve(tokens, depth, input);
        lemma_product_after_trade(tokens, depth, input);
        let left = remaining(tokens, depth, input);
        let gross = curve_out(tokens, depth, input);
        lemma_mul_div_ordered(
            gross,
            config.platform_sell_fee as nat,
            (config.platform_sell_fee + config.lp_sell_fee) as nat,
            BPS_DENOMINATOR as nat,
        );
        assert(tokens_after == tokens + input);
        assert(depth_after == left + lp_fee);
        assert(depth_after * tokens_after == (tokens + input) * left + lp_fee * tokens_after)
            by (nonlinear_arith)
            requires
                depth_after == left + lp_fee,
                tokens_after == tokens + input,
        ;
        assert((depth_after + 1) * tokens_after >= (tokens + input) * (left + 1))
            by (nonlinear_arith)
            requires
                depth_after >= left,
                tokens_after == tokens + input,
        ;
        assert(tokens * depth == depth * tokens) by (nonlinear_arith);
    }
}

/// A round trip on the curve, fees left aside: `sol_amount` buys tokens and
/// the tokens are sold back at once. What comes back is never less than what
/// was paid, and is no more than that exactly when the buy divided without
/// remainder; in every case it exceeds what was paid by less than one unit
/// plus the side's base currency per token.
pub proof fn lemma_round_trip(market: MarketView, config: Config, sol_amount: nat, token_type: u8)
    requires
        market.buy_defined(config, sol_amount, token_type),
        market.side(token_type).real_token_reserves > 0,
    ensures
        ({
            let bought = market.tokens_for_buy(config, sol_amount, token_type);
            let back = market.after_buy(config, sol_amount, token_type).sol_for_sell(
                config,
                bought,
                token_type,
            );
            let depth = market.depth(config, token_type);
            let tokens = market.side(token_type).real_token_reserves;
            &&& back >= sol_amount
            &&& back <= sol_amount <==> rounding_loss(depth, tokens, sol_amount) == 0
            &&& back * tokens < (sol_amount + 1) * tokens + depth + sol_amount
        }),
{
    let depth = market.depth(config, token_type);
    let tokens = market.side(token_type).real_token_reserves;
    let bought = market.tokens_for_buy(config, sol_amount, token_type);
    let mid = market.after_buy(config, sol_amount, token_type);
    let back = mid.sol_for_sell(config, bought, token_type);
    lemma_out_within_reserve(depth, tokens, sol_amount);
    lemma_product_after_trade(depth, tokens, sol_amount);
    let left = remaining(depth, tokens, sol_amount);
    let loss = rounding_loss(depth, tokens, sol_amount);
    let grown = depth + sol_amount;
    assert(mid.side(token_type).real_token_reserves == left);
    assert(mid.depth(config, token_type) == grown);
    assert(left + bought == tokens);
    // Selling back: the tokens return to `tokens`, the base currency to
    // `left * grown / tokens`.
    let restored = remaining(left, grown, bought);
    assert(restored == (left * grown) / tokens);
    lemma_out_within_reserve(left, grown, bought);
    assert(back + restored == grown);
    assert(left * grown == grown * left) by (nonlinear_arith);
    assert(left * grown + loss == depth * tokens);
    vstd::arithmetic::div_mod::lemma_fundamental_div_mod((left * grown) as int, tokens as int);
    let rest = (left * grown) % tokens;
    assert(0 <= rest < tokens) by (nonlinear_arith)
        requires
            tokens > 0,
            rest == (left * grown) % tokens,
    ;
    assert(restored <= depth && (restored == depth <==> loss == 0) && restored * tokens + tokens
        + grown > depth * tokens) by (nonlinear_arith)
        requires
            left * grown == tokens * restored + rest,
            0 <= rest < tokens,
            left * grown + loss == depth * tokens,
            0 <= loss < grown,
            tokens > 0,
    {
        if restored > depth {
            assert(tokens * restored >= tokens * (depth + 1));
        }
        if restored < depth {
            assert(tokens * restored <= tokens * (depth - 1));
        }
        assert(tokens * restored == restored * tokens);
    }
    assert(back * tokens < (sol_amount + 1) * tokens + depth + sol_amount) by (nonlinear_arith)
        requires
            back + restored == grown,
            grown == depth + sol_amount,
            restored * tokens + tokens + grown > depth * tokens,
    ;
}

/// The price only worsens along one direction: of two buys of the same
/// amount on the same side, one right after the other, the second yields no
/// more tokens than the first.
pub proof fn lemma_second_buy_yields_no_more(
    market: MarketView,
    config: Config,
    user_info: UserInfo,
    amount: u64,
    token_type: u8,
)
    requires
        market.buy(config, user_info, amount, token_type, 0) is Ok,
        market.buy(config, user_info, amount, token_type, 0)->Ok_0.market.buy(
            config,
            market.buy(config, user_info, amount, token_type, 0)->Ok_0.user_info,
            amount,
            token_type,
            0,
        ) is Ok,
    ensures
        ({
            let first = market.buy(config, user_info, amount, token_type, 0)->Ok_0;
            let second = first.market.buy(config, first.user_info, amount, token_type, 0)->Ok_0;
            second.amounts.token_amount <= first.amounts.token_amount
        }),
{
    let first = market.buy(config, user_info, amount, token_type, 0)->Ok_0;
    let net_in = market.curve_input(config, amount, DIRECTION_BUY);
    let depth = market.depth(config, token_type);
    let tokens = market.side(token_type).real_token_reserves;
    lemma_out_within_reserve(depth, tokens, net_in);
    lemma_repeat_takes_no_more(depth, tokens, net_in, first.amounts.lp_fee as nat);
    assert(first.market.side(token_type).real_token_reserves == remaining(depth, tokens, net_in));
    assert(first.market.depth(config, token_type) == depth + net_in + first.amounts.lp_fee);
}

/// On a side that holds no base currency yet, a round trip returns no more
/// than was paid: whoever buys there and sells the tokens back at once
/// receives at most the amount paid, fees or no fees, because a side never
/// pays out more than it really holds.
pub proof fn lemma_round_trip_on_a_fresh_side(
    market: MarketView,
    config: Config,
    user_info: UserInfo,
    amount: u64,
    token_type: u8,
)
    requires
        market.side(token_type).real_sol_reserves == 0,
        market.buy(config, user_info, amount, token_type, 0) is Ok,
        market.buy(config, user_info, amount, token_type, 0)->Ok_0.market.sell(
            config,
            market.buy(config, user_info, amount, token_type, 0)->Ok_0.user_info,
            market.buy(config, user_info, amount, token_type, 0)->Ok_0.amounts.token_amount,
            token_type,
            0,
        ) is Ok,
    ensures
        ({
            let bought = market.buy(config, user_info, amount, token_type, 0)->Ok_0;
            let sold = bought.market.sell(
                config,
                bought.user_info,
                bought.amounts.token_amount,
                token_type,
                0,
            )->Ok_0;
            sold.amounts.sol_amount - sold.amounts.platform_fee - sold.amounts.lp_fee <= amount
        }),
{
    let bought = market.buy(config, user_info, amount, token_type, 0)->Ok_0;
    let gross = bought.market.sol_for_sell(
        config,
        bought.amounts.token_amount as nat,
        token_type,
    );
    lemma_mul_div_ordered(
        amount as nat,
        config.platform_buy_fee as nat,
        (config.platform_buy_fee + config.lp_buy_fee) as nat,
        BPS_DENOMINATOR as nat,
    );
    lemma_mul_div_ordered(
        gross,
        config.platform_sell_fee as nat,
        (config.platform_sell_fee + config.lp_sell_fee) as nat,
        BPS_DENOMINATOR as nat,
    );
    lemma_out_within_reserve(
        bought.market.side(token_type).real_token_reserves,
        bought.market.depth(config, token_type),
        bought.amounts.token_amount as nat,
    );
}

/// One request in a run of trades.
pub struct TradeRequest {
    pub amount: u64,
    pub direction: u8,
    pub minimum_receive_amount: u64,
    pub slot: u64,
}

/// A market, a user's record and the sums kept along a run of trades.
pub struct TradeRun {
    pub market: MarketView,
    pub user_info: UserInfo,
    /// What rounding has taken off the product of the side, all trades
    /// together.
    pub lost: nat,
    /// What the fees that stayed in the side have added to its product, all
    /// trades together.
    pub gained: nat,
}

impl MarketView {
    /// The market after the requests were put to one side in turn, with
    /// nothing else happening in between. A request that is refused changes
    /// nothing.
    pub open spec fn after_trades(
        self,
        config: Config,
        user_info: UserInfo,
        token_type: u8,
        requests: Seq<TradeRequest>,
    ) -> TradeRun
        decreases requests.len(),
    {
        if requests.len() == 0 {
            TradeRun { market: self, user_info, lost: 0, gained: 0 }
        } else {
            let so_far = self.after_trades(config, user_info, token_type, requests.drop_last());
            let next = requests.last();
            let taken = so_far.market.trade(
                config,
                so_far.user_info,
                next.amount,
                next.direction,
                token_type,
                next.minimum_receive_amount,
                next.slot,
            );
            if taken is Ok {
                TradeRun {
                    market: taken->Ok_0.market,
                    user_info: taken->Ok_0.user_info,
                    lost: so_far.lost + so_far.market.trade_rounding_loss(
                        config,
                        next.amount,
                        next.direction,
                        token_type,
                    ),
                    gained: so_far.gained + (taken->Ok_0.amounts.lp_fee as nat)
                        * taken->Ok_0.market.side(token_type).real_token_reserves,
                }
            } else {
                so_far
            }
        }
    }
}

/// The product of a side's reserves through any run of trades. Whatever
/// buys and sells are put to one side, with no change of liquidity in
/// between, the product of its reserves at the end is the product at the
/// start, less what rounding took, plus what the fees that stayed added. So
/// the product has not fallen exactly when the fees made up for the rounding,
/// as they do whenever every trade divided without remainder. The other side
/// is as it was at the start.
pub proof fn lemma_product_through_trades(
    market: MarketView,
    config: Config,
    user_info: UserInfo,
    token_type: u8,
    requests: Seq<TradeRequest>,
)
    requires
        valid_token_type(token_type),
    ensures
        ({
            let run = market.after_trades(config, user_info, token_type, requests);
            &&& run.market.product(config, token_type) + run.lost == market.product(
                config,
                token_type,
            ) + run.gained
            &&& run.market.product(config, token_type) >= market.product(config, token_type)
                <==> run.gained >= run.lost
            &&& run.lost == 0 ==> run.market.product(config, token_type) >= market.product(
                config,
                token_type,
            )
            &&& forall|other: u8|
                valid_token_type(other) && other != token_type ==> #[trigger] run.market.side(
                    other,
                ) == market.side(other)
        }),
    decreases requests.len(),
{
    if requests.len() > 0 {
        lemma_product_through_trades(market, config, user_info, token_type, requests.drop_last());
        let so_far = market.after_trades(config, user_info, token_type, requests.drop_last());
        let next = requests.last();
        let taken = so_far.market.trade(
            config,
            so_far.user_info,
            next.amount,
            next.direction,
            token_type,
            next.minimum_receive_amount,
            next.slot,
        );
        if taken is Ok {
            lemma_trade_product(
                so_far.market,
                config,
                so_far.user_info,
                next.amount,
                next.direction,
                token_type,
                next.minimum_receive_amount,
                next.slot,
            );
            let run = market.after_trades(config, user_info, token_type, requests);
            assert forall|other: u8|
                valid_token_type(other) && other != token_type implies #[trigger] run.market.side(
                other,
            ) == market.side(other) by {
                assert(so_far.market.side(other) == market.side(other));
                assert(taken->Ok_0.market.side(other) == so_far.market.side(other));
            }
        }
    }
}

} // verus!
