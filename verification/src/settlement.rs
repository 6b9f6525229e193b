//! What holds once a market is completed: the verdict is final, trading and
//! funding are over, and nobody is paid twice.

use vstd::prelude::*;
use crate::address::Address;
use crate::errors::PredictionMarketError;
use crate::instructions::resolution::Resolution;
use crate::state::config::Config;
use crate::state::market::{
    valid_token_type,
    LiquidityEffect,
    MarketView,
    SettlementEffect,
    TradeEffect,
    UserInfo,
};

verus! {

/// A verdict that completed the market is final. Whatever the authority asks
/// for afterwards, with the same or with other amounts and winner, is refused
/// with `MarketIsCompleted`.
pub proof fn lemma_verdict_is_final(
    first: Resolution,
    yes_amount: u64,
    no_amount: u64,
    token_type: u8,
    second: Resolution,
    next_yes_amount: u64,
    next_no_amount: u64,
    next_token_type: u8,
)
    requires
        first.verdict(yes_amount, no_amount, token_type) is Ok,
        second.market@ == (MarketView { is_completed: true, ..first.market@ }),
        second.global_config == first.global_config,
        second.authority == first.authority,
    ensures
        second.verdict(next_yes_amount, next_no_amount, next_token_type) == Err::<
            (),
            PredictionMarketError,
        >(PredictionMarketError::MarketIsCompleted),
{
}

/// A completed market takes no trade and no change of liquidity.
pub proof fn lemma_completed_market_is_frozen(
    market: MarketView,
    config: Config,
    user: Address,
    user_info: UserInfo,
    amount: u64,
    direction: u8,
    token_type: u8,
    minimum_receive_amount: u64,
    slot: u64,
)
    requires
        market.is_completed,
    ensures
        market.trade(
            config,
            user_info,
            amount,
            direction,
            token_type,
            minimum_receive_amount,
            slot,
        ) is Err,
        market.liquidity_added(user, user_info, amount) == Err::<
            LiquidityEffect,
            PredictionMarketError,
        >(PredictionMarketError::MarketIsCompleted),
        market.liquidity_withdrawn(config, user, user_info, amount) == Err::<
            LiquidityEffect,
            PredictionMarketError,
        >(PredictionMarketError::MarketIsCompleted),
{
}

/// Nobody is paid twice. Once a user has been paid out, paying the same user
/// out again, for either side, is granted, pays nothing and changes nothing.
pub proof fn lemma_settled_once(
    market: MarketView,
    user_info: UserInfo,
    token_type: u8,
    again_token_type: u8,
)
    requires
        market.settled(user_info, token_type) is Ok,
        valid_token_type(again_token_type),
    ensures
        ({
            let first = market.settled(user_info, token_type)->Ok_0;
            first.market.settled(first.user_info, again_token_type) == Ok::<
                SettlementEffect,
                PredictionMarketError,
            >(SettlementEffect { market: first.market, user_info: first.user_info, payout: 0 })
        }),
{
    let first = market.settled(user_info, token_type)->Ok_0;
    let side = first.market.side(again_token_type);
    assert(first.market.with_side(
        again_token_type,
        crate::state::market::Curve {
            real_sol_reserves: (side.real_sol_reserves - 0) as nat,
            ..side
        },
    ) == first.market);
    assert((UserInfo { yes_balance: 0, no_balance: 0, ..first.user_info }) == first.user_info);
}

/// What a user is paid is what the record held of the winning side, it comes
/// out of that side alone, and the holding of the losing side is gone with
/// it.
pub proof fn lemma_settlement_pays_the_winner(
    market: MarketView,
    user_info: UserInfo,
    token_type: u8,
)
    requires
        market.settled(user_info, token_type) is Ok,
    ensures
        ({
            let effect = market.settled(user_info, token_type)->Ok_0;
            &&& effect.payout == user_info.balance(token_type)
            &&& effect.market.side(token_type).real_sol_reserves + effect.payout == market.side(
                token_type,
            ).real_sol_reserves
            &&& effect.user_info.yes_balance == 0 && effect.user_info.no_balance == 0
            &&& forall|other: u8|
                valid_token_type(other) && other != token_type ==> #[trigger] effect.market.side(
                    other,
                ) == market.side(other)
        }),
{
}

} // verus!
