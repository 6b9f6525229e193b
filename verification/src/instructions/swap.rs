//! Trading: buying and selling the tokens of one side.

use vstd::prelude::*;
use crate::address::Address;
use crate::constants::{DIRECTION_BUY, TOKEN_TYPE_YES};
use crate::errors::PredictionMarketError;
use crate::events::TradeEvent;
use crate::state::config::Config;
use crate::state::market::{Market, MarketAccount, MarketView, TradeAmounts, TradeEffect, UserInfo};

verus! {

/// What a trade leaves for the host to carry out and to report.
#[derive(Clone, Copy, Debug, PartialEq, Eq)]
pub struct TradeReceipt {
    pub amounts: TradeAmounts,
    pub event: TradeEvent,
}

/// The records touched by a trade.
#[derive(Clone, Debug, PartialEq, Eq)]
pub struct Swap {
    /// The configuration in force.
    pub global_config: Config,
    /// Where the caller means the platform's fee to go.
    pub team_wallet: Address,
    pub market: Market,
    /// The address under which the market is kept.
    pub market_info: Address,
    /// What is recorded of the trader in this market.
    pub user_info: UserInfo,
    /// Who trades.
    pub user: Address,
}

impl Swap {
    /// What the trade does, or why it is refused. A fee that would go
    /// anywhere but to the team wallet of the configuration is refused with
    /// `IncorrectAuthority`; after that it is the market that decides.
    pub open spec fn outcome(
        self,
        amount: u64,
        direction: u8,
        token_type: u8,
        minimum_receive_amount: u64,
        slot: u64,
    ) -> Result<TradeEffect, PredictionMarketError> {
        if self.global_config.team_wallet != self.team_wallet {
            Err(PredictionMarketError::IncorrectAuthority)
        } else {
            self.market@.trade(
                self.global_config,
                self.user_info.opened(self.user),
                amount,
                direction,
                token_type,
                minimum_receive_amount,
                slot,
            )
        }
    }

    /// The report of a trade that was taken.
    pub open spec fn event_of(
        self,
        effect: TradeEffect,
        direction: u8,
        token_type: u8,
        timestamp: i64,
    ) -> TradeEvent {
        TradeEvent {
            user: self.user,
            token_yes: self.market.yes_token_mint,
            token_no: self.market.no_token_mint,
            market_info: self.market_info,
            sol_amount: effect.amounts.sol_amount,
            token_amount: effect.amounts.token_amount,
            fee_lamports: (effect.amounts.platform_fee + effect.amounts.lp_fee) as u64,
            is_buy: direction == DIRECTION_BUY,
            is_yes_no: token_type == TOKEN_TYPE_YES,
            real_sol_reserves: effect.market.side(token_type).real_sol_reserves as u64,
            real_token_yes_reserves: effect.market.yes.real_token_reserves as u64,
            real_token_no_reserves: effect.market.no.real_token_reserves as u64,
            timestamp,
        }
    }

    /// Takes one trade at `slot`. The trader's record is started if this is
    /// the trader's first operation in the market. The receipt says what the
    /// host has to move and carries the report of the trade, stamped with
    /// `timestamp`. On refusal nothing changes.
    pub fn handler(
        &mut self,
        amount: u64,
        direction: u8,
        token_type: u8,
        minimum_receive_amount: u64,
        slot: u64,
        timestamp: i64,
    ) -> (r: Result<TradeReceipt, PredictionMarketError>)
        ensures
            r is Ok <==> old(self).outcome(
                amount,
                direction,
                token_type,
                minimum_receive_amount,
                slot,
            ) is Ok,
            r is Ok ==> (TradeEffect {
                market: final(self).market@,
                user_info: final(self).user_info,
                amounts: r->Ok_0.amounts,
            }) == old(self).outcome(
                amount,
                direction,
                token_type,
                minimum_receive_amount,
                slot,
            )->Ok_0,
            r is Ok ==> r->Ok_0.event == old(self).event_of(
                old(self).outcome(
                    amount,
                    direction,
                    token_type,
                    minimum_receive_amount,
                    slot,
                )->Ok_0,
                direction,
                token_type,
                timestamp,
            ),
            r is Err ==> r->Err_0 == old(self).outcome(
                amount,
                direction,
                token_type,
                minimum_receive_amount,
                slot,
            )->Err_0,
            r is Err ==> *final(self) == *old(self),
            final(self).global_config == old(self).global_config,
            final(self).team_wallet == old(self).team_wallet,
            final(self).market_info == old(self).market_info,
            final(self).user == old(self).user,
    {
        if self.global_config.team_wallet != self.team_wallet {
            return Err(PredictionMarketError::IncorrectAuthority);
        }
        let config = self.global_config;
        let mut user_info = self.user_info;
        user_info.open(self.user);
        let amounts = match self.market.swap(
            &config,
            amount,
            direction,
            token_type,
            minimum_receive_amount,
            slot,
            &mut user_info,
        ) {
            Ok(amounts) => amounts,
            Err(e) => {
                return Err(e);
            },
        };
        self.user_info = user_info;
        let event = TradeEvent {
            user: self.user,
            token_yes: self.market.yes_token_mint,
            token_no: self.market.no_token_mint,
            market_info: self.market_info,
            sol_amount: amounts.sol_amount,
            token_amount: amounts.token_amount,
            fee_lamports: amounts.platform_fee + amounts.lp_fee,
            is_buy: direction == DIRECTION_BUY,
            is_yes_no: token_type == TOKEN_TYPE_YES,
            real_sol_reserves: self.market.sol_reserves(token_type),
            real_token_yes_reserves: self.market.real_yes_token_reserves,
            real_token_no_reserves: self.market.real_no_token_reserves,
            timestamp,
        };
        Ok(TradeReceipt { amounts, event })
    }
}

} // verus!
