//! Taking liquidity back out of a market.

use vstd::prelude::*;
use crate::address::Address;
use crate::errors::PredictionMarketError;
use crate::state::config::Config;
use crate::state::market::{LiquidityAmounts, LiquidityEffect, Market, MarketAccount, UserInfo};

verus! {

/// The records touched when a user takes liquidity back.
#[derive(Clone, Debug, PartialEq, Eq)]
pub struct WithdrawLiquidity {
    /// The configuration in force.
    pub global_config: Config,
    /// The team wallet as the caller names it.
    pub team_wallet: Address,
    pub market: Market,
    /// What is recorded of the user in this market.
    pub user_info: UserInfo,
    /// Who withdraws.
    pub user: Address,
}

impl WithdrawLiquidity {
    /// What the withdrawal does, or why it is refused. A caller that names
    /// another team wallet than the configuration is refused with
    /// `IncorrectAuthority`; after that it is the market that decides.
    pub open spec fn outcome(self, amount: u64) -> Result<LiquidityEffect, PredictionMarketError> {
        if self.global_config.team_wallet != self.team_wallet {
            Err(PredictionMarketError::IncorrectAuthority)
        } else {
            self.market@.liquidity_withdrawn(
                self.global_config,
                self.user,
                self.user_info.opened(self.user),
                amount,
            )
        }
    }

    /// Gives `amount` back to the user. The result says how much leaves
    /// which side and how many tokens of each side are to be burnt. On
    /// refusal nothing changes.
    pub fn handler(&mut self, amount: u64) -> (r: Result<LiquidityAmounts, PredictionMarketError>)
        ensures
            r is Ok <==> old(self).outcome(amount) is Ok,
            r is Ok ==> (LiquidityEffect {
                market: final(self).market@,
                user_info: final(self).user_info,
                amounts: r->Ok_0,
            }) == old(self).outcome(amount)->Ok_0,
            r is Err ==> r->Err_0 == old(self).outcome(amount)->Err_0,
            r is Err ==> *final(self) == *old(self),
            final(self).global_config == old(self).global_config,
            final(self).team_wallet == old(self).team_wallet,
            final(self).user == old(self).user,
    {
        if self.global_config.team_wallet != self.team_wallet {
            return Err(PredictionMarketError::IncorrectAuthority);
        }
        let config = self.global_config;
        let mut user_info = self.user_info;
        user_info.open(self.user);
        let amounts = match self.market.withdraw_liquidity(
            &config,
            self.user,
            amount,
            &mut user_info,
        ) {
            Ok(amounts) => amounts,
            Err(e) => {
                return Err(e);
            },
        };
        self.user_info = user_info;
        Ok(amounts)
    }
}

} // verus!
