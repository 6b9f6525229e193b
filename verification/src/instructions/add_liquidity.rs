//! Funding a market.

use vstd::prelude::*;
use crate::address::Address;
use crate::errors::PredictionMarketError;
use crate::state::config::Config;
use crate::state::market::{LiquidityAmounts, LiquidityEffect, Market, MarketAccount, UserInfo};

verus! {

/// The records touched when a user funds a market.
#[derive(Clone, Debug, PartialEq, Eq)]
pub struct AddLiquidity {
    /// The configuration in force.
    pub global_config: Config,
    /// The team wallet as the caller names it.
    pub team_wallet: Address,
    pub market: Market,
    /// What is recorded of the user in this market.
    pub user_info: UserInfo,
    /// Who funds.
    pub user: Address,
}

impl AddLiquidity {
    /// What the contribution does, or why it is refused. A caller that names
    /// another team wallet than the configuration is refused with
    /// `IncorrectAuthority`; after that it is the market that decides.
    pub open spec fn outcome(self, amount: u64) -> Result<LiquidityEffect, PredictionMarketError> {
        if self.global_config.team_wallet != self.team_wallet {
            Err(PredictionMarketError::IncorrectAuthority)
        } else {
            self.market@.liquidity_added(self.user, self.user_info.opened(self.user), amount)
        }
    }

    /// Takes a contribution of `amount` from the user. The user's record is
    /// started if this is the user's first operation in the market. The
    /// result says how much of the contribution goes to which side. On
    /// refusal nothing changes.
    pub fn handler(&mut self, amount: u64) -> (r: Result<LiquidityAmounts, PredictionMarketError>)
        ensures
            r is Ok <==> old(self).outcome(amount) is Ok,
            r is Ok ==> (LiquidityEffect {
                market: final(self).market@,
                user_info: final(self).user_info,
                amounts: r->Ok_0,
            }) == old(self).outcome(amount)->Ok_0,
            r is Err ==> r->Err_0 == old(self).outcome(amount)->Err_0,
            r is Err ==> *final(self) == *old(self),
            final(self).global_config == old(self).global_config,
            final(self).team_wallet == old(self).team_wallet,
            final(self).user == old(self).user,
    {
        if self.global_config.team_wallet != self.team_wallet {
            return Err(PredictionMarketError::IncorrectAuthority);
        }
        let mut user_info = self.user_info;
        user_info.open(self.user);
        let amounts = match self.market.add_liquidity(self.user, amount, &mut user_info) {
            Ok(amounts) => amounts,
            Err(e) => {
                return Err(e);
            },
        };
        self.user_info = user_info;
        Ok(amounts)
    }
}

} // verus!
