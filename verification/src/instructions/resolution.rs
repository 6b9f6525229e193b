//! Completing a market and paying out its winners.

use vstd::prelude::*;
use crate::address::Address;
use crate::constants::TOKEN_TYPE_YES;
use crate::errors::PredictionMarketError;
use crate::events::CompleteEvent;
use crate::state::config::Config;
use crate::state::market::{
    valid_token_type,
    Market,
    MarketAccount,
    MarketView,
    SettlementEffect,
    UserInfo,
};

verus! {

/// The records touched when the authority gives its verdict on a market or
/// pays a user out.
#[derive(Clone, Debug, PartialEq, Eq)]
pub struct Resolution {
    /// The configuration in force.
    pub global_config: Config,
    pub market: Market,
    /// What is recorded in this market of the user to be paid.
    pub user_info: UserInfo,
    /// Who is paid.
    pub user: Address,
    /// Who asks.
    pub authority: Address,
}

impl Resolution {
    /// Whether a verdict is taken, and if not, why not. Only the authority of
    /// the configuration may give one (`InvalidMigrationAuthority`), and only
    /// on a market that is not completed (`MarketIsCompleted`). The amounts of
    /// tokens that the verdict names may not exceed what was minted
    /// (`RESOLUTIONYESAMOUNTERROR`, `RESOLUTIONNOAMOUNTERROR`), and the
    /// winner must be one of the two sides (`RESOLUTIONTOKEYTYPEERROR`).
    pub open spec fn verdict(self, yes_amount: u64, no_amount: u64, token_type: u8) -> Result<
        (),
        PredictionMarketError,
    > {
        if self.authority != self.global_config.authority {
            Err(PredictionMarketError::InvalidMigrationAuthority)
        } else if self.market.is_completed {
            Err(PredictionMarketError::MarketIsCompleted)
        } else if yes_amount > self.market.token_yes_total_supply {
            Err(PredictionMarketError::RESOLUTIONYESAMOUNTERROR)
        } else if no_amount > self.market.token_no_total_supply {
            Err(PredictionMarketError::RESOLUTIONNOAMOUNTERROR)
        } else if !valid_token_type(token_type) {
            Err(PredictionMarketError::RESOLUTIONTOKEYTYPEERROR)
        } else {
            Ok(())
        }
    }

    /// The report of a completion with `token_type` as the winner.
    pub open spec fn completion(self, token_type: u8, timestamp: i64) -> CompleteEvent {
        let side = self.market@.side(token_type);
        CompleteEvent {
            user: self.authority,
            mint: if token_type == TOKEN_TYPE_YES {
                self.market.yes_token_mint
            } else {
                self.market.no_token_mint
            },
            virtual_sol_reserves: self.global_config.min_sol_liquidity,
            virtual_token_reserves: side.initial_token_reserves as u64,
            real_sol_reserves: side.real_sol_reserves as u64,
            real_token_reserves: side.real_token_reserves as u64,
            timestamp,
        }
    }

    /// What paying the user out does, or why it is refused: only the
    /// authority may name the winner (`InvalidMigrationAuthority`); after
    /// that it is the market that decides.
    pub open spec fn payout(self, token_type: u8) -> Result<
        SettlementEffect,
        PredictionMarketError,
    > {
        if self.authority != self.global_config.authority {
            Err(PredictionMarketError::InvalidMigrationAuthority)
        } else {
            self.market@.settled(self.user_info, token_type)
        }
    }

    /// Takes the authority's verdict on the market: the side `token_type`
    /// has won, with `yes_amount` and `no_amount` of the tokens concerned.
    /// With `is_completed` set, the market is completed from now on, which
    /// ends trading and cannot be undone, and the completion is reported;
    /// without it the verdict is checked and the market stays open. Nothing
    /// but the market's completion changes, and on refusal nothing at all.
    pub fn handler(
        &mut self,
        yes_amount: u64,
        no_amount: u64,
        token_type: u8,
        is_completed: bool,
        timestamp: i64,
    ) -> (r: Result<Option<CompleteEvent>, PredictionMarketError>)
        ensures
            r is Ok <==> old(self).verdict(yes_amount, no_amount, token_type) is Ok,
            r is Err ==> r->Err_0 == old(self).verdict(yes_amount, no_amount, token_type)->Err_0,
            r is Err ==> *final(self) == *old(self),
            r is Ok ==> final(self).market@ == (MarketView { is_completed, ..old(self).market@ }),
            r is Ok && is_completed ==> r->Ok_0 == Some(old(self).completion(token_type, timestamp)),
            r is Ok && !is_completed ==> r->Ok_0 is None,
            final(self).global_config == old(self).global_config,
            final(self).user_info == old(self).user_info,
            final(self).user == old(self).user,
            final(self).authority == old(self).authority,
    {
        if self.authority != self.global_config.authority {
            return Err(PredictionMarketError::InvalidMigrationAuthority);
        }
        if self.market.is_completed {
            return Err(PredictionMarketError::MarketIsCompleted);
        }
        if yes_amount > self.market.token_yes_total_supply {
            return Err(PredictionMarketError::RESOLUTIONYESAMOUNTERROR);
        }
        if no_amount > self.market.token_no_total_supply {
            return Err(PredictionMarketError::RESOLUTIONNOAMOUNTERROR);
        }
        if token_type != crate::constants::TOKEN_TYPE_NO && token_type != TOKEN_TYPE_YES {
            return Err(PredictionMarketError::RESOLUTIONTOKEYTYPEERROR);
        }
        if !is_completed {
            return Ok(None);
        }
        self.market.is_completed = true;
        let yes_won = token_type == TOKEN_TYPE_YES;
        Ok(
            Some(
                CompleteEvent {
                    user: self.authority,
                    mint: if yes_won {
                        self.market.yes_token_mint
                    } else {
                        self.market.no_token_mint
                    },
                    virtual_sol_reserves: self.global_config.min_sol_liquidity,
                    virtual_token_reserves: if yes_won {
                        self.market.initial_yes_token_reserves
                    } else {
                        self.market.initial_no_token_reserves
                    },
                    real_sol_reserves: self.market.sol_reserves(token_type),
                    real_token_reserves: self.market.token_reserves(token_type),
                    timestamp,
                },
            ),
        )
    }

    /// Pays the user out of a completed market whose winner, on the
    /// authority's word, is the side `token_type`, and returns what is paid.
    /// On refusal nothing changes.
    pub fn settle(&mut self, token_type: u8) -> (r: Result<u64, PredictionMarketError>)
        ensures
            r is Ok <==> old(self).payout(token_type) is Ok,
            r is Ok ==> (SettlementEffect {
                market: final(self).market@,
                user_info: final(self).user_info,
                payout: r->Ok_0,
            }) == old(self).payout(token_type)->Ok_0,
            r is Err ==> r->Err_0 == old(self).payout(token_type)->Err_0,
            r is Err ==> *final(self) == *old(self),
            final(self).global_config == old(self).global_config,
            final(self).user == old(self).user,
            final(self).authority == old(self).authority,
    {
        if self.authority != self.global_config.authority {
            return Err(PredictionMarketError::InvalidMigrationAuthority);
        }
        let mut user_info = self.user_info;
        let paid = match self.market.resolution(&mut user_info, token_type) {
            Ok(paid) => paid,
            Err(e) => {
                return Err(e);
            },
        };
        self.user_info = user_info;
        Ok(paid)
    }
}

} // verus!
