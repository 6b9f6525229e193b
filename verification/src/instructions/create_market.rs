//! Opening a market.

use vstd::prelude::*;
use crate::address::Address;
use crate::constants::MAX_START_SLOT_DELAY;
use crate::errors::PredictionMarketError;
use crate::events::CreateEvent;
use crate::state::config::Config;
use crate::state::market::{CreateMarketParams, Curve, Market, MarketView};

verus! {

/// The records touched when a market is created.
#[derive(Clone, Copy, Debug, PartialEq, Eq)]
pub struct CreateMarket {
    /// The configuration in force.
    pub global_config: Config,
    /// The team wallet as the caller names it.
    pub team_wallet: Address,
    /// Who creates the market.
    pub creator: Address,
    /// The token of the YES side.
    pub yes_token: Address,
    /// The token of the NO side.
    pub no_token: Address,
    /// The address under which the market will be kept.
    pub market: Address,
    pub yes_token_metadata_account: Address,
    pub no_token_metadata_account: Address,
}

/// The slot that an event shows for an end of the window that is not set.
pub open spec fn slot_or_zero(slot: Option<u64>) -> u64 {
    if slot is Some {
        slot->0
    } else {
        0
    }
}

impl CreateMarket {
    /// The window ends after `slot`, and no later than the longest delay
    /// allows.
    pub open spec fn ending_in_time(ending_slot: Option<u64>, slot: u64) -> bool {
        ending_slot is Some ==> slot < ending_slot->0 <= slot + MAX_START_SLOT_DELAY
    }

    /// Whether the market is created at `slot`, and if not, why not. A caller
    /// that names another team wallet than the configuration is refused with
    /// `IncorrectAuthority`, an end of trading that is not ahead, or too far
    /// ahead, with `InvalidEndTime`.
    pub open spec fn outcome(self, start_slot: Option<u64>, ending_slot: Option<u64>, slot: u64) -> Result<
        (),
        PredictionMarketError,
    > {
        if self.global_config.team_wallet != self.team_wallet {
            Err(PredictionMarketError::IncorrectAuthority)
        } else if !Self::ending_in_time(ending_slot, slot) {
            Err(PredictionMarketError::InvalidEndTime)
        } else {
            Ok(())
        }
    }

    /// A curve as it starts: the seed reserve of tokens and no base currency.
    pub open spec fn seeded(self) -> Curve {
        Curve {
            initial_token_reserves: self.global_config.initial_real_token_reserves_config as nat,
            real_token_reserves: self.global_config.initial_real_token_reserves_config as nat,
            real_sol_reserves: 0,
            token_total_supply: self.global_config.token_supply_config as nat,
        }
    }

    /// The market as it starts: both curves seeded, open, and funded by
    /// nobody.
    pub open spec fn created(self, start_slot: Option<u64>, ending_slot: Option<u64>) -> MarketView {
        MarketView {
            yes_token_mint: self.yes_token,
            no_token_mint: self.no_token,
            creator: self.creator,
            yes: self.seeded(),
            no: self.seeded(),
            is_completed: false,
            start_slot,
            ending_slot,
            lps: Seq::empty(),
            total_lp_amount: 0,
        }
    }

    /// The report of the creation.
    pub open spec fn event_of(self, start_slot: Option<u64>, ending_slot: Option<u64>) -> CreateEvent {
        CreateEvent {
            creator: self.creator,
            market: self.market,
            token_yes: self.yes_token,
            metadata_yes: self.yes_token_metadata_account,
            token_yes_total_supply: self.global_config.token_supply_config,
            real_yes_sol_reserves: 0,
            token_no: self.no_token,
            metadata_no: self.no_token_metadata_account,
            token_no_total_supply: self.global_config.token_supply_config,
            real_no_sol_reserves: 0,
            start_slot: slot_or_zero(start_slot),
            ending_slot: slot_or_zero(ending_slot),
        }
    }

    /// Creates a market at `slot` with the window that `params` gives, and
    /// reports it. Each side starts with the seed reserve of tokens of the
    /// configuration and holds no base currency yet.
    pub fn handler(&self, params: &CreateMarketParams, slot: u64) -> (r: Result<
        (Market, CreateEvent),
        PredictionMarketError,
    >)
        ensures
            r is Ok <==> self.outcome(params.start_slot, params.ending_slot, slot) is Ok,
            r is Err ==> r->Err_0 == self.outcome(
                params.start_slot,
                params.ending_slot,
                slot,
            )->Err_0,
            r is Ok ==> r->Ok_0.0@ == self.created(params.start_slot, params.ending_slot),
            r is Ok ==> r->Ok_0.1 == self.event_of(params.start_slot, params.ending_slot),
    {
        if self.global_config.team_wallet != self.team_wallet {
            return Err(PredictionMarketError::IncorrectAuthority);
        }
        if let Some(ending_slot) = params.ending_slot {
            if ending_slot <= slot || ending_slot - slot > MAX_START_SLOT_DELAY {
                return Err(PredictionMarketError::InvalidEndTime);
            }
        }
        let seed = self.global_config.initial_real_token_reserves_config;
        let supply = self.global_config.token_supply_config;
        let market = Market {
            yes_token_mint: self.yes_token,
            no_token_mint: self.no_token,
            creator: self.creator,
            initial_yes_token_reserves: seed,
            real_yes_token_reserves: seed,
            real_yes_sol_reserves: 0,
            token_yes_total_supply: supply,
            initial_no_token_reserves: seed,
            real_no_token_reserves: seed,
            real_no_sol_reserves: 0,
            token_no_total_supply: supply,
            is_completed: false,
            start_slot: params.start_slot,
            ending_slot: params.ending_slot,
            lps: Vec::new(),
            total_lp_amount: 0,
        };
        let event = CreateEvent {
            creator: self.creator,
            market: self.market,
            token_yes: self.yes_token,
            metadata_yes: self.yes_token_metadata_account,
            token_yes_total_supply: supply,
            real_yes_sol_reserves: 0,
            token_no: self.no_token,
            metadata_no: self.no_token_metadata_account,
            token_no_total_supply: supply,
            real_no_sol_reserves: 0,
            start_slot: match params.start_slot {
                Some(s) => s,
                None => 0,
            },
            ending_slot: match params.ending_slot {
                Some(s) => s,
                None => 0,
            },
        };
        Ok((market, event))
    }
}

} // verus!
