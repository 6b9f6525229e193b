//! The settings of token creation, kept apart from the trading parameters.

use vstd::prelude::*;
use crate::address::Address;
use crate::errors::PredictionMarketError;
use crate::events::{GlobalUpdateEvent, IntoEvent};

verus! {

/// A request to change who may update the settings.
#[derive(Clone, Copy, Debug, PartialEq, Eq)]
pub struct GlobalAuthorityInput {
    pub global_authority: Option<Address>,
}

/// The settings of token creation. The platform's fee percentages, which are
/// kept for display only, are not part of this record.
#[derive(Clone, Copy, Debug, PartialEq, Eq)]
pub struct Global {
    pub initialized: bool,
    /// Who may update the settings.
    pub global_authority: Address,
    pub team_wallet: Address,
    pub initial_real_token_reserves: u64,
    pub token_total_supply: u64,
    pub mint_decimals: u8,
    pub last_updated_slot: u64,
}

/// New values for the settings.
#[derive(Clone, Copy, Debug, PartialEq, Eq)]
pub struct GlobalSettingsInput {
    pub initial_real_token_reserves: u64,
    pub token_total_supply: u64,
    pub mint_decimals: u8,
    pub team_wallet: Address,
}

impl Default for Global {
    fn default() -> (r: Global)
        ensures
            r.initialized,
            r.global_authority.is_unset(),
            r.team_wallet.is_unset(),
            r.initial_real_token_reserves == 1_000_000_000_000_000,
            r.token_total_supply == 1_000_000_000_000_000,
            r.mint_decimals == 6,
            r.last_updated_slot == 0,
    {
        Global {
            initialized: true,
            global_authority: Address::default(),
            team_wallet: Address::default(),
            initial_real_token_reserves: 1_000_000_000_000_000,
            token_total_supply: 1_000_000_000_000_000,
            mint_decimals: 6,
            last_updated_slot: 0,
        }
    }
}

impl GlobalSettingsInput {
    /// The values may be put in force: at most nine decimals, a supply of at
    /// most half of what 64 bits hold, a real team wallet, and a seed reserve
    /// that is positive and smaller than the supply.
    pub open spec fn acceptable(self) -> bool {
        &&& self.mint_decimals <= 9
        &&& self.token_total_supply <= u64::MAX / 2
        &&& !self.team_wallet.is_unset()
        &&& self.initial_real_token_reserves > 0
        &&& self.token_total_supply > self.initial_real_token_reserves
    }
}

impl Global {
    /// What the vault signs with besides its bump.
    pub const SEED_PREFIX: &'static str = "globalconfig";

    /// The settings with `params` put in force at `slot`.
    pub open spec fn updated(self, params: GlobalSettingsInput, slot: u64) -> Global {
        Global {
            mint_decimals: params.mint_decimals,
            initial_real_token_reserves: params.initial_real_token_reserves,
            token_total_supply: params.token_total_supply,
            team_wallet: params.team_wallet,
            last_updated_slot: slot,
            ..self
        }
    }

    /// The settings with the authority that `params` names, if it names one.
    pub open spec fn with_authority(self, params: GlobalAuthorityInput) -> Global {
        if params.global_authority is Some {
            Global { global_authority: params.global_authority->0, ..self }
        } else {
            self
        }
    }

    /// Checks new values: they are refused with `InvalidParameter` unless
    /// they are `acceptable`.
    pub fn validate_settings(&self, params: &GlobalSettingsInput) -> (r: Result<
        (),
        PredictionMarketError,
    >)
        ensures
            params.acceptable() ==> r == Ok::<(), PredictionMarketError>(()),
            !params.acceptable() ==> r == Err::<(), PredictionMarketError>(
                PredictionMarketError::InvalidParameter,
            ),
    {
        if params.mint_decimals > 9 {
            return Err(PredictionMarketError::InvalidParameter);
        }
        if params.token_total_supply > u64::MAX / 2 {
            return Err(PredictionMarketError::InvalidParameter);
        }
        if params.team_wallet.is_zero() {
            return Err(PredictionMarketError::InvalidParameter);
        }
        if params.initial_real_token_reserves == 0 {
            return Err(PredictionMarketError::InvalidParameter);
        }
        if params.token_total_supply <= params.initial_real_token_reserves {
            return Err(PredictionMarketError::InvalidParameter);
        }
        Ok(())
    }

    /// Puts `params` in force and notes `slot` as the slot of the update.
    pub fn update_settings(&mut self, params: GlobalSettingsInput, slot: u64)
        ensures
            *final(self) == old(self).updated(params, slot),
    {
        self.mint_decimals = params.mint_decimals;
        self.initial_real_token_reserves = params.initial_real_token_reserves;
        self.token_total_supply = params.token_total_supply;
        self.team_wallet = params.team_wallet;
        self.last_updated_slot = slot;
    }

    /// Replaces the authority by the one that `params` names; without a name
    /// the settings stay as they are.
    pub fn update_authority(&mut self, params: GlobalAuthorityInput)
        ensures
            *final(self) == old(self).with_authority(params),
    {
        if let Some(global_authority) = params.global_authority {
            self.global_authority = global_authority;
        }
    }

    /// Tells whether the settings are older than the cluster's last restart:
    /// they are when they were last updated at or before `last_restart_slot`.
    pub fn is_config_outdated(&self, last_restart_slot: u64) -> (r: bool)
        ensures
            r == (self.last_updated_slot <= last_restart_slot),
    {
        self.last_updated_slot <= last_restart_slot
    }
}

impl IntoEvent<GlobalUpdateEvent> for Global {
    fn into_event(&self) -> (r: GlobalUpdateEvent)
        ensures
            r.global_authority == self.global_authority,
            r.initial_real_token_reserves == self.initial_real_token_reserves,
            r.token_total_supply == self.token_total_supply,
            r.mint_decimals == self.mint_decimals,
    {
        GlobalUpdateEvent {
            global_authority: self.global_authority,
            initial_real_token_reserves: self.initial_real_token_reserves,
            token_total_supply: self.token_total_supply,
            mint_decimals: self.mint_decimals,
        }
    }
}

} // verus!
