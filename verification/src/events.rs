//! The records that the engine hands out for others to index.

use vstd::prelude::*;
use crate::address::Address;

verus! {

/// The global settings were changed.
#[derive(Clone, Copy, Debug, PartialEq, Eq)]
pub struct GlobalUpdateEvent {
    pub global_authority: Address,
    pub initial_real_token_reserves: u64,
    pub token_total_supply: u64,
    pub mint_decimals: u8,
}

/// A market was created.
#[derive(Clone, Copy, Debug, PartialEq, Eq)]
pub struct CreateEvent {
    pub creator: Address,
    pub market: Address,
    pub token_yes: Address,
    pub metadata_yes: Address,
    pub token_yes_total_supply: u64,
    pub real_yes_sol_reserves: u64,
    pub token_no: Address,
    pub metadata_no: Address,
    pub token_no_total_supply: u64,
    pub real_no_sol_reserves: u64,
    /// The first slot of trading, zero where the market sets none.
    pub start_slot: u64,
    /// The slot at which trading ends, zero where the market sets none.
    pub ending_slot: u64,
}

/// Base currency was withdrawn.
#[derive(Clone, Copy, Debug, PartialEq, Eq)]
pub struct WithdrawEvent {
    pub withdraw_authority: Address,
    pub mint: Address,
    pub fee_vault: Address,
    pub withdrawn: u64,
    pub total_withdrawn: u64,
    pub withdraw_time: i64,
}

/// A trade was taken.
#[derive(Clone, Copy, Debug, PartialEq, Eq)]
pub struct TradeEvent {
    pub user: Address,
    pub token_yes: Address,
    pub token_no: Address,
    pub market_info: Address,
    /// The base currency of the trade before fees.
    pub sol_amount: u64,
    pub token_amount: u64,
    /// The whole fee, both parts.
    pub fee_lamports: u64,
    pub is_buy: bool,
    /// The side traded: true for YES.
    pub is_yes_no: bool,
    /// What the side traded really holds after the trade.
    pub real_sol_reserves: u64,
    pub real_token_yes_reserves: u64,
    pub real_token_no_reserves: u64,
    pub timestamp: i64,
}

/// A market was completed.
#[derive(Clone, Copy, Debug, PartialEq, Eq)]
pub struct CompleteEvent {
    pub user: Address,
    /// The token of the winning side.
    pub mint: Address,
    pub virtual_sol_reserves: u64,
    pub virtual_token_reserves: u64,
    pub real_sol_reserves: u64,
    pub real_token_reserves: u64,
    pub timestamp: i64,
}

/// A record that can be reported as an event of type `T`.
pub trait IntoEvent<T> {
    fn into_event(&self) -> T;
}

} // verus!
