//! A two-outcome bonding-curve market maker: pricing, settlement and liquidity.
//!
//! Each market holds two curves, one for YES and one for NO, which trade
//! independently against a constant product. The engine decides amounts and
//! keeps the records; moving tokens and base currency is left to the host.
//! The functions at the root are the operations that a host offers, one for
//! each kind of request.

use vstd::prelude::*;

pub mod address;
pub mod constants;
pub mod curve;
pub mod errors;
pub mod events;
pub mod instructions;
pub mod liquidity;
pub mod settlement;
pub mod state;
pub mod trading;
pub mod utils;

use crate::errors::PredictionMarketError;
use crate::events::{CompleteEvent, CreateEvent};
use crate::instructions::accept_authority::AcceptAuthority;
use crate::instructions::add_liquidity::AddLiquidity;
use crate::instructions::configure::{Configure, ConfigureFunding};
use crate::instructions::create_market::CreateMarket;
use crate::instructions::nominate_authority::NominateAuthority;
use crate::instructions::resolution::Resolution;
use crate::instructions::swap::{Swap, TradeReceipt};
use crate::instructions::withdraw_liquidity::WithdrawLiquidity;
use crate::state::config::Config;
use crate::state::market::{
    CreateMarketParams,
    LiquidityAmounts,
    LiquidityEffect,
    Market,
    MarketView,
    TradeEffect,
};
use crate::address::Address;

verus! {

/// Puts a configuration in force; see `Configure::handler`.
pub fn configure(ctx: &mut Configure, new_config: Config, config_cost: u64) -> (r: Result<
    ConfigureFunding,
    PredictionMarketError,
>)
    ensures
        r == old(ctx).outcome(new_config, config_cost),
        r is Ok ==> *final(ctx) == old(ctx).configured(new_config, config_cost),
        r is Err ==> *final(ctx) == *old(ctx),
{
    ctx.handler(new_config, config_cost)
}

/// Nominates the next authority; see `NominateAuthority::process`.
pub fn nominate_authority(ctx: &mut NominateAuthority, new_admin: Address) -> (r: Result<
    (),
    PredictionMarketError,
>)
    ensures
        r == old(ctx).outcome(),
        final(ctx).admin == old(ctx).admin,
        r is Ok ==> final(ctx).global_config == NominateAuthority::nominated(
            old(ctx).global_config,
            new_admin,
        ),
        r is Err ==> *final(ctx) == *old(ctx),
{
    ctx.process(new_admin)
}

/// Makes the nominee the authority; see `AcceptAuthority::process`.
pub fn accept_authority(ctx: &mut AcceptAuthority) -> (r: Result<(), PredictionMarketError>)
    ensures
        r == old(ctx).outcome(),
        final(ctx).new_admin == old(ctx).new_admin,
        r is Ok ==> AcceptAuthority::accepted(
            old(ctx).global_config,
            old(ctx).new_admin,
            final(ctx).global_config,
        ),
        r is Err ==> *final(ctx) == *old(ctx),
{
    ctx.process()
}

/// Creates a market; see `CreateMarket::handler`.
pub fn create_market(ctx: &CreateMarket, params: &CreateMarketParams, slot: u64) -> (r: Result<
    (Market, CreateEvent),
    PredictionMarketError,
>)
    ensures
        r is Ok <==> ctx.outcome(params.start_slot, params.ending_slot, slot) is Ok,
        r is Err ==> r->Err_0 == ctx.outcome(params.start_slot, params.ending_slot, slot)->Err_0,
        r is Ok ==> r->Ok_0.0@ == ctx.created(params.start_slot, params.ending_slot),
        r is Ok ==> r->Ok_0.1 == ctx.event_of(params.start_slot, params.ending_slot),
{
    ctx.handler(params, slot)
}

/// Takes one trade; see `Swap::handler`.
pub fn swap(
    ctx: &mut Swap,
    amount: u64,
    direction: u8,
    token_type: u8,
    minimum_receive_amount: u64,
    slot: u64,
    timestamp: i64,
) -> (r: Result<TradeReceipt, PredictionMarketError>)
    ensures
        r is Ok <==> old(ctx).outcome(amount, direction, token_type, minimum_receive_amount, slot)
            is Ok,
        r is Ok ==> (TradeEffect {
            market: final(ctx).market@,
            user_info: final(ctx).user_info,
            amounts: r->Ok_0.amounts,
        }) == old(ctx).outcome(amount, direction, token_type, minimum_receive_amount, slot)->Ok_0,
        r is Ok ==> r->Ok_0.event == old(ctx).event_of(
            old(ctx).outcome(amount, direction, token_type, minimum_receive_amount, slot)->Ok_0,
            direction,
            token_type,
            timestamp,
        ),
        r is Err ==> r->Err_0 == old(ctx).outcome(
            amount,
            direction,
            token_type,
            minimum_receive_amount,
            slot,
        )->Err_0,
        r is Err ==> *final(ctx) == *old(ctx),
        final(ctx).global_config == old(ctx).global_config,
        final(ctx).team_wallet == old(ctx).team_wallet,
        final(ctx).market_info == old(ctx).market_info,
        final(ctx).user == old(ctx).user,
{
    ctx.handler(amount, direction, token_type, minimum_receive_amount, slot, timestamp)
}

/// Takes the authority's verdict on a market; see `Resolution::handler`.
pub fn resolution(
    ctx: &mut Resolution,
    yes_amount: u64,
    no_amount: u64,
    token_type: u8,
    is_completed: bool,
    timestamp: i64,
) -> (r: Result<Option<CompleteEvent>, PredictionMarketError>)
    ensures
        r is Ok <==> old(ctx).verdict(yes_amount, no_amount, token_type) is Ok,
        r is Err ==> r->Err_0 == old(ctx).verdict(yes_amount, no_amount, token_type)->Err_0,
        r is Err ==> *final(ctx) == *old(ctx),
        r is Ok ==> final(ctx).market@ == (MarketView { is_completed, ..old(ctx).market@ }),
        r is Ok && is_completed ==> r->Ok_0 == Some(old(ctx).completion(token_type, timestamp)),
        r is Ok && !is_completed ==> r->Ok_0 is None,
        final(ctx).global_config == old(ctx).global_config,
        final(ctx).user_info == old(ctx).user_info,
        final(ctx).user == old(ctx).user,
        final(ctx).authority == old(ctx).authority,
{
    ctx.handler(yes_amount, no_amount, token_type, is_completed, timestamp)
}

/// Takes a contribution of liquidity; see `AddLiquidity::handler`.
pub fn add_liquidity(ctx: &mut AddLiquidity, amount: u64) -> (r: Result<
    LiquidityAmounts,
    PredictionMarketError,
>)
    ensures
        r is Ok <==> old(ctx).outcome(amount) is Ok,
        r is Ok ==> (LiquidityEffect {
            market: final(ctx).market@,
            user_info: final(ctx).user_info,
            amounts: r->Ok_0,
        }) == old(ctx).outcome(amount)->Ok_0,
        r is Err ==> r->Err_0 == old(ctx).outcome(amount)->Err_0,
        r is Err ==> *final(ctx) == *old(ctx),
        final(ctx).global_config == old(ctx).global_config,
        final(ctx).team_wallet == old(ctx).team_wallet,
        final(ctx).user == old(ctx).user,
{
    ctx.handler(amount)
}

/// Gives liquidity back; see `WithdrawLiquidity::handler`.
pub fn withdraw_liquidity(ctx: &mut WithdrawLiquidity, amount: u64) -> (r: Result<
    LiquidityAmounts,
    PredictionMarketError,
>)
    ensures
        r is Ok <==> old(ctx).outcome(amount) is Ok,
        r is Ok ==> (LiquidityEffect {
            market: final(ctx).market@,
            user_info: final(ctx).user_info,
            amounts: r->Ok_0,
        }) == old(ctx).outcome(amount)->Ok_0,
        r is Err ==> r->Err_0 == old(ctx).outcome(amount)->Err_0,
        r is Err ==> *final(ctx) == *old(ctx),
        final(ctx).global_config == old(ctx).global_config,
        final(ctx).team_wallet == old(ctx).team_wallet,
        final(ctx).user == old(ctx).user,
{
    ctx.handler(amount)
}

} // verus!
