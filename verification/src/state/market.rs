//! A market: two curves, one per outcome, with the ledger of those who fund them.

use vstd::prelude::*;
use crate::address::Address;
use crate::constants::{
    BPS_DENOMINATOR,
    DIRECTION_BUY,
    DIRECTION_SELL,
    TOKEN_TYPE_NO,
    TOKEN_TYPE_YES,
};
use crate::curve::{curve_out, effective_sol, curve_product, quote};
use crate::errors::PredictionMarketError;
use crate::state::config::Config;
use crate::utils::{
    bps_mul,
    lemma_mul_div_bounds,
    lemma_mul_div_ordered,
    lemma_mul_div_within,
    lemma_share_round_trip,
    mul_div,
    mul_div_ceil,
    mul_div_ceil_wide,
    mul_div_wide,
};

verus! {

/// What the engine has recorded of one user in one market.
#[derive(Clone, Copy, Debug, PartialEq, Eq)]
pub struct UserInfo {
    pub user: Address,
    /// YES tokens bought and not sold back.
    pub yes_balance: u64,
    /// NO tokens bought and not sold back.
    pub no_balance: u64,
    /// The user funds the market.
    pub is_lp: bool,
    pub is_initialized: bool,
}

/// One line of the liquidity ledger.
#[derive(Clone, Copy, Debug, PartialEq, Eq)]
pub struct LpInfo {
    pub user: Address,
    /// The user's claim, in the units in which contributions are counted.
    pub sol_amount: u64,
}

/// One market of two outcomes.
#[derive(Clone, Debug, PartialEq, Eq)]
pub struct Market {
    pub yes_token_mint: Address,
    pub no_token_mint: Address,
    pub creator: Address,
    pub initial_yes_token_reserves: u64,
    pub real_yes_token_reserves: u64,
    pub real_yes_sol_reserves: u64,
    pub token_yes_total_supply: u64,
    pub initial_no_token_reserves: u64,
    pub real_no_token_reserves: u64,
    pub real_no_sol_reserves: u64,
    pub token_no_total_supply: u64,
    /// Set once the outcome is known: trading is over for good.
    pub is_completed: bool,
    pub start_slot: Option<u64>,
    pub ending_slot: Option<u64>,
    pub lps: Vec<LpInfo>,
    pub total_lp_amount: u64,
}

/// What a sell does to the token reserves, and what it pays.
#[derive(Clone, Copy, Debug, PartialEq, Eq)]
pub struct SellResult {
    /// The tokens handed in.
    pub token_amount: u64,
    /// The base currency that the curve gives for them, before fees.
    pub change_amount: u64,
    pub current_yes_reserves: u64,
    pub current_no_reserves: u64,
    pub new_yes_reserves: u64,
    pub new_no_reserves: u64,
}

/// What a buy does to the token reserves, and what it yields.
#[derive(Clone, Copy, Debug, PartialEq, Eq)]
pub struct BuyResult {
    /// The tokens handed out.
    pub token_amount: u64,
    /// The base currency that goes into the curve, after fees.
    pub change_amount: u64,
    pub current_yes_reserves: u64,
    pub current_no_reserves: u64,
    pub new_yes_reserves: u64,
    pub new_no_reserves: u64,
}

/// What a new market is created with.
#[derive(Clone, Debug, PartialEq, Eq)]
pub struct CreateMarketParams {
    pub yes_symbol: String,
    pub yes_uri: String,
    pub start_slot: Option<u64>,
    pub ending_slot: Option<u64>,
}

/// What a trade moves.
#[derive(Clone, Copy, Debug, PartialEq, Eq)]
pub struct TradeAmounts {
    /// The base currency of the trade before fees: what a buyer pays in all,
    /// or what the curve gives for a seller's tokens.
    pub sol_amount: u64,
    /// The tokens that the buyer receives or the seller hands in.
    pub token_amount: u64,
    /// The part of the fee that goes to the team wallet.
    pub platform_fee: u64,
    /// The part of the fee that stays in the side's base currency.
    pub lp_fee: u64,
}

/// What a change of liquidity moves.
#[derive(Clone, Copy, Debug, PartialEq, Eq)]
pub struct LiquidityAmounts {
    /// The base currency that joins or leaves the YES side.
    pub yes_sol: u64,
    /// The base currency that joins or leaves the NO side.
    pub no_sol: u64,
    /// The YES tokens that leave the side's reserve to be burnt.
    pub yes_tokens: u64,
    /// The NO tokens that leave the side's reserve to be burnt.
    pub no_tokens: u64,
}

/// A market and a user's record after a change of liquidity, with what it
/// moved.
pub struct LiquidityEffect {
    pub market: MarketView,
    pub user_info: UserInfo,
    pub amounts: LiquidityAmounts,
}

/// A market and a user's record after the user was paid out.
pub struct SettlementEffect {
    pub market: MarketView,
    pub user_info: UserInfo,
    pub payout: u64,
}

/// A market and a user's record after a trade, with what the trade moved.
pub struct TradeEffect {
    pub market: MarketView,
    pub user_info: UserInfo,
    pub amounts: TradeAmounts,
}

/// The fee at `rate` basis points on `amount`, rounded down.
pub open spec fn fee_of(rate: nat, amount: nat) -> nat {
    mul_div(amount, rate, BPS_DENOMINATOR as nat)
}

impl UserInfo {
    /// The record as an operation finds it: a record that was never written
    /// starts as the empty record of `user`.
    pub open spec fn opened(self, user: Address) -> UserInfo {
        if self.is_initialized {
            self
        } else {
            UserInfo { user, yes_balance: 0, no_balance: 0, is_lp: false, is_initialized: true }
        }
    }

    /// Starts the record of `user` unless it has been started before.
    pub fn open(&mut self, user: Address)
        ensures
            *final(self) == old(self).opened(user),
    {
        if !self.is_initialized {
            self.user = user;
            self.yes_balance = 0;
            self.no_balance = 0;
            self.is_lp = false;
            self.is_initialized = true;
        }
    }

    /// The recorded holding of the side that `token_type` selects.
    pub open spec fn balance(self, token_type: u8) -> u64 {
        if token_type == TOKEN_TYPE_YES {
            self.yes_balance
        } else {
            self.no_balance
        }
    }

    /// The record with the holding of one side replaced.
    pub open spec fn with_balance(self, token_type: u8, balance: u64) -> UserInfo {
        if token_type == TOKEN_TYPE_YES {
            UserInfo { yes_balance: balance, ..self }
        } else {
            UserInfo { no_balance: balance, ..self }
        }
    }

    /// The recorded holding of the side that `token_type` selects.
    pub fn balance_of(&self, token_type: u8) -> (r: u64)
        ensures
            r == self.balance(token_type),
    {
        if token_type == TOKEN_TYPE_YES {
            self.yes_balance
        } else {
            self.no_balance
        }
    }

    /// Rewrites the recorded holding of one side.
    pub fn set_balance(&mut self, token_type: u8, balance: u64)
        ensures
            *final(self) == old(self).with_balance(token_type, balance),
    {
        if token_type == TOKEN_TYPE_YES {
            self.yes_balance = balance;
        } else {
            self.no_balance = balance;
        }
    }
}

/// One side of a market as numbers: the curve of one outcome.
pub struct Curve {
    pub initial_token_reserves: nat,
    pub real_token_reserves: nat,
    pub real_sol_reserves: nat,
    pub token_total_supply: nat,
}

/// A market as a mathematical value: its two curves, its window and its ledger.
pub struct MarketView {
    pub yes_token_mint: Address,
    pub no_token_mint: Address,
    pub creator: Address,
    pub yes: Curve,
    pub no: Curve,
    pub is_completed: bool,
    pub start_slot: Option<u64>,
    pub ending_slot: Option<u64>,
    pub lps: Seq<LpInfo>,
    pub total_lp_amount: nat,
}

impl View for Market {
    type V = MarketView;

    open spec fn view(&self) -> MarketView {
        MarketView {
            yes_token_mint: self.yes_token_mint,
            no_token_mint: self.no_token_mint,
            creator: self.creator,
            yes: Curve {
                initial_token_reserves: self.initial_yes_token_reserves as nat,
                real_token_reserves: self.real_yes_token_reserves as nat,
                real_sol_reserves: self.real_yes_sol_reserves as nat,
                token_total_supply: self.token_yes_total_supply as nat,
            },
            no: Curve {
                initial_token_reserves: self.initial_no_token_reserves as nat,
                real_token_reserves: self.real_no_token_reserves as nat,
                real_sol_reserves: self.real_no_sol_reserves as nat,
                token_total_supply: self.token_no_total_supply as nat,
            },
            is_completed: self.is_completed,
            start_slot: self.start_slot,
            ending_slot: self.ending_slot,
            lps: self.lps@,
            total_lp_amount: self.total_lp_amount as nat,
        }
    }
}

/// `token_type` names one of the two sides.
pub open spec fn valid_token_type(token_type: u8) -> bool {
    token_type == TOKEN_TYPE_NO || token_type == TOKEN_TYPE_YES
}

/// `direction` names a buy or a sell.
pub open spec fn valid_direction(direction: u8) -> bool {
    direction == DIRECTION_BUY || direction == DIRECTION_SELL
}

impl Curve {
    /// Every number of the curve fits in 64 bits.
    pub open spec fn representable(self) -> bool {
        &&& self.initial_token_reserves <= u64::MAX
        &&& self.real_token_reserves <= u64::MAX
        &&& self.real_sol_reserves <= u64::MAX
        &&& self.token_total_supply <= u64::MAX
    }
}

/// The view of a market is representable.
pub proof fn lemma_view_is_representable(market: Market)
    ensures
        market@.representable(),
{
}

impl MarketView {
    /// The value is the view of some market: every number in it fits in 64
    /// bits.
    pub open spec fn representable(self) -> bool {
        &&& self.yes.representable()
        &&& self.no.representable()
        &&& self.total_lp_amount <= u64::MAX
    }

    /// The curve that `token_type` selects.
    pub open spec fn side(self, token_type: u8) -> Curve {
        if token_type == TOKEN_TYPE_YES {
            self.yes
        } else {
            self.no
        }
    }

    /// The market with the curve that `token_type` selects replaced; the
    /// other curve and everything else stay.
    pub open spec fn with_side(self, token_type: u8, curve: Curve) -> MarketView {
        if token_type == TOKEN_TYPE_YES {
            MarketView { yes: curve, ..self }
        } else {
            MarketView { no: curve, ..self }
        }
    }

    /// The base currency that a side is priced with.
    pub open spec fn depth(self, config: Config, token_type: u8) -> nat {
        effective_sol(config.min_sol_liquidity as nat, self.side(token_type).real_sol_reserves)
    }

    /// The product of the reserves of a side.
    pub open spec fn product(self, config: Config, token_type: u8) -> nat {
        curve_product(self.depth(config, token_type), self.side(token_type).real_token_reserves)
    }

    /// A buy of `sol_amount` can be solved on the side.
    pub open spec fn buy_defined(self, config: Config, sol_amount: nat, token_type: u8) -> bool {
        &&& valid_token_type(token_type)
        &&& 0 < self.depth(config, token_type) + sol_amount <= u64::MAX
    }

    /// The tokens that `sol_amount` buys on the side.
    pub open spec fn tokens_for_buy(self, config: Config, sol_amount: nat, token_type: u8) -> nat {
        curve_out(
            self.depth(config, token_type),
            self.side(token_type).real_token_reserves,
            sol_amount,
        )
    }

    /// The market once `sol_amount` has bought on the side, fees left aside.
    pub open spec fn after_buy(self, config: Config, sol_amount: nat, token_type: u8) -> MarketView {
        let side = self.side(token_type);
        self.with_side(
            token_type,
            Curve {
                real_sol_reserves: side.real_sol_reserves + sol_amount,
                real_token_reserves: (side.real_token_reserves - self.tokens_for_buy(
                    config,
                    sol_amount,
                    token_type,
                )) as nat,
                ..side
            },
        )
    }

    /// A sell of `token_amount` can be solved on the side.
    pub open spec fn sell_defined(self, config: Config, token_amount: nat, token_type: u8) -> bool {
        &&& valid_token_type(token_type)
        &&& self.depth(config, token_type) <= u64::MAX
        &&& 0 < self.side(token_type).real_token_reserves + token_amount <= u64::MAX
    }

    /// The base currency that the curve gives for `token_amount` on the side,
    /// before fees.
    pub open spec fn sol_for_sell(self, config: Config, token_amount: nat, token_type: u8) -> nat {
        curve_out(
            self.side(token_type).real_token_reserves,
            self.depth(config, token_type),
            token_amount,
        )
    }

    /// The market once `token_amount` has been sold on the side, fees left
    /// aside.
    pub open spec fn after_sell(self, config: Config, token_amount: nat, token_type: u8) -> MarketView {
        let side = self.side(token_type);
        self.with_side(
            token_type,
            Curve {
                real_sol_reserves: (side.real_sol_reserves - self.sol_for_sell(
                    config,
                    token_amount,
                    token_type,
                )) as nat,
                real_token_reserves: side.real_token_reserves + token_amount,
                ..side
            },
        )
    }
}

impl MarketView {
    /// The quote for a buy of `sol_amount` on the side, `None` where it
    /// cannot be solved.
    pub open spec fn buy_quote(self, config: Config, sol_amount: u64, token_type: u8) -> Option<
        BuyResult,
    > {
        if self.buy_defined(config, sol_amount as nat, token_type) {
            let after = self.after_buy(config, sol_amount as nat, token_type);
            Some(
                BuyResult {
                    token_amount: self.tokens_for_buy(config, sol_amount as nat, token_type) as u64,
                    change_amount: sol_amount,
                    current_yes_reserves: self.yes.real_token_reserves as u64,
                    current_no_reserves: self.no.real_token_reserves as u64,
                    new_yes_reserves: after.yes.real_token_reserves as u64,
                    new_no_reserves: after.no.real_token_reserves as u64,
                },
            )
        } else {
            None
        }
    }

    /// The quote for a sell of `token_amount` on the side, `None` where it
    /// cannot be solved.
    pub open spec fn sell_quote(self, config: Config, token_amount: u64, token_type: u8) -> Option<
        SellResult,
    > {
        if self.sell_defined(config, token_amount as nat, token_type) {
            let after = self.after_sell(config, token_amount as nat, token_type);
            Some(
                SellResult {
                    token_amount,
                    change_amount: self.sol_for_sell(config, token_amount as nat, token_type) as u64,
                    current_yes_reserves: self.yes.real_token_reserves as u64,
                    current_no_reserves: self.no.real_token_reserves as u64,
                    new_yes_reserves: after.yes.real_token_reserves as u64,
                    new_no_reserves: after.no.real_token_reserves as u64,
                },
            )
        } else {
            None
        }
    }

    /// A sell of `token_amount` can be solved on the side and paid out of
    /// what the side really holds.
    pub open spec fn sell_payable(self, config: Config, token_amount: nat, token_type: u8) -> bool {
        &&& self.sell_defined(config, token_amount, token_type)
        &&& self.sol_for_sell(config, token_amount, token_type) <= self.side(
            token_type,
        ).real_sol_reserves
    }
}

impl MarketView {
    /// Why no trade is taken at `slot`, if none is: the window has closed
    /// (`InvalidEndTime`), the market is completed (`CurveAlreadyCompleted`),
    /// or the window has not opened yet (`IncorrectLaunchPhase`).
    pub open spec fn window_refusal(self, slot: u64) -> Option<PredictionMarketError> {
        if self.ending_slot is Some && slot >= self.ending_slot->0 {
            Some(PredictionMarketError::InvalidEndTime)
        } else if self.is_completed {
            Some(PredictionMarketError::CurveAlreadyCompleted)
        } else if self.start_slot is Some && slot < self.start_slot->0 {
            Some(PredictionMarketError::IncorrectLaunchPhase)
        } else {
            None
        }
    }

    /// What a buy for `amount` of base currency does. The fee, at the sum of
    /// the two buy rates, is taken off `amount`; the rest buys tokens on the
    /// curve; the liquidity providers' part of the fee then joins the side's
    /// base currency.
    pub open spec fn buy(
        self,
        config: Config,
        user_info: UserInfo,
        amount: u64,
        token_type: u8,
        minimum_receive_amount: u64,
    ) -> Result<TradeEffect, PredictionMarketError> {
        let side = self.side(token_type);
        let rate = config.platform_buy_fee + config.lp_buy_fee;
        let fee = fee_of(rate as nat, amount as nat);
        let platform_fee = fee_of(config.platform_buy_fee as nat, amount as nat);
        let lp_fee = (fee - platform_fee) as nat;
        let net_in = (amount - fee) as nat;
        let token_out = self.tokens_for_buy(config, net_in, token_type);
        if side.real_token_reserves == 0 {
            Err(PredictionMarketError::CurveAlreadyCompleted)
        } else if rate > u64::MAX || fee > amount {
            Err(PredictionMarketError::OverflowOrUnderflowOccurred)
        } else if !self.buy_defined(config, net_in, token_type) || side.real_sol_reserves + net_in
            + lp_fee > u64::MAX {
            Err(PredictionMarketError::OverflowOrUnderflowOccurred)
        } else if token_out > side.real_token_reserves {
            Err(PredictionMarketError::InsufficientTokens)
        } else if token_out < minimum_receive_amount {
            Err(PredictionMarketError::ReturnAmountTooSmall)
        } else if user_info.balance(token_type) + token_out > u64::MAX {
            Err(PredictionMarketError::OverflowOrUnderflowOccurred)
        } else {
            Ok(
                TradeEffect {
                    market: self.with_side(
                        token_type,
                        Curve {
                            real_sol_reserves: side.real_sol_reserves + net_in + lp_fee,
                            real_token_reserves: (side.real_token_reserves - token_out) as nat,
                            ..side
                        },
                    ),
                    user_info: user_info.with_balance(
                        token_type,
                        (user_info.balance(token_type) + token_out) as u64,
                    ),
                    amounts: TradeAmounts {
                        sol_amount: amount,
                        token_amount: token_out as u64,
                        platform_fee: platform_fee as u64,
                        lp_fee: lp_fee as u64,
                    },
                },
            )
        }
    }

    /// What a sell of `amount` tokens does. The curve gives base currency for
    /// the tokens; the fee, at the sum of the two sell rates, is taken off
    /// what the curve gives; the liquidity providers' part of it stays in the
    /// side, the rest leaves it.
    pub open spec fn sell(
        self,
        config: Config,
        user_info: UserInfo,
        amount: u64,
        token_type: u8,
        minimum_receive_amount: u64,
    ) -> Result<TradeEffect, PredictionMarketError> {
        let side = self.side(token_type);
        let gross = self.sol_for_sell(config, amount as nat, token_type);
        let rate = config.platform_sell_fee + config.lp_sell_fee;
        let fee = fee_of(rate as nat, gross);
        let platform_fee = fee_of(config.platform_sell_fee as nat, gross);
        let lp_fee = (fee - platform_fee) as nat;
        let net_out = (gross - fee) as nat;
        let leaving = (gross - lp_fee) as nat;
        if user_info.balance(token_type) < amount {
            Err(PredictionMarketError::InsufficientTokens)
        } else if !self.sell_defined(config, amount as nat, token_type) {
            Err(PredictionMarketError::OverflowOrUnderflowOccurred)
        } else if rate > u64::MAX || fee > gross {
            Err(PredictionMarketError::OverflowOrUnderflowOccurred)
        } else if net_out < minimum_receive_amount {
            Err(PredictionMarketError::InsufficientSol)
        } else if side.real_sol_reserves < leaving {
            Err(PredictionMarketError::InsufficientSol)
        } else {
            Ok(
                TradeEffect {
                    market: self.with_side(
                        token_type,
                        Curve {
                            real_sol_reserves: (side.real_sol_reserves - leaving) as nat,
                            real_token_reserves: side.real_token_reserves + (amount as nat),
                            ..side
                        },
                    ),
                    user_info: user_info.with_balance(
                        token_type,
                        (user_info.balance(token_type) - amount) as u64,
                    ),
                    amounts: TradeAmounts {
                        sol_amount: gross as u64,
                        token_amount: amount,
                        platform_fee: platform_fee as u64,
                        lp_fee: lp_fee as u64,
                    },
                },
            )
        }
    }

    /// What a trade at `slot` does, or why it is refused. The window and the
    /// completion of the market are looked at first, then the request: a zero
    /// `amount` is `InvalidAmount`, a `direction` or `token_type` that names
    /// nothing is `InvalidParameter`.
    pub open spec fn trade(
        self,
        config: Config,
        user_info: UserInfo,
        amount: u64,
        direction: u8,
        token_type: u8,
        minimum_receive_amount: u64,
        slot: u64,
    ) -> Result<TradeEffect, PredictionMarketError> {
        if self.window_refusal(slot) is Some {
            Err(self.window_refusal(slot)->0)
        } else if amount == 0 {
            Err(PredictionMarketError::InvalidAmount)
        } else if !valid_direction(direction) || !valid_token_type(token_type) {
            Err(PredictionMarketError::InvalidParameter)
        } else if direction == DIRECTION_BUY {
            self.buy(config, user_info, amount, token_type, minimum_receive_amount)
        } else {
            self.sell(config, user_info, amount, token_type, minimum_receive_amount)
        }
    }
}

/// `user` has a line in the ledger.
pub open spec fn has_position(lps: Seq<LpInfo>, user: Address) -> bool {
    exists|i: int| 0 <= i < lps.len() && (#[trigger] lps[i]).user == user
}

/// Line `i` of the ledger is the first one of `user`.
pub open spec fn is_first_position(lps: Seq<LpInfo>, user: Address, i: int) -> bool {
    &&& 0 <= i < lps.len()
    &&& lps[i].user == user
    &&& forall|j: int| 0 <= j < i ==> (#[trigger] lps[j]).user != user
}

/// The first line of `user` in the ledger, where there is one.
pub open spec fn position_of(lps: Seq<LpInfo>, user: Address) -> int {
    choose|i: int| is_first_position(lps, user, i)
}

/// A user's first line is one line only.
pub proof fn lemma_first_position_is_unique(lps: Seq<LpInfo>, user: Address, i: int)
    requires
        is_first_position(lps, user, i),
    ensures
        has_position(lps, user),
        position_of(lps, user) == i,
{
    let j = position_of(lps, user);
    assert(is_first_position(lps, user, j));
    if j < i {
        assert(lps[j].user != user);
    }
    if i < j {
        assert(lps[i].user != user);
    }
}

/// A user with a line has a first line.
pub proof fn lemma_position_exists(lps: Seq<LpInfo>, user: Address, k: int)
    requires
        0 <= k < lps.len(),
        lps[k].user == user,
    ensures
        has_position(lps, user),
        is_first_position(lps, user, position_of(lps, user)),
        position_of(lps, user) <= k,
    decreases k,
{
    if forall|j: int| 0 <= j < k ==> (#[trigger] lps[j]).user != user {
        lemma_first_position_is_unique(lps, user, k);
    } else {
        let j = choose|j: int| 0 <= j < k && (#[trigger] lps[j]).user == user;
        lemma_position_exists(lps, user, j);
    }
}

/// The first line of `user` in the ledger, if there is any.
pub fn find_position(lps: &Vec<LpInfo>, user: Address) -> (r: Option<usize>)
    ensures
        r is Some <==> has_position(lps@, user),
        r is Some ==> r->0 == position_of(lps@, user) && is_first_position(
            lps@,
            user,
            r->0 as int,
        ),
{
    let mut i: usize = 0;
    while i < lps.len()
        invariant
            i <= lps.len(),
            forall|j: int| 0 <= j < i ==> (#[trigger] lps@[j]).user != user,
        decreases lps.len() - i,
    {
        if lps[i].user == user {
            proof {
                lemma_first_position_is_unique(lps@, user, i as int);
            }
            return Some(i);
        }
        i += 1;
    }
    None
}

/// The sum of the claims in the ledger.
pub open spec fn ledger_total(lps: Seq<LpInfo>) -> nat
    decreases lps.len(),
{
    if lps.len() == 0 {
        0
    } else {
        ledger_total(lps.drop_last()) + (lps.last().sol_amount as nat)
    }
}

/// The ledger with `amount` more for `user`: on the user's line if there is
/// one, else on a new line at the end.
pub open spec fn ledger_with_added(lps: Seq<LpInfo>, user: Address, amount: u64) -> Seq<LpInfo> {
    if has_position(lps, user) {
        let i = position_of(lps, user);
        lps.update(i, LpInfo { user, sol_amount: (lps[i].sol_amount + amount) as u64 })
    } else {
        lps.push(LpInfo { user, sol_amount: amount })
    }
}

/// The ledger with `units` less on line `i`; a line that comes down to
/// nothing is struck out.
pub open spec fn ledger_with_removed(lps: Seq<LpInfo>, i: int, units: nat) -> Seq<LpInfo> {
    if lps[i].sol_amount == units {
        lps.remove(i)
    } else {
        lps.update(i, LpInfo { user: lps[i].user, sol_amount: (lps[i].sol_amount - units) as u64 })
    }
}

/// What a withdrawal takes out of a token reserve so that the price of the
/// side stays where it is: the share of the tokens that the base currency
/// withdrawn is of the side's effective base currency, rounded up.
pub open spec fn tokens_to_burn(depth: nat, tokens: nat, sol_out: nat) -> nat {
    if sol_out == 0 {
        0
    } else {
        mul_div_ceil(tokens, sol_out, depth)
    }
}

impl MarketView {
    /// The base currency that the two sides really hold.
    pub open spec fn pool_value(self) -> nat {
        self.yes.real_sol_reserves + self.no.real_sol_reserves
    }

    /// The part of a contribution of `amount` that goes to the YES side: in
    /// proportion to what the sides hold, and half of it while they hold
    /// nothing. The NO side gets the rest.
    pub open spec fn yes_share_of_added(self, amount: nat) -> nat {
        if self.pool_value() == 0 {
            amount / 2
        } else {
            mul_div(amount, self.yes.real_sol_reserves, self.pool_value())
        }
    }

    /// What adding `amount` of liquidity for `user` does.
    pub open spec fn liquidity_added(self, user: Address, user_info: UserInfo, amount: u64) -> Result<
        LiquidityEffect,
        PredictionMarketError,
    > {
        let yes_part = self.yes_share_of_added(amount as nat);
        let no_part = (amount - yes_part) as nat;
        if self.is_completed {
            Err(PredictionMarketError::MarketIsCompleted)
        } else if amount == 0 {
            Err(PredictionMarketError::InvalidAmount)
        } else if self.yes.real_sol_reserves + yes_part > u64::MAX || self.no.real_sol_reserves
            + no_part > u64::MAX || self.total_lp_amount + amount > u64::MAX || (has_position(
            self.lps,
            user,
        ) && self.lps[position_of(self.lps, user)].sol_amount + amount > u64::MAX) {
            Err(PredictionMarketError::OverflowOrUnderflowOccurred)
        } else {
            Ok(
                LiquidityEffect {
                    market: MarketView {
                        yes: Curve {
                            real_sol_reserves: self.yes.real_sol_reserves + yes_part,
                            ..self.yes
                        },
                        no: Curve {
                            real_sol_reserves: self.no.real_sol_reserves + no_part,
                            ..self.no
                        },
                        lps: ledger_with_added(self.lps, user, amount),
                        total_lp_amount: self.total_lp_amount + (amount as nat),
                        ..self
                    },
                    user_info: UserInfo { is_lp: true, ..user_info },
                    amounts: LiquidityAmounts {
                        yes_sol: yes_part as u64,
                        no_sol: no_part as u64,
                        yes_tokens: 0,
                        no_tokens: 0,
                    },
                },
            )
        }
    }

    /// The most that `user` may withdraw: the share of the pool that the
    /// user's claim is of all claims, and never more than the pool.
    pub open spec fn entitlement(self, user: Address) -> nat {
        if !has_position(self.lps, user) || self.total_lp_amount == 0 {
            0
        } else {
            let share = mul_div(
                self.lps[position_of(self.lps, user)].sol_amount as nat,
                self.pool_value(),
                self.total_lp_amount,
            );
            if share < self.pool_value() {
                share
            } else {
                self.pool_value()
            }
        }
    }

    /// The claim that a withdrawal of `amount` uses up: the share of all
    /// claims that `amount` is of the pool, rounded up.
    pub open spec fn claim_used(self, amount: nat) -> nat {
        mul_div_ceil(amount, self.total_lp_amount, self.pool_value())
    }

    /// What a withdrawal of `amount` of liquidity by `user` does.
    pub open spec fn liquidity_withdrawn(
        self,
        config: Config,
        user: Address,
        user_info: UserInfo,
        amount: u64,
    ) -> Result<LiquidityEffect, PredictionMarketError> {
        let i = position_of(self.lps, user);
        let yes_part = mul_div(amount as nat, self.yes.real_sol_reserves, self.pool_value());
        let no_part = (amount - yes_part) as nat;
        let units = self.claim_used(amount as nat);
        let yes_tokens = tokens_to_burn(
            self.depth(config, TOKEN_TYPE_YES),
            self.yes.real_token_reserves,
            yes_part,
        );
        let no_tokens = tokens_to_burn(
            self.depth(config, TOKEN_TYPE_NO),
            self.no.real_token_reserves,
            no_part,
        );
        if self.is_completed {
            Err(PredictionMarketError::MarketIsCompleted)
        } else if !has_position(self.lps, user) {
            Err(PredictionMarketError::WITHDRAWNOTLPERROR)
        } else if amount == 0 {
            Err(PredictionMarketError::InvalidAmount)
        } else if self.pool_value() > u64::MAX {
            Err(PredictionMarketError::OverflowOrUnderflowOccurred)
        } else if amount > self.entitlement(user) {
            Err(PredictionMarketError::WITHDRAWLIQUIDITYSOLAMOUNTERROR)
        } else if units > self.total_lp_amount {
            Err(PredictionMarketError::OverflowOrUnderflowOccurred)
        } else {
            Ok(
                LiquidityEffect {
                    market: MarketView {
                        yes: Curve {
                            real_sol_reserves: (self.yes.real_sol_reserves - yes_part) as nat,
                            real_token_reserves: (self.yes.real_token_reserves - yes_tokens) as nat,
                            ..self.yes
                        },
                        no: Curve {
                            real_sol_reserves: (self.no.real_sol_reserves - no_part) as nat,
                            real_token_reserves: (self.no.real_token_reserves - no_tokens) as nat,
                            ..self.no
                        },
                        lps: ledger_with_removed(self.lps, i, units),
                        total_lp_amount: (self.total_lp_amount - units) as nat,
                        ..self
                    },
                    user_info: UserInfo { is_lp: self.lps[i].sol_amount != units, ..user_info },
                    amounts: LiquidityAmounts {
                        yes_sol: yes_part as u64,
                        no_sol: no_part as u64,
                        yes_tokens: yes_tokens as u64,
                        no_tokens: no_tokens as u64,
                    },
                },
            )
        }
    }

    /// What paying out a user does, once the market is completed with the
    /// side `token_type` as the winner: the user's holding of that side is
    /// paid one for one out of what the side really holds, and both holdings
    /// are struck off the record.
    pub open spec fn settled(self, user_info: UserInfo, token_type: u8) -> Result<
        SettlementEffect,
        PredictionMarketError,
    > {
        let side = self.side(token_type);
        let won = user_info.balance(token_type);
        if !self.is_completed {
            Err(PredictionMarketError::MarketNotCompleted)
        } else if !valid_token_type(token_type) {
            Err(PredictionMarketError::RESOLUTIONTOKEYTYPEERROR)
        } else if won > side.real_sol_reserves {
            Err(PredictionMarketError::InsufficientSol)
        } else {
            Ok(
                SettlementEffect {
                    market: self.with_side(
                        token_type,
                        Curve {
                            real_sol_reserves: (side.real_sol_reserves - won) as nat,
                            ..side
                        },
                    ),
                    user_info: UserInfo { yes_balance: 0, no_balance: 0, ..user_info },
                    payout: won,
                },
            )
        }
    }
}

/// A split of `amount` in proportion to two holdings takes from neither more
/// than it holds, as long as `amount` is no more than both together.
pub proof fn lemma_split_within(amount: nat, yes: nat, no: nat)
    requires
        amount <= yes + no,
        yes + no > 0,
    ensures
        mul_div(amount, yes, yes + no) <= yes,
        mul_div(amount, yes, yes + no) <= amount,
        amount - mul_div(amount, yes, yes + no) <= no,
{
    let pool = yes + no;
    let part = mul_div(amount, yes, pool);
    lemma_mul_div_bounds(amount, yes, pool);
    lemma_mul_div_within(amount, yes, pool);
    assert(part <= yes && amount - part <= no) by (nonlinear_arith)
        requires
            part * pool <= amount * yes < (part + 1) * pool,
            pool == yes + no,
            amount <= pool,
            pool > 0,
            part >= 0,
    {
        if part > yes {
            assert(part * pool >= (yes + 1) * pool);
            assert((yes + 1) * pool == yes * pool + pool);
            assert(amount * yes <= pool * yes);
            assert(pool * yes == yes * pool);
        }
        if amount - part > no {
            // part + 1 <= amount - no
            assert((part + 1) * pool <= (amount - no) * pool);
            assert((amount - no) * pool == amount * yes + no * (amount - pool)) by {
                assert((amount - no) * (yes + no) == amount * yes + amount * no - no * yes - no
                    * no);
                assert(no * (amount - (yes + no)) == no * amount - no * yes - no * no);
                assert(amount * no == no * amount);
            }
            assert(no * (amount - pool) <= 0);
        }
    }
}

/// The operations of a market.
pub trait MarketAccount: View<V = MarketView> + Sized {
    /// Takes one trade as `MarketView::trade` describes it. For a buy,
    /// `amount` is the base currency paid, fee included, and
    /// `minimum_receive_amount` the fewest tokens the buyer accepts; for a
    /// sell, `amount` is the tokens handed in and `minimum_receive_amount`
    /// the least base currency, after fees, the seller accepts. Only the side
    /// traded changes. On refusal nothing changes.
    fn swap(
        &mut self,
        global_config: &Config,
        amount: u64,
        direction: u8,
        token_type: u8,
        minimum_receive_amount: u64,
        slot: u64,
        user_info: &mut UserInfo,
    ) -> (r: Result<TradeAmounts, PredictionMarketError>)
        ensures
            r is Ok <==> old(self)@.trade(
                *global_config,
                *old(user_info),
                amount,
                direction,
                token_type,
                minimum_receive_amount,
                slot,
            ) is Ok,
            r is Ok ==> (TradeEffect {
                market: final(self)@,
                user_info: *final(user_info),
                amounts: r->Ok_0,
            }) == old(self)@.trade(
                *global_config,
                *old(user_info),
                amount,
                direction,
                token_type,
                minimum_receive_amount,
                slot,
            )->Ok_0,
            r is Err ==> r->Err_0 == old(self)@.trade(
                *global_config,
                *old(user_info),
                amount,
                direction,
                token_type,
                minimum_receive_amount,
                slot,
            )->Err_0,
            r is Err ==> *final(self) == *old(self) && *final(user_info) == *old(user_info),
            r is Ok ==> r->Ok_0.platform_fee + r->Ok_0.lp_fee <= r->Ok_0.sol_amount,
    ;

    /// Pays the user out as `MarketView::settled` describes it and returns
    /// what is paid. The market must be completed (`MarketNotCompleted`),
    /// `token_type` must name the winning side (`RESOLUTIONTOKEYTYPEERROR`),
    /// and that side must hold what is paid (`InsufficientSol`). A user who
    /// was paid out before is paid nothing more. On refusal nothing changes.
    fn resolution(&mut self, user_info: &mut UserInfo, token_type: u8) -> (r: Result<
        u64,
        PredictionMarketError,
    >)
        ensures
            r is Ok <==> old(self)@.settled(*old(user_info), token_type) is Ok,
            r is Ok ==> (SettlementEffect {
                market: final(self)@,
                user_info: *final(user_info),
                payout: r->Ok_0,
            }) == old(self)@.settled(*old(user_info), token_type)->Ok_0,
            r is Err ==> r->Err_0 == old(self)@.settled(*old(user_info), token_type)->Err_0,
            r is Err ==> *final(self) == *old(self) && *final(user_info) == *old(user_info),
    ;

    /// Adds liquidity as `MarketView::liquidity_added` describes it: the
    /// contribution is split over the two sides, the user's claim and the sum
    /// of all claims grow by it, and the user is marked as a provider. A
    /// completed market takes none (`MarketIsCompleted`), nor a contribution
    /// of zero (`InvalidAmount`). On refusal nothing changes.
    fn add_liquidity(&mut self, user: Address, sol_amount: u64, user_info: &mut UserInfo) -> (r:
        Result<LiquidityAmounts, PredictionMarketError>)
        ensures
            r is Ok <==> old(self)@.liquidity_added(user, *old(user_info), sol_amount) is Ok,
            r is Ok ==> (LiquidityEffect {
                market: final(self)@,
                user_info: *final(user_info),
                amounts: r->Ok_0,
            }) == old(self)@.liquidity_added(user, *old(user_info), sol_amount)->Ok_0,
            r is Err ==> r->Err_0 == old(self)@.liquidity_added(
                user,
                *old(user_info),
                sol_amount,
            )->Err_0,
            r is Err ==> *final(self) == *old(self) && *final(user_info) == *old(user_info),
    ;

    /// Withdraws liquidity as `MarketView::liquidity_withdrawn` describes it.
    /// The user may take up to the share of the pool that the user's claim is
    /// of all claims; the base currency leaves the two sides in proportion to
    /// what they hold, and each side gives up tokens in the proportion in
    /// which its effective base currency shrinks, so that its price stays.
    /// Refused on a completed market (`MarketIsCompleted`), for a user
    /// without a claim (`WITHDRAWNOTLPERROR`), for nothing (`InvalidAmount`)
    /// and for more than the user's share
    /// (`WITHDRAWLIQUIDITYSOLAMOUNTERROR`). On refusal nothing changes.
    fn withdraw_liquidity(
        &mut self,
        global_config: &Config,
        user: Address,
        sol_amount: u64,
        user_info: &mut UserInfo,
    ) -> (r: Result<LiquidityAmounts, PredictionMarketError>)
        ensures
            r is Ok <==> old(self)@.liquidity_withdrawn(
                *global_config,
                user,
                *old(user_info),
                sol_amount,
            ) is Ok,
            r is Ok ==> (LiquidityEffect {
                market: final(self)@,
                user_info: *final(user_info),
                amounts: r->Ok_0,
            }) == old(self)@.liquidity_withdrawn(
                *global_config,
                user,
                *old(user_info),
                sol_amount,
            )->Ok_0,
            r is Err ==> r->Err_0 == old(self)@.liquidity_withdrawn(
                *global_config,
                user,
                *old(user_info),
                sol_amount,
            )->Err_0,
            r is Err ==> *final(self) == *old(self) && *final(user_info) == *old(user_info),
    ;

    /// Applies the quote of `get_tokens_for_buy_sol`: `sol_amount` goes into
    /// the side's base currency, the tokens it buys leave the side's token
    /// reserve. The other side is not touched. `None`, and no change, where
    /// there is no quote.
    fn apply_buy(&mut self, global_config: &Config, sol_amount: u64, token_type: u8) -> (r: Option<
        BuyResult,
    >)
        ensures
            r == old(self)@.buy_quote(*global_config, sol_amount, token_type),
            r is Some ==> final(self)@ == old(self)@.after_buy(
                *global_config,
                sol_amount as nat,
                token_type,
            ),
            r is None ==> *final(self) == *old(self),
    ;

    /// Applies the quote of `get_tokens_for_sell_sol`: `token_amount` goes
    /// into the side's token reserve, the base currency it yields leaves the
    /// side. The other side is not touched. `None`, and no change, where there
    /// is no quote or the side does not hold what the quote pays.
    fn apply_sell(&mut self, global_config: &Config, token_amount: u64, token_type: u8) -> (r:
        Option<SellResult>)
        ensures
            r is Some <==> old(self)@.sell_payable(*global_config, token_amount as nat, token_type),
            r is Some ==> r == old(self)@.sell_quote(*global_config, token_amount, token_type),
            r is Some ==> final(self)@ == old(self)@.after_sell(
                *global_config,
                token_amount as nat,
                token_type,
            ),
            r is None ==> *final(self) == *old(self),
    ;

    /// Solves a buy on the side that `token_type` selects, against the
    /// product of the side's effective base currency and its tokens. The
    /// tokens quoted never exceed what the side holds. `None` exactly when
    /// `token_type` names no side or the base currency of the side, with
    /// `sol_amount` added, is zero or exceeds 64 bits.
    fn get_tokens_for_buy_sol(
        &self,
        global_config: &Config,
        sol_amount: u64,
        token_type: u8,
    ) -> (r: Option<BuyResult>)
        ensures
            r == self@.buy_quote(*global_config, sol_amount, token_type),
            r is Some ==> r->0.token_amount <= self@.side(token_type).real_token_reserves,
            r is Some ==> r->0.token_amount == self@.tokens_for_buy(
                *global_config,
                sol_amount as nat,
                token_type,
            ),
    ;

    /// Solves a sell on the side that `token_type` selects, with the roles of
    /// tokens and base currency exchanged. `None` exactly when `token_type`
    /// names no side, the effective base currency of the side exceeds 64
    /// bits, or its tokens, with `token_amount` added, are zero or exceed 64
    /// bits.
    fn get_tokens_for_sell_sol(
        &self,
        global_config: &Config,
        token_amount: u64,
        token_type: u8,
    ) -> (r: Option<SellResult>)
        ensures
            r == self@.sell_quote(*global_config, token_amount, token_type),
            r is Some ==> r->0.change_amount <= self@.depth(*global_config, token_type),
            r is Some ==> r->0.change_amount == self@.sol_for_sell(
                *global_config,
                token_amount as nat,
                token_type,
            ),
    ;
}

impl MarketAccount for Market {
    fn swap(
        &mut self,
        global_config: &Config,
        amount: u64,
        direction: u8,
        token_type: u8,
        minimum_receive_amount: u64,
        slot: u64,
        user_info: &mut UserInfo,
    ) -> (r: Result<TradeAmounts, PredictionMarketError>)
    {
        if let Some(ending_slot) = self.ending_slot {
            if slot >= ending_slot {
                return Err(PredictionMarketError::InvalidEndTime);
            }
        }
        if self.is_completed {
            return Err(PredictionMarketError::CurveAlreadyCompleted);
        }
        if let Some(start_slot) = self.start_slot {
            if slot < start_slot {
                return Err(PredictionMarketError::IncorrectLaunchPhase);
            }
        }
        if amount == 0 {
            return Err(PredictionMarketError::InvalidAmount);
        }
        if (direction != DIRECTION_BUY && direction != DIRECTION_SELL) || (token_type
            != TOKEN_TYPE_NO && token_type != TOKEN_TYPE_YES) {
            return Err(PredictionMarketError::InvalidParameter);
        }
        let tokens = self.token_reserves(token_type);
        let sol = self.sol_reserves(token_type);
        let held = user_info.balance_of(token_type);
        if direction == DIRECTION_BUY {
            if tokens == 0 {
                return Err(PredictionMarketError::CurveAlreadyCompleted);
            }
            let rate = match global_config.platform_buy_fee.checked_add(global_config.lp_buy_fee) {
                Some(rate) => rate,
                None => {
                    return Err(PredictionMarketError::OverflowOrUnderflowOccurred);
                },
            };
            let fee = match bps_mul(rate, amount, BPS_DENOMINATOR) {
                Some(fee) => fee,
                None => {
                    return Err(PredictionMarketError::OverflowOrUnderflowOccurred);
                },
            };
            if fee > amount {
                return Err(PredictionMarketError::OverflowOrUnderflowOccurred);
            }
            proof {
                lemma_mul_div_ordered(
                    amount as nat,
                    global_config.platform_buy_fee as nat,
                    rate as nat,
                    BPS_DENOMINATOR as nat,
                );
            }
            let platform_fee = match bps_mul(
                global_config.platform_buy_fee,
                amount,
                BPS_DENOMINATOR,
            ) {
                Some(part) => part,
                None => {
                    return Err(PredictionMarketError::OverflowOrUnderflowOccurred);
                },
            };
            let lp_fee = fee - platform_fee;
            let net_in = amount - fee;
            let quoted = match self.get_tokens_for_buy_sol(global_config, net_in, token_type) {
                Some(quoted) => quoted,
                None => {
                    return Err(PredictionMarketError::OverflowOrUnderflowOccurred);
                },
            };
            let new_sol = match sol.checked_add(net_in) {
                Some(with_net) => match with_net.checked_add(lp_fee) {
                    Some(with_fee) => with_fee,
                    None => {
                        return Err(PredictionMarketError::OverflowOrUnderflowOccurred);
                    },
                },
                None => {
                    return Err(PredictionMarketError::OverflowOrUnderflowOccurred);
                },
            };
            if quoted.token_amount > tokens {
                return Err(PredictionMarketError::InsufficientTokens);
            }
            if quoted.token_amount < minimum_receive_amount {
                return Err(PredictionMarketError::ReturnAmountTooSmall);
            }
            let new_held = match held.checked_add(quoted.token_amount) {
                Some(new_held) => new_held,
                None => {
                    return Err(PredictionMarketError::OverflowOrUnderflowOccurred);
                },
            };
            self.set_reserves(token_type, tokens - quoted.token_amount, new_sol);
            user_info.set_balance(token_type, new_held);
            Ok(
                TradeAmounts {
                    sol_amount: amount,
                    token_amount: quoted.token_amount,
                    platform_fee,
                    lp_fee,
                },
            )
        } else {
            if held < amount {
                return Err(PredictionMarketError::InsufficientTokens);
            }
            let quoted = match self.get_tokens_for_sell_sol(global_config, amount, token_type) {
                Some(quoted) => quoted,
                None => {
                    return Err(PredictionMarketError::OverflowOrUnderflowOccurred);
                },
            };
            let gross = quoted.change_amount;
            let rate = match global_config.platform_sell_fee.checked_add(
                global_config.lp_sell_fee,
            ) {
                Some(rate) => rate,
                None => {
                    return Err(PredictionMarketError::OverflowOrUnderflowOccurred);
                },
            };
            let fee = match bps_mul(rate, gross, BPS_DENOMINATOR) {
                Some(fee) => fee,
                None => {
                    return Err(PredictionMarketError::OverflowOrUnderflowOccurred);
                },
            };
            if fee > gross {
                return Err(PredictionMarketError::OverflowOrUnderflowOccurred);
            }
            proof {
                lemma_mul_div_ordered(
                    gross as nat,
                    global_config.platform_sell_fee as nat,
                    rate as nat,
                    BPS_DENOMINATOR as nat,
                );
            }
            let platform_fee = match bps_mul(
                global_config.platform_sell_fee,
                gross,
                BPS_DENOMINATOR,
            ) {
                Some(part) => part,
                None => {
                    return Err(PredictionMarketError::OverflowOrUnderflowOccurred);
                },
            };
            let lp_fee = fee - platform_fee;
            let net_out = gross - fee;
            let leaving = gross - lp_fee;
            if net_out < minimum_receive_amount {
                return Err(PredictionMarketError::InsufficientSol);
            }
            if sol < leaving {
                return Err(PredictionMarketError::InsufficientSol);
            }
            self.set_reserves(token_type, tokens + amount, sol - leaving);
            user_info.set_balance(token_type, held - amount);
            Ok(TradeAmounts { sol_amount: gross, token_amount: amount, platform_fee, lp_fee })
        }
    }

    fn resolution(&mut self, user_info: &mut UserInfo, token_type: u8) -> (r: Result<
        u64,
        PredictionMarketError,
    >)
    {
        if !self.is_completed {
            return Err(PredictionMarketError::MarketNotCompleted);
        }
        if token_type != TOKEN_TYPE_NO && token_type != TOKEN_TYPE_YES {
            return Err(PredictionMarketError::RESOLUTIONTOKEYTYPEERROR);
        }
        let won = user_info.balance_of(token_type);
        let tokens = self.token_reserves(token_type);
        let sol = self.sol_reserves(token_type);
        if won > sol {
            return Err(PredictionMarketError::InsufficientSol);
        }
        self.set_reserves(token_type, tokens, sol - won);
        user_info.yes_balance = 0;
        user_info.no_balance = 0;
        Ok(won)
    }

    fn add_liquidity(&mut self, user: Address, sol_amount: u64, user_info: &mut UserInfo) -> (r:
        Result<LiquidityAmounts, PredictionMarketError>)
    {
        if self.is_completed {
            return Err(PredictionMarketError::MarketIsCompleted);
        }
        if sol_amount == 0 {
            return Err(PredictionMarketError::InvalidAmount);
        }
        let pool: u128 = (self.real_yes_sol_reserves as u128) + (self.real_no_sol_reserves as u128);
        let yes_part: u64 = if pool == 0 {
            sol_amount / 2
        } else {
            proof {
                lemma_mul_div_within(
                    sol_amount as nat,
                    self.real_yes_sol_reserves as nat,
                    pool as nat,
                );
            }
            mul_div_wide(sol_amount, self.real_yes_sol_reserves, pool) as u64
        };
        let no_part = sol_amount - yes_part;
        let new_yes = match self.real_yes_sol_reserves.checked_add(yes_part) {
            Some(v) => v,
            None => {
                return Err(PredictionMarketError::OverflowOrUnderflowOccurred);
            },
        };
        let new_no = match self.real_no_sol_reserves.checked_add(no_part) {
            Some(v) => v,
            None => {
                return Err(PredictionMarketError::OverflowOrUnderflowOccurred);
            },
        };
        let new_total = match self.total_lp_amount.checked_add(sol_amount) {
            Some(v) => v,
            None => {
                return Err(PredictionMarketError::OverflowOrUnderflowOccurred);
            },
        };
        match find_position(&self.lps, user) {
            Some(i) => {
                let claim = match self.lps[i].sol_amount.checked_add(sol_amount) {
                    Some(v) => v,
                    None => {
                        return Err(PredictionMarketError::OverflowOrUnderflowOccurred);
                    },
                };
                self.lps[i] = LpInfo { user, sol_amount: claim };
            },
            None => {
                self.lps.push(LpInfo { user, sol_amount });
            },
        }
        self.real_yes_sol_reserves = new_yes;
        self.real_no_sol_reserves = new_no;
        self.total_lp_amount = new_total;
        user_info.is_lp = true;
        Ok(LiquidityAmounts { yes_sol: yes_part, no_sol: no_part, yes_tokens: 0, no_tokens: 0 })
    }

    fn withdraw_liquidity(
        &mut self,
        global_config: &Config,
        user: Address,
        sol_amount: u64,
        user_info: &mut UserInfo,
    ) -> (r: Result<LiquidityAmounts, PredictionMarketError>)
    {
        if self.is_completed {
            return Err(PredictionMarketError::MarketIsCompleted);
        }
        let i = match find_position(&self.lps, user) {
            Some(i) => i,
            None => {
                return Err(PredictionMarketError::WITHDRAWNOTLPERROR);
            },
        };
        if sol_amount == 0 {
            return Err(PredictionMarketError::InvalidAmount);
        }
        let pool: u64 = match self.real_yes_sol_reserves.checked_add(self.real_no_sol_reserves) {
            Some(v) => v,
            None => {
                return Err(PredictionMarketError::OverflowOrUnderflowOccurred);
            },
        };
        let claim = self.lps[i].sol_amount;
        let total = self.total_lp_amount;
        let entitled: u128 = if total == 0 {
            0
        } else {
            let share = mul_div_wide(claim, pool, total as u128);
            if share < pool as u128 {
                share
            } else {
                pool as u128
            }
        };
        if sol_amount as u128 > entitled {
            return Err(PredictionMarketError::WITHDRAWLIQUIDITYSOLAMOUNTERROR);
        }
        assert(0 < sol_amount <= pool && total > 0);
        let ghost yes_real = self.real_yes_sol_reserves as nat;
        let ghost no_real = self.real_no_sol_reserves as nat;
        proof {
            lemma_split_within(sol_amount as nat, yes_real, no_real);
        }
        let yes_part = mul_div_wide(sol_amount, self.real_yes_sol_reserves, pool as u128) as u64;
        let no_part = sol_amount - yes_part;
        let units_wide = mul_div_ceil_wide(sol_amount, total, pool as u128);
        if units_wide > total as u128 {
            return Err(PredictionMarketError::OverflowOrUnderflowOccurred);
        }
        let units = units_wide as u64;
        proof {
            lemma_share_round_trip(sol_amount as nat, claim as nat, pool as nat, total as nat);
        }
        let yes_depth: u128 = (global_config.min_sol_liquidity as u128) + (
        self.real_yes_sol_reserves as u128);
        let no_depth: u128 = (global_config.min_sol_liquidity as u128) + (
        self.real_no_sol_reserves as u128);
        let yes_tokens: u64 = if yes_part == 0 {
            0
        } else {
            proof {
                lemma_mul_div_within(
                    self.real_yes_token_reserves as nat,
                    yes_part as nat,
                    yes_depth as nat,
                );
            }
            mul_div_ceil_wide(self.real_yes_token_reserves, yes_part, yes_depth) as u64
        };
        let no_tokens: u64 = if no_part == 0 {
            0
        } else {
            proof {
                lemma_mul_div_within(
                    self.real_no_token_reserves as nat,
                    no_part as nat,
                    no_depth as nat,
                );
            }
            mul_div_ceil_wide(self.real_no_token_reserves, no_part, no_depth) as u64
        };
        if claim == units {
            self.lps.remove(i);
            user_info.is_lp = false;
        } else {
            self.lps[i] = LpInfo { user: self.lps[i].user, sol_amount: claim - units };
            user_info.is_lp = true;
        }
        self.real_yes_sol_reserves = self.real_yes_sol_reserves - yes_part;
        self.real_no_sol_reserves = self.real_no_sol_reserves - no_part;
        self.real_yes_token_reserves = self.real_yes_token_reserves - yes_tokens;
        self.real_no_token_reserves = self.real_no_token_reserves - no_tokens;
        self.total_lp_amount = total - units;
        Ok(LiquidityAmounts { yes_sol: yes_part, no_sol: no_part, yes_tokens, no_tokens })
    }

    fn apply_buy(&mut self, global_config: &Config, sol_amount: u64, token_type: u8) -> (r: Option<
        BuyResult,
    >)
    {
        let result = self.get_tokens_for_buy_sol(global_config, sol_amount, token_type)?;
        let tokens = self.token_reserves(token_type);
        let sol = self.sol_reserves(token_type);
        self.set_reserves(token_type, tokens - result.token_amount, sol + sol_amount);
        Some(result)
    }

    fn apply_sell(&mut self, global_config: &Config, token_amount: u64, token_type: u8) -> (r:
        Option<SellResult>)
    {
        let result = self.get_tokens_for_sell_sol(global_config, token_amount, token_type)?;
        let tokens = self.token_reserves(token_type);
        let sol = self.sol_reserves(token_type);
        if result.change_amount > sol {
            return None;
        }
        self.set_reserves(token_type, tokens + token_amount, sol - result.change_amount);
        Some(result)
    }

    fn get_tokens_for_buy_sol(
        &self,
        global_config: &Config,
        sol_amount: u64,
        token_type: u8,
    ) -> (r: Option<BuyResult>)
    {
        if token_type != TOKEN_TYPE_NO && token_type != TOKEN_TYPE_YES {
            return None;
        }
        let tokens = self.token_reserves(token_type);
        let depth = global_config.min_sol_liquidity.checked_add(self.sol_reserves(token_type))?;
        let token_amount = quote(depth, tokens, sol_amount)?;
        let left = tokens - token_amount;
        Some(
            BuyResult {
                token_amount,
                change_amount: sol_amount,
                current_yes_reserves: self.real_yes_token_reserves,
                current_no_reserves: self.real_no_token_reserves,
                new_yes_reserves: if token_type == TOKEN_TYPE_YES {
                    left
                } else {
                    self.real_yes_token_reserves
                },
                new_no_reserves: if token_type == TOKEN_TYPE_YES {
                    self.real_no_token_reserves
                } else {
                    left
                },
            },
        )
    }

    fn get_tokens_for_sell_sol(
        &self,
        global_config: &Config,
        token_amount: u64,
        token_type: u8,
    ) -> (r: Option<SellResult>)
    {
        if token_type != TOKEN_TYPE_NO && token_type != TOKEN_TYPE_YES {
            return None;
        }
        let tokens = self.token_reserves(token_type);
        let depth = global_config.min_sol_liquidity.checked_add(self.sol_reserves(token_type))?;
        let change_amount = quote(tokens, depth, token_amount)?;
        let grown = tokens + token_amount;
        Some(
            SellResult {
                token_amount,
                change_amount,
                current_yes_reserves: self.real_yes_token_reserves,
                current_no_reserves: self.real_no_token_reserves,
                new_yes_reserves: if token_type == TOKEN_TYPE_YES {
                    grown
                } else {
                    self.real_yes_token_reserves
                },
                new_no_reserves: if token_type == TOKEN_TYPE_YES {
                    self.real_no_token_reserves
                } else {
                    grown
                },
            },
        )
    }
}


impl Market {
    /// The token reserve of the side that `token_type` selects.
    pub fn token_reserves(&self, token_type: u8) -> (r: u64)
        ensures
            r == self@.side(token_type).real_token_reserves,
    {
        if token_type == TOKEN_TYPE_YES {
            self.real_yes_token_reserves
        } else {
            self.real_no_token_reserves
        }
    }

    /// The base currency really held by the side that `token_type` selects.
    pub fn sol_reserves(&self, token_type: u8) -> (r: u64)
        ensures
            r == self@.side(token_type).real_sol_reserves,
    {
        if token_type == TOKEN_TYPE_YES {
            self.real_yes_sol_reserves
        } else {
            self.real_no_sol_reserves
        }
    }

    /// Rewrites both reserves of the side that `token_type` selects.
    pub fn set_reserves(&mut self, token_type: u8, token_reserves: u64, sol_reserves: u64)
        ensures
            final(self)@ == old(self)@.with_side(
                token_type,
                (Curve {
                    real_token_reserves: token_reserves as nat,
                    real_sol_reserves: sol_reserves as nat,
                    ..old(self)@.side(token_type)
                }),
            ),
    {
        if token_type == TOKEN_TYPE_YES {
            self.real_yes_token_reserves = token_reserves;
            self.real_yes_sol_reserves = sol_reserves;
        } else {
            self.real_no_token_reserves = token_reserves;
            self.real_no_sol_reserves = sol_reserves;
        }
    }
}

} // verus!
