//! The global parameters: fee schedule, token scale and supply, seed liquidity.

use vstd::prelude::*;
use vstd::std_specs::cmp::{PartialEqSpec, PartialOrdSpec};
use core::cmp::Ordering;
use core::fmt::Debug;
use crate::address::Address;
use crate::constants::BPS_DENOMINATOR;
use crate::errors::PredictionMarketError;

verus! {

/// Ten to the power `e`.
pub open spec fn pow10(e: nat) -> nat
    decreases e,
{
    if e == 0 {
        1
    } else {
        10 * pow10((e - 1) as nat)
    }
}

/// Powers of ten grow with the exponent.
pub proof fn lemma_pow10_increases(a: nat, b: nat)
    requires
        a <= b,
    ensures
        0 < pow10(a) <= pow10(b),
    decreases b,
{
    if b == 0 {
    } else if a == b {
        lemma_pow10_increases(0, (b - 1) as nat);
    } else {
        lemma_pow10_increases(a, (b - 1) as nat);
    }
}

/// Ten to the power `decimals`, or `None` where that exceeds 64 bits.
pub fn decimal_multiplier(decimals: u8) -> (r: Option<u64>)
    ensures
        r.is_some() <==> pow10(decimals as nat) <= u64::MAX,
        r.is_some() ==> r.unwrap() == pow10(decimals as nat),
{
    let mut m: u64 = 1;
    let mut i: u8 = 0;
    while i < decimals
        invariant
            i <= decimals,
            m == pow10(i as nat),
        decreases decimals - i,
    {
        match m.checked_mul(10) {
            Some(next) => {
                m = next;
            },
            None => {
                proof {
                    lemma_pow10_increases((i + 1) as nat, decimals as nat);
                }
                return None;
            },
        }
        i += 1;
    }
    Some(m)
}

/// The parameters that every market is created and traded under. There is one
/// such record; only its authority may replace it.
#[derive(Clone, Copy, Debug, PartialEq, Eq)]
pub struct Config {
    /// Who may reconfigure the engine and resolve markets.
    pub authority: Address,
    /// Who has been nominated to become the authority, unset when nobody is.
    pub pending_authority: Address,
    /// Where the platform's share of every fee goes.
    pub team_wallet: Address,
    /// The platform's fee on a buy, in basis points of the amount paid.
    pub platform_buy_fee: u64,
    /// The platform's fee on a sell, in basis points of the amount paid out.
    pub platform_sell_fee: u64,
    /// The liquidity providers' fee on a buy, in basis points.
    pub lp_buy_fee: u64,
    /// The liquidity providers' fee on a sell, in basis points.
    pub lp_sell_fee: u64,
    /// How many base units of each outcome token are minted.
    pub token_supply_config: u64,
    /// How many decimal places a whole token has.
    pub token_decimals_config: u8,
    /// How many base units of tokens each curve starts with.
    pub initial_real_token_reserves_config: u64,
    /// The virtual base currency under every curve.
    pub min_sol_liquidity: u64,
    pub initialized: bool,
}

impl Config {
    /// One whole token, counted in base units, fits in 64 bits.
    pub open spec fn whole_token_fits(self) -> bool {
        pow10(self.token_decimals_config as nat) <= u64::MAX
    }

    /// The supply in base units is a whole number of tokens.
    pub open spec fn supply_is_whole(self) -> bool {
        (self.token_supply_config as nat) % pow10(self.token_decimals_config as nat) == 0
    }

    /// The supply covers the seed reserve of a curve.
    pub open spec fn supply_covers_seed(self) -> bool {
        self.token_supply_config >= self.initial_real_token_reserves_config
    }

    /// Every fee rate is at most 100 %.
    pub open spec fn fees_in_range(self) -> bool {
        &&& self.platform_buy_fee <= BPS_DENOMINATOR
        &&& self.platform_sell_fee <= BPS_DENOMINATOR
        &&& self.lp_buy_fee <= BPS_DENOMINATOR
        &&& self.lp_sell_fee <= BPS_DENOMINATOR
    }

    /// Whether these parameters may be put in force, and if not, why not.
    pub open spec fn validation(self) -> Result<(), PredictionMarketError> {
        if !self.whole_token_fits() {
            Err(PredictionMarketError::OverflowOrUnderflowOccurred)
        } else if !self.supply_is_whole() {
            Err(PredictionMarketError::ValueInvalid)
        } else if !self.supply_covers_seed() {
            Err(PredictionMarketError::InvalidAmount)
        } else if !self.fees_in_range() {
            Err(PredictionMarketError::InvalidParameter)
        } else {
            Ok(())
        }
    }

    /// The parameters can be put in force.
    pub open spec fn is_valid(self) -> bool {
        self.validation() is Ok
    }

    /// Checks the parameters. A number of decimals for which one whole token
    /// exceeds 64 bits is refused with `OverflowOrUnderflowOccurred`; a
    /// supply that is not a whole number of tokens with `ValueInvalid`; a
    /// supply below the seed reserve of a curve with `InvalidAmount`; a fee
    /// rate above 10 000 basis points with `InvalidParameter`.
    pub fn validate(&self) -> (r: Result<(), PredictionMarketError>)
        ensures
            r == self.validation(),
    {
        let multiplier = match decimal_multiplier(self.token_decimals_config) {
            Some(multiplier) => multiplier,
            None => {
                return Err(PredictionMarketError::OverflowOrUnderflowOccurred);
            },
        };
        proof {
            lemma_pow10_increases(0, self.token_decimals_config as nat);
        }
        if self.token_supply_config % multiplier != 0 {
            return Err(PredictionMarketError::ValueInvalid);
        }
        if self.token_supply_config < self.initial_real_token_reserves_config {
            return Err(PredictionMarketError::InvalidAmount);
        }
        if self.platform_buy_fee > BPS_DENOMINATOR || self.platform_sell_fee > BPS_DENOMINATOR
            || self.lp_buy_fee > BPS_DENOMINATOR || self.lp_sell_fee > BPS_DENOMINATOR {
            return Err(PredictionMarketError::InvalidParameter);
        }
        Ok(())
    }
}

/// A configuration that is valid keeps the supply at or above the seed
/// reserve of a curve, in whole tokens, with fees of at most 100 %.
pub proof fn lemma_valid_configuration(config: Config)
    requires
        config.is_valid(),
    ensures
        config.token_supply_config >= config.initial_real_token_reserves_config,
        config.whole_token_fits(),
        config.supply_is_whole(),
        config.fees_in_range(),
{
}

/// The values that a parameter may take: a range with optional ends, or a
/// list of the admitted values.
#[derive(Clone, PartialEq, Eq, Debug)]
pub enum AmountConfig<T: PartialEq + PartialOrd + Debug> {
    Range { min: Option<T>, max: Option<T> },
    Enum(Vec<T>),
}

impl<T: PartialEq + PartialOrd + Debug> AmountConfig<T> {
    /// `value` is one of `options`.
    pub open spec fn listed(options: Seq<T>, value: T) -> bool {
        exists|i: int| 0 <= i < options.len() && #[trigger] options[i].eq_spec(&value)
    }

    /// Whether `value` is admitted, and if not, why not.
    pub open spec fn validation(self, value: T) -> Result<(), PredictionMarketError> {
        match self {
            AmountConfig::Range { min, max } => {
                if min is Some && value.partial_cmp_spec(&min->0) == Some(Ordering::Less) {
                    Err(PredictionMarketError::ValueTooSmall)
                } else if max is Some && value.partial_cmp_spec(&max->0) == Some(
                    Ordering::Greater,
                ) {
                    Err(PredictionMarketError::ValueTooLarge)
                } else {
                    Ok(())
                }
            },
            AmountConfig::Enum(options) => {
                if Self::listed(options@, value) {
                    Ok(())
                } else {
                    Err(PredictionMarketError::ValueInvalid)
                }
            },
        }
    }

    /// Tells whether `value` equals one of `options`.
    pub fn is_listed(options: &Vec<T>, value: &T) -> (r: bool)
        ensures
            T::obeys_eq_spec() ==> r == Self::listed(options@, *value),
    {
        let mut i: usize = 0;
        while i < options.len()
            invariant
                i <= options.len(),
                T::obeys_eq_spec() ==> forall|j: int|
                    0 <= j < i ==> !#[trigger] options@[j].eq_spec(value),
            decreases options.len() - i,
        {
            if options[i] == *value {
                assert(T::obeys_eq_spec() ==> options@[i as int].eq_spec(value));
                return true;
            }
            i += 1;
        }
        false
    }

    /// Checks `value` against the admitted values. Below the lower end is
    /// `ValueTooSmall`, above the upper end `ValueTooLarge`, off the list
    /// `ValueInvalid`. The result is determined wherever the comparisons of
    /// `T` keep their own contracts.
    pub fn validate(&self, value: &T) -> (r: Result<(), PredictionMarketError>)
        ensures
            T::obeys_eq_spec() && T::obeys_partial_cmp_spec() ==> r == self.validation(*value),
    {
        match self {
            AmountConfig::Range { min, max } => {
                if let Some(lo) = min {
                    if value < lo {
                        return Err(PredictionMarketError::ValueTooSmall);
                    }
                }
                if let Some(hi) = max {
                    if value > hi {
                        return Err(PredictionMarketError::ValueTooLarge);
                    }
                }
                Ok(())
            },
            AmountConfig::Enum(options) => {
                if Self::is_listed(options, value) {
                    Ok(())
                } else {
                    Err(PredictionMarketError::ValueInvalid)
                }
            },
        }
    }
}

} // verus!
