//! Fixed parameters of the engine.

use vstd::prelude::*;

verus! {

/// The longest a market may stay open, counted in slots from its creation
/// (about one week at 400 ms per slot).
pub const MAX_START_SLOT_DELAY: u64 = 1_512_000;

/// The number of basis points in a whole: a rate of 10 000 is 100 %.
pub const BPS_DENOMINATOR: u64 = 10_000;

/// The code of the NO side in a `token_type` argument.
pub const TOKEN_TYPE_NO: u8 = 0;

/// The code of the YES side in a `token_type` argument.
pub const TOKEN_TYPE_YES: u8 = 1;

/// The code of a buy in a `direction` argument.
pub const DIRECTION_BUY: u8 = 0;

/// The code of a sell in a `direction` argument.
pub const DIRECTION_SELL: u8 = 1;

/// What an empty vault is funded with when the engine is configured.
pub const VAULT_SEED_LAMPORTS: u64 = 1_000_000;

} // verus!
