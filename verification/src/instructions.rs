//! The operations of the engine, each with the records it works on.

pub mod accept_authority;
pub mod add_liquidity;
pub mod configure;
pub mod create_market;
pub mod nominate_authority;
pub mod resolution;
pub mod swap;
pub mod withdraw_liquidity;
