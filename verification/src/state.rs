//! The records that the engine reads and rewrites.

pub mod config;
pub mod global;
pub mod market;
