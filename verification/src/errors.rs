//! The failures that the engine reports.

use vstd::prelude::*;

verus! {

/// Every way in which an operation of the market can be refused. An operation
/// that returns one of these has changed nothing.
#[derive(Clone, Copy, Debug, PartialEq, Eq, Structural)]
pub enum PredictionMarketError {
    ValueTooSmall,
    ValueTooLarge,
    ValueInvalid,
    IncorrectConfigAccount,
    IncorrectAuthority,
    OverflowOrUnderflowOccurred,
    InvalidAmount,
    IncorrectTeamWallet,
    CurveNotCompleted,
    CurveAlreadyCompleted,
    MintAuthorityEnabled,
    FreezeAuthorityEnabled,
    ReturnAmountTooSmall,
    AmmAlreadyExists,
    NotInitialized,
    InvalidGlobalAuthority,
    NotWhiteList,
    IncorrectLaunchPhase,
    InsufficientTokens,
    InsufficientSol,
    SellFailed,
    BuyFailed,
    NotBondingCurveMint,
    NotSOL,
    InvalidMigrationAuthority,
    NotCompleted,
    InvalidMeteoraProgram,
    ArithmeticError,
    InvalidParameter,
    InvalidStartTime,
    InvalidEndTime,
    AlreadyInitialized,
    InvalidAuthority,
    InvalidArgument,
    MarketNotCompleted,
    MarketIsCompleted,
    RESOLUTIONTOKEYTYPEERROR,
    RESOLUTIONYESAMOUNTERROR,
    RESOLUTIONNOAMOUNTERROR,
    WITHDRAWLIQUIDITYSOLAMOUNTERROR,
    WITHDRAWNOTLPERROR,
}

} // verus!
