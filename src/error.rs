use vstd::prelude::*;

verus! {

/// The typed reasons for which an operation is refused.
#[derive(Clone, Copy, Debug, PartialEq, Eq, Structural)]
pub enum ErrorCode {
    InvalidAmount,
    Unauthorized,
    InsufficientFunds,
    Overflow,
    UnauthorizedProgram,
    AlreadyInitialized,
    AlreadyExists,
    NotFound,
    Frozen,
    InvariantViolation,
    NonZeroBalance,
    InvalidTokenProgramOwner,
    OpenPositionsExist,
    YieldProgramNotWhitelisted,
    InsufficientYieldBalance,
    PositionSummaryMissing,
    PositionSummaryInvalid,
}

} // verus!
