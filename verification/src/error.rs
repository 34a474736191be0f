//! Error kinds that the program's instructions report.
use vstd::prelude::*;

verus! {

/// Failures of the swap instructions.
#[derive(Clone, Copy, Debug, PartialEq, Eq, Structural)]
pub enum SwapError {
    InsufficientLiquidity,
    InvalidAmount,
    InvalidDexType,
    InvalidPoolState,
    InsufficientBalance,
    InvalidGlobalController,
    InvalidSwapDirection,
    InvalidQuote,
    InvalidValidator,
    InvalidMagicNumber,
    InsufficientOutAmount,
    InvalidValidatorId,
    ExceedMaxInput,
    InsufficientOutput,
}

/// Failures of the bookkeeping and fast-path instructions.
#[derive(Clone, Copy, Debug, PartialEq, Eq, Structural)]
pub enum ErrorCode {
    ArithmeticError,
    SandwichAlreadyComplete,
    InvalidParameter,
    Overflow,
    InvalidAuthority,
    InsufficientLiquidity,
    InvalidAmount,
    PriceOutOfRange,
    InvalidQuote,
    InvalidValidator,
    AccountTooSmall,
    ValidationFailed,
    PriceDiffTooLarge,
    FinalCheckFailed,
    InvalidDataLength,
    InsufficientFunds,
    ArithmeticOverflow,
}

/// The runtime's generic instruction failures that the program raises itself.
#[derive(Clone, Copy, Debug, PartialEq, Eq, Structural)]
pub enum ProgramFailure {
    InvalidArgument,
    InvalidInstructionData,
}

} // verus!
