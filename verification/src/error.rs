//! The reasons for which a request is turned down.

use vstd::prelude::*;

verus! {

/// Why an operation was not carried out. Nothing is applied when one of these
/// is returned.
#[derive(Clone, Copy, Debug, PartialEq, Eq, Structural)]
pub enum SwapError {
    /// A fee fraction has a zero denominator under a non-zero numerator, or
    /// is larger than one.
    InvalidFee,
    /// A curve parameter is zero.
    InvalidCurve,
    /// An initial deposit holds none of one of the two tokens.
    EmptySupply,
    /// A fee could not be computed or does not fit the amount it is taken
    /// from.
    FeeCalculationFailure,
    /// The request moves no tokens at all, on one side or the other.
    ZeroTradingTokens,
    /// An intermediate value left the 128-bit range, the stable solver did
    /// not settle, or a result does not fit the reserves.
    CalculationFailure,
    /// A deposit would take more than the depositor allows.
    ExceedsMaxAmount,
    /// The outcome is worse than the limit that the requester set.
    ExceededSlippage,
    /// The pool only lets liquidity leave.
    WithdrawalsOnlyMode,
    /// Trading is switched off.
    TradingDisabled,
    /// Deposits are switched off.
    DepositsDisabled,
    /// A configuration update names no known setting.
    InvalidConfigMode,
    /// A configuration update carries a value that the setting cannot take.
    InvalidConfigValue,
}

/// The kinds of failure, by what the requester can do about them.
#[derive(Clone, Copy, Debug, PartialEq, Eq, Structural)]
pub enum ErrorClass {
    /// The request itself is at fault or not acceptable now; another request
    /// may pass.
    InputValidation,
    /// The arithmetic failed; the operation is abandoned as a whole.
    Arithmetic,
    /// The pool's parameters are at fault; they are turned down when they
    /// are set.
    Configuration,
}

impl SwapError {
    /// The class of each error.
    pub open spec fn class_spec(&self) -> ErrorClass {
        match *self {
            SwapError::InvalidFee | SwapError::InvalidCurve | SwapError::EmptySupply
            | SwapError::InvalidConfigMode | SwapError::InvalidConfigValue => {
                ErrorClass::Configuration
            },
            SwapError::FeeCalculationFailure | SwapError::CalculationFailure => {
                ErrorClass::Arithmetic
            },
            SwapError::ZeroTradingTokens | SwapError::ExceedsMaxAmount
            | SwapError::ExceededSlippage | SwapError::WithdrawalsOnlyMode
            | SwapError::TradingDisabled | SwapError::DepositsDisabled => {
                ErrorClass::InputValidation
            },
        }
    }

    /// The class of this error.
    pub fn class(&self) -> (class: ErrorClass)
        ensures
            class == self.class_spec(),
    {
        match *self {
            SwapError::InvalidFee => ErrorClass::Configuration,
            SwapError::InvalidCurve => ErrorClass::Configuration,
            SwapError::EmptySupply => ErrorClass::Configuration,
            SwapError::InvalidConfigMode => ErrorClass::Configuration,
            SwapError::InvalidConfigValue => ErrorClass::Configuration,
            SwapError::FeeCalculationFailure => ErrorClass::Arithmetic,
            SwapError::CalculationFailure => ErrorClass::Arithmetic,
            SwapError::ZeroTradingTokens => ErrorClass::InputValidation,
            SwapError::ExceedsMaxAmount => ErrorClass::InputValidation,
            SwapError::ExceededSlippage => ErrorClass::InputValidation,
            SwapError::WithdrawalsOnlyMode => ErrorClass::InputValidation,
            SwapError::TradingDisabled => ErrorClass::InputValidation,
            SwapError::DepositsDisabled => ErrorClass::InputValidation,
        }
    }

    /// Whether the operation failed for good: an arithmetic failure is
    /// fatal, every other failure leaves room for another request.
    pub fn is_fatal(&self) -> (fatal: bool)
        ensures
            fatal == (self.class_spec() == ErrorClass::Arithmetic),
    {
        match *self {
            SwapError::FeeCalculationFailure => true,
            SwapError::CalculationFailure => true,
            _ => false,
        }
    }
}

} // verus!
