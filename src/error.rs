//! Error kinds surfaced to the instruction layer.

use vstd::prelude::*;

verus! {

/// Every failure the core can report. The numeric code of each is `300` plus its position.
#[derive(Clone, Copy, Debug, PartialEq, Eq, Structural)]
pub enum ErrorCode {
    ContractAddressNotCorrect,
    EmptySupply,
    InvalidFee,
    InvalidCurve,
    ZeroTradingTokens,
    ExceededSlippage,
    ConversionFailure,
    UnsupportedCurveOperation,
    FeeCalculationFailure,
    PrivilegeRequired,
    WrongLPMint,
    SameToken,
    CalculationFailure,
    IncorrectSwapAccount,
    MintMismatch,
    MintNotExpected,
    WrongATAOwner,
    TokenNotSupportedByPool,
    WrongAdmin,
    Suspended,
    WrongFeeVault,
}

/// The first numeric error code.
pub const ERROR_CODE_OFFSET: u32 = 300;

/// Position of each error kind in the list above.
pub open spec fn error_index(e: ErrorCode) -> u32 {
    match e {
        ErrorCode::ContractAddressNotCorrect => 0,
        ErrorCode::EmptySupply => 1,
        ErrorCode::InvalidFee => 2,
        ErrorCode::InvalidCurve => 3,
        ErrorCode::ZeroTradingTokens => 4,
        ErrorCode::ExceededSlippage => 5,
        ErrorCode::ConversionFailure => 6,
        ErrorCode::UnsupportedCurveOperation => 7,
        ErrorCode::FeeCalculationFailure => 8,
        ErrorCode::PrivilegeRequired => 9,
        ErrorCode::WrongLPMint => 10,
        ErrorCode::SameToken => 11,
        ErrorCode::CalculationFailure => 12,
        ErrorCode::IncorrectSwapAccount => 13,
        ErrorCode::MintMismatch => 14,
        ErrorCode::MintNotExpected => 15,
        ErrorCode::WrongATAOwner => 16,
        ErrorCode::TokenNotSupportedByPool => 17,
        ErrorCode::WrongAdmin => 18,
        ErrorCode::Suspended => 19,
        ErrorCode::WrongFeeVault => 20,
    }
}

impl ErrorCode {
    /// The numeric code reported for this error.
    pub fn code(&self) -> (r: u32)
        ensures
            r == ERROR_CODE_OFFSET + error_index(*self),
    {
        let i: u32 = match self {
            ErrorCode::ContractAddressNotCorrect => 0,
            ErrorCode::EmptySupply => 1,
            ErrorCode::InvalidFee => 2,
            ErrorCode::InvalidCurve => 3,
            ErrorCode::ZeroTradingTokens => 4,
            ErrorCode::ExceededSlippage => 5,
            ErrorCode::ConversionFailure => 6,
            ErrorCode::UnsupportedCurveOperation => 7,
            ErrorCode::FeeCalculationFailure => 8,
            ErrorCode::PrivilegeRequired => 9,
            ErrorCode::WrongLPMint => 10,
            ErrorCode::SameToken => 11,
            ErrorCode::CalculationFailure => 12,
            ErrorCode::IncorrectSwapAccount => 13,
            ErrorCode::MintMismatch => 14,
            ErrorCode::MintNotExpected => 15,
            ErrorCode::WrongATAOwner => 16,
            ErrorCode::TokenNotSupportedByPool => 17,
            ErrorCode::WrongAdmin => 18,
            ErrorCode::Suspended => 19,
            ErrorCode::WrongFeeVault => 20,
        };
        ERROR_CODE_OFFSET + i
    }

    /// The error kind with the given numeric code, if there is one.
    pub fn from_code(code: u32) -> (r: Option<ErrorCode>)
        ensures
            r is Some <==> ERROR_CODE_OFFSET <= code <= ERROR_CODE_OFFSET + 20,
            r is Some ==> ERROR_CODE_OFFSET + error_index(r->0) == code,
    {
        if code < ERROR_CODE_OFFSET || code > ERROR_CODE_OFFSET + 20 {
            return None;
        }
        let e = match code - ERROR_CODE_OFFSET {
            0 => ErrorCode::ContractAddressNotCorrect,
            1 => ErrorCode::EmptySupply,
            2 => ErrorCode::InvalidFee,
            3 => ErrorCode::InvalidCurve,
            4 => ErrorCode::ZeroTradingTokens,
            5 => ErrorCode::ExceededSlippage,
            6 => ErrorCode::ConversionFailure,
            7 => ErrorCode::UnsupportedCurveOperation,
            8 => ErrorCode::FeeCalculationFailure,
            9 => ErrorCode::PrivilegeRequired,
            10 => ErrorCode::WrongLPMint,
            11 => ErrorCode::SameToken,
            12 => ErrorCode::CalculationFailure,
            13 => ErrorCode::IncorrectSwapAccount,
            14 => ErrorCode::MintMismatch,
            15 => ErrorCode::MintNotExpected,
            16 => ErrorCode::WrongATAOwner,
            17 => ErrorCode::TokenNotSupportedByPool,
            18 => ErrorCode::WrongAdmin,
            19 => ErrorCode::Suspended,
            _ => ErrorCode::WrongFeeVault,
        };
        Some(e)
    }
}

} // verus!
