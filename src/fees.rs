//! The fee engine: four proportional fee classes.

use crate::error::ErrorCode;
use vstd::prelude::*;

verus! {

/// The proportional fee on `amount` at `numerator / denominator`, with a floor of one unit
/// once the fee is enabled and the amount is nonzero.
pub open spec fn fee_of(amount: int, numerator: int, denominator: int) -> int {
    if numerator == 0 || amount == 0 {
        0
    } else if amount * numerator / denominator == 0 {
        1
    } else {
        amount * numerator / denominator
    }
}

/// Whether `calculate_fee` succeeds: a disabled fee or a zero amount always does; otherwise
/// the product must fit in 128 bits and the denominator be nonzero.
pub open spec fn fee_defined(amount: int, numerator: int, denominator: int) -> bool {
    numerator == 0 || amount == 0 || (amount * numerator <= u128::MAX && denominator != 0)
}

/// Whether a fee fraction is acceptable: disabled (both zero) or strictly below one.
pub open spec fn fraction_valid(numerator: int, denominator: int) -> bool {
    (numerator == 0 && denominator == 0) || numerator < denominator
}

/// Computes a proportional fee: zero when the numerator or the amount is zero, otherwise
/// `floor(amount * numerator / denominator)`, raised to one when that rounds down to zero.
pub fn calculate_fee(token_amount: u128, fee_numerator: u128, fee_denominator: u128) -> (r: Option<u128>)
    ensures
        r is Some <==> fee_defined(token_amount as int, fee_numerator as int, fee_denominator as int),
        r is Some ==> r->0 == fee_of(token_amount as int, fee_numerator as int, fee_denominator as int),
{
    if fee_numerator == 0 || token_amount == 0 {
        Some(0)
    } else {
        let product = token_amount.checked_mul(fee_numerator);
        match product {
            None => None,
            Some(p) => {
                if fee_denominator == 0 {
                    None
                } else {
                    let fee = p / fee_denominator;
                    if fee == 0 {
                        Some(1)
                    } else {
                        Some(fee)
                    }
                }
            }
        }
    }
}

} // verus!

verus! {

/// Checks one fee fraction: both zero (disabled), or the numerator strictly below the
/// denominator.
pub fn validate_fraction(numerator: u64, denominator: u64) -> (r: Result<(), ErrorCode>)
    ensures
        r is Ok <==> fraction_valid(numerator as int, denominator as int),
        r is Err ==> r == Err::<(), ErrorCode>(ErrorCode::InvalidFee),
{
    if denominator == 0 && numerator == 0 {
        Ok(())
    } else if numerator >= denominator {
        Err(ErrorCode::InvalidFee)
    } else {
        Ok(())
    }
}

/// The fee schedule of a pool: four independent numerator/denominator pairs.
#[derive(Clone, Copy, Debug, Default, PartialEq, Eq, Structural)]
pub struct Fees {
    /// Trade fee numerator; the fee stays in the pool, raising the value of pool tokens.
    pub trade_fee_numerator: u64,
    /// Trade fee denominator
    pub trade_fee_denominator: u64,
    /// Owner trade fee numerator; the fee is minted to the owner as pool tokens.
    pub owner_trade_fee_numerator: u64,
    /// Owner trade fee denominator
    pub owner_trade_fee_denominator: u64,
    /// Owner withdraw fee numerator; charged in pool tokens on every withdrawal.
    pub owner_withdraw_fee_numerator: u64,
    /// Owner withdraw fee denominator
    pub owner_withdraw_fee_denominator: u64,
    /// Host fee numerator; a share of the owner trade fee.
    pub host_fee_numerator: u64,
    /// Host fee denominator
    pub host_fee_denominator: u64,
}

impl Fees {
    /// All four fractions are acceptable.
    pub open spec fn valid(self) -> bool {
        &&& fraction_valid(self.trade_fee_numerator as int, self.trade_fee_denominator as int)
        &&& fraction_valid(self.owner_trade_fee_numerator as int, self.owner_trade_fee_denominator as int)
        &&& fraction_valid(self.owner_withdraw_fee_numerator as int, self.owner_withdraw_fee_denominator as int)
        &&& fraction_valid(self.host_fee_numerator as int, self.host_fee_denominator as int)
    }

    /// Whether the trade fee on `amount` is defined.
    pub open spec fn trading_fee_defined(self, amount: int) -> bool {
        fee_defined(amount, self.trade_fee_numerator as int, self.trade_fee_denominator as int)
    }

    /// The trade fee on `amount`.
    pub open spec fn spec_trading_fee(self, amount: int) -> int {
        fee_of(amount, self.trade_fee_numerator as int, self.trade_fee_denominator as int)
    }

    /// Whether the owner trade fee on `amount` is defined.
    pub open spec fn owner_trading_fee_defined(self, amount: int) -> bool {
        fee_defined(amount, self.owner_trade_fee_numerator as int, self.owner_trade_fee_denominator as int)
    }

    /// The owner trade fee on `amount`.
    pub open spec fn spec_owner_trading_fee(self, amount: int) -> int {
        fee_of(amount, self.owner_trade_fee_numerator as int, self.owner_trade_fee_denominator as int)
    }

    /// Whether the owner withdraw fee on `amount` is defined.
    pub open spec fn owner_withdraw_fee_defined(self, amount: int) -> bool {
        fee_defined(amount, self.owner_withdraw_fee_numerator as int, self.owner_withdraw_fee_denominator as int)
    }

    /// The owner withdraw fee on `amount`.
    pub open spec fn spec_owner_withdraw_fee(self, amount: int) -> int {
        fee_of(amount, self.owner_withdraw_fee_numerator as int, self.owner_withdraw_fee_denominator as int)
    }

    /// Calculates the withdraw fee in pool tokens.
    pub fn owner_withdraw_fee(&self, pool_tokens: u128) -> (r: Option<u128>)
        ensures
            r is Some <==> self.owner_withdraw_fee_defined(pool_tokens as int),
            r is Some ==> r->0 == self.spec_owner_withdraw_fee(pool_tokens as int),
    {
        calculate_fee(
            pool_tokens,
            self.owner_withdraw_fee_numerator as u128,
            self.owner_withdraw_fee_denominator as u128,
        )
    }

    /// Calculates the trading fee in trading tokens.
    pub fn trading_fee(&self, trading_tokens: u128) -> (r: Option<u128>)
        ensures
            r is Some <==> self.trading_fee_defined(trading_tokens as int),
            r is Some ==> r->0 == self.spec_trading_fee(trading_tokens as int),
    {
        calculate_fee(
            trading_tokens,
            self.trade_fee_numerator as u128,
            self.trade_fee_denominator as u128,
        )
    }

    /// Calculates the owner trading fee in trading tokens.
    pub fn owner_trading_fee(&self, trading_tokens: u128) -> (r: Option<u128>)
        ensures
            r is Some <==> self.owner_trading_fee_defined(trading_tokens as int),
            r is Some ==> r->0 == self.spec_owner_trading_fee(trading_tokens as int),
    {
        calculate_fee(
            trading_tokens,
            self.owner_trade_fee_numerator as u128,
            self.owner_trade_fee_denominator as u128,
        )
    }

    /// Calculates the host's share of an already computed owner fee.
    pub fn host_fee(&self, owner_fee: u128) -> (r: Option<u128>)
        ensures
            r is Some <==> fee_defined(owner_fee as int, self.host_fee_numerator as int, self.host_fee_denominator as int),
            r is Some ==> r->0 == fee_of(owner_fee as int, self.host_fee_numerator as int, self.host_fee_denominator as int),
    {
        calculate_fee(owner_fee, self.host_fee_numerator as u128, self.host_fee_denominator as u128)
    }

    /// Validates that all four fee fractions are reasonable.
    pub fn validate(&self) -> (r: Result<(), ErrorCode>)
        ensures
            r is Ok <==> self.valid(),
            r is Err ==> r == Err::<(), ErrorCode>(ErrorCode::InvalidFee),
    {
        validate_fraction(self.trade_fee_numerator, self.trade_fee_denominator)?;
        validate_fraction(self.owner_trade_fee_numerator, self.owner_trade_fee_denominator)?;
        validate_fraction(self.owner_withdraw_fee_numerator, self.owner_withdraw_fee_denominator)?;
        validate_fraction(self.host_fee_numerator, self.host_fee_denominator)?;
        Ok(())
    }
}

} // verus!
