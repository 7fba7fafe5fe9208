//! The contract that every curve variant implements.

use crate::error::ErrorCode;
use crate::types::{RoundDirection, SwapWithoutFeesResult, TradeDirection, TradingTokenResult, INITIAL_SWAP_POOL_AMOUNT};
use vstd::prelude::*;

verus! {

/// The reserve on the source side of a trade, given the reserves of token 1 and token 2.
pub open spec fn source_reserve(trade_direction: TradeDirection, swap_token1_amount: u128, swap_token2_amount: u128) -> u128 {
    match trade_direction {
        TradeDirection::AtoB => swap_token1_amount,
        TradeDirection::BtoA => swap_token2_amount,
    }
}

/// Picks the reserve on the source side of a trade.
pub fn select_source_reserve(trade_direction: TradeDirection, swap_token1_amount: u128, swap_token2_amount: u128) -> (r: u128)
    ensures
        r == source_reserve(trade_direction, swap_token1_amount, swap_token2_amount),
{
    match trade_direction {
        TradeDirection::AtoB => swap_token1_amount,
        TradeDirection::BtoA => swap_token2_amount,
    }
}

/// Operations required of a swap curve. Each executable operation is pinned to a spec
/// function that the variant defines.
pub trait CurveCalculator {
    /// The quote of `swap_without_fees`.
    spec fn spec_swap_without_fees(
        &self,
        source_amount: u128,
        swap_source_amount: u128,
        swap_destination_amount: u128,
        trade_direction: TradeDirection,
    ) -> Option<SwapWithoutFeesResult>;

    /// How much destination token is provided for an amount of source token, with the curve's
    /// invariant held; `None` when the trade is degenerate or overflows.
    fn swap_without_fees(
        &self,
        source_amount: u128,
        swap_source_amount: u128,
        swap_destination_amount: u128,
        trade_direction: TradeDirection,
    ) -> (r: Option<SwapWithoutFeesResult>)
        ensures
            r == self.spec_swap_without_fees(source_amount, swap_source_amount, swap_destination_amount, trade_direction),
    ;

    /// The supply of pool tokens minted when a pool first receives liquidity.
    fn new_pool_supply(&self) -> (r: u128)
        ensures
            r == INITIAL_SWAP_POOL_AMOUNT,
    {
        INITIAL_SWAP_POOL_AMOUNT
    }

    /// The conversion of `pool_tokens_to_trading_tokens`.
    spec fn spec_pool_tokens_to_trading_tokens(
        &self,
        pool_tokens: u128,
        pool_token_supply: u128,
        swap_token1_amount: u128,
        swap_token2_amount: u128,
        round_direction: RoundDirection,
    ) -> Option<TradingTokenResult>;

    /// The amounts of both trading tokens that a quantity of pool tokens stands for.
    fn pool_tokens_to_trading_tokens(
        &self,
        pool_tokens: u128,
        pool_token_supply: u128,
        swap_token1_amount: u128,
        swap_token2_amount: u128,
        round_direction: RoundDirection,
    ) -> (r: Option<TradingTokenResult>)
        ensures
            r == self.spec_pool_tokens_to_trading_tokens(
                pool_tokens,
                pool_token_supply,
                swap_token1_amount,
                swap_token2_amount,
                round_direction,
            ),
    ;

    /// The pool tokens of `deposit_single_token_type`.
    spec fn spec_deposit_single_token_type(
        &self,
        source_amount: u128,
        swap_token1_amount: u128,
        swap_token2_amount: u128,
        pool_supply: u128,
        trade_direction: TradeDirection,
    ) -> Option<u128>;

    /// The pool tokens for a deposit of one token only: a swap of half of it followed by a
    /// deposit of both.
    fn deposit_single_token_type(
        &self,
        source_amount: u128,
        swap_token1_amount: u128,
        swap_token2_amount: u128,
        pool_supply: u128,
        trade_direction: TradeDirection,
    ) -> (r: Option<u128>)
        ensures
            r == self.spec_deposit_single_token_type(
                source_amount,
                swap_token1_amount,
                swap_token2_amount,
                pool_supply,
                trade_direction,
            ),
    ;

    /// The pool tokens of `withdraw_single_token_type_exact_out`.
    spec fn spec_withdraw_single_token_type_exact_out(
        &self,
        source_amount: u128,
        swap_token1_amount: u128,
        swap_token2_amount: u128,
        pool_supply: u128,
        trade_direction: TradeDirection,
    ) -> Option<u128>;

    /// The pool tokens to burn to withdraw an exact amount of one token only.
    fn withdraw_single_token_type_exact_out(
        &self,
        source_amount: u128,
        swap_token1_amount: u128,
        swap_token2_amount: u128,
        pool_supply: u128,
        trade_direction: TradeDirection,
    ) -> (r: Option<u128>)
        ensures
            r == self.spec_withdraw_single_token_type_exact_out(
                source_amount,
                swap_token1_amount,
                swap_token2_amount,
                pool_supply,
                trade_direction,
            ),
    ;

    /// Whether the curve's parameters are acceptable.
    spec fn spec_valid(&self) -> bool;

    /// Validates the curve's parameters.
    fn validate(&self) -> (r: Result<(), ErrorCode>)
        ensures
            r is Ok <==> self.spec_valid(),
            r is Err ==> r == Err::<(), ErrorCode>(ErrorCode::InvalidCurve),
    ;

    /// Validates the reserves a pool is bootstrapped with: neither side may be empty.
    fn validate_supply(&self, token1_amount: u64, token2_amount: u64) -> (r: Result<(), ErrorCode>)
        ensures
            r is Ok <==> (token1_amount != 0 && token2_amount != 0),
            r is Err ==> r == Err::<(), ErrorCode>(ErrorCode::EmptySupply),
    {
        if token1_amount == 0 {
            return Err(ErrorCode::EmptySupply);
        }
        if token2_amount == 0 {
            return Err(ErrorCode::EmptySupply);
        }
        Ok(())
    }

    /// Whether the curve accepts deposits after the pool was created.
    spec fn spec_allows_deposits(&self) -> bool;

    /// Whether deposits are allowed after the pool was created; a curve whose invariant makes
    /// later deposits exploitable refuses them.
    fn allows_deposits(&self) -> (r: bool)
        ensures
            r == self.spec_allows_deposits(),
    ;

    /// The value of `normalized_value`.
    spec fn spec_normalized_value(&self, swap_token1_amount: u128, swap_token2_amount: u128) -> Option<u128>;

    /// A scalar proportional to the pool's value, in units of one token.
    fn normalized_value(&self, swap_token1_amount: u128, swap_token2_amount: u128) -> (r: Option<u128>)
        ensures
            r == self.spec_normalized_value(swap_token1_amount, swap_token2_amount),
    ;
}

} // verus!
