//! The swap-curve orchestrator: fee deduction composed with the active curve variant.

use crate::calculator::CurveCalculator;
use crate::constant_product::ConstantProductCurve;
use crate::error::ErrorCode;
use crate::fees::Fees;
use crate::stable::StableCurve;
use crate::types::{RoundDirection, SwapWithoutFeesResult, TradeDirection, TradingTokenResult};
use vstd::prelude::*;

verus! {

/// Every result of swapping a source token for a destination token, fees included.
#[derive(Clone, Copy, Debug, PartialEq, Eq, Structural)]
pub struct SwapResult {
    /// New amount of source token
    pub new_swap_source_amount: u128,
    /// New amount of destination token
    pub new_swap_destination_amount: u128,
    /// Amount of source token swapped (includes fees)
    pub source_amount_swapped: u128,
    /// Amount of destination token swapped
    pub destination_amount_swapped: u128,
    /// Amount of source tokens going to pool holders
    pub trade_fee: u128,
    /// Amount of source tokens going to owner
    pub owner_fee: u128,
}

/// The supported curve variants; exactly one is active per pool.
#[derive(Clone, Copy, Debug, PartialEq, Eq, Structural)]
pub enum SwapCurve {
    /// Uniswap-style constant-product curve, invariant `token_a_amount * token_b_amount`.
    ConstantProductCurve(ConstantProductCurve),
    /// Stable curve, like the constant product but with a wide zone of one-to-one prices.
    StableCurve(StableCurve),
}

impl Default for SwapCurve {
    fn default() -> (r: SwapCurve)
        ensures
            r == SwapCurve::ConstantProductCurve(ConstantProductCurve {}),
    {
        SwapCurve::ConstantProductCurve(ConstantProductCurve::new())
    }
}

/// The swap with fees: `trade_fee + owner_fee` is taken from the input first, the curve
/// quotes the rest, and the fees are added back to the amount taken in, so they stay in the
/// pool. No result when any step under- or overflows or the curve gives no trade.
pub open spec fn swap_with_fees(
    quote: Option<SwapWithoutFeesResult>,
    source_amount: int,
    swap_source_amount: int,
    swap_destination_amount: int,
    trade_fee: int,
    owner_fee: int,
) -> Option<SwapResult> {
    match quote {
        None => None,
        Some(q) => {
            let swapped = q.source_amount_swapped + trade_fee + owner_fee;
            if swapped > u128::MAX || swap_source_amount + swapped > u128::MAX || q.destination_amount_swapped
                > swap_destination_amount {
                None
            } else {
                Some(
                    SwapResult {
                        new_swap_source_amount: (swap_source_amount + swapped) as u128,
                        new_swap_destination_amount: (swap_destination_amount - q.destination_amount_swapped) as u128,
                        source_amount_swapped: swapped as u128,
                        destination_amount_swapped: q.destination_amount_swapped,
                        trade_fee: trade_fee as u128,
                        owner_fee: owner_fee as u128,
                    },
                )
            }
        },
    }
}

/// Both trade fees on `source_amount` are defined and together do not exceed it.
pub open spec fn swap_fees_fit(fees: Fees, source_amount: int) -> bool {
    &&& fees.trading_fee_defined(source_amount)
    &&& fees.owner_trading_fee_defined(source_amount)
    &&& fees.spec_trading_fee(source_amount) + fees.spec_owner_trading_fee(source_amount) <= source_amount
}

/// The half of a single-sided amount that is conceptually swapped, at least one unit.
pub open spec fn half_amount(amount: int) -> int {
    if amount / 2 == 0 {
        1
    } else {
        amount / 2
    }
}

/// A single-sided amount less the trade fee on its half, when that fee is defined and does not
/// exceed the amount.
pub open spec fn less_half_fee(fees: Fees, amount: int) -> Option<u128> {
    if !fees.trading_fee_defined(half_amount(amount)) || fees.spec_trading_fee(half_amount(amount)) > amount {
        None
    } else {
        Some((amount - fees.spec_trading_fee(half_amount(amount))) as u128)
    }
}

impl SwapCurve {
    /// The full swap outcome on this curve.
    pub open spec fn spec_swap(
        self,
        source_amount: u128,
        swap_source_amount: u128,
        swap_destination_amount: u128,
        trade_direction: TradeDirection,
        fees: Fees,
    ) -> Option<SwapResult> {
        if !swap_fees_fit(fees, source_amount as int) {
            None
        } else {
            let trade_fee = fees.spec_trading_fee(source_amount as int);
            let owner_fee = fees.spec_owner_trading_fee(source_amount as int);
            swap_with_fees(
                self.spec_swap_without_fees(
                    (source_amount - trade_fee - owner_fee) as u128,
                    swap_source_amount,
                    swap_destination_amount,
                    trade_direction,
                ),
                source_amount as int,
                swap_source_amount as int,
                swap_destination_amount as int,
                trade_fee,
                owner_fee,
            )
        }
    }

    /// The pool tokens for a single-sided deposit, fees included.
    pub open spec fn spec_deposit_single_with_fees(
        self,
        source_amount: u128,
        swap_token_a_amount: u128,
        swap_token_b_amount: u128,
        pool_supply: u128,
        trade_direction: TradeDirection,
        fees: Fees,
    ) -> Option<u128> {
        if source_amount == 0 {
            Some(0)
        } else {
            match less_half_fee(fees, source_amount as int) {
                None => None,
                Some(net) => self.spec_deposit_single_token_type(
                    net,
                    swap_token_a_amount,
                    swap_token_b_amount,
                    pool_supply,
                    trade_direction,
                ),
            }
        }
    }

    /// The pool tokens to burn for a single-sided exact-out withdrawal, fees included.
    pub open spec fn spec_withdraw_single_with_fees(
        self,
        source_amount: u128,
        swap_token_a_amount: u128,
        swap_token_b_amount: u128,
        pool_supply: u128,
        trade_direction: TradeDirection,
        fees: Fees,
    ) -> Option<u128> {
        if source_amount == 0 {
            Some(0)
        } else {
            match less_half_fee(fees, source_amount as int) {
                None => None,
                Some(net) => self.spec_withdraw_single_token_type_exact_out(
                    net,
                    swap_token_a_amount,
                    swap_token_b_amount,
                    pool_supply,
                    trade_direction,
                ),
            }
        }
    }

    /// Subtracts the fees and calculates how much destination token is provided for an
    /// amount of source token.
    pub fn swap(
        &self,
        source_amount: u128,
        swap_source_amount: u128,
        swap_destination_amount: u128,
        trade_direction: TradeDirection,
        fees: &Fees,
    ) -> (r: Option<SwapResult>)
        ensures
            r == self.spec_swap(source_amount, swap_source_amount, swap_destination_amount, trade_direction, *fees),
    {
        let trade_fee = fees.trading_fee(source_amount)?;
        let owner_fee = fees.owner_trading_fee(source_amount)?;
        let total_fees = trade_fee.checked_add(owner_fee)?;
        let source_amount_less_fees = source_amount.checked_sub(total_fees)?;
        let SwapWithoutFeesResult { source_amount_swapped, destination_amount_swapped } = self.swap_without_fees(
            source_amount_less_fees,
            swap_source_amount,
            swap_destination_amount,
            trade_direction,
        )?;
        let source_amount_swapped = source_amount_swapped.checked_add(total_fees)?;
        Some(
            SwapResult {
                new_swap_source_amount: swap_source_amount.checked_add(source_amount_swapped)?,
                new_swap_destination_amount: swap_destination_amount.checked_sub(destination_amount_swapped)?,
                source_amount_swapped,
                destination_amount_swapped,
                trade_fee,
                owner_fee,
            },
        )
    }

    /// The single-sided amount less the trade fee on its half.
    fn subtract_half_fee(source_amount: u128, fees: &Fees) -> (r: Option<u128>)
        requires
            source_amount > 0,
        ensures
            r == less_half_fee(*fees, source_amount as int),
    {
        let half = source_amount / 2;
        let half_source_amount = if half == 0 {
            1
        } else {
            half
        };
        let trade_fee = fees.trading_fee(half_source_amount)?;
        source_amount.checked_sub(trade_fee)
    }

    /// Gets the amount of pool tokens for the deposited amount of token A or B, after the
    /// trade fee on the half that is conceptually swapped.
    pub fn deposit_single_token_type(
        &self,
        source_amount: u128,
        swap_token_a_amount: u128,
        swap_token_b_amount: u128,
        pool_supply: u128,
        trade_direction: TradeDirection,
        fees: &Fees,
    ) -> (r: Option<u128>)
        ensures
            r == self.spec_deposit_single_with_fees(
                source_amount,
                swap_token_a_amount,
                swap_token_b_amount,
                pool_supply,
                trade_direction,
                *fees,
            ),
    {
        if source_amount == 0 {
            return Some(0);
        }
        let net = Self::subtract_half_fee(source_amount, fees)?;
        CurveCalculator::deposit_single_token_type(
            self,
            net,
            swap_token_a_amount,
            swap_token_b_amount,
            pool_supply,
            trade_direction,
        )
    }

    /// Gets the amount of pool tokens to burn for the withdrawn amount of token A or B, after
    /// the trade fee on the half that is conceptually swapped.
    pub fn withdraw_single_token_type_exact_out(
        &self,
        source_amount: u128,
        swap_token_a_amount: u128,
        swap_token_b_amount: u128,
        pool_supply: u128,
        trade_direction: TradeDirection,
        fees: &Fees,
    ) -> (r: Option<u128>)
        ensures
            r == self.spec_withdraw_single_with_fees(
                source_amount,
                swap_token_a_amount,
                swap_token_b_amount,
                pool_supply,
                trade_direction,
                *fees,
            ),
    {
        if source_amount == 0 {
            return Some(0);
        }
        let net = Self::subtract_half_fee(source_amount, fees)?;
        CurveCalculator::withdraw_single_token_type_exact_out(
            self,
            net,
            swap_token_a_amount,
            swap_token_b_amount,
            pool_supply,
            trade_direction,
        )
    }
}

impl CurveCalculator for SwapCurve {
    open spec fn spec_swap_without_fees(
        &self,
        source_amount: u128,
        swap_source_amount: u128,
        swap_destination_amount: u128,
        trade_direction: TradeDirection,
    ) -> Option<SwapWithoutFeesResult> {
        match self {
            SwapCurve::ConstantProductCurve(c) => c.spec_swap_without_fees(
                source_amount,
                swap_source_amount,
                swap_destination_amount,
                trade_direction,
            ),
            SwapCurve::StableCurve(c) => c.spec_swap_without_fees(
                source_amount,
                swap_source_amount,
                swap_destination_amount,
                trade_direction,
            ),
        }
    }

    fn swap_without_fees(
        &self,
        source_amount: u128,
        swap_source_amount: u128,
        swap_destination_amount: u128,
        trade_direction: TradeDirection,
    ) -> (r: Option<SwapWithoutFeesResult>) {
        match self {
            SwapCurve::ConstantProductCurve(c) => c.swap_without_fees(
                source_amount,
                swap_source_amount,
                swap_destination_amount,
                trade_direction,
            ),
            SwapCurve::StableCurve(c) => c.swap_without_fees(
                source_amount,
                swap_source_amount,
                swap_destination_amount,
                trade_direction,
            ),
        }
    }

    open spec fn spec_pool_tokens_to_trading_tokens(
        &self,
        pool_tokens: u128,
        pool_token_supply: u128,
        swap_token1_amount: u128,
        swap_token2_amount: u128,
        round_direction: RoundDirection,
    ) -> Option<TradingTokenResult> {
        match self {
            SwapCurve::ConstantProductCurve(c) => c.spec_pool_tokens_to_trading_tokens(
                pool_tokens,
                pool_token_supply,
                swap_token1_amount,
                swap_token2_amount,
                round_direction,
            ),
            SwapCurve::StableCurve(c) => c.spec_pool_tokens_to_trading_tokens(
                pool_tokens,
                pool_token_supply,
                swap_token1_amount,
                swap_token2_amount,
                round_direction,
            ),
        }
    }

    fn pool_tokens_to_trading_tokens(
        &self,
        pool_tokens: u128,
        pool_token_supply: u128,
        swap_token1_amount: u128,
        swap_token2_amount: u128,
        round_direction: RoundDirection,
    ) -> (r: Option<TradingTokenResult>) {
        match self {
            SwapCurve::ConstantProductCurve(c) => c.pool_tokens_to_trading_tokens(
                pool_tokens,
                pool_token_supply,
                swap_token1_amount,
                swap_token2_amount,
                round_direction,
            ),
            SwapCurve::StableCurve(c) => c.pool_tokens_to_trading_tokens(
                pool_tokens,
                pool_token_supply,
                swap_token1_amount,
                swap_token2_amount,
                round_direction,
            ),
        }
    }

    open spec fn spec_deposit_single_token_type(
        &self,
        source_amount: u128,
        swap_token1_amount: u128,
        swap_token2_amount: u128,
        pool_supply: u128,
        trade_direction: TradeDirection,
    ) -> Option<u128> {
        match self {
            SwapCurve::ConstantProductCurve(c) => c.spec_deposit_single_token_type(
                source_amount,
                swap_token1_amount,
                swap_token2_amount,
                pool_supply,
                trade_direction,
            ),
            SwapCurve::StableCurve(c) => c.spec_deposit_single_token_type(
                source_amount,
                swap_token1_amount,
                swap_token2_amount,
                pool_supply,
                trade_direction,
            ),
        }
    }

    fn deposit_single_token_type(
        &self,
        source_amount: u128,
        swap_token1_amount: u128,
        swap_token2_amount: u128,
        pool_supply: u128,
        trade_direction: TradeDirection,
    ) -> (r: Option<u128>) {
        match self {
            SwapCurve::ConstantProductCurve(c) => CurveCalculator::deposit_single_token_type(
                c,
                source_amount,
                swap_token1_amount,
                swap_token2_amount,
                pool_supply,
                trade_direction,
            ),
            SwapCurve::StableCurve(c) => CurveCalculator::deposit_single_token_type(
                c,
                source_amount,
                swap_token1_amount,
                swap_token2_amount,
                pool_supply,
                trade_direction,
            ),
        }
    }

    open spec fn spec_withdraw_single_token_type_exact_out(
        &self,
        source_amount: u128,
        swap_token1_amount: u128,
        swap_token2_amount: u128,
        pool_supply: u128,
        trade_direction: TradeDirection,
    ) -> Option<u128> {
        match self {
            SwapCurve::ConstantProductCurve(c) => c.spec_withdraw_single_token_type_exact_out(
                source_amount,
                swap_token1_amount,
                swap_token2_amount,
                pool_supply,
                trade_direction,
            ),
            SwapCurve::StableCurve(c) => c.spec_withdraw_single_token_type_exact_out(
                source_amount,
                swap_token1_amount,
                swap_token2_amount,
                pool_supply,
                trade_direction,
            ),
        }
    }

    fn withdraw_single_token_type_exact_out(
        &self,
        source_amount: u128,
        swap_token1_amount: u128,
        swap_token2_amount: u128,
        pool_supply: u128,
        trade_direction: TradeDirection,
    ) -> (r: Option<u128>) {
        match self {
            SwapCurve::ConstantProductCurve(c) => CurveCalculator::withdraw_single_token_type_exact_out(
                c,
                source_amount,
                swap_token1_amount,
                swap_token2_amount,
                pool_supply,
                trade_direction,
            ),
            SwapCurve::StableCurve(c) => CurveCalculator::withdraw_single_token_type_exact_out(
                c,
                source_amount,
                swap_token1_amount,
                swap_token2_amount,
                pool_supply,
                trade_direction,
            ),
        }
    }

    open spec fn spec_allows_deposits(&self) -> bool {
        match self {
            SwapCurve::ConstantProductCurve(c) => c.spec_allows_deposits(),
            SwapCurve::StableCurve(c) => c.spec_allows_deposits(),
        }
    }

    fn allows_deposits(&self) -> (r: bool) {
        match self {
            SwapCurve::ConstantProductCurve(c) => c.allows_deposits(),
            SwapCurve::StableCurve(c) => c.allows_deposits(),
        }
    }

    open spec fn spec_valid(&self) -> bool {
        match self {
            SwapCurve::ConstantProductCurve(c) => c.spec_valid(),
            SwapCurve::StableCurve(c) => c.spec_valid(),
        }
    }

    fn validate(&self) -> (r: Result<(), ErrorCode>) {
        match self {
            SwapCurve::ConstantProductCurve(c) => c.validate(),
            SwapCurve::StableCurve(c) => c.validate(),
        }
    }

    open spec fn spec_normalized_value(&self, swap_token1_amount: u128, swap_token2_amount: u128) -> Option<u128> {
        match self {
            SwapCurve::ConstantProductCurve(c) => c.spec_normalized_value(swap_token1_amount, swap_token2_amount),
            SwapCurve::StableCurve(c) => c.spec_normalized_value(swap_token1_amount, swap_token2_amount),
        }
    }

    fn normalized_value(&self, swap_token1_amount: u128, swap_token2_amount: u128) -> (r: Option<u128>) {
        match self {
            SwapCurve::ConstantProductCurve(c) => c.normalized_value(swap_token1_amount, swap_token2_amount),
            SwapCurve::StableCurve(c) => c.normalized_value(swap_token1_amount, swap_token2_amount),
        }
    }
}

} // verus!
