//! Plain result and direction types shared by the curves.

use vstd::prelude::*;

verus! {

/// Initial amount of pool tokens minted when a pool first receives liquidity.
pub const INITIAL_SWAP_POOL_AMOUNT: u128 = 1_000_000_000;

/// `None` for zero, the value itself otherwise.
pub fn map_zero_to_none(x: u128) -> (r: Option<u128>)
    ensures
        x == 0 ==> r is None,
        x != 0 ==> r == Some(x),
{
    if x == 0 {
        None
    } else {
        Some(x)
    }
}

/// The direction of a trade.
#[derive(Clone, Copy, Debug, PartialEq, Eq, Structural)]
pub enum TradeDirection {
    /// Input token A, output token B
    AtoB,
    /// Input token B, output token A
    BtoA,
}

/// The direction to round pool-token to trading-token conversions.
#[derive(Clone, Copy, Debug, PartialEq, Eq, Structural)]
pub enum RoundDirection {
    /// Round down: never overpay the user.
    Floor,
    /// Round up: never underpay the pool.
    Ceiling,
}

impl TradeDirection {
    /// The other direction of trade.
    pub open spec fn spec_opposite(self) -> TradeDirection {
        match self {
            TradeDirection::AtoB => TradeDirection::BtoA,
            TradeDirection::BtoA => TradeDirection::AtoB,
        }
    }

    /// Gives the opposite direction of the trade: A to B becomes B to A, and vice versa.
    pub fn opposite(&self) -> (r: TradeDirection)
        ensures
            r == self.spec_opposite(),
            r != *self,
    {
        match self {
            TradeDirection::AtoB => TradeDirection::BtoA,
            TradeDirection::BtoA => TradeDirection::AtoB,
        }
    }
}

/// Raw curve output of a swap, before fee accounting.
#[derive(Clone, Copy, Debug, PartialEq, Eq, Structural)]
pub struct SwapWithoutFeesResult {
    /// Amount of source token swapped
    pub source_amount_swapped: u128,
    /// Amount of destination token swapped
    pub destination_amount_swapped: u128,
}

/// Amounts of both trading tokens implied by a quantity of pool tokens.
#[derive(Clone, Copy, Debug, PartialEq, Eq, Structural)]
pub struct TradingTokenResult {
    /// Amount of token 1
    pub token1_amount: u128,
    /// Amount of token 2
    pub token2_amount: u128,
}

} // verus!
