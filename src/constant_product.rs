//! The constant-product curve: `reserve1 * reserve2` is held constant by every trade.

use crate::calculator::{select_source_reserve, source_reserve, CurveCalculator};
use crate::error::ErrorCode;
use crate::math::{
    ceil_div, div_ceil, fits_imprecise, floor_sqrt, floor_sqrt_of, imprecise_fits, imprecise_of, is_floor_sqrt,
    precise_add, precise_add_spec, precise_div, precise_div_spec, precise_mul, precise_mul_spec, precise_new,
    precise_one, precise_sqrt, precise_sqrt_of, precise_sub, precise_sub_spec, precise_to_imprecise,
};
use crate::math::Precise;
use crate::types::{map_zero_to_none, RoundDirection, SwapWithoutFeesResult, TradeDirection, TradingTokenResult};
use vstd::prelude::*;

verus! {

/// The constant-product quote for `source_amount` in on reserves `(s, d)`: the new
/// destination reserve is `ceil(s * d / (s + source_amount))`, and the source side takes in
/// only as much as that reserve requires, `ceil(s * d / new destination reserve) - s`. No
/// trade when the product overflows, when the input exceeds the product, or when nothing
/// comes out.
pub open spec fn cp_swap(source_amount: int, s: int, d: int) -> Option<SwapWithoutFeesResult> {
    let k = s * d;
    let grown = s + source_amount;
    if k > u128::MAX || grown > u128::MAX || grown == 0 || k < grown {
        None
    } else {
        let new_d = div_ceil(k, grown);
        let new_s = div_ceil(k, new_d);
        if new_s < s || new_d >= d {
            None
        } else {
            Some(
                SwapWithoutFeesResult {
                    source_amount_swapped: (new_s - s) as u128,
                    destination_amount_swapped: (d - new_d) as u128,
                },
            )
        }
    }
}

/// A share `n / supply` of a reserve, rounded per `round`. Rounding up is skipped when the
/// share rounds down to zero, so that a dust request is rejected later rather than charged
/// a whole token.
pub open spec fn rounded_share(n: int, supply: int, round: RoundDirection) -> int {
    match round {
        RoundDirection::Floor => n / supply,
        RoundDirection::Ceiling => if n % supply > 0 && n / supply > 0 {
            n / supply + 1
        } else {
            n / supply
        },
    }
}

/// The proportional conversion `pool_tokens * reserve / supply` of both reserves.
pub open spec fn cp_pool_tokens_to_trading_tokens(
    pool_tokens: int,
    supply: int,
    a: int,
    b: int,
    round: RoundDirection,
) -> Option<TradingTokenResult> {
    if pool_tokens * a > u128::MAX || pool_tokens * b > u128::MAX || supply == 0 {
        None
    } else {
        Some(
            TradingTokenResult {
                token1_amount: rounded_share(pool_tokens * a, supply, round) as u128,
                token2_amount: rounded_share(pool_tokens * b, supply, round) as u128,
            },
        )
    }
}

/// Whether the constant-product normalized value is defined: the product of the reserves fits
/// in 128 bits.
pub open spec fn cp_normalized_value_defined(a: int, b: int) -> bool {
    a * b <= u128::MAX
}

/// A raw fixed-point value rounded to whole pool tokens, when that fits in 128 bits.
pub open spec fn whole_tokens(v: int) -> Option<u128> {
    if imprecise_fits(v) {
        Some(imprecise_of(v) as u128)
    } else {
        None
    }
}

/// `supply * (x - 1)` in 12-digit fixed point, rounded to whole pool tokens, for the raw
/// square root `root`, or `supply * (1 - x)` when `shrink`.
pub open spec fn supply_share(root: Option<int>, supply: int, shrink: bool) -> Option<u128> {
    match root {
        None => None,
        Some(root) => match if shrink {
            precise_sub_spec(precise_one(), root)
        } else {
            precise_sub_spec(root, precise_one())
        } {
            None => None,
            Some(part) => match precise_mul_spec(supply * precise_one(), part) {
                None => None,
                Some(v) => whole_tokens(v),
            },
        },
    }
}

/// The single-sided deposit in 12-digit fixed point: `supply * (sqrt(1 + source / reserve) - 1)`,
/// rounded to the nearest whole pool token; the square root is the one `PreciseNumber` computes.
pub open spec fn cp_deposit_single(source: u128, reserve: u128, supply: u128) -> Option<u128> {
    match precise_div_spec(source * precise_one(), reserve * precise_one()) {
        None => None,
        Some(ratio) => match precise_add_spec(precise_one(), ratio) {
            None => None,
            Some(base) => supply_share(precise_sqrt_of(base), supply as int, false),
        },
    }
}

/// The single-sided exact-out withdrawal in 12-digit fixed point:
/// `supply * (1 - sqrt(1 - output / reserve))`, rounded to the nearest whole pool token.
pub open spec fn cp_withdraw_single(output: u128, reserve: u128, supply: u128) -> Option<u128> {
    match precise_div_spec(output * precise_one(), reserve * precise_one()) {
        None => None,
        Some(ratio) => match precise_sub_spec(precise_one(), ratio) {
            None => None,
            Some(base) => supply_share(precise_sqrt_of(base), supply as int, true),
        },
    }
}

/// `supply * (root - 1)` (or `supply * (1 - root)` when `shrink`) rounded to whole tokens.
fn supply_share_exec(root: &Precise, supply: u128, shrink: bool) -> (r: Option<u128>)
    ensures
        r == supply_share(Some(root.value()), supply as int, shrink),
{
    let one = precise_new(1)?;
    let part = if shrink {
        precise_sub(&one, root)?
    } else {
        precise_sub(root, &one)?
    };
    let tokens = precise_mul(&precise_new(supply)?, &part)?;
    if !fits_imprecise(&tokens) {
        return None;
    }
    precise_to_imprecise(&tokens)
}

/// Pool tokens for a single-sided deposit of `source` against the reserve `reserve`.
fn deposit_pool_tokens(source: u128, reserve: u128, supply: u128) -> (r: Option<u128>)
    ensures
        r == cp_deposit_single(source, reserve, supply),
{
    let one = precise_new(1)?;
    let ratio = precise_div(&precise_new(source)?, &precise_new(reserve)?)?;
    let base = precise_add(&one, &ratio)?;
    let root = precise_sqrt(&base)?;
    supply_share_exec(&root, supply, false)
}

/// Pool tokens to burn for a single-sided withdrawal of exactly `output` from the reserve
/// `reserve`.
fn withdraw_pool_tokens(output: u128, reserve: u128, supply: u128) -> (r: Option<u128>)
    ensures
        r == cp_withdraw_single(output, reserve, supply),
{
    let one = precise_new(1)?;
    let ratio = precise_div(&precise_new(output)?, &precise_new(reserve)?)?;
    let base = precise_sub(&one, &ratio)?;
    let root = precise_sqrt(&base)?;
    supply_share_exec(&root, supply, true)
}

/// Uniswap-style constant-product curve.
#[derive(Clone, Copy, Debug, Default, PartialEq, Eq, Structural)]
pub struct ConstantProductCurve {}

impl ConstantProductCurve {
    /// The constant-product curve; it has no parameters.
    pub fn new() -> (r: ConstantProductCurve)
        ensures
            r == (ConstantProductCurve {}),
    {
        ConstantProductCurve {}
    }

    /// The constant-product swap quote on a source and a destination reserve.
    pub fn swap(source_amount: u128, swap_source_amount: u128, swap_destination_amount: u128) -> (r: Option<SwapWithoutFeesResult>)
        ensures
            r == cp_swap(source_amount as int, swap_source_amount as int, swap_destination_amount as int),
    {
        let product = swap_source_amount.checked_mul(swap_destination_amount)?;
        let new_swap_source_amount = swap_source_amount.checked_add(source_amount)?;
        let (new_swap_destination_amount, new_swap_source_amount) = ceil_div(product, new_swap_source_amount)?;
        let source_amount_swapped = new_swap_source_amount.checked_sub(swap_source_amount)?;
        let destination_amount_swapped = map_zero_to_none(swap_destination_amount.checked_sub(new_swap_destination_amount)?)?;
        Some(SwapWithoutFeesResult { source_amount_swapped, destination_amount_swapped })
    }
}

/// One side of the proportional conversion, rounded per `round_direction`.
fn pool_share(pool_tokens: u128, reserve: u128, supply: u128, round_direction: RoundDirection) -> (r: Option<u128>)
    ensures
        r is Some <==> (pool_tokens * reserve <= u128::MAX && supply != 0),
        r is Some ==> r->0 == rounded_share(pool_tokens * reserve, supply as int, round_direction),
{
    let product = pool_tokens.checked_mul(reserve)?;
    let share = product.checked_div(supply)?;
    match round_direction {
        RoundDirection::Floor => Some(share),
        RoundDirection::Ceiling => {
            let remainder = product.checked_rem(supply)?;
            if remainder > 0 && share > 0 {
                proof {
                    assert(share * supply <= product) by (nonlinear_arith)
                        requires share == product / supply, supply > 0;
                    assert(share < u128::MAX) by (nonlinear_arith)
                        requires share * supply <= product, supply > 1, product <= u128::MAX;
                }
                Some(share + 1)
            } else {
                Some(share)
            }
        }
    }
}

impl CurveCalculator for ConstantProductCurve {
    open spec fn spec_swap_without_fees(
        &self,
        source_amount: u128,
        swap_source_amount: u128,
        swap_destination_amount: u128,
        trade_direction: TradeDirection,
    ) -> Option<SwapWithoutFeesResult> {
        cp_swap(source_amount as int, swap_source_amount as int, swap_destination_amount as int)
    }

    fn swap_without_fees(
        &self,
        source_amount: u128,
        swap_source_amount: u128,
        swap_destination_amount: u128,
        trade_direction: TradeDirection,
    ) -> (r: Option<SwapWithoutFeesResult>) {
        ConstantProductCurve::swap(source_amount, swap_source_amount, swap_destination_amount)
    }

    open spec fn spec_pool_tokens_to_trading_tokens(
        &self,
        pool_tokens: u128,
        pool_token_supply: u128,
        swap_token1_amount: u128,
        swap_token2_amount: u128,
        round_direction: RoundDirection,
    ) -> Option<TradingTokenResult> {
        cp_pool_tokens_to_trading_tokens(
            pool_tokens as int,
            pool_token_supply as int,
            swap_token1_amount as int,
            swap_token2_amount as int,
            round_direction,
        )
    }

    fn pool_tokens_to_trading_tokens(
        &self,
        pool_tokens: u128,
        pool_token_supply: u128,
        swap_token1_amount: u128,
        swap_token2_amount: u128,
        round_direction: RoundDirection,
    ) -> (r: Option<TradingTokenResult>) {
        let token1_amount = pool_share(pool_tokens, swap_token1_amount, pool_token_supply, round_direction)?;
        let token2_amount = pool_share(pool_tokens, swap_token2_amount, pool_token_supply, round_direction)?;
        Some(TradingTokenResult { token1_amount, token2_amount })
    }

    open spec fn spec_deposit_single_token_type(
        &self,
        source_amount: u128,
        swap_token1_amount: u128,
        swap_token2_amount: u128,
        pool_supply: u128,
        trade_direction: TradeDirection,
    ) -> Option<u128> {
        cp_deposit_single(
            source_amount,
            source_reserve(trade_direction, swap_token1_amount, swap_token2_amount),
            pool_supply,
        )
    }

    fn deposit_single_token_type(
        &self,
        source_amount: u128,
        swap_token1_amount: u128,
        swap_token2_amount: u128,
        pool_supply: u128,
        trade_direction: TradeDirection,
    ) -> (r: Option<u128>) {
        let reserve = select_source_reserve(trade_direction, swap_token1_amount, swap_token2_amount);
        deposit_pool_tokens(source_amount, reserve, pool_supply)
    }

    open spec fn spec_withdraw_single_token_type_exact_out(
        &self,
        source_amount: u128,
        swap_token1_amount: u128,
        swap_token2_amount: u128,
        pool_supply: u128,
        trade_direction: TradeDirection,
    ) -> Option<u128> {
        cp_withdraw_single(
            source_amount,
            source_reserve(trade_direction, swap_token1_amount, swap_token2_amount),
            pool_supply,
        )
    }

    fn withdraw_single_token_type_exact_out(
        &self,
        source_amount: u128,
        swap_token1_amount: u128,
        swap_token2_amount: u128,
        pool_supply: u128,
        trade_direction: TradeDirection,
    ) -> (r: Option<u128>) {
        let reserve = select_source_reserve(trade_direction, swap_token1_amount, swap_token2_amount);
        withdraw_pool_tokens(source_amount, reserve, pool_supply)
    }

    open spec fn spec_allows_deposits(&self) -> bool {
        true
    }

    fn allows_deposits(&self) -> (r: bool) {
        true
    }

    open spec fn spec_valid(&self) -> bool {
        true
    }

    fn validate(&self) -> (r: Result<(), ErrorCode>) {
        Ok(())
    }

    open spec fn spec_normalized_value(&self, swap_token1_amount: u128, swap_token2_amount: u128) -> Option<u128> {
        if cp_normalized_value_defined(swap_token1_amount as int, swap_token2_amount as int) {
            Some(floor_sqrt_of(swap_token1_amount * swap_token2_amount))
        } else {
            None
        }
    }

    fn normalized_value(&self, swap_token1_amount: u128, swap_token2_amount: u128) -> (r: Option<u128>) {
        let product = swap_token1_amount.checked_mul(swap_token2_amount)?;
        let root = floor_sqrt(product)?;
        proof {
            let chosen = floor_sqrt_of(product as int);
            assert(is_floor_sqrt(root as int, product as int));
            lemma_floor_sqrt_unique(root as int, chosen as int, product as int);
        }
        Some(root)
    }
}

/// The integer square root rounded down is unique.
proof fn lemma_floor_sqrt_unique(r1: int, r2: int, n: int)
    requires
        is_floor_sqrt(r1, n),
        is_floor_sqrt(r2, n),
    ensures
        r1 == r2,
{
    if r1 < r2 {
        assert((r1 + 1) * (r1 + 1) <= r2 * r2) by (nonlinear_arith)
            requires r1 + 1 <= r2, r1 >= 0;
    } else if r2 < r1 {
        assert((r2 + 1) * (r2 + 1) <= r1 * r1) by (nonlinear_arith)
            requires r2 + 1 <= r1, r2 >= 0;
    }
}

} // verus!
