//! The stable curve: an amplified blend of constant-sum and constant-product behaviour, for
//! assets that trade near one to one. All arithmetic is checked 128-bit arithmetic; any
//! overflow gives no result.

use crate::calculator::{select_source_reserve, source_reserve, CurveCalculator};
use crate::constant_product::cp_pool_tokens_to_trading_tokens;
use crate::error::ErrorCode;
use crate::types::{map_zero_to_none, RoundDirection, SwapWithoutFeesResult, TradeDirection, TradingTokenResult};
use vstd::prelude::*;

verus! {

/// Smallest accepted amplification coefficient.
pub const MIN_AMP: u64 = 1;

/// Largest accepted amplification coefficient.
pub const MAX_AMP: u64 = 1_000_000;

/// Number of Newton steps after which an approximation stops even if it has not settled.
pub const NEWTON_ITERATIONS: u64 = 32;

/// `x` is a value of `u128`.
pub open spec fn fits(x: int) -> bool {
    0 <= x <= u128::MAX
}

/// An optional machine integer seen as an optional mathematical integer.
pub open spec fn as_int_option(r: Option<u128>) -> Option<int> {
    match r {
        Some(v) => Some(v as int),
        None => None,
    }
}

/// Two approximations within one unit of each other.
pub open spec fn settled(x: int, y: int) -> bool {
    x - y <= 1 && y - x <= 1
}

/// One Newton step towards the invariant `D` of reserves `a` and `b` (with `sum = a + b`):
/// `D_P = D^3 / (4ab)`, computed as `(D^2 / 2a) * D / 2b`, and
/// `D' = (ann * sum + 2 D_P) * D / ((ann - 1) D + 3 D_P)`.
pub open spec fn d_step(ann: int, sum: int, a: int, b: int, d: int) -> Option<int> {
    let dp = (d * d / (2 * a)) * d / (2 * b);
    let num = (ann * sum + 2 * dp) * d;
    let den = (ann - 1) * d + 3 * dp;
    if !fits(d * d) || !fits(2 * a) || !fits(2 * b) || a == 0 || b == 0 || !fits((d * d / (2 * a)) * d)
        || !fits(ann * sum) || !fits(2 * dp) || !fits(ann * sum + 2 * dp) || !fits(num) || ann < 1
        || !fits((ann - 1) * d) || !fits(3 * dp) || !fits(den) || den == 0 {
        None
    } else {
        Some(num / den)
    }
}

/// Newton's method for `D` from the guess `d`, with at most `fuel` steps; it stops at the
/// first step that moves by at most one unit.
pub open spec fn d_iterate(ann: int, sum: int, a: int, b: int, d: int, fuel: nat) -> Option<int>
    decreases fuel,
{
    if fuel == 0 {
        Some(d)
    } else {
        match d_step(ann, sum, a, b, d) {
            None => None,
            Some(next) => if settled(next, d) {
                Some(next)
            } else {
                d_iterate(ann, sum, a, b, next, (fuel - 1) as nat)
            },
        }
    }
}

/// The stable-swap invariant `D` of reserves `a` and `b` at leverage `ann`: zero for an
/// empty pool, otherwise Newton's method started from `a + b`.
pub open spec fn stable_d(ann: int, a: int, b: int) -> Option<int> {
    if !fits(a + b) {
        None
    } else if a + b == 0 {
        Some(0)
    } else {
        d_iterate(ann, a + b, a, b, a + b, NEWTON_ITERATIONS as nat)
    }
}

/// One Newton step towards the destination reserve `y` that solves `y^2 + (bv - d) y = c`:
/// `y' = (y^2 + c) / (2y + bv - d)`.
pub open spec fn y_step(c: int, bv: int, d: int, y: int) -> Option<int> {
    if !fits(y * y) || !fits(y * y + c) || !fits(2 * y) || !fits(2 * y + bv) || 2 * y + bv - d <= 0 {
        None
    } else {
        Some((y * y + c) / (2 * y + bv - d))
    }
}

/// Newton's method for `y` from the guess `y`, with at most `fuel` steps.
pub open spec fn y_iterate(c: int, bv: int, d: int, y: int, fuel: nat) -> Option<int>
    decreases fuel,
{
    if fuel == 0 {
        Some(y)
    } else {
        match y_step(c, bv, d, y) {
            None => None,
            Some(next) => if settled(next, y) {
                Some(next)
            } else {
                y_iterate(c, bv, d, next, (fuel - 1) as nat)
            },
        }
    }
}

/// The destination reserve that keeps the invariant `d` once the source reserve is `x`:
/// `c = D^3 / (4 x ann)`, computed as `(D^2 / 2x) * D / 2ann`, `bv = x + D / ann`, and
/// Newton's method started from `D`.
pub open spec fn stable_new_destination(ann: int, x: int, d: int) -> Option<int> {
    let c = (d * d / (2 * x)) * d / (2 * ann);
    let bv = x + d / ann;
    if !fits(d * d) || !fits(2 * x) || x == 0 || !fits((d * d / (2 * x)) * d) || !fits(2 * ann) || ann == 0
        || !fits(bv) {
        None
    } else {
        y_iterate(c, bv, d, d, NEWTON_ITERATIONS as nat)
    }
}

/// The stable swap quote: the input is taken whole, and the output is the drop of the
/// destination reserve that keeps the invariant; no trade when nothing comes out.
pub open spec fn stable_swap(ann: int, source_amount: int, s: int, dst: int) -> Option<SwapWithoutFeesResult> {
    match stable_d(ann, s, dst) {
        None => None,
        Some(d) => if !fits(s + source_amount) {
            None
        } else {
            match stable_new_destination(ann, s + source_amount, d) {
                None => None,
                Some(new_dst) => if new_dst >= dst {
                    None
                } else {
                    Some(
                        SwapWithoutFeesResult {
                            source_amount_swapped: source_amount as u128,
                            destination_amount_swapped: (dst - new_dst) as u128,
                        },
                    )
                },
            }
        },
    }
}

/// Pool tokens for a change of the invariant from `d0` to `d1` (`d0 <= d1`), rounded down.
pub open spec fn stable_deposit_tokens(d0: int, d1: int, supply: int) -> Option<int> {
    if d1 < d0 || !fits((d1 - d0) * supply) || d0 == 0 {
        None
    } else {
        Some((d1 - d0) * supply / d0)
    }
}

/// Pool tokens for a change of the invariant from `d0` down to `d1`, rounded up.
pub open spec fn stable_withdraw_tokens(d0: int, d1: int, supply: int) -> Option<int> {
    if d0 < d1 || !fits((d0 - d1) * supply) || d0 == 0 || !fits((d0 - d1) * supply + d0 - 1) {
        None
    } else {
        Some(((d0 - d1) * supply + d0 - 1) / d0)
    }
}

/// Reserves after adding `amount` to the source side (`add` true) or removing it.
pub open spec fn moved_reserves(dir: TradeDirection, a: int, b: int, amount: int, add: bool) -> (int, int) {
    let delta = if add { amount } else { -amount };
    match dir {
        TradeDirection::AtoB => (a + delta, b),
        TradeDirection::BtoA => (a, b + delta),
    }
}

/// The single-sided deposit: pool tokens in proportion to the growth of the invariant.
pub open spec fn stable_deposit_single(ann: int, source: int, a: int, b: int, supply: int, dir: TradeDirection) -> Option<int> {
    if source == 0 {
        Some(0)
    } else {
        let moved = moved_reserves(dir, a, b, source, true);
        if !fits(moved.0) || !fits(moved.1) {
            None
        } else {
            match (stable_d(ann, a, b), stable_d(ann, moved.0, moved.1)) {
                (Some(d0), Some(d1)) => stable_deposit_tokens(d0, d1, supply),
                _ => None,
            }
        }
    }
}

/// The single-sided exact-out withdrawal: pool tokens in proportion to the drop of the
/// invariant, rounded up.
pub open spec fn stable_withdraw_single(ann: int, output: int, a: int, b: int, supply: int, dir: TradeDirection) -> Option<int> {
    if output == 0 {
        Some(0)
    } else {
        let moved = moved_reserves(dir, a, b, output, false);
        if !fits(moved.0) || !fits(moved.1) {
            None
        } else {
            match (stable_d(ann, a, b), stable_d(ann, moved.0, moved.1)) {
                (Some(d0), Some(d1)) => stable_withdraw_tokens(d0, d1, supply),
                _ => None,
            }
        }
    }
}

/// Stable curve with amplification coefficient `amp`.
#[derive(Clone, Copy, Debug, Default, PartialEq, Eq, Structural)]
pub struct StableCurve {
    /// Amplification coefficient: the larger, the flatter the curve around the balanced point.
    pub amp: u64,
}

impl StableCurve {
    /// The leverage `ann = 2 * amp` used by both approximations.
    pub open spec fn leverage(self) -> int {
        2 * self.amp
    }
}

fn d_step_exec(ann: u128, sum: u128, a: u128, b: u128, d: u128) -> (r: Option<u128>)
    ensures
        as_int_option(r) == d_step(ann as int, sum as int, a as int, b as int, d as int),
{
    let p1 = d.checked_mul(d)?;
    let a2 = a.checked_mul(2)?;
    let b2 = b.checked_mul(2)?;
    let q1 = p1.checked_div(a2)?;
    let p2 = q1.checked_mul(d)?;
    let dp = p2.checked_div(b2)?;
    let l1 = ann.checked_mul(sum)?;
    let dp2 = dp.checked_mul(2)?;
    let l2 = l1.checked_add(dp2)?;
    let num = l2.checked_mul(d)?;
    let ann1 = ann.checked_sub(1)?;
    let r1 = ann1.checked_mul(d)?;
    let dp3 = dp.checked_mul(3)?;
    let den = r1.checked_add(dp3)?;
    num.checked_div(den)
}

fn compute_d(ann: u128, a: u128, b: u128) -> (r: Option<u128>)
    ensures
        as_int_option(r) == stable_d(ann as int, a as int, b as int),
{
    let sum = a.checked_add(b)?;
    if sum == 0 {
        return Some(0);
    }
    let ghost target = stable_d(ann as int, a as int, b as int);
    let mut d: u128 = sum;
    let mut i: u64 = 0;
    while i < NEWTON_ITERATIONS
        invariant
            i <= NEWTON_ITERATIONS,
            sum == a + b,
            sum != 0,
            target == stable_d(ann as int, a as int, b as int),
            target == d_iterate(ann as int, sum as int, a as int, b as int, d as int, (NEWTON_ITERATIONS - i) as nat),
        decreases NEWTON_ITERATIONS - i,
    {
        let next = d_step_exec(ann, sum, a, b, d)?;
        if (next >= d && next - d <= 1) || (next < d && d - next <= 1) {
            return Some(next);
        }
        d = next;
        i = i + 1;
    }
    Some(d)
}

fn y_step_exec(c: u128, bv: u128, d: u128, y: u128) -> (r: Option<u128>)
    ensures
        as_int_option(r) == y_step(c as int, bv as int, d as int, y as int),
{
    let yy = y.checked_mul(y)?;
    let num = yy.checked_add(c)?;
    let y2 = y.checked_mul(2)?;
    let t = y2.checked_add(bv)?;
    let den = t.checked_sub(d)?;
    num.checked_div(den)
}

fn compute_new_destination(ann: u128, x: u128, d: u128) -> (r: Option<u128>)
    ensures
        as_int_option(r) == stable_new_destination(ann as int, x as int, d as int),
{
    let dd = d.checked_mul(d)?;
    let x2 = x.checked_mul(2)?;
    let q = dd.checked_div(x2)?;
    let p = q.checked_mul(d)?;
    let ann2 = ann.checked_mul(2)?;
    let c = p.checked_div(ann2)?;
    let dq = d.checked_div(ann)?;
    let bv = x.checked_add(dq)?;
    let ghost target = stable_new_destination(ann as int, x as int, d as int);
    let mut y: u128 = d;
    let mut i: u64 = 0;
    while i < NEWTON_ITERATIONS
        invariant
            i <= NEWTON_ITERATIONS,
            target == stable_new_destination(ann as int, x as int, d as int),
            target == y_iterate(c as int, bv as int, d as int, y as int, (NEWTON_ITERATIONS - i) as nat),
        decreases NEWTON_ITERATIONS - i,
    {
        let next = y_step_exec(c, bv, d, y)?;
        if (next >= y && next - y <= 1) || (next < y && y - next <= 1) {
            return Some(next);
        }
        y = next;
        i = i + 1;
    }
    Some(y)
}

} // verus!

verus! {

/// The stable leverage `2 * amp` of a coefficient; it always fits in 128 bits.
fn leverage_of(amp: u64) -> (r: u128)
    ensures
        r == 2 * amp,
{
    (amp as u128) * 2
}

/// Reserves after moving `amount` on the source side, or nothing when that under- or
/// overflows.
fn move_reserves(dir: TradeDirection, a: u128, b: u128, amount: u128, add: bool) -> (r: Option<(u128, u128)>)
    ensures
        r is Some <==> fits(moved_reserves(dir, a as int, b as int, amount as int, add).0) && fits(
            moved_reserves(dir, a as int, b as int, amount as int, add).1,
        ),
        r is Some ==> (r->0).0 == moved_reserves(dir, a as int, b as int, amount as int, add).0 && (r->0).1
            == moved_reserves(dir, a as int, b as int, amount as int, add).1,
{
    match dir {
        TradeDirection::AtoB => {
            let moved = if add {
                a.checked_add(amount)?
            } else {
                a.checked_sub(amount)?
            };
            Some((moved, b))
        },
        TradeDirection::BtoA => {
            let moved = if add {
                b.checked_add(amount)?
            } else {
                b.checked_sub(amount)?
            };
            Some((a, moved))
        },
    }
}

impl CurveCalculator for StableCurve {
    open spec fn spec_swap_without_fees(
        &self,
        source_amount: u128,
        swap_source_amount: u128,
        swap_destination_amount: u128,
        trade_direction: TradeDirection,
    ) -> Option<SwapWithoutFeesResult> {
        stable_swap(self.leverage(), source_amount as int, swap_source_amount as int, swap_destination_amount as int)
    }

    fn swap_without_fees(
        &self,
        source_amount: u128,
        swap_source_amount: u128,
        swap_destination_amount: u128,
        trade_direction: TradeDirection,
    ) -> (r: Option<SwapWithoutFeesResult>) {
        let ann = leverage_of(self.amp);
        let d = compute_d(ann, swap_source_amount, swap_destination_amount)?;
        let new_source = swap_source_amount.checked_add(source_amount)?;
        let new_destination = compute_new_destination(ann, new_source, d)?;
        let destination_amount_swapped = map_zero_to_none(swap_destination_amount.checked_sub(new_destination)?)?;
        Some(SwapWithoutFeesResult { source_amount_swapped: source_amount, destination_amount_swapped })
    }

    open spec fn spec_pool_tokens_to_trading_tokens(
        &self,
        pool_tokens: u128,
        pool_token_supply: u128,
        swap_token1_amount: u128,
        swap_token2_amount: u128,
        round_direction: RoundDirection,
    ) -> Option<TradingTokenResult> {
        cp_pool_tokens_to_trading_tokens(
            pool_tokens as int,
            pool_token_supply as int,
            swap_token1_amount as int,
            swap_token2_amount as int,
            round_direction,
        )
    }

    fn pool_tokens_to_trading_tokens(
        &self,
        pool_tokens: u128,
        pool_token_supply: u128,
        swap_token1_amount: u128,
        swap_token2_amount: u128,
        round_direction: RoundDirection,
    ) -> (r: Option<TradingTokenResult>) {
        crate::constant_product::ConstantProductCurve::new().pool_tokens_to_trading_tokens(
            pool_tokens,
            pool_token_supply,
            swap_token1_amount,
            swap_token2_amount,
            round_direction,
        )
    }

    open spec fn spec_deposit_single_token_type(
        &self,
        source_amount: u128,
        swap_token1_amount: u128,
        swap_token2_amount: u128,
        pool_supply: u128,
        trade_direction: TradeDirection,
    ) -> Option<u128> {
        match stable_deposit_single(
            self.leverage(),
            source_amount as int,
            swap_token1_amount as int,
            swap_token2_amount as int,
            pool_supply as int,
            trade_direction,
        ) {
            Some(v) => Some(v as u128),
            None => None,
        }
    }

    fn deposit_single_token_type(
        &self,
        source_amount: u128,
        swap_token1_amount: u128,
        swap_token2_amount: u128,
        pool_supply: u128,
        trade_direction: TradeDirection,
    ) -> (r: Option<u128>) {
        if source_amount == 0 {
            return Some(0);
        }
        let ann = leverage_of(self.amp);
        let (a1, b1) = move_reserves(trade_direction, swap_token1_amount, swap_token2_amount, source_amount, true)?;
        let d0 = compute_d(ann, swap_token1_amount, swap_token2_amount)?;
        let d1 = compute_d(ann, a1, b1)?;
        let diff = d1.checked_sub(d0)?;
        let scaled = diff.checked_mul(pool_supply)?;
        scaled.checked_div(d0)
    }

    open spec fn spec_withdraw_single_token_type_exact_out(
        &self,
        source_amount: u128,
        swap_token1_amount: u128,
        swap_token2_amount: u128,
        pool_supply: u128,
        trade_direction: TradeDirection,
    ) -> Option<u128> {
        match stable_withdraw_single(
            self.leverage(),
            source_amount as int,
            swap_token1_amount as int,
            swap_token2_amount as int,
            pool_supply as int,
            trade_direction,
        ) {
            Some(v) => Some(v as u128),
            None => None,
        }
    }

    fn withdraw_single_token_type_exact_out(
        &self,
        source_amount: u128,
        swap_token1_amount: u128,
        swap_token2_amount: u128,
        pool_supply: u128,
        trade_direction: TradeDirection,
    ) -> (r: Option<u128>) {
        if source_amount == 0 {
            return Some(0);
        }
        let ann = leverage_of(self.amp);
        let (a1, b1) = move_reserves(trade_direction, swap_token1_amount, swap_token2_amount, source_amount, false)?;
        let d0 = compute_d(ann, swap_token1_amount, swap_token2_amount)?;
        let d1 = compute_d(ann, a1, b1)?;
        if d0 == 0 {
            return None;
        }
        let diff = d0.checked_sub(d1)?;
        let scaled = diff.checked_mul(pool_supply)?;
        let rounded = scaled.checked_add(d0 - 1)?;
        rounded.checked_div(d0)
    }

    open spec fn spec_allows_deposits(&self) -> bool {
        true
    }

    fn allows_deposits(&self) -> (r: bool) {
        true
    }

    open spec fn spec_valid(&self) -> bool {
        MIN_AMP <= self.amp <= MAX_AMP
    }

    fn validate(&self) -> (r: Result<(), ErrorCode>) {
        if self.amp < MIN_AMP || self.amp > MAX_AMP {
            Err(ErrorCode::InvalidCurve)
        } else {
            Ok(())
        }
    }

    open spec fn spec_normalized_value(&self, swap_token1_amount: u128, swap_token2_amount: u128) -> Option<u128> {
        match stable_d(self.leverage(), swap_token1_amount as int, swap_token2_amount as int) {
            Some(v) => Some(v as u128),
            None => None,
        }
    }

    fn normalized_value(&self, swap_token1_amount: u128, swap_token2_amount: u128) -> (r: Option<u128>) {
        compute_d(leverage_of(self.amp), swap_token1_amount, swap_token2_amount)
    }
}

} // verus!
