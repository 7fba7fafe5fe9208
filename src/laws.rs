//! Properties that hold across operations: value is never lost by a swap, a deposit or a
//! withdrawal, and enabled fees never vanish.

use crate::calculator::CurveCalculator;
use crate::constant_product::{cp_pool_tokens_to_trading_tokens, cp_swap, rounded_share, ConstantProductCurve};
use crate::fees::fee_of;
use crate::fees::Fees;
use crate::instructions::{by_token, deposit2_outcome, ordered};
use crate::pool::Pool;
use crate::utils::Pubkey;
use crate::math::{div_ceil, floor_sqrt_of, is_floor_sqrt};
use crate::swap_curve::SwapCurve;
use crate::types::{RoundDirection, TradeDirection};
use vstd::arithmetic::div_mod::{lemma_fundamental_div_mod, lemma_mod_bound};
use vstd::prelude::*;

verus! {

/// The range over which integer square roots are reasoned about here: `2^130`.
pub open spec fn sqrt_domain() -> int {
    4 * (u128::MAX + 1)
}

/// `ceil(k / n) * n >= k`.
proof fn lemma_div_ceil_mul(k: int, n: int)
    requires
        k >= 0,
        n > 0,
    ensures
        div_ceil(k, n) * n >= k,
{
    lemma_fundamental_div_mod(k + n - 1, n);
    lemma_mod_bound(k + n - 1, n);
    assert(n * ((k + n - 1) / n) == (k + n - 1) / n * n) by (nonlinear_arith);
}

/// Every number below `2^130` has an integer square root that fits in 128 bits.
proof fn lemma_floor_sqrt_exists(n: int)
    requires
        0 <= n <= sqrt_domain(),
    ensures
        is_floor_sqrt(floor_sqrt_of(n) as int, n),
{
    let r = floor_root_witness(n);
    assert(is_floor_sqrt(r as int, n));
}

/// An integer square root, built by counting up.
proof fn floor_root_witness(n: int) -> (r: u128)
    requires
        0 <= n <= sqrt_domain(),
    ensures
        is_floor_sqrt(r as int, n),
        r as int * r as int <= n,
        r <= 0x2_0000_0000_0000_0000,
    decreases n,
{
    if n == 0 {
        0
    } else {
        let p = floor_root_witness(n - 1);
        let q: int = p as int + 1;
        if q * q <= n {
            assert(q * q == n) by (nonlinear_arith)
                requires
                    q * q <= n,
                    n - 1 < q * q,
            ;
            assert(q <= 0x2_0000_0000_0000_0000) by (nonlinear_arith)
                requires
                    q * q <= sqrt_domain(),
                    q > 0,
            ;
            assert(n < (q + 1) * (q + 1)) by (nonlinear_arith)
                requires
                    q * q == n,
                    q > 0,
            ;
            q as u128
        } else {
            p
        }
    }
}

/// The integer square root is monotone.
proof fn lemma_floor_sqrt_monotone(n1: int, n2: int)
    requires
        0 <= n1 <= n2 <= sqrt_domain(),
    ensures
        floor_sqrt_of(n1) <= floor_sqrt_of(n2),
{
    lemma_floor_sqrt_exists(n1);
    lemma_floor_sqrt_exists(n2);
    let r1 = floor_sqrt_of(n1) as int;
    let r2 = floor_sqrt_of(n2) as int;
    if r1 > r2 {
        assert((r2 + 1) * (r2 + 1) <= r1 * r1) by (nonlinear_arith)
            requires
                r1 >= r2 + 1,
                r2 >= 0,
        ;
    }
}

/// A constant-product quote never lowers the product of the reserves: after taking in
/// `source_amount_swapped` and paying out `destination_amount_swapped`, the reserves multiply
/// to at least what they did before.
pub proof fn constant_product_quote_keeps_product(source_amount: u128, swap_source_amount: u128, swap_destination_amount: u128)
    requires
        cp_swap(source_amount as int, swap_source_amount as int, swap_destination_amount as int) is Some,
    ensures
        ({
            let q = cp_swap(source_amount as int, swap_source_amount as int, swap_destination_amount as int)->0;
            (swap_source_amount + q.source_amount_swapped) * (swap_destination_amount - q.destination_amount_swapped)
                >= swap_source_amount * swap_destination_amount
        }),
{
    let s = swap_source_amount as int;
    let d = swap_destination_amount as int;
    let k = s * d;
    let grown = s + source_amount;
    let new_d = div_ceil(k, grown);
    assert(k >= 0) by (nonlinear_arith)
        requires
            s >= 0,
            d >= 0,
            k == s * d,
    ;
    assert(new_d > 0) by (nonlinear_arith)
        requires
            k >= grown,
            grown > 0,
            new_d == (k + grown - 1) / grown,
    ;
    lemma_div_ceil_mul(k, new_d);
    let new_s = div_ceil(k, new_d);
    assert(new_s <= k) by (nonlinear_arith)
        requires
            new_d >= 1,
            k >= 0,
            new_s == (k + new_d - 1) / new_d,
    ;
    let q = cp_swap(source_amount as int, s, d)->0;
    assert(q.source_amount_swapped == new_s - s);
    assert(q.destination_amount_swapped == d - new_d);
}

/// Invariant non-decrease with its tolerance: a constant-product quote never lowers the
/// normalized value `floor(sqrt(reserve1 * reserve2))`, and raises it by at most one unit.
pub proof fn constant_product_quote_value_within_one(
    source_amount: u128,
    swap_source_amount: u128,
    swap_destination_amount: u128,
)
    requires
        cp_swap(source_amount as int, swap_source_amount as int, swap_destination_amount as int) is Some,
    ensures
        ({
            let q = cp_swap(source_amount as int, swap_source_amount as int, swap_destination_amount as int)->0;
            let before = swap_source_amount * swap_destination_amount;
            let after = (swap_source_amount + q.source_amount_swapped) * (swap_destination_amount
                - q.destination_amount_swapped);
            &&& before <= after
            &&& floor_sqrt_of(before) <= floor_sqrt_of(after) <= floor_sqrt_of(before) + 1
        }),
{
    constant_product_quote_keeps_product(source_amount, swap_source_amount, swap_destination_amount);
    let s = swap_source_amount as int;
    let d = swap_destination_amount as int;
    let k = s * d;
    let g = s + source_amount;
    let new_d = div_ceil(k, g);
    let new_s = div_ceil(k, new_d);
    let q = cp_swap(source_amount as int, s, d)->0;
    assert(k >= 0) by (nonlinear_arith)
        requires
            s >= 0,
            d >= 0,
            k == s * d,
    ;
    lemma_div_ceil_bounds(k, g);
    lemma_div_ceil_bounds(k, new_d);
    let gain = new_s * new_d - k;
    // The source side takes no more than was offered.
    assert(new_s <= g) by (nonlinear_arith)
        requires
            new_d * g >= k,
            new_s * new_d < k + new_d,
            new_d > 0,
            g > 0,
    ;
    assert(new_s * new_d <= g * new_d) by (nonlinear_arith)
        requires
            new_s <= g,
            new_d > 0,
    ;
    assert(q.source_amount_swapped == new_s - s);
    assert(q.destination_amount_swapped == d - new_d);
    // The rounding gain is below both the new destination reserve and the grown source
    // reserve, whose product is below twice the old product.
    assert((gain + 1) * (gain + 1) <= new_d * g) by (nonlinear_arith)
        requires
            gain + 1 <= new_d,
            gain + 1 <= g,
            gain >= 0,
    ;
    lemma_floor_sqrt_exists(k);
    let r = floor_sqrt_of(k) as int;
    assert(k + gain < (r + 2) * (r + 2)) by (nonlinear_arith)
        requires
            (gain + 1) * (gain + 1) <= new_d * g,
            new_d * g < k + g,
            g <= k,
            r * r <= k,
            k < (r + 1) * (r + 1),
            r >= 0,
            gain >= 0,
    ;
    assert(k + gain <= sqrt_domain()) by (nonlinear_arith)
        requires
            (gain + 1) * (gain + 1) <= new_d * g,
            new_d * g < k + g,
            g <= k,
            k <= u128::MAX,
            gain >= 0,
    ;
    lemma_floor_sqrt_exists(k + gain);
    lemma_floor_sqrt_monotone(k, k + gain);
    let r2 = floor_sqrt_of(k + gain) as int;
    if r2 > r + 1 {
        assert((r + 2) * (r + 2) <= r2 * r2) by (nonlinear_arith)
            requires
                r2 >= r + 2,
                r >= 0,
        ;
    }
}

/// `ceil(k / n)` lies in `[k / n, k / n + 1)`: `n * ceil(k / n)` is at least `k` and below
/// `k + n`.
proof fn lemma_div_ceil_bounds(k: int, n: int)
    requires
        k >= 0,
        n > 0,
    ensures
        div_ceil(k, n) * n >= k,
        div_ceil(k, n) * n < k + n,
        k >= n ==> div_ceil(k, n) > 0,
{
    lemma_div_ceil_mul(k, n);
    lemma_fundamental_div_mod(k + n - 1, n);
    lemma_mod_bound(k + n - 1, n);
    assert(n * ((k + n - 1) / n) == (k + n - 1) / n * n) by (nonlinear_arith);
    if k >= n && (k + n - 1) / n <= 0 {
        assert(n * ((k + n - 1) / n) <= 0) by (nonlinear_arith)
            requires
                (k + n - 1) / n <= 0,
                n > 0,
        ;
    }
}

/// Invariant non-decrease: a swap on the constant-product curve, fees included, never lowers
/// the product of the reserves, and so never lowers the pool's normalized value where that is
/// defined.
pub proof fn swap_never_decreases_value(
    curve: ConstantProductCurve,
    source_amount: u128,
    swap_source_amount: u128,
    swap_destination_amount: u128,
    trade_direction: TradeDirection,
    fees: Fees,
)
    requires
        SwapCurve::ConstantProductCurve(curve).spec_swap(
            source_amount,
            swap_source_amount,
            swap_destination_amount,
            trade_direction,
            fees,
        ) is Some,
    ensures
        ({
            let res = SwapCurve::ConstantProductCurve(curve).spec_swap(
                source_amount,
                swap_source_amount,
                swap_destination_amount,
                trade_direction,
                fees,
            )->0;
            let before = by_token(trade_direction, swap_source_amount, swap_destination_amount);
            let after = by_token(trade_direction, res.new_swap_source_amount, res.new_swap_destination_amount);
            &&& res.new_swap_source_amount * res.new_swap_destination_amount >= swap_source_amount
                * swap_destination_amount
            &&& (curve.spec_normalized_value(before.0, before.1) is Some && curve.spec_normalized_value(
                after.0,
                after.1,
            ) is Some) ==> curve.spec_normalized_value(before.0, before.1)->0 <= curve.spec_normalized_value(
                after.0,
                after.1,
            )->0
        }),
{
    let trade_fee = fees.spec_trading_fee(source_amount as int);
    let owner_fee = fees.spec_owner_trading_fee(source_amount as int);
    let net = (source_amount - trade_fee - owner_fee) as u128;
    let q = cp_swap(net as int, swap_source_amount as int, swap_destination_amount as int)->0;
    constant_product_quote_keeps_product(net, swap_source_amount, swap_destination_amount);
    let res = SwapCurve::ConstantProductCurve(curve).spec_swap(
        source_amount,
        swap_source_amount,
        swap_destination_amount,
        trade_direction,
        fees,
    )->0;
    let d_after = swap_destination_amount - q.destination_amount_swapped;
    assert(res.new_swap_source_amount * d_after >= (swap_source_amount + q.source_amount_swapped) * d_after)
        by (nonlinear_arith)
        requires
            res.new_swap_source_amount >= swap_source_amount + q.source_amount_swapped,
            d_after >= 0,
    ;
    let before = by_token(trade_direction, swap_source_amount, swap_destination_amount);
    let after = by_token(trade_direction, res.new_swap_source_amount, res.new_swap_destination_amount);
    assert(before.0 * before.1 == swap_source_amount * swap_destination_amount) by (nonlinear_arith)
        requires
            (before.0 == swap_source_amount && before.1 == swap_destination_amount) || (before.1
                == swap_source_amount && before.0 == swap_destination_amount),
    ;
    assert(after.0 * after.1 == res.new_swap_source_amount * res.new_swap_destination_amount) by (nonlinear_arith)
        requires
            (after.0 == res.new_swap_source_amount && after.1 == res.new_swap_destination_amount) || (after.1
                == res.new_swap_source_amount && after.0 == res.new_swap_destination_amount),
    ;
    if curve.spec_normalized_value(before.0, before.1) is Some && curve.spec_normalized_value(after.0, after.1) is Some {
        assert(0 <= before.0 * before.1) by (nonlinear_arith)
            requires
                before.0 >= 0,
                before.1 >= 0,
        ;
        lemma_floor_sqrt_monotone(before.0 * before.1, after.0 * after.1);
    }
}

/// A constant-product quote takes in no more than the amount offered.
proof fn lemma_quote_within_input(source_amount: u128, swap_source_amount: u128, swap_destination_amount: u128)
    requires
        cp_swap(source_amount as int, swap_source_amount as int, swap_destination_amount as int) is Some,
    ensures
        cp_swap(source_amount as int, swap_source_amount as int, swap_destination_amount as int)->0.source_amount_swapped
            <= source_amount,
{
    let s = swap_source_amount as int;
    let d = swap_destination_amount as int;
    let k = s * d;
    let g = s + source_amount;
    assert(k >= 0) by (nonlinear_arith)
        requires
            s >= 0,
            d >= 0,
            k == s * d,
    ;
    lemma_div_ceil_bounds(k, g);
    let new_d = div_ceil(k, g);
    lemma_div_ceil_bounds(k, new_d);
    let new_s = div_ceil(k, new_d);
    assert(new_s <= g) by (nonlinear_arith)
        requires
            new_d * g >= k,
            new_s * new_d < k + new_d,
            new_d > 0,
            g > 0,
    ;
}

/// A swap, on either curve and with any fees, never takes in more than the amount offered,
/// and never pays out more than the destination reserve holds.
pub proof fn swap_takes_at_most_input(
    curve: SwapCurve,
    source_amount: u128,
    swap_source_amount: u128,
    swap_destination_amount: u128,
    trade_direction: TradeDirection,
    fees: Fees,
)
    requires
        curve.spec_swap(source_amount, swap_source_amount, swap_destination_amount, trade_direction, fees) is Some,
    ensures
        ({
            let res = curve.spec_swap(source_amount, swap_source_amount, swap_destination_amount, trade_direction, fees)->0;
            &&& res.source_amount_swapped <= source_amount
            &&& res.destination_amount_swapped <= swap_destination_amount
        }),
{
    let trade_fee = fees.spec_trading_fee(source_amount as int);
    let owner_fee = fees.spec_owner_trading_fee(source_amount as int);
    let net = (source_amount - trade_fee - owner_fee) as u128;
    match curve {
        SwapCurve::ConstantProductCurve(_) => {
            lemma_quote_within_input(net, swap_source_amount, swap_destination_amount);
        },
        SwapCurve::StableCurve(_) => {},
    }
}

/// Deposit value non-decrease: pool tokens bought at the rounded-up price never dilute the
/// pool, `new_reserve * old_supply >= old_reserve * new_supply` for each token, wherever the
/// deposit charges something for that token (an amount that rounds down to zero is refused
/// by the deposit instruction).
pub proof fn deposit_never_dilutes(pool_tokens: u128, supply: u128, reserve1: u128, reserve2: u128)
    requires
        cp_pool_tokens_to_trading_tokens(
            pool_tokens as int,
            supply as int,
            reserve1 as int,
            reserve2 as int,
            RoundDirection::Ceiling,
        ) is Some,
        ({
            let res = cp_pool_tokens_to_trading_tokens(
                pool_tokens as int,
                supply as int,
                reserve1 as int,
                reserve2 as int,
                RoundDirection::Ceiling,
            )->0;
            (res.token1_amount > 0 || pool_tokens * reserve1 == 0) && (res.token2_amount > 0 || pool_tokens * reserve2
                == 0)
        }),
    ensures
        ({
            let res = cp_pool_tokens_to_trading_tokens(
                pool_tokens as int,
                supply as int,
                reserve1 as int,
                reserve2 as int,
                RoundDirection::Ceiling,
            )->0;
            &&& (reserve1 + res.token1_amount) * supply >= reserve1 * (supply + pool_tokens)
            &&& (reserve2 + res.token2_amount) * supply >= reserve2 * (supply + pool_tokens)
        }),
{
    lemma_ceiling_share_covers(pool_tokens * reserve1, supply as int);
    lemma_ceiling_share_covers(pool_tokens * reserve2, supply as int);
    assert(reserve1 * (supply + pool_tokens) == reserve1 * supply + pool_tokens * reserve1) by (nonlinear_arith);
    assert(reserve2 * (supply + pool_tokens) == reserve2 * supply + pool_tokens * reserve2) by (nonlinear_arith);
    let res = cp_pool_tokens_to_trading_tokens(
        pool_tokens as int,
        supply as int,
        reserve1 as int,
        reserve2 as int,
        RoundDirection::Ceiling,
    )->0;
    assert((reserve1 + res.token1_amount) * supply == reserve1 * supply + res.token1_amount * supply) by (nonlinear_arith);
    assert((reserve2 + res.token2_amount) * supply == reserve2 * supply + res.token2_amount * supply) by (nonlinear_arith);
}

/// Deposit value non-decrease, for the deposit instruction: whatever a dual-sided deposit into
/// a pool with supply charges, each reserve grows at least in proportion to the supply.
pub proof fn deposit2_never_dilutes(
    pool: Pool,
    vault_a_mint: Pubkey,
    vault_b_mint: Pubkey,
    vault_a_amount: u64,
    vault_b_amount: u64,
    user_a_mint: Pubkey,
    user_b_mint: Pubkey,
    lp_token_amount: u64,
    maximum_token_a_amount: u64,
    maximum_token_b_amount: u64,
    lp_supply: u64,
)
    requires
        lp_supply > 0,
        deposit2_outcome(
            pool,
            vault_a_mint,
            vault_b_mint,
            vault_a_amount,
            vault_b_amount,
            user_a_mint,
            user_b_mint,
            lp_token_amount,
            maximum_token_a_amount,
            maximum_token_b_amount,
            lp_supply,
        ) is Ok,
    ensures
        ({
            let r = deposit2_outcome(
                pool,
                vault_a_mint,
                vault_b_mint,
                vault_a_amount,
                vault_b_amount,
                user_a_mint,
                user_b_mint,
                lp_token_amount,
                maximum_token_a_amount,
                maximum_token_b_amount,
                lp_supply,
            )->Ok_0;
            let reserves = ordered(vault_a_mint, vault_b_mint, vault_a_amount, vault_b_amount)->0;
            &&& r.lp_token_amount == lp_token_amount
            &&& (reserves.0 + r.token1_amount) * lp_supply >= reserves.0 * (lp_supply + lp_token_amount)
            &&& (reserves.1 + r.token2_amount) * lp_supply >= reserves.1 * (lp_supply + lp_token_amount)
        }),
{
    let reserves = ordered(vault_a_mint, vault_b_mint, vault_a_amount, vault_b_amount)->0;
    deposit_never_dilutes(lp_token_amount as u128, lp_supply as u128, reserves.0 as u128, reserves.1 as u128);
}

/// A rounded-up share that is charged covers the exact share.
proof fn lemma_ceiling_share_covers(n: int, supply: int)
    requires
        n >= 0,
        supply > 0,
        rounded_share(n, supply, RoundDirection::Ceiling) > 0 || n == 0,
    ensures
        rounded_share(n, supply, RoundDirection::Ceiling) * supply >= n,
        n <= u128::MAX ==> rounded_share(n, supply, RoundDirection::Ceiling) <= u128::MAX,
{
    lemma_fundamental_div_mod(n, supply);
    lemma_mod_bound(n, supply);
    let q = n / supply;
    assert(supply * q == q * supply) by (nonlinear_arith);
    assert(q <= n) by (nonlinear_arith)
        requires
            n == supply * q + n % supply,
            0 <= n % supply < supply,
            supply >= 1,
            n >= 0,
    ;
    if n % supply > 0 && q > 0 {
        assert((q + 1) * supply == q * supply + supply) by (nonlinear_arith);
        assert(q < n) by (nonlinear_arith)
            requires
                n == supply * q + n % supply,
                n % supply > 0,
                q > 0,
                supply >= 1,
        ;
    } else if n % supply == 0 {
    } else {
        assert(q == 0);
        assert(rounded_share(n, supply, RoundDirection::Ceiling) == 0);
    }
}

/// Withdrawal value non-decrease: pool tokens redeemed at the rounded-down price never dilute
/// the pool, `new_reserve * old_supply >= old_reserve * new_supply` for each token.
pub proof fn withdraw_never_dilutes(pool_tokens: u128, supply: u128, reserve1: u128, reserve2: u128)
    requires
        pool_tokens <= supply,
        cp_pool_tokens_to_trading_tokens(
            pool_tokens as int,
            supply as int,
            reserve1 as int,
            reserve2 as int,
            RoundDirection::Floor,
        ) is Some,
    ensures
        ({
            let res = cp_pool_tokens_to_trading_tokens(
                pool_tokens as int,
                supply as int,
                reserve1 as int,
                reserve2 as int,
                RoundDirection::Floor,
            )->0;
            &&& res.token1_amount <= reserve1
            &&& res.token2_amount <= reserve2
            &&& (reserve1 - res.token1_amount) * supply >= reserve1 * (supply - pool_tokens)
            &&& (reserve2 - res.token2_amount) * supply >= reserve2 * (supply - pool_tokens)
        }),
{
    lemma_floor_share_within(pool_tokens as int, reserve1 as int, supply as int);
    lemma_floor_share_within(pool_tokens as int, reserve2 as int, supply as int);
}

/// A rounded-down share is at most the exact share, and at most the whole reserve.
proof fn lemma_floor_share_within(p: int, reserve: int, supply: int)
    requires
        0 <= p <= supply,
        supply > 0,
        reserve >= 0,
    ensures
        (p * reserve) / supply <= reserve,
        (reserve - (p * reserve) / supply) * supply >= reserve * (supply - p),
{
    let n = p * reserve;
    assert(n >= 0) by (nonlinear_arith)
        requires
            p >= 0,
            reserve >= 0,
            n == p * reserve,
    ;
    lemma_fundamental_div_mod(n, supply);
    lemma_mod_bound(n, supply);
    let q = n / supply;
    assert(q * supply <= n) by (nonlinear_arith)
        requires
            n == supply * q + n % supply,
            n % supply >= 0,
    ;
    assert(n <= reserve * supply) by (nonlinear_arith)
        requires
            n == p * reserve,
            p <= supply,
            reserve >= 0,
    ;
    assert(q <= reserve) by (nonlinear_arith)
        requires
            q * supply <= reserve * supply,
            supply > 0,
    ;
    assert((reserve - q) * supply == reserve * supply - q * supply) by (nonlinear_arith);
    assert(reserve * (supply - p) == reserve * supply - n) by (nonlinear_arith)
        requires
            n == p * reserve,
    ;
}

/// Fee floor: an enabled fee (nonzero numerator, nonzero denominator) on a nonzero amount is
/// at least one unit.
pub proof fn fee_never_vanishes(amount: u128, numerator: u128, denominator: u128)
    requires
        numerator > 0,
        denominator > 0,
        amount > 0,
    ensures
        fee_of(amount as int, numerator as int, denominator as int) >= 1,
{
    let a = amount as int;
    let n = numerator as int;
    let d = denominator as int;
    assert(a * n / d >= 0) by (nonlinear_arith)
        requires
            a > 0,
            n > 0,
            d > 0,
    ;
}

} // verus!
