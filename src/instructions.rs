//! The amounts behind each user-facing instruction: from the pool record, the reserves and
//! the user's request to the exact amounts to move, or the error to report. The transfers,
//! mints and burns themselves belong to the ledger.

use crate::calculator::CurveCalculator;
use crate::error::ErrorCode;
use crate::fees::Fees;
use crate::pool::{suspended, Pool};
use crate::swap_curve::SwapCurve;
use crate::types::{RoundDirection, TradeDirection};
use crate::utils::{key_lt, to_u128, to_u64, Pubkey, PubkeyPairExt};
use vstd::prelude::*;

verus! {

/// The direction of a trade whose source token has mint `mint`, or none when the pool does
/// not trade it.
pub open spec fn direction_of(pool: Pool, mint: Pubkey) -> Option<TradeDirection> {
    if mint == pool.token_mint_1 {
        Some(TradeDirection::AtoB)
    } else if mint == pool.token_mint_2 {
        Some(TradeDirection::BtoA)
    } else {
        None
    }
}

/// Two values put in the order of their identities; none on equal identities.
pub open spec fn ordered<T>(k1: Pubkey, k2: Pubkey, v1: T, v2: T) -> Option<(T, T)> {
    if k1 == k2 {
        None
    } else if key_lt(k1, k2) {
        Some((v1, v2))
    } else {
        Some((v2, v1))
    }
}

/// Values ordered by token 1 and token 2, given the values on the source and destination
/// sides of a trade.
pub open spec fn by_token<T>(dir: TradeDirection, source: T, destination: T) -> (T, T) {
    match dir {
        TradeDirection::AtoB => (source, destination),
        TradeDirection::BtoA => (destination, source),
    }
}

/// The direction of a trade whose source token has mint `mint`.
fn trade_direction_for(pool: &Pool, mint: &Pubkey) -> (r: Result<TradeDirection, ErrorCode>)
    ensures
        direction_of(*pool, *mint) is None ==> r == Err::<TradeDirection, ErrorCode>(ErrorCode::IncorrectSwapAccount),
        direction_of(*pool, *mint) is Some ==> r == Ok::<TradeDirection, ErrorCode>(direction_of(*pool, *mint)->0),
{
    if *mint == pool.token_mint_1 {
        Ok(TradeDirection::AtoB)
    } else if *mint == pool.token_mint_2 {
        Ok(TradeDirection::BtoA)
    } else {
        Err(ErrorCode::IncorrectSwapAccount)
    }
}

/// Amounts of one swap.
#[derive(Clone, Copy, Debug, PartialEq, Eq, Structural)]
pub struct SwapAmounts {
    pub trade_direction: TradeDirection,
    /// Source tokens to move from the user to the pool, fees included.
    pub amount_in: u64,
    /// Destination tokens to move from the pool to the user.
    pub amount_out: u64,
    /// Pool tokens to mint to the fee vault for the owner fee.
    pub owner_fee_pool_tokens: u64,
}

/// The outcome of a swap of `amount_in` tokens of mint `in_mint`.
pub open spec fn swap_outcome(
    pool: Pool,
    in_mint: Pubkey,
    amount_in: u64,
    minimum_amount_out: u64,
    in_vault_amount: u64,
    out_vault_amount: u64,
    lp_supply: u64,
) -> Result<SwapAmounts, ErrorCode> {
    if pool.suspended {
        Err(ErrorCode::Suspended)
    } else {
        match direction_of(pool, in_mint) {
            None => Err(ErrorCode::IncorrectSwapAccount),
            Some(dir) => match pool.curve.spec_swap(
                amount_in as u128,
                in_vault_amount as u128,
                out_vault_amount as u128,
                dir,
                pool.fees,
            ) {
                None => Err(ErrorCode::ZeroTradingTokens),
                Some(res) => if res.destination_amount_swapped < minimum_amount_out {
                    Err(ErrorCode::ExceededSlippage)
                } else if res.source_amount_swapped > u64::MAX || res.destination_amount_swapped > u64::MAX {
                    Err(ErrorCode::ConversionFailure)
                } else {
                    let reserves = by_token(dir, res.new_swap_source_amount, res.new_swap_destination_amount);
                    match pool.curve.spec_withdraw_single_with_fees(
                        res.owner_fee,
                        reserves.0,
                        reserves.1,
                        lp_supply as u128,
                        dir,
                        pool.fees,
                    ) {
                        None => Err(ErrorCode::FeeCalculationFailure),
                        Some(lp) => if lp > u64::MAX {
                            Err(ErrorCode::ConversionFailure)
                        } else {
                            Ok(
                                SwapAmounts {
                                    trade_direction: dir,
                                    amount_in: res.source_amount_swapped as u64,
                                    amount_out: res.destination_amount_swapped as u64,
                                    owner_fee_pool_tokens: lp as u64,
                                },
                            )
                        },
                    }
                },
            },
        }
    }
}

/// Computes a swap: the fee-inclusive amount taken in, the amount paid out, and the pool
/// tokens minted for the owner fee (priced as a single-sided withdrawal on the new reserves).
pub fn swap(
    pool: &Pool,
    in_mint: &Pubkey,
    amount_in: u64,
    minimum_amount_out: u64,
    in_vault_amount: u64,
    out_vault_amount: u64,
    lp_supply: u64,
) -> (r: Result<SwapAmounts, ErrorCode>)
    ensures
        r == swap_outcome(*pool, *in_mint, amount_in, minimum_amount_out, in_vault_amount, out_vault_amount, lp_supply),
{
    suspended(pool)?;
    let trade_direction = trade_direction_for(pool, in_mint)?;
    let result = match pool.curve.swap(
        to_u128(amount_in)?,
        to_u128(in_vault_amount)?,
        to_u128(out_vault_amount)?,
        trade_direction,
        &pool.fees,
    ) {
        Some(result) => result,
        None => return Err(ErrorCode::ZeroTradingTokens),
    };
    if result.destination_amount_swapped < to_u128(minimum_amount_out)? {
        return Err(ErrorCode::ExceededSlippage);
    }
    let amount_in = to_u64(result.source_amount_swapped)?;
    let amount_out = to_u64(result.destination_amount_swapped)?;
    let (swap_token_a_amount, swap_token_b_amount) = match trade_direction {
        TradeDirection::AtoB => (result.new_swap_source_amount, result.new_swap_destination_amount),
        TradeDirection::BtoA => (result.new_swap_destination_amount, result.new_swap_source_amount),
    };
    let lp_token_amount = match pool.curve.withdraw_single_token_type_exact_out(
        result.owner_fee,
        swap_token_a_amount,
        swap_token_b_amount,
        to_u128(lp_supply)?,
        trade_direction,
        &pool.fees,
    ) {
        Some(lp) => lp,
        None => return Err(ErrorCode::FeeCalculationFailure),
    };
    let owner_fee_pool_tokens = to_u64(lp_token_amount)?;
    Ok(SwapAmounts { trade_direction, amount_in, amount_out, owner_fee_pool_tokens })
}

/// Amounts of one single-sided deposit.
#[derive(Clone, Copy, Debug, PartialEq, Eq, Structural)]
pub struct Deposit1Amounts {
    /// `AtoB` when the deposited token is token 1, `BtoA` when it is token 2.
    pub trade_direction: TradeDirection,
    /// Pool tokens to mint to the user.
    pub lp_token_amount: u64,
}

/// The outcome of a single-sided deposit of `in_token_amount` tokens of mint `in_mint`.
pub open spec fn deposit1_outcome(
    pool: Pool,
    vault_a_mint: Pubkey,
    vault_b_mint: Pubkey,
    vault_a_amount: u64,
    vault_b_amount: u64,
    in_mint: Pubkey,
    in_token_amount: u64,
    minimum_pool_token_amount: u64,
    lp_supply: u64,
) -> Result<Deposit1Amounts, ErrorCode> {
    if pool.suspended {
        Err(ErrorCode::Suspended)
    } else {
        match ordered(vault_a_mint, vault_b_mint, vault_a_amount, vault_b_amount) {
            None => Err(ErrorCode::SameToken),
            Some(reserves) => match direction_of(pool, in_mint) {
                None => Err(ErrorCode::IncorrectSwapAccount),
                Some(dir) => {
                    let lp = if lp_supply > 0 {
                        pool.curve.spec_deposit_single_with_fees(
                            in_token_amount as u128,
                            reserves.0 as u128,
                            reserves.1 as u128,
                            lp_supply as u128,
                            dir,
                            pool.fees,
                        )
                    } else {
                        Some(crate::types::INITIAL_SWAP_POOL_AMOUNT)
                    };
                    match lp {
                        None => Err(ErrorCode::ZeroTradingTokens),
                        Some(lp) => if lp > u64::MAX {
                            Err(ErrorCode::ConversionFailure)
                        } else if lp < minimum_pool_token_amount {
                            Err(ErrorCode::ExceededSlippage)
                        } else if lp == 0 {
                            Err(ErrorCode::ZeroTradingTokens)
                        } else {
                            Ok(Deposit1Amounts { trade_direction: dir, lp_token_amount: lp as u64 })
                        },
                    }
                },
            },
        }
    }
}

/// Computes a single-sided deposit: the pool tokens minted for `in_token_amount` of one token,
/// or the bootstrap supply for a pool that has none yet.
pub fn deposit1(
    pool: &Pool,
    vault_a_mint: &Pubkey,
    vault_b_mint: &Pubkey,
    vault_a_amount: u64,
    vault_b_amount: u64,
    in_mint: &Pubkey,
    in_token_amount: u64,
    minimum_pool_token_amount: u64,
    lp_supply: u64,
) -> (r: Result<Deposit1Amounts, ErrorCode>)
    ensures
        r == deposit1_outcome(
            *pool,
            *vault_a_mint,
            *vault_b_mint,
            vault_a_amount,
            vault_b_amount,
            *in_mint,
            in_token_amount,
            minimum_pool_token_amount,
            lp_supply,
        ),
{
    suspended(pool)?;
    let (token1_amount, token2_amount) = (*vault_a_mint, *vault_b_mint).sort(vault_a_amount, vault_b_amount)?;
    let trade_direction = trade_direction_for(pool, in_mint)?;
    let lp_token_supply = to_u128(lp_supply)?;
    let lp_token_amount = if lp_token_supply > 0 {
        match pool.curve.deposit_single_token_type(
            to_u128(in_token_amount)?,
            to_u128(token1_amount)?,
            to_u128(token2_amount)?,
            lp_token_supply,
            trade_direction,
            &pool.fees,
        ) {
            Some(lp) => lp,
            None => return Err(ErrorCode::ZeroTradingTokens),
        }
    } else {
        pool.curve.new_pool_supply()
    };
    let lp_token_amount = to_u64(lp_token_amount)?;
    if lp_token_amount < minimum_pool_token_amount {
        return Err(ErrorCode::ExceededSlippage);
    }
    if lp_token_amount == 0 {
        return Err(ErrorCode::ZeroTradingTokens);
    }
    Ok(Deposit1Amounts { trade_direction, lp_token_amount })
}

} // verus!

verus! {

/// Amounts of one dual-sided deposit.
#[derive(Clone, Copy, Debug, PartialEq, Eq, Structural)]
pub struct Deposit2Amounts {
    /// Token 1 to move from the user to the pool.
    pub token1_amount: u64,
    /// Token 2 to move from the user to the pool.
    pub token2_amount: u64,
    /// Pool tokens to mint to the user.
    pub lp_token_amount: u64,
}

/// The outcome of a dual-sided deposit for `lp_token_amount` pool tokens.
pub open spec fn deposit2_outcome(
    pool: Pool,
    vault_a_mint: Pubkey,
    vault_b_mint: Pubkey,
    vault_a_amount: u64,
    vault_b_amount: u64,
    user_a_mint: Pubkey,
    user_b_mint: Pubkey,
    lp_token_amount: u64,
    maximum_token_a_amount: u64,
    maximum_token_b_amount: u64,
    lp_supply: u64,
) -> Result<Deposit2Amounts, ErrorCode> {
    if pool.suspended {
        Err(ErrorCode::Suspended)
    } else {
        match (
            ordered(vault_a_mint, vault_b_mint, vault_a_amount, vault_b_amount),
            ordered(user_a_mint, user_b_mint, maximum_token_a_amount, maximum_token_b_amount),
        ) {
            (None, _) => Err(ErrorCode::SameToken),
            (_, None) => Err(ErrorCode::SameToken),
            (Some(_), Some(_)) if !pool.curve.spec_allows_deposits() => Err(ErrorCode::UnsupportedCurveOperation),
            (Some(reserves), Some(maximums)) => {
                let (lp, supply) = if lp_supply > 0 {
                    (lp_token_amount as u128, lp_supply as u128)
                } else {
                    (crate::types::INITIAL_SWAP_POOL_AMOUNT, crate::types::INITIAL_SWAP_POOL_AMOUNT)
                };
                match pool.curve.spec_pool_tokens_to_trading_tokens(
                    lp,
                    supply,
                    reserves.0 as u128,
                    reserves.1 as u128,
                    RoundDirection::Ceiling,
                ) {
                    None => Err(ErrorCode::ZeroTradingTokens),
                    Some(res) => if res.token1_amount > u64::MAX {
                        Err(ErrorCode::ConversionFailure)
                    } else if res.token1_amount > maximums.0 {
                        Err(ErrorCode::ExceededSlippage)
                    } else if res.token1_amount == 0 {
                        Err(ErrorCode::ZeroTradingTokens)
                    } else if res.token2_amount > u64::MAX {
                        Err(ErrorCode::ConversionFailure)
                    } else if res.token2_amount > maximums.1 {
                        Err(ErrorCode::ExceededSlippage)
                    } else if res.token2_amount == 0 {
                        Err(ErrorCode::ZeroTradingTokens)
                    } else if lp > u64::MAX {
                        Err(ErrorCode::ConversionFailure)
                    } else {
                        Ok(
                            Deposit2Amounts {
                                token1_amount: res.token1_amount as u64,
                                token2_amount: res.token2_amount as u64,
                                lp_token_amount: lp as u64,
                            },
                        )
                    },
                }
            },
        }
    }
}

/// Computes a dual-sided deposit: the amounts of both tokens, rounded up, that
/// `lp_token_amount` pool tokens cost, each bounded by the user's maximum. A curve that refuses
/// deposits fails with `UnsupportedCurveOperation`. A pool without
/// supply is bootstrapped with the initial supply instead.
pub fn deposit2(
    pool: &Pool,
    vault_a_mint: &Pubkey,
    vault_b_mint: &Pubkey,
    vault_a_amount: u64,
    vault_b_amount: u64,
    user_a_mint: &Pubkey,
    user_b_mint: &Pubkey,
    lp_token_amount: u64,
    maximum_token_a_amount: u64,
    maximum_token_b_amount: u64,
    lp_supply: u64,
) -> (r: Result<Deposit2Amounts, ErrorCode>)
    ensures
        r == deposit2_outcome(
            *pool,
            *vault_a_mint,
            *vault_b_mint,
            vault_a_amount,
            vault_b_amount,
            *user_a_mint,
            *user_b_mint,
            lp_token_amount,
            maximum_token_a_amount,
            maximum_token_b_amount,
            lp_supply,
        ),
{
    suspended(pool)?;
    let (reserve1, reserve2) = (*vault_a_mint, *vault_b_mint).sort(vault_a_amount, vault_b_amount)?;
    let (maximum_token1_amount, maximum_token2_amount) = (*user_a_mint, *user_b_mint).sort(
        maximum_token_a_amount,
        maximum_token_b_amount,
    )?;
    let calculator = &pool.curve;
    if !calculator.allows_deposits() {
        return Err(ErrorCode::UnsupportedCurveOperation);
    }
    let current_lp_supply = to_u128(lp_supply)?;
    let (lp_amount, supply) = if current_lp_supply > 0 {
        (to_u128(lp_token_amount)?, current_lp_supply)
    } else {
        (calculator.new_pool_supply(), calculator.new_pool_supply())
    };
    let results = match calculator.pool_tokens_to_trading_tokens(
        lp_amount,
        supply,
        to_u128(reserve1)?,
        to_u128(reserve2)?,
        RoundDirection::Ceiling,
    ) {
        Some(results) => results,
        None => return Err(ErrorCode::ZeroTradingTokens),
    };
    let token1_amount = to_u64(results.token1_amount)?;
    if token1_amount > maximum_token1_amount {
        return Err(ErrorCode::ExceededSlippage);
    }
    if token1_amount == 0 {
        return Err(ErrorCode::ZeroTradingTokens);
    }
    let token2_amount = to_u64(results.token2_amount)?;
    if token2_amount > maximum_token2_amount {
        return Err(ErrorCode::ExceededSlippage);
    }
    if token2_amount == 0 {
        return Err(ErrorCode::ZeroTradingTokens);
    }
    let lp_token_amount = to_u64(lp_amount)?;
    Ok(Deposit2Amounts { token1_amount, token2_amount, lp_token_amount })
}

/// Amounts of one single-sided exact-out withdrawal.
#[derive(Clone, Copy, Debug, PartialEq, Eq, Structural)]
pub struct Withdraw1Amounts {
    /// `AtoB` when the withdrawn token is token 1, `BtoA` when it is token 2.
    pub trade_direction: TradeDirection,
    /// Pool tokens to burn.
    pub burn_amount: u64,
    /// Pool tokens to move from the user to the fee vault.
    pub withdraw_fee: u64,
}

/// The outcome of a single-sided withdrawal of exactly `out_token_amount` tokens of mint
/// `out_mint`.
pub open spec fn withdraw1_outcome(
    pool: Pool,
    vault_a_mint: Pubkey,
    vault_b_mint: Pubkey,
    vault_a_amount: u64,
    vault_b_amount: u64,
    out_mint: Pubkey,
    out_token_amount: u64,
    maximum_lp_token_amount: u64,
    lp_supply: u64,
) -> Result<Withdraw1Amounts, ErrorCode> {
    if pool.suspended {
        Err(ErrorCode::Suspended)
    } else {
        match ordered(vault_a_mint, vault_b_mint, vault_a_amount, vault_b_amount) {
            None => Err(ErrorCode::SameToken),
            Some(reserves) => match direction_of(pool, out_mint) {
                None => Err(ErrorCode::IncorrectSwapAccount),
                Some(dir) => match pool.curve.spec_withdraw_single_with_fees(
                    out_token_amount as u128,
                    reserves.0 as u128,
                    reserves.1 as u128,
                    lp_supply as u128,
                    dir,
                    pool.fees,
                ) {
                    None => Err(ErrorCode::ZeroTradingTokens),
                    Some(burn) => if !pool.fees.owner_withdraw_fee_defined(burn as int) {
                        Err(ErrorCode::FeeCalculationFailure)
                    } else {
                        let fee = pool.fees.spec_owner_withdraw_fee(burn as int);
                        if burn + fee > u128::MAX {
                            Err(ErrorCode::CalculationFailure)
                        } else if burn + fee > u64::MAX {
                            Err(ErrorCode::ConversionFailure)
                        } else if burn + fee > maximum_lp_token_amount {
                            Err(ErrorCode::ExceededSlippage)
                        } else if burn + fee == 0 {
                            Err(ErrorCode::ZeroTradingTokens)
                        } else {
                            Ok(Withdraw1Amounts { trade_direction: dir, burn_amount: burn as u64, withdraw_fee: fee as u64 })
                        }
                    },
                },
            },
        }
    }
}

/// Computes a single-sided exact-out withdrawal: the pool tokens to burn for
/// `out_token_amount` of one token, plus the owner withdraw fee on them.
pub fn withdraw1(
    pool: &Pool,
    vault_a_mint: &Pubkey,
    vault_b_mint: &Pubkey,
    vault_a_amount: u64,
    vault_b_amount: u64,
    out_mint: &Pubkey,
    out_token_amount: u64,
    maximum_lp_token_amount: u64,
    lp_supply: u64,
) -> (r: Result<Withdraw1Amounts, ErrorCode>)
    ensures
        r == withdraw1_outcome(
            *pool,
            *vault_a_mint,
            *vault_b_mint,
            vault_a_amount,
            vault_b_amount,
            *out_mint,
            out_token_amount,
            maximum_lp_token_amount,
            lp_supply,
        ),
{
    suspended(pool)?;
    let (token1_amount, token2_amount) = (*vault_a_mint, *vault_b_mint).sort(vault_a_amount, vault_b_amount)?;
    let trade_direction = trade_direction_for(pool, out_mint)?;
    let burn_pool_token_amount = match pool.curve.withdraw_single_token_type_exact_out(
        to_u128(out_token_amount)?,
        to_u128(token1_amount)?,
        to_u128(token2_amount)?,
        to_u128(lp_supply)?,
        trade_direction,
        &pool.fees,
    ) {
        Some(burn) => burn,
        None => return Err(ErrorCode::ZeroTradingTokens),
    };
    let withdraw_fee = match pool.fees.owner_withdraw_fee(burn_pool_token_amount) {
        Some(fee) => fee,
        None => return Err(ErrorCode::FeeCalculationFailure),
    };
    let lp_token_amount = match burn_pool_token_amount.checked_add(withdraw_fee) {
        Some(total) => total,
        None => return Err(ErrorCode::CalculationFailure),
    };
    if to_u64(lp_token_amount)? > maximum_lp_token_amount {
        return Err(ErrorCode::ExceededSlippage);
    }
    if lp_token_amount == 0 {
        return Err(ErrorCode::ZeroTradingTokens);
    }
    Ok(
        Withdraw1Amounts {
            trade_direction,
            burn_amount: burn_pool_token_amount as u64,
            withdraw_fee: withdraw_fee as u64,
        },
    )
}

/// Amounts of one dual-sided withdrawal.
#[derive(Clone, Copy, Debug, PartialEq, Eq, Structural)]
pub struct Withdraw2Amounts {
    /// Token 1 to move from the pool to the user.
    pub token1_amount: u64,
    /// Token 2 to move from the pool to the user.
    pub token2_amount: u64,
    /// Pool tokens to burn.
    pub burn_amount: u64,
    /// Pool tokens to move from the user to the fee vault.
    pub withdraw_fee: u64,
}

/// One leg of a dual-sided withdrawal: the amount paid out, capped by the reserve and checked
/// against the user's minimum.
pub open spec fn withdraw_leg(share: u128, reserve: u64, minimum: u64) -> Result<u64, ErrorCode> {
    if share > u64::MAX {
        Err(ErrorCode::ConversionFailure)
    } else {
        let paid = if reserve < share {
            reserve
        } else {
            share as u64
        };
        if paid < minimum {
            Err(ErrorCode::ExceededSlippage)
        } else if paid == 0 && reserve != 0 {
            Err(ErrorCode::ZeroTradingTokens)
        } else {
            Ok(paid)
        }
    }
}

fn withdraw_leg_exec(share: u128, reserve: u64, minimum: u64) -> (r: Result<u64, ErrorCode>)
    ensures
        r == withdraw_leg(share, reserve, minimum),
{
    let amount = to_u64(share)?;
    let paid = if reserve < amount {
        reserve
    } else {
        amount
    };
    if paid < minimum {
        return Err(ErrorCode::ExceededSlippage);
    }
    if paid == 0 && reserve != 0 {
        return Err(ErrorCode::ZeroTradingTokens);
    }
    Ok(paid)
}

/// The outcome of a dual-sided withdrawal of `lp_token_amount` pool tokens.
pub open spec fn withdraw2_outcome(
    pool: Pool,
    vault_a_mint: Pubkey,
    vault_b_mint: Pubkey,
    vault_a_amount: u64,
    vault_b_amount: u64,
    user_a_mint: Pubkey,
    user_b_mint: Pubkey,
    lp_token_amount: u64,
    minimum_token_a_amount: u64,
    minimum_token_b_amount: u64,
    lp_supply: u64,
) -> Result<Withdraw2Amounts, ErrorCode> {
    if pool.suspended {
        Err(ErrorCode::Suspended)
    } else {
        match (
            ordered(vault_a_mint, vault_b_mint, vault_a_amount, vault_b_amount),
            ordered(user_a_mint, user_b_mint, minimum_token_a_amount, minimum_token_b_amount),
        ) {
            (None, _) => Err(ErrorCode::SameToken),
            (_, None) => Err(ErrorCode::SameToken),
            (Some(reserves), Some(minimums)) => if !pool.fees.owner_withdraw_fee_defined(lp_token_amount as int) {
                Err(ErrorCode::FeeCalculationFailure)
            } else {
                let fee = pool.fees.spec_owner_withdraw_fee(lp_token_amount as int);
                if fee > lp_token_amount {
                    Err(ErrorCode::CalculationFailure)
                } else {
                    let burn = (lp_token_amount - fee) as u128;
                    match pool.curve.spec_pool_tokens_to_trading_tokens(
                        burn,
                        lp_supply as u128,
                        reserves.0 as u128,
                        reserves.1 as u128,
                        RoundDirection::Floor,
                    ) {
                        None => Err(ErrorCode::ZeroTradingTokens),
                        Some(res) => match withdraw_leg(res.token1_amount, reserves.0, minimums.0) {
                            Err(e) => Err(e),
                            Ok(t1) => match withdraw_leg(res.token2_amount, reserves.1, minimums.1) {
                                Err(e) => Err(e),
                                Ok(t2) => Ok(
                                    Withdraw2Amounts {
                                        token1_amount: t1,
                                        token2_amount: t2,
                                        burn_amount: burn as u64,
                                        withdraw_fee: fee as u64,
                                    },
                                ),
                            },
                        },
                    }
                }
            },
        }
    }
}

/// Computes a dual-sided withdrawal: the owner withdraw fee is taken from `lp_token_amount`,
/// the rest is burnt, and each token is paid out in proportion, rounded down, capped by its
/// reserve and checked against its own minimum.
pub fn withdraw2(
    pool: &Pool,
    vault_a_mint: &Pubkey,
    vault_b_mint: &Pubkey,
    vault_a_amount: u64,
    vault_b_amount: u64,
    user_a_mint: &Pubkey,
    user_b_mint: &Pubkey,
    lp_token_amount: u64,
    minimum_token_a_amount: u64,
    minimum_token_b_amount: u64,
    lp_supply: u64,
) -> (r: Result<Withdraw2Amounts, ErrorCode>)
    ensures
        r == withdraw2_outcome(
            *pool,
            *vault_a_mint,
            *vault_b_mint,
            vault_a_amount,
            vault_b_amount,
            *user_a_mint,
            *user_b_mint,
            lp_token_amount,
            minimum_token_a_amount,
            minimum_token_b_amount,
            lp_supply,
        ),
{
    suspended(pool)?;
    let (reserve1, reserve2) = (*vault_a_mint, *vault_b_mint).sort(vault_a_amount, vault_b_amount)?;
    let (minimum_token1_amount, minimum_token2_amount) = (*user_a_mint, *user_b_mint).sort(
        minimum_token_a_amount,
        minimum_token_b_amount,
    )?;
    let withdraw_fee = match pool.fees.owner_withdraw_fee(to_u128(lp_token_amount)?) {
        Some(fee) => fee,
        None => return Err(ErrorCode::FeeCalculationFailure),
    };
    let burn_amount = match to_u128(lp_token_amount)?.checked_sub(withdraw_fee) {
        Some(burn) => burn,
        None => return Err(ErrorCode::CalculationFailure),
    };
    let results = match pool.curve.pool_tokens_to_trading_tokens(
        burn_amount,
        to_u128(lp_supply)?,
        to_u128(reserve1)?,
        to_u128(reserve2)?,
        RoundDirection::Floor,
    ) {
        Some(results) => results,
        None => return Err(ErrorCode::ZeroTradingTokens),
    };
    let token1_amount = withdraw_leg_exec(results.token1_amount, reserve1, minimum_token1_amount)?;
    let token2_amount = withdraw_leg_exec(results.token2_amount, reserve2, minimum_token2_amount)?;
    Ok(
        Withdraw2Amounts {
            token1_amount,
            token2_amount,
            burn_amount: burn_amount as u64,
            withdraw_fee: withdraw_fee as u64,
        },
    )
}

/// The outcome of creating a pool: the fee schedule and the curve are validated, and the two
/// tokens (with their vaults) are put in canonical order.
pub open spec fn create_pool_outcome(
    seed: [u8; 32],
    pool_bump: u8,
    lp_bump: u8,
    admin: Pubkey,
    token_a_mint: Pubkey,
    token_b_mint: Pubkey,
    token_a_vault: Pubkey,
    token_b_vault: Pubkey,
    lp_mint: Pubkey,
    fee_vault: Pubkey,
    fees: Fees,
    curve: SwapCurve,
) -> Result<Pool, ErrorCode> {
    if !fees.valid() {
        Err(ErrorCode::InvalidFee)
    } else if !curve.spec_valid() {
        Err(ErrorCode::InvalidCurve)
    } else {
        match ordered(token_a_mint, token_b_mint, (token_a_mint, token_a_vault), (token_b_mint, token_b_vault)) {
            None => Err(ErrorCode::SameToken),
            Some(sorted) => Ok(
                Pool {
                    seed,
                    bump: pool_bump,
                    lp_bump,
                    admin,
                    token_mint_1: sorted.0.0,
                    token_mint_2: sorted.1.0,
                    token_vault_1: sorted.0.1,
                    token_vault_2: sorted.1.1,
                    mint: lp_mint,
                    fee_vault,
                    fees,
                    curve,
                    suspended: false,
                },
            ),
        }
    }
}

/// Creates the pool record from a validated fee schedule and curve, with the tokens in
/// canonical order.
pub fn create_pool(
    seed: [u8; 32],
    pool_bump: u8,
    lp_bump: u8,
    admin: Pubkey,
    token_a_mint: Pubkey,
    token_b_mint: Pubkey,
    token_a_vault: Pubkey,
    token_b_vault: Pubkey,
    lp_mint: Pubkey,
    fee_vault: Pubkey,
    fees: Fees,
    curve: SwapCurve,
) -> (r: Result<Pool, ErrorCode>)
    ensures
        r == create_pool_outcome(
            seed,
            pool_bump,
            lp_bump,
            admin,
            token_a_mint,
            token_b_mint,
            token_a_vault,
            token_b_vault,
            lp_mint,
            fee_vault,
            fees,
            curve,
        ),
        r is Ok ==> r->Ok_0.well_formed(),
{
    fees.validate()?;
    curve.validate()?;
    let ((token_mint_1, token_vault_1), (token_mint_2, token_vault_2)) = (token_a_mint, token_b_mint).sort(
        (token_a_mint, token_a_vault),
        (token_b_mint, token_b_vault),
    )?;
    Ok(
        Pool {
            seed,
            bump: pool_bump,
            lp_bump,
            admin,
            token_mint_1,
            token_mint_2,
            token_vault_1,
            token_vault_2,
            mint: lp_mint,
            fee_vault,
            fees,
            curve,
            suspended: false,
        },
    )
}

} // verus!
