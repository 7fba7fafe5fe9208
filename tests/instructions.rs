use gfx_swap::{
    create_pool, deposit1, deposit2, swap, withdraw1, withdraw2, ConstantProductCurve, CurveCalculator, ErrorCode,
    Fees, Pool, Pubkey, SwapCurve, TradeDirection,
};

fn key(n: u128) -> Pubkey {
    Pubkey::new(0, n)
}

const MINT_1: u128 = 20;
const MINT_2: u128 = 30;

fn pool_with(fees: Fees) -> Pool {
    create_pool(
        [1; 32],
        255,
        255,
        key(1),
        key(MINT_1),
        key(MINT_2),
        key(100),
        key(200),
        key(9),
        key(10),
        fees,
        SwapCurve::ConstantProductCurve(ConstantProductCurve::new()),
    )
    .unwrap()
}

fn trade_fee_only() -> Fees {
    Fees { trade_fee_numerator: 1, trade_fee_denominator: 100, ..Fees::default() }
}

fn owner_fee_only() -> Fees {
    Fees { owner_trade_fee_numerator: 1, owner_trade_fee_denominator: 100, ..Fees::default() }
}

#[test]
fn swap_amounts_with_trade_fee() {
    let pool = pool_with(trade_fee_only());
    let r = swap(&pool, &key(MINT_1), 100, 0, 1000, 50000, 1_000_000).unwrap();
    assert_eq!(r.trade_direction, TradeDirection::AtoB);
    assert_eq!(r.amount_in, 100);
    assert_eq!(r.amount_out, 4504);
    assert_eq!(r.owner_fee_pool_tokens, 0);
}

#[test]
fn swap_mints_pool_tokens_for_owner_fee() {
    let pool = pool_with(owner_fee_only());
    let r = swap(&pool, &key(MINT_2), 100, 4504, 1000, 50000, 1_000_000).unwrap();
    assert_eq!(r.trade_direction, TradeDirection::BtoA);
    assert_eq!(r.amount_in, 100);
    assert_eq!(r.amount_out, 4504);
    // One unit of owner fee out of a reserve of 1100 is about 1/2200 of the supply.
    assert!((450..=460).contains(&r.owner_fee_pool_tokens), "{}", r.owner_fee_pool_tokens);
}

#[test]
fn swap_errors() {
    let mut pool = pool_with(trade_fee_only());
    assert_eq!(swap(&pool, &key(MINT_1), 100, 4505, 1000, 50000, 1000), Err(ErrorCode::ExceededSlippage));
    assert_eq!(swap(&pool, &key(99), 100, 0, 1000, 50000, 1000), Err(ErrorCode::IncorrectSwapAccount));
    assert_eq!(swap(&pool, &key(MINT_1), 0, 0, 1000, 50000, 1000), Err(ErrorCode::ZeroTradingTokens));
    pool.suspended = true;
    assert_eq!(swap(&pool, &key(MINT_1), 100, 0, 1000, 50000, 1000), Err(ErrorCode::Suspended));
}

#[test]
fn swap_and_withdraw_fee() {
    let fees = Fees {
        trade_fee_numerator: 1,
        trade_fee_denominator: 1000,
        owner_trade_fee_numerator: 1,
        owner_trade_fee_denominator: 10000,
        owner_withdraw_fee_numerator: 1,
        owner_withdraw_fee_denominator: 10000,
        host_fee_numerator: 0,
        host_fee_denominator: 0,
    };
    let pool = pool_with(fees);
    // Bootstrapped with one unit of each token and one pool token.
    let d = deposit2(&pool, &key(MINT_1), &key(MINT_2), 1, 1, &key(MINT_1), &key(MINT_2), 10_000_000_000, 1_000_000_000_000_000, 1_000_000_000_000_000, 1)
        .unwrap();
    assert_eq!(d.token1_amount, 10_000_000_000);
    assert_eq!(d.token2_amount, 10_000_000_000);
    assert_eq!(d.lp_token_amount, 10_000_000_000);
    let reserve = 10_000_000_000 + 1;
    let s = swap(&pool, &key(MINT_1), 13_000_000_000, 0, reserve, reserve, reserve).unwrap();
    assert!(s.owner_fee_pool_tokens != 0);
}

#[test]
fn deposit1_bootstraps_an_empty_pool() {
    let pool = pool_with(trade_fee_only());
    let r = deposit1(&pool, &key(MINT_1), &key(MINT_2), 0, 0, &key(MINT_1), 500, 0, 0).unwrap();
    assert_eq!(r.lp_token_amount, 1_000_000_000);
    assert_eq!(r.trade_direction, TradeDirection::AtoB);
}

#[test]
fn deposit1_prices_single_sided_deposit() {
    let pool = pool_with(trade_fee_only());
    let expected = pool
        .curve
        .deposit_single_token_type(2000, 1_000_000, 3_000_000, 1_000_000, TradeDirection::BtoA, &pool.fees)
        .unwrap();
    // Vaults given in reverse order are sorted by mint first.
    let r = deposit1(&pool, &key(MINT_2), &key(MINT_1), 3_000_000, 1_000_000, &key(MINT_2), 2000, 0, 1_000_000).unwrap();
    assert_eq!(r.lp_token_amount as u128, expected);
    assert_eq!(r.trade_direction, TradeDirection::BtoA);
    assert!(r.lp_token_amount > 0);
}

#[test]
fn deposit1_errors() {
    let pool = pool_with(trade_fee_only());
    assert_eq!(
        deposit1(&pool, &key(MINT_1), &key(MINT_1), 1, 1, &key(MINT_1), 10, 0, 10),
        Err(ErrorCode::SameToken)
    );
    assert_eq!(
        deposit1(&pool, &key(MINT_1), &key(MINT_2), 1, 1, &key(5), 10, 0, 10),
        Err(ErrorCode::IncorrectSwapAccount)
    );
    assert_eq!(
        deposit1(&pool, &key(MINT_1), &key(MINT_2), 1000, 1000, &key(MINT_1), 0, 0, 1000),
        Err(ErrorCode::ZeroTradingTokens)
    );
    assert_eq!(
        deposit1(&pool, &key(MINT_1), &key(MINT_2), 1000, 1000, &key(MINT_1), 500, u64::MAX, 1000),
        Err(ErrorCode::ExceededSlippage)
    );
    assert_eq!(
        deposit1(&pool, &key(MINT_1), &key(MINT_2), 0, 1000, &key(MINT_1), 500, 0, 1000),
        Err(ErrorCode::ZeroTradingTokens)
    );
}

#[test]
fn deposit2_rounds_up_and_checks_maximums() {
    let pool = pool_with(Fees::default());
    let r = deposit2(&pool, &key(MINT_1), &key(MINT_2), 1005, 2000, &key(MINT_1), &key(MINT_2), 10, 101, 200, 100).unwrap();
    assert_eq!(r.token1_amount, 101);
    assert_eq!(r.token2_amount, 200);
    assert_eq!(r.lp_token_amount, 10);
    assert_eq!(
        deposit2(&pool, &key(MINT_1), &key(MINT_2), 1005, 2000, &key(MINT_1), &key(MINT_2), 10, 100, 200, 100),
        Err(ErrorCode::ExceededSlippage)
    );
    assert_eq!(
        deposit2(&pool, &key(MINT_1), &key(MINT_2), 1005, 2000, &key(MINT_1), &key(MINT_2), 10, 101, 199, 100),
        Err(ErrorCode::ExceededSlippage)
    );
    // User accounts given in reverse order carry their maximums along.
    let r = deposit2(&pool, &key(MINT_1), &key(MINT_2), 1005, 2000, &key(MINT_2), &key(MINT_1), 10, 200, 101, 100).unwrap();
    assert_eq!(r.token1_amount, 101);
    assert_eq!(r.token2_amount, 200);
}

#[test]
fn deposit2_errors() {
    let pool = pool_with(Fees::default());
    assert_eq!(
        deposit2(&pool, &key(MINT_1), &key(MINT_2), 5, 5000, &key(MINT_1), &key(MINT_2), 1, 100, 100, 1000),
        Err(ErrorCode::ZeroTradingTokens)
    );
    assert_eq!(
        deposit2(&pool, &key(MINT_1), &key(MINT_2), 5, 5000, &key(MINT_1), &key(MINT_1), 1, 100, 100, 1000),
        Err(ErrorCode::SameToken)
    );
    let bootstrap = deposit2(&pool, &key(MINT_1), &key(MINT_2), 5, 7, &key(MINT_1), &key(MINT_2), 1, 100, 100, 0).unwrap();
    assert_eq!(bootstrap.token1_amount, 5);
    assert_eq!(bootstrap.token2_amount, 7);
    assert_eq!(bootstrap.lp_token_amount, 1_000_000_000);
}

#[test]
fn withdraw2_pays_each_token_its_own_amount() {
    let pool = pool_with(Fees::default());
    let r = withdraw2(&pool, &key(MINT_1), &key(MINT_2), 1000, 2000, &key(MINT_1), &key(MINT_2), 10, 0, 0, 100).unwrap();
    assert_eq!(r.token1_amount, 100);
    assert_eq!(r.token2_amount, 200);
    assert_eq!(r.burn_amount, 10);
    assert_eq!(r.withdraw_fee, 0);
}

#[test]
fn withdraw2_takes_owner_withdraw_fee() {
    let fees = Fees { owner_withdraw_fee_numerator: 1, owner_withdraw_fee_denominator: 10, ..Fees::default() };
    let pool = pool_with(fees);
    let r = withdraw2(&pool, &key(MINT_1), &key(MINT_2), 1000, 2000, &key(MINT_1), &key(MINT_2), 10, 90, 180, 100).unwrap();
    assert_eq!(r.withdraw_fee, 1);
    assert_eq!(r.burn_amount, 9);
    assert_eq!(r.token1_amount, 90);
    assert_eq!(r.token2_amount, 180);
    assert_eq!(
        withdraw2(&pool, &key(MINT_1), &key(MINT_2), 1000, 2000, &key(MINT_1), &key(MINT_2), 10, 91, 0, 100),
        Err(ErrorCode::ExceededSlippage)
    );
    assert_eq!(
        withdraw2(&pool, &key(MINT_1), &key(MINT_2), 1000, 2000, &key(MINT_1), &key(MINT_2), 10, 0, 181, 100),
        Err(ErrorCode::ExceededSlippage)
    );
}

#[test]
fn withdraw2_errors() {
    let pool = pool_with(Fees::default());
    assert_eq!(
        withdraw2(&pool, &key(MINT_1), &key(MINT_2), 1000, 2000, &key(MINT_1), &key(MINT_2), 10, 0, 0, 0),
        Err(ErrorCode::ZeroTradingTokens)
    );
    assert_eq!(
        withdraw2(&pool, &key(MINT_1), &key(MINT_2), 1000, 2000, &key(MINT_1), &key(MINT_2), 1, 0, 0, 100_000),
        Err(ErrorCode::ZeroTradingTokens)
    );
}

#[test]
fn withdraw1_burns_pool_tokens_plus_fee() {
    let fees = Fees { owner_withdraw_fee_numerator: 1, owner_withdraw_fee_denominator: 100, ..Fees::default() };
    let pool = pool_with(fees);
    let burn = pool
        .curve
        .withdraw_single_token_type_exact_out(750_000, 1_000_000, 5_000, 1_000_000, TradeDirection::AtoB, &pool.fees)
        .unwrap();
    let r = withdraw1(&pool, &key(MINT_1), &key(MINT_2), 1_000_000, 5_000, &key(MINT_1), 750_000, u64::MAX, 1_000_000).unwrap();
    assert_eq!(r.burn_amount as u128, burn);
    assert_eq!(r.withdraw_fee as u128, burn / 100);
    assert_eq!(r.trade_direction, TradeDirection::AtoB);
    assert_eq!(
        withdraw1(&pool, &key(MINT_1), &key(MINT_2), 1_000_000, 5_000, &key(MINT_1), 750_000, 1000, 1_000_000),
        Err(ErrorCode::ExceededSlippage)
    );
    assert_eq!(
        withdraw1(&pool, &key(MINT_1), &key(MINT_2), 1_000_000, 5_000, &key(MINT_1), 0, 1000, 1_000_000),
        Err(ErrorCode::ZeroTradingTokens)
    );
}
