use gfx_swap::{
    create_pool, map_zero_to_none, suspended, to_u128, to_u64, ConstantProductCurve, ErrorCode, Fees, Pool,
    PoolConfig, Pubkey, PubkeyPairExt, StableCurve, SwapCurve, TradeDirection, TupleExt,
};

fn key(n: u128) -> Pubkey {
    Pubkey::new(0, n)
}

fn fees() -> Fees {
    Fees {
        trade_fee_numerator: 1,
        trade_fee_denominator: 1000,
        owner_trade_fee_numerator: 1,
        owner_trade_fee_denominator: 10000,
        owner_withdraw_fee_numerator: 1,
        owner_withdraw_fee_denominator: 10000,
        host_fee_numerator: 0,
        host_fee_denominator: 0,
    }
}

fn new_pool(mint_a: Pubkey, mint_b: Pubkey, fees: Fees, curve: SwapCurve) -> Result<Pool, ErrorCode> {
    create_pool([7; 32], 254, 253, key(1), mint_a, mint_b, key(100), key(200), key(9), key(10), fees, curve)
}

#[test]
fn create_swap_pool() {
    let pool = new_pool(key(20), key(30), fees(), SwapCurve::ConstantProductCurve(ConstantProductCurve::new())).unwrap();
    assert_eq!(pool.token_mint_1, key(20));
    assert_eq!(pool.token_mint_2, key(30));
    assert_eq!(pool.token_vault_1, key(100));
    assert_eq!(pool.token_vault_2, key(200));
    assert_eq!(pool.admin, key(1));
    assert_eq!(pool.mint, key(9));
    assert_eq!(pool.fee_vault, key(10));
    assert_eq!(pool.bump, 254);
    assert_eq!(pool.lp_bump, 253);
    assert_eq!(pool.fees, fees());
    assert!(!pool.suspended);
}

#[test]
fn create_pool_sorts_tokens_with_their_vaults() {
    let pool = new_pool(key(30), key(20), fees(), SwapCurve::default()).unwrap();
    assert_eq!(pool.token_mint_1, key(20));
    assert_eq!(pool.token_vault_1, key(200));
    assert_eq!(pool.token_mint_2, key(30));
    assert_eq!(pool.token_vault_2, key(100));
}

#[test]
fn create_pool_rejects_bad_input() {
    let bad_fees = Fees { trade_fee_numerator: 1, trade_fee_denominator: 1, ..fees() };
    assert_eq!(new_pool(key(20), key(30), bad_fees, SwapCurve::default()).err(), Some(ErrorCode::InvalidFee));
    let bad_curve = SwapCurve::StableCurve(StableCurve { amp: 0 });
    assert_eq!(new_pool(key(20), key(30), fees(), bad_curve).err(), Some(ErrorCode::InvalidCurve));
    assert_eq!(new_pool(key(20), key(20), fees(), SwapCurve::default()).err(), Some(ErrorCode::SameToken));
}

#[test]
fn pool_knows_its_tokens() {
    let pool = new_pool(key(20), key(30), fees(), SwapCurve::default()).unwrap();
    assert!(pool.swaps(&key(20)));
    assert!(pool.swaps(&key(30)));
    assert!(!pool.swaps(&key(40)));
}

#[test]
fn config_applies_given_fields() {
    let mut pool = new_pool(key(20), key(30), fees(), SwapCurve::default()).unwrap();
    let new_fees = Fees { trade_fee_numerator: 3, trade_fee_denominator: 1000, ..fees() };
    let config = PoolConfig { admin: Some(key(77)), fees: Some(new_fees), suspended: Some(true) };
    assert_eq!(pool.config(&config), Ok(()));
    assert_eq!(pool.admin, key(77));
    assert_eq!(pool.fees, new_fees);
    assert!(pool.suspended);
    let config = PoolConfig { admin: None, fees: None, suspended: Some(false) };
    assert_eq!(pool.config(&config), Ok(()));
    assert_eq!(pool.admin, key(77));
    assert_eq!(pool.fees, new_fees);
    assert!(!pool.suspended);
}

#[test]
fn config_rejects_invalid_fees() {
    let mut pool = new_pool(key(20), key(30), fees(), SwapCurve::default()).unwrap();
    let bad = Fees { host_fee_numerator: 1, host_fee_denominator: 0, ..fees() };
    let config = PoolConfig { admin: Some(key(77)), fees: Some(bad), suspended: Some(true) };
    assert_eq!(pool.config(&config), Err(ErrorCode::InvalidFee));
    assert_eq!(pool.admin, key(1));
    assert_eq!(pool.fees, fees());
    assert!(!pool.suspended);
}

#[test]
fn suspension_is_reported() {
    let mut pool = new_pool(key(20), key(30), fees(), SwapCurve::default()).unwrap();
    assert_eq!(suspended(&pool), Ok(()));
    pool.suspended = true;
    assert_eq!(suspended(&pool), Err(ErrorCode::Suspended));
}

#[test]
fn narrowing_fails_instead_of_truncating() {
    assert_eq!(to_u64(5), Ok(5));
    assert_eq!(to_u64(u64::MAX as u128), Ok(u64::MAX));
    assert_eq!(to_u64(u64::MAX as u128 + 1), Err(ErrorCode::ConversionFailure));
    assert_eq!(to_u128(7), Ok(7));
}

#[test]
fn pairs_sort_by_identity() {
    assert_eq!((key(1), key(2)).sort(10, 20), Ok((10, 20)));
    assert_eq!((key(2), key(1)).sort(10, 20), Ok((20, 10)));
    assert_eq!((key(2), key(2)).sort(10, 20), Err(ErrorCode::SameToken));
    // The first half decides before the second.
    assert_eq!((Pubkey::new(1, 0), Pubkey::new(0, 5)).sort("a", "b"), Ok(("b", "a")));
    assert_eq!((key(9), key(3)).sort_self(), Ok((key(3), key(9))));
    assert_eq!((key(3), key(9)).sort_self(), Ok((key(3), key(9))));
    assert_eq!((key(3), key(3)).sort_self(), Err(ErrorCode::SameToken));
}

#[test]
fn pair_membership() {
    assert!((key(1), key(2)).contains(&key(1)));
    assert!((key(1), key(2)).contains(&key(2)));
    assert!(!(key(1), key(2)).contains(&key(3)));
}

#[test]
fn zero_maps_to_none() {
    assert_eq!(map_zero_to_none(0), None);
    assert_eq!(map_zero_to_none(5), Some(5));
}

#[test]
fn directions_are_opposite() {
    assert_eq!(TradeDirection::AtoB.opposite(), TradeDirection::BtoA);
    assert_eq!(TradeDirection::BtoA.opposite(), TradeDirection::AtoB);
}
