use gfx_swap::{calculate_fee, validate_fraction, ErrorCode, Fees};

#[test]
fn fee_is_proportional() {
    assert_eq!(calculate_fee(1000, 1, 100), Some(10));
    assert_eq!(calculate_fee(1999, 1, 100), Some(19));
    assert_eq!(calculate_fee(100, 1, 100), Some(1));
}

#[test]
fn fee_has_a_floor_of_one() {
    assert_eq!(calculate_fee(1, 1, 1000), Some(1));
    assert_eq!(calculate_fee(99, 1, 100), Some(1));
    for amount in 1u128..200 {
        assert!(calculate_fee(amount, 1, 10_000).unwrap() >= 1);
        assert!(calculate_fee(amount, 3, 7).unwrap() >= 1);
    }
}

#[test]
fn fee_is_zero_when_disabled_or_nothing_traded() {
    assert_eq!(calculate_fee(0, 1, 100), Some(0));
    assert_eq!(calculate_fee(100, 0, 0), Some(0));
    assert_eq!(calculate_fee(100, 0, 100), Some(0));
}

#[test]
fn fee_fails_on_overflow_or_zero_denominator() {
    assert_eq!(calculate_fee(u128::MAX, 2, 3), None);
    assert_eq!(calculate_fee(5, 1, 0), None);
}

#[test]
fn fraction_validation() {
    assert_eq!(validate_fraction(0, 0), Ok(()));
    assert_eq!(validate_fraction(0, 5), Ok(()));
    assert_eq!(validate_fraction(1, 2), Ok(()));
    assert_eq!(validate_fraction(2, 2), Err(ErrorCode::InvalidFee));
    assert_eq!(validate_fraction(3, 2), Err(ErrorCode::InvalidFee));
    assert_eq!(validate_fraction(1, 0), Err(ErrorCode::InvalidFee));
}

fn schedule() -> Fees {
    Fees {
        trade_fee_numerator: 1,
        trade_fee_denominator: 1000,
        owner_trade_fee_numerator: 1,
        owner_trade_fee_denominator: 10000,
        owner_withdraw_fee_numerator: 1,
        owner_withdraw_fee_denominator: 10000,
        host_fee_numerator: 1,
        host_fee_denominator: 5,
    }
}

#[test]
fn fee_classes_use_their_own_fraction() {
    let fees = schedule();
    assert_eq!(fees.trading_fee(1_000_000), Some(1000));
    assert_eq!(fees.owner_trading_fee(1_000_000), Some(100));
    assert_eq!(fees.owner_withdraw_fee(1_000_000), Some(100));
    assert_eq!(fees.host_fee(100), Some(20));
    assert_eq!(Fees::default().trading_fee(1_000_000), Some(0));
}

#[test]
fn fee_schedule_validation() {
    assert_eq!(schedule().validate(), Ok(()));
    assert_eq!(Fees::default().validate(), Ok(()));
    let bad_trade = Fees { trade_fee_numerator: 5, trade_fee_denominator: 5, ..schedule() };
    assert_eq!(bad_trade.validate(), Err(ErrorCode::InvalidFee));
    let bad_owner = Fees { owner_trade_fee_numerator: 1, owner_trade_fee_denominator: 0, ..schedule() };
    assert_eq!(bad_owner.validate(), Err(ErrorCode::InvalidFee));
    let bad_withdraw = Fees { owner_withdraw_fee_numerator: 7, owner_withdraw_fee_denominator: 6, ..schedule() };
    assert_eq!(bad_withdraw.validate(), Err(ErrorCode::InvalidFee));
    let bad_host = Fees { host_fee_numerator: 2, host_fee_denominator: 1, ..schedule() };
    assert_eq!(bad_host.validate(), Err(ErrorCode::InvalidFee));
}

#[test]
fn error_codes_round_trip() {
    assert_eq!(ErrorCode::ContractAddressNotCorrect.code(), 300);
    assert_eq!(ErrorCode::InvalidFee.code(), 302);
    assert_eq!(ErrorCode::WrongFeeVault.code(), 320);
    assert_eq!(ErrorCode::from_code(311), Some(ErrorCode::SameToken));
    assert_eq!(ErrorCode::from_code(299), None);
    assert_eq!(ErrorCode::from_code(321), None);
    for code in 300u32..=320 {
        assert_eq!(ErrorCode::from_code(code).unwrap().code(), code);
    }
}
