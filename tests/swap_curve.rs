use gfx_swap::{
    ConstantProductCurve, CurveCalculator, Fees, RoundDirection, StableCurve, SwapCurve, TradeDirection,
};

#[test]
fn constant_product_trade_fee() {
    let swap_source_amount = 1000;
    let swap_destination_amount = 50000;
    let fees = Fees {
        trade_fee_numerator: 1,
        trade_fee_denominator: 100,
        owner_trade_fee_numerator: 0,
        owner_trade_fee_denominator: 0,
        owner_withdraw_fee_numerator: 0,
        owner_withdraw_fee_denominator: 0,
        host_fee_numerator: 0,
        host_fee_denominator: 0,
    };
    let source_amount = 100;
    let swap_curve = SwapCurve::ConstantProductCurve(ConstantProductCurve::new());
    let result = swap_curve
        .swap(source_amount, swap_source_amount, swap_destination_amount, TradeDirection::AtoB, &fees)
        .unwrap();
    assert_eq!(result.new_swap_source_amount, 1100);
    assert_eq!(result.destination_amount_swapped, 4504);
    assert_eq!(result.new_swap_destination_amount, 45496);
    assert_eq!(result.trade_fee, 1);
    assert_eq!(result.owner_fee, 0);
}

#[test]
fn constant_product_owner_fee() {
    let swap_source_amount = 1000;
    let swap_destination_amount = 50000;
    let fees = Fees {
        trade_fee_numerator: 0,
        trade_fee_denominator: 0,
        owner_trade_fee_numerator: 1,
        owner_trade_fee_denominator: 100,
        owner_withdraw_fee_numerator: 0,
        owner_withdraw_fee_denominator: 0,
        host_fee_numerator: 0,
        host_fee_denominator: 0,
    };
    let source_amount: u128 = 100;
    let swap_curve = SwapCurve::ConstantProductCurve(ConstantProductCurve::default());
    let result = swap_curve
        .swap(source_amount, swap_source_amount, swap_destination_amount, TradeDirection::AtoB, &fees)
        .unwrap();
    assert_eq!(result.new_swap_source_amount, 1100);
    assert_eq!(result.destination_amount_swapped, 4504);
    assert_eq!(result.new_swap_destination_amount, 45496);
    assert_eq!(result.trade_fee, 0);
    assert_eq!(result.owner_fee, 1);
}

#[test]
fn constant_product_no_fee() {
    let swap_source_amount: u128 = 1_000;
    let swap_destination_amount: u128 = 50_000;
    let source_amount: u128 = 100;
    let fees = Fees::default();
    let swap_curve = SwapCurve::ConstantProductCurve(ConstantProductCurve::default());
    let result = swap_curve
        .swap(source_amount, swap_source_amount, swap_destination_amount, TradeDirection::AtoB, &fees)
        .unwrap();
    assert_eq!(result.new_swap_source_amount, 1100);
    assert_eq!(result.destination_amount_swapped, 4545);
    assert_eq!(result.new_swap_destination_amount, 45455);
}

#[test]
fn default_curve_is_constant_product() {
    assert_eq!(SwapCurve::default(), SwapCurve::ConstantProductCurve(ConstantProductCurve::new()));
}

#[test]
fn swap_direction_does_not_change_constant_product_quote() {
    let curve = SwapCurve::default();
    let fees = Fees::default();
    let a = curve.swap(100, 1000, 50000, TradeDirection::AtoB, &fees).unwrap();
    let b = curve.swap(100, 1000, 50000, TradeDirection::BtoA, &fees).unwrap();
    assert_eq!(a, b);
}

#[test]
fn swap_fails_when_fees_swallow_the_input() {
    let fees = Fees {
        trade_fee_numerator: 1,
        trade_fee_denominator: 2,
        owner_trade_fee_numerator: 1,
        owner_trade_fee_denominator: 2,
        ..Fees::default()
    };
    // Each fee takes at least one unit: two units of fee on one unit of input underflow.
    assert!(SwapCurve::default().swap(1, 1000, 50000, TradeDirection::AtoB, &fees).is_none());
}

#[test]
fn swap_of_nothing_is_no_trade() {
    assert!(SwapCurve::default().swap(0, 1000, 50000, TradeDirection::AtoB, &Fees::default()).is_none());
}

#[test]
fn swap_keeps_normalized_value() {
    let curve = ConstantProductCurve::new();
    let swap_curve = SwapCurve::ConstantProductCurve(curve);
    let fees = Fees { trade_fee_numerator: 3, trade_fee_denominator: 1000, ..Fees::default() };
    let cases: [(u128, u128, u128); 4] =
        [(100, 1000, 50000), (7, 10_000, 10_000), (123_456, 9_999_999, 77_777), (10, 3, 1_000_000)];
    for (amount, s, d) in cases {
        let before = curve.normalized_value(s, d).unwrap();
        let result = swap_curve.swap(amount, s, d, TradeDirection::AtoB, &fees).unwrap();
        assert!(result.new_swap_source_amount * result.new_swap_destination_amount >= s * d);
        let after = curve
            .normalized_value(result.new_swap_source_amount, result.new_swap_destination_amount)
            .unwrap();
        assert!(after >= before);
    }
}

#[test]
fn deposit_single_of_nothing_is_zero() {
    let fees = Fees { trade_fee_numerator: 1, trade_fee_denominator: 100, ..Fees::default() };
    let curve = SwapCurve::default();
    assert_eq!(curve.deposit_single_token_type(0, 1000, 1000, 1000, TradeDirection::AtoB, &fees), Some(0));
    assert_eq!(curve.withdraw_single_token_type_exact_out(0, 1000, 1000, 1000, TradeDirection::AtoB, &fees), Some(0));
}

#[test]
fn deposit_single_charges_fee_on_half() {
    // A 10% fee on half of 2000 takes 100 units: the deposit is priced as one of 1900.
    let fees = Fees { trade_fee_numerator: 1, trade_fee_denominator: 10, ..Fees::default() };
    let curve = SwapCurve::default();
    let with_fee = curve.deposit_single_token_type(2000, 1_000_000, 1_000_000, 1_000_000, TradeDirection::AtoB, &fees);
    let without = CurveCalculator::deposit_single_token_type(
        &curve,
        1900,
        1_000_000,
        1_000_000,
        1_000_000,
        TradeDirection::AtoB,
    );
    assert_eq!(with_fee, without);
    assert!(with_fee.unwrap() > 0);
}

#[test]
fn single_sided_deposit_matches_swap_and_dual_deposit() {
    let curve = ConstantProductCurve::new();
    let cases: [(u128, u128, u128, u128); 3] = [
        (1_000_000, 1_000_000_000, 1_000_000_000, 1_000_000_000),
        (50_000, 2_000_000, 7_000_000, 100_000_000),
        (123_456_789, 10_000_000_000, 3_000_000_000, 5_000_000_000),
    ];
    for (source, token_a, token_b, supply) in cases {
        let one_side = curve
            .deposit_single_token_type(source, token_a, token_b, supply, TradeDirection::AtoB)
            .unwrap();
        let half = source / 2;
        let swapped = curve.swap_without_fees(half, token_a, token_b, TradeDirection::AtoB).unwrap();
        let new_a = token_a + swapped.source_amount_swapped;
        let new_b = token_b - swapped.destination_amount_swapped;
        let from_source = curve
            .deposit_single_token_type(source - swapped.source_amount_swapped, new_a, new_b, supply, TradeDirection::AtoB)
            .unwrap();
        let from_destination = curve
            .deposit_single_token_type(
                swapped.destination_amount_swapped,
                new_a,
                new_b,
                supply + from_source,
                TradeDirection::BtoA,
            )
            .unwrap();
        let separate = from_source + from_destination;
        let epsilon = std::cmp::max(1, separate * 50 / 10000);
        let difference = if one_side >= separate { one_side - separate } else { separate - one_side };
        assert!(difference <= epsilon, "{} vs {}", one_side, separate);
    }
}

#[test]
fn constant_product_quote_values() {
    let curve = ConstantProductCurve::new();
    let r = curve.swap_without_fees(100, 1000, 50000, TradeDirection::AtoB).unwrap();
    assert_eq!(r.source_amount_swapped, 100);
    assert_eq!(r.destination_amount_swapped, 4545);
    // 99 in: the destination reserve becomes ceil(50_000_000 / 1099) = 45496, and only
    // ceil(50_000_000 / 45496) - 1000 = 99 is taken in.
    let r = curve.swap_without_fees(99, 1000, 50000, TradeDirection::AtoB).unwrap();
    assert_eq!(r.source_amount_swapped, 99);
    assert_eq!(r.destination_amount_swapped, 4504);
}

#[test]
fn constant_product_dust_trade_is_no_trade() {
    let curve = ConstantProductCurve::new();
    assert!(curve.swap_without_fees(1, 1_000_000, 10, TradeDirection::AtoB).is_none());
    assert!(curve.swap_without_fees(1, 0, 10, TradeDirection::AtoB).is_none());
}

#[test]
fn constant_product_overflow_is_no_trade() {
    let curve = ConstantProductCurve::new();
    assert!(curve.swap_without_fees(1, u128::MAX, 2, TradeDirection::AtoB).is_none());
}

#[test]
fn pool_tokens_convert_in_proportion() {
    let curve = ConstantProductCurve::new();
    let floor = curve.pool_tokens_to_trading_tokens(10, 100, 1005, 2000, RoundDirection::Floor).unwrap();
    assert_eq!(floor.token1_amount, 100);
    assert_eq!(floor.token2_amount, 200);
    let ceiling = curve.pool_tokens_to_trading_tokens(10, 100, 1005, 2000, RoundDirection::Ceiling).unwrap();
    assert_eq!(ceiling.token1_amount, 101);
    assert_eq!(ceiling.token2_amount, 200);
}

#[test]
fn pool_tokens_dust_is_not_rounded_up() {
    let curve = ConstantProductCurve::new();
    let r = curve.pool_tokens_to_trading_tokens(1, 1000, 5, 5000, RoundDirection::Ceiling).unwrap();
    assert_eq!(r.token1_amount, 0);
    assert_eq!(r.token2_amount, 5);
}

#[test]
fn pool_tokens_without_supply_fail() {
    let curve = ConstantProductCurve::new();
    assert!(curve.pool_tokens_to_trading_tokens(1, 0, 5, 5, RoundDirection::Floor).is_none());
}

#[test]
fn deposit_value_never_decreases() {
    let curve = ConstantProductCurve::new();
    let cases: [(u128, u128, u128, u128); 3] =
        [(10, 100, 1005, 2000), (7, 333, 1_000_001, 999), (12345, 1_000_000, 77_777_777, 3100)];
    for (p, supply, a, b) in cases {
        let r = curve.pool_tokens_to_trading_tokens(p, supply, a, b, RoundDirection::Ceiling).unwrap();
        assert!((a + r.token1_amount) * supply >= a * (supply + p));
        assert!((b + r.token2_amount) * supply >= b * (supply + p));
        let w = curve.pool_tokens_to_trading_tokens(p, supply, a, b, RoundDirection::Floor).unwrap();
        assert!((a - w.token1_amount) * supply >= a * (supply - p));
        assert!((b - w.token2_amount) * supply >= b * (supply - p));
    }
}

#[test]
fn constant_product_normalized_value_is_floor_sqrt_of_product() {
    let curve = ConstantProductCurve::new();
    assert_eq!(curve.normalized_value(4, 9), Some(6));
    assert_eq!(curve.normalized_value(2, 3), Some(2));
    assert_eq!(curve.normalized_value(0, 3), Some(0));
    assert_eq!(curve.normalized_value(u128::MAX, 2), None);
}

#[test]
fn constant_product_single_sided_deposit_value() {
    // Doubling the source reserve is worth sqrt(2) - 1 of the supply.
    let curve = ConstantProductCurve::new();
    let lp = curve
        .deposit_single_token_type(1_000_000, 1_000_000, 5, 1_000_000, TradeDirection::AtoB)
        .unwrap();
    assert!((414_213..=414_214).contains(&lp), "{}", lp);
    let lp = curve
        .deposit_single_token_type(1_000_000, 5, 1_000_000, 1_000_000, TradeDirection::BtoA)
        .unwrap();
    assert!((414_213..=414_214).contains(&lp), "{}", lp);
    assert!(curve.deposit_single_token_type(10, 0, 5, 1_000_000, TradeDirection::AtoB).is_none());
}

#[test]
fn constant_product_single_sided_withdraw_value() {
    // Taking three quarters of a reserve costs 1 - sqrt(1/4) = half of the supply.
    let curve = ConstantProductCurve::new();
    let lp = curve
        .withdraw_single_token_type_exact_out(750_000, 1_000_000, 5, 1_000_000, TradeDirection::AtoB)
        .unwrap();
    assert!((499_999..=500_001).contains(&lp), "{}", lp);
    assert!(curve.withdraw_single_token_type_exact_out(10, 0, 5, 1_000_000, TradeDirection::AtoB).is_none());
}

#[test]
fn curve_defaults() {
    let curve = ConstantProductCurve::new();
    assert_eq!(curve.new_pool_supply(), 1_000_000_000);
    assert!(curve.allows_deposits());
    assert_eq!(curve.validate(), Ok(()));
    assert_eq!(curve.validate_supply(1, 1), Ok(()));
    assert_eq!(curve.validate_supply(0, 1), Err(gfx_swap::ErrorCode::EmptySupply));
    assert_eq!(curve.validate_supply(1, 0), Err(gfx_swap::ErrorCode::EmptySupply));
}

#[test]
fn stable_amp_is_validated() {
    assert_eq!(StableCurve { amp: 0 }.validate(), Err(gfx_swap::ErrorCode::InvalidCurve));
    assert_eq!(StableCurve { amp: 1 }.validate(), Ok(()));
    assert_eq!(StableCurve { amp: 100 }.validate(), Ok(()));
    assert_eq!(StableCurve { amp: 1_000_000 }.validate(), Ok(()));
    assert_eq!(StableCurve { amp: 1_000_001 }.validate(), Err(gfx_swap::ErrorCode::InvalidCurve));
    assert_eq!(
        SwapCurve::StableCurve(StableCurve { amp: 0 }).validate(),
        Err(gfx_swap::ErrorCode::InvalidCurve)
    );
}

#[test]
fn stable_swap_near_one_to_one() {
    let curve = StableCurve { amp: 100 };
    let r = curve.swap_without_fees(1000, 1_000_000, 1_000_000, TradeDirection::AtoB).unwrap();
    assert_eq!(r.source_amount_swapped, 1000);
    assert!((990..=1001).contains(&r.destination_amount_swapped), "{}", r.destination_amount_swapped);
    // A constant-product pool of the same size pays out less.
    let cp = ConstantProductCurve::new().swap_without_fees(1000, 1_000_000, 1_000_000, TradeDirection::AtoB).unwrap();
    assert!(cp.destination_amount_swapped <= r.destination_amount_swapped);
}

#[test]
fn stable_normalized_value_of_balanced_pool() {
    let curve = StableCurve { amp: 100 };
    assert_eq!(curve.normalized_value(1_000_000, 1_000_000), Some(2_000_000));
    assert_eq!(curve.normalized_value(0, 0), Some(0));
}

#[test]
fn stable_swap_keeps_invariant() {
    let curve = StableCurve { amp: 85 };
    let (s, d) = (3_000_000u128, 2_000_000u128);
    let before = curve.normalized_value(s, d).unwrap();
    let r = curve.swap_without_fees(50_000, s, d, TradeDirection::AtoB).unwrap();
    let after = curve.normalized_value(s + r.source_amount_swapped, d - r.destination_amount_swapped).unwrap();
    assert!(after + 1 >= before, "{} {}", before, after);
}

#[test]
fn stable_single_sided_operations() {
    let curve = StableCurve { amp: 100 };
    let lp = curve
        .deposit_single_token_type(1000, 1_000_000, 1_000_000, 1_000_000, TradeDirection::AtoB)
        .unwrap();
    assert!((490..=500).contains(&lp), "{}", lp);
    let burn = curve
        .withdraw_single_token_type_exact_out(1000, 1_000_000, 1_000_000, 1_000_000, TradeDirection::AtoB)
        .unwrap();
    assert!((490..=510).contains(&burn), "{}", burn);
    assert_eq!(curve.deposit_single_token_type(0, 1, 1, 1, TradeDirection::AtoB), Some(0));
    assert!(curve.withdraw_single_token_type_exact_out(2, 1, 1, 1, TradeDirection::AtoB).is_none());
}

#[test]
fn single_sided_deposit_too_large_for_128_bits_is_no_result() {
    let big: u128 = 1 << 100;
    let curve = SwapCurve::default();
    assert_eq!(curve.deposit_single_token_type(big, 1, 1, big, TradeDirection::AtoB, &Fees::default()), None);
    assert_eq!(
        ConstantProductCurve::new().deposit_single_token_type(big, 1, 1, big, TradeDirection::AtoB),
        None
    );
}

#[test]
fn single_sided_withdraw_beyond_reserve_is_no_result() {
    let curve = ConstantProductCurve::new();
    assert_eq!(curve.withdraw_single_token_type_exact_out(2_000_000, 1_000_000, 5, 1_000_000, TradeDirection::AtoB), None);
}
