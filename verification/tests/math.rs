use solana_perp_dex_smart_contract::error::PerpDexError;
use solana_perp_dex_smart_contract::math::{
    calculate_funding_payment, calculate_funding_rate, calculate_health_factor, calculate_liquidation_bonus,
    calculate_margin_requirement, calculate_premium_index, calculate_price_impact, calculate_trade_fee,
    calculate_unrealized_pnl, calculate_vamm_output, to_i64, is_liquidatable, is_oracle_deviation_acceptable,
    is_oracle_stale, unsigned_abs, PRECISION, PRECISION_I64,
};

#[test]
fn precision_is_one_million() {
    assert_eq!(PRECISION, 1_000_000);
    assert_eq!(PRECISION_I64, 1_000_000);
}

#[test]
fn pnl_of_long_in_profit() {
    assert_eq!(calculate_unrealized_pnl(50_000_000, 55_000_000, 2_000_000, true), Ok(10_000_000));
}

#[test]
fn pnl_of_short_in_loss() {
    assert_eq!(calculate_unrealized_pnl(50_000_000, 55_000_000, 2_000_000, false), Ok(-10_000_000));
}

#[test]
fn pnl_rounds_toward_zero() {
    assert_eq!(calculate_unrealized_pnl(0, 1, 1, false), Ok(0));
    assert_eq!(calculate_unrealized_pnl(0, 3, 500_000, false), Ok(-1));
}

#[test]
fn inputs_beyond_i64_are_refused() {
    assert_eq!(calculate_unrealized_pnl(1u64 << 63, 1, 1, true), Err(PerpDexError::MathOverflow));
    assert_eq!(calculate_unrealized_pnl(1, 1, u64::MAX, true), Err(PerpDexError::MathOverflow));
    assert_eq!(calculate_premium_index(u64::MAX, 1), Err(PerpDexError::MathOverflow));
    assert_eq!(calculate_funding_rate(0, 100_000, 1u64 << 63), Err(PerpDexError::MathOverflow));
    assert_eq!(calculate_funding_rate(0, 1u64 << 63, 10_000), Err(PerpDexError::MathOverflow));
    assert_eq!(calculate_funding_payment(1, 1, true, 1, u64::MAX), Err(PerpDexError::MathOverflow));
    assert_eq!(calculate_funding_payment(1, 1, true, 1u64 << 63, 1), Err(PerpDexError::MathOverflow));
}

#[test]
fn pnl_overflow() {
    assert_eq!(
        calculate_unrealized_pnl(0, 4_000_000_000_000_000_000, 1_000_000, true),
        Err(PerpDexError::MathOverflow)
    );
}

#[test]
fn funding_payment_of_long_and_short() {
    assert_eq!(calculate_funding_payment(10_000, 1_000_000, true, 3600, 3600), Ok(10_000));
    assert_eq!(calculate_funding_payment(10_000, 1_000_000, false, 3600, 3600), Ok(-10_000));
    assert_eq!(calculate_funding_payment(10_000, 1_000_000, true, 1800, 3600), Ok(5_000));
}

#[test]
fn funding_payment_zero_interval() {
    assert_eq!(calculate_funding_payment(10_000, 1_000_000, true, 3600, 0), Err(PerpDexError::MathOverflow));
}

#[test]
fn funding_payment_negating_min_rate_overflows() {
    assert_eq!(calculate_funding_payment(i64::MIN, 1, false, 1, 1), Err(PerpDexError::MathOverflow));
}

#[test]
fn funding_rate_inside_and_clamped() {
    assert_eq!(calculate_funding_rate(50_000, 100_000, 10_000), Ok(5_000));
    assert_eq!(calculate_funding_rate(200_000, 100_000, 10_000), Ok(10_000));
    assert_eq!(calculate_funding_rate(-200_000, 100_000, 10_000), Ok(-10_000));
}

#[test]
fn funding_rate_overflow() {
    assert_eq!(calculate_funding_rate(i64::MAX, 2, 10_000), Err(PerpDexError::MathOverflow));
}

#[test]
fn premium_index_values() {
    assert_eq!(calculate_premium_index(105_000_000, 100_000_000), Ok(50_000));
    assert_eq!(calculate_premium_index(1, 3), Ok(-666_666));
}

#[test]
fn premium_index_zero_oracle() {
    assert_eq!(calculate_premium_index(1, 0), Err(PerpDexError::DivisionByZero));
}

#[test]
fn margin_requirement_values() {
    assert_eq!(calculate_margin_requirement(1_000_000, 50_000_000, 10), Ok(5_000_000));
    assert_eq!(calculate_margin_requirement(1_000_000, 50_000_000, 0), Err(PerpDexError::DivisionByZero));
    assert_eq!(calculate_margin_requirement(u64::MAX, 2, 1), Err(PerpDexError::MathOverflow));
}

#[test]
fn health_factor_values() {
    assert_eq!(calculate_health_factor(10_000_000, -2_000_000, 5_000_000), Ok(1_600_000));
    assert_eq!(calculate_health_factor(10_000_000, 0, 0), Err(PerpDexError::DivisionByZero));
    assert_eq!(calculate_health_factor(1, -2, 5), Err(PerpDexError::MathOverflow));
    assert_eq!(calculate_health_factor(u64::MAX, 1, 1), Err(PerpDexError::MathOverflow));
    assert_eq!(calculate_health_factor(u64::MAX, 0, 1), Err(PerpDexError::MathOverflow));
}

#[test]
fn liquidatable_below_threshold_only() {
    assert!(is_liquidatable(799_999, 800_000));
    assert!(!is_liquidatable(800_000, 800_000));
}

#[test]
fn liquidation_bonus_value() {
    assert_eq!(calculate_liquidation_bonus(1_000_000, 46_000_000, 50_000), Ok(2_300_000));
    assert_eq!(calculate_liquidation_bonus(u64::MAX, 2, 1), Err(PerpDexError::MathOverflow));
    assert_eq!(calculate_liquidation_bonus(1_000_000_000, 1_000_000_000, 100), Err(PerpDexError::MathOverflow));
}

#[test]
fn vamm_output_buy_and_sell() {
    assert_eq!(calculate_vamm_output(1000, 50_000, 5_000, true), Ok(91));
    assert_eq!(calculate_vamm_output(1_000_000, 50_000_000, 1_000_000, true), Ok(19_608));
    assert_eq!(calculate_vamm_output(1_000_000, 50_000_000, 10_000, false), Ok(495_050));
}

#[test]
fn vamm_output_empty_reserve() {
    assert_eq!(calculate_vamm_output(0, 50_000, 5_000, true), Err(PerpDexError::InsufficientAMMLiquidity));
    assert_eq!(calculate_vamm_output(1_000, 0, 5_000, false), Err(PerpDexError::InsufficientAMMLiquidity));
}

#[test]
fn vamm_output_overflow() {
    // k is held in u128: reserves whose product leaves u64 still trade.
    assert_eq!(calculate_vamm_output(u64::MAX, 2, 2, true), Ok(u64::MAX - u64::MAX / 2));
    assert_eq!(calculate_vamm_output(1, 2, u64::MAX, true), Err(PerpDexError::MathOverflow));
    assert_eq!(calculate_vamm_output(2, 1, u64::MAX, false), Err(PerpDexError::MathOverflow));
}

#[test]
fn price_impact_values() {
    assert_eq!(calculate_price_impact(100, 110), Ok(100_000));
    assert_eq!(calculate_price_impact(100, 90), Ok(100_000));
    assert_eq!(calculate_price_impact(0, 90), Err(PerpDexError::DivisionByZero));
    assert_eq!(calculate_price_impact(1, u64::MAX), Err(PerpDexError::MathOverflow));
}

#[test]
fn trade_fee_value() {
    assert_eq!(calculate_trade_fee(1_000_000, 50_000_000, 2_000), Ok(100_000));
    assert_eq!(calculate_trade_fee(u64::MAX, 2, 2_000), Err(PerpDexError::MathOverflow));
}

#[test]
fn oracle_staleness() {
    assert!(is_oracle_stale(100, 161, 60));
    assert!(!is_oracle_stale(100, 160, 60));
    assert!(!is_oracle_stale(0, 60, 60));
    assert!(is_oracle_stale(0, 61, 60));
    assert!(!is_oracle_stale(0, 1, 1u64 << 63));
    assert!(is_oracle_stale(i64::MIN, i64::MAX, u64::MAX - 1));
    assert!(!is_oracle_stale(i64::MIN, i64::MAX, u64::MAX));
}

#[test]
fn oracle_deviation() {
    assert_eq!(is_oracle_deviation_acceptable(100_000_000, 104_000_000, 50_000), Ok(true));
    assert_eq!(is_oracle_deviation_acceptable(100_000_000, 105_000_000, 50_000), Ok(true));
    assert_eq!(is_oracle_deviation_acceptable(100_000_000, 106_000_000, 50_000), Ok(false));
    assert_eq!(is_oracle_deviation_acceptable(0, 106_000_000, 50_000), Err(PerpDexError::DivisionByZero));
    assert_eq!(is_oracle_deviation_acceptable(1, u64::MAX, 50_000), Err(PerpDexError::MathOverflow));
}

#[test]
fn helpers_abs_and_cast() {
    assert_eq!(unsigned_abs(i64::MIN), 1u64 << 63);
    assert_eq!(unsigned_abs(-5), 5);
    assert_eq!(unsigned_abs(5), 5);
    assert_eq!(to_i64(u64::MAX), None);
    assert_eq!(to_i64(1u64 << 63), None);
    assert_eq!(to_i64(7), Some(7));
}
