use obric_solana::error::ObricError;
use obric_solana::math::{abs_diff, sqrt_floor, ten_pow};
use obric_solana::state::{Quote, SSTradingPair};

fn unit_pair(fee_millionth: u64, lock: bool) -> SSTradingPair {
    SSTradingPair {
        mult_x: 1,
        mult_y: 1,
        fee_millionth,
        big_k: 1_000_000,
        target_x: 500,
        target_y_based_lock: lock,
    }
}

#[test]
fn worked_scenario_x_to_y() {
    let pair = unit_pair(1000, false);
    let q = pair.quote_x_to_y(100, 500, 1000).unwrap();
    assert_eq!(q, Quote::Quoted { output: 91, fee: 0 });
    assert_eq!(q.amounts(), (91, 0));
}

#[test]
fn worked_scenario_y_to_x() {
    let pair = unit_pair(1000, false);
    let q = pair.quote_y_to_x(100, 500, 1000).unwrap();
    assert_eq!(q, Quote::Quoted { output: 91, fee: 0 });
}

#[test]
fn fee_is_rounded_down_and_exact() {
    let pair = unit_pair(10_000, false);
    // new_x_k = 1400, new_y_k = 714, pre-fee output 286, fee floor(2.86) = 2
    let (output, fee) = pair.quote_x_to_y(400, 500, 1000).unwrap().amounts();
    assert_eq!((output, fee), (284, 2));
    assert_eq!(output + fee, 286);
}

#[test]
fn fee_rate_above_one_million_fails() {
    let pair = unit_pair(2_000_000, false);
    assert_eq!(pair.quote_x_to_y(100, 500, 1000), Err(ObricError::NumOverflowing));
}

#[test]
fn zero_input_is_no_op() {
    let pair = unit_pair(1000, true);
    for (cx, cy) in [(0u64, 0u64), (500, 1000), (u64::MAX, u64::MAX)] {
        assert_eq!(pair.quote_x_to_y(0, cx, cy), Ok(Quote::NoOp));
        assert_eq!(pair.quote_y_to_x(0, cx, cy), Ok(Quote::NoOp));
        assert_eq!(Quote::NoOp.amounts(), (0, 0));
    }
}

#[test]
fn liquidity_guard_x_to_y() {
    let pair = unit_pair(1000, false);
    // pre-fee output 91 against a Y reserve of 50
    let q = pair.quote_x_to_y(100, 500, 50).unwrap();
    assert_eq!(q, Quote::InsufficientLiquidity);
    assert_eq!(q.amounts(), (0, 0));
}

#[test]
fn liquidity_guard_at_equal_reserve() {
    let pair = unit_pair(1000, false);
    assert_eq!(pair.quote_x_to_y(100, 500, 91), Ok(Quote::InsufficientLiquidity));
    assert_eq!(pair.quote_x_to_y(100, 500, 92), Ok(Quote::Quoted { output: 91, fee: 0 }));
}

#[test]
fn liquidity_guard_y_to_x() {
    let pair = SSTradingPair { target_x: 90, ..unit_pair(1000, false) };
    // current_x_k = 1000 - 90 + 90 = 1000, pre-fee output 91 against an X reserve of 90
    assert_eq!(pair.quote_y_to_x(100, 90, 1000), Ok(Quote::InsufficientLiquidity));
}

#[test]
fn lock_refuses_trade_away_from_target() {
    let pair = unit_pair(1000, true);
    let q = pair.quote_x_to_y(100, 500, 1000).unwrap();
    assert_eq!(q, Quote::Locked);
    assert_eq!(q.amounts(), (0, 0));
    assert_eq!(pair.quote_y_to_x(100, 500, 1000), Ok(Quote::Locked));
}

#[test]
fn lock_allows_trade_toward_target() {
    let pair = unit_pair(1000, true);
    // current_x_k = 800, current_y_k = 1250, new_x_k = 900, new_y_k = 1111
    assert_eq!(pair.quote_x_to_y(100, 300, 1200), Ok(Quote::Quoted { output: 139, fee: 0 }));
}

#[test]
fn lock_refuses_overshoot_of_equal_distance() {
    let pair = unit_pair(1000, true);
    // from 400 to 600: the distance to 500 stays 100
    assert_eq!(pair.quote_x_to_y(200, 400, 1100), Ok(Quote::Locked));
}

#[test]
fn lock_sum_overflow_fails() {
    let pair = unit_pair(1000, true);
    assert_eq!(pair.quote_x_to_y(u64::MAX, 500, 1000), Err(ObricError::NumOverflowing));
}

#[test]
fn target_beyond_curve_anchor_fails() {
    let pair = SSTradingPair { big_k: 100, ..unit_pair(1000, false) };
    assert_eq!(pair.quote_x_to_y(1, 500, 1000), Err(ObricError::NumOverflowing));
    assert_eq!(pair.quote_y_to_x(1, 500, 1000), Err(ObricError::NumOverflowing));
}

#[test]
fn zero_mult_x_fails_quote() {
    let pair = SSTradingPair { mult_x: 0, ..unit_pair(1000, false) };
    assert_eq!(pair.quote_x_to_y(1, 500, 1000), Err(ObricError::NumOverflowing));
}

#[test]
fn target_split_keeps_value() {
    let pair = SSTradingPair { mult_x: 3, mult_y: 7, target_x: 100, ..unit_pair(0, false) };
    // value 3 * 200 + 7 * 50 = 950; (950 - 300) / 7 = 92
    let (tx, ty) = pair.get_target_xy(200, 50).unwrap();
    assert_eq!((tx, ty), (100, 92));
    let kept = tx as u128 * 3 + ty as u128 * 7;
    assert!(kept <= 950 && 950 < kept + 7);
}

#[test]
fn target_split_fails_when_target_exceeds_value() {
    let pair = unit_pair(0, false);
    assert_eq!(pair.get_target_xy(100, 100), Err(ObricError::NumOverflowing));
}

#[test]
fn target_split_fails_on_zero_mult_y() {
    let pair = SSTradingPair { mult_y: 0, ..unit_pair(0, false) };
    assert_eq!(pair.get_target_xy(1000, 1000), Err(ObricError::NumOverflowing));
}

#[test]
fn target_split_fails_when_total_value_overflows() {
    let pair = SSTradingPair { mult_x: u64::MAX, mult_y: u64::MAX, ..unit_pair(0, false) };
    assert_eq!(pair.get_target_xy(u64::MAX, u64::MAX), Err(ObricError::NumOverflowing));
}

#[test]
fn target_split_fails_when_target_y_exceeds_64_bits() {
    let pair = SSTradingPair { mult_x: u64::MAX, mult_y: 1, target_x: 0, ..unit_pair(0, false) };
    assert_eq!(pair.get_target_xy(2, 0), Err(ObricError::NumOverflowing));
}

#[test]
fn decimal_normalization_scales_fewer_decimals() {
    let mut pair = unit_pair(1000, false);
    pair.update_price(1_000_000, 1, 6, 9).unwrap();
    assert_eq!((pair.mult_x, pair.mult_y), (1_000_000_000, 1));
    pair.update_price(1_000_000, 1, 9, 6).unwrap();
    assert_eq!((pair.mult_x, pair.mult_y), (1_000_000, 1000));
    pair.update_price(5, 7, 8, 8).unwrap();
    assert_eq!((pair.mult_x, pair.mult_y), (5, 7));
    assert_eq!(pair.big_k, 1_000_000);
}

#[test]
fn update_price_overflow_leaves_state() {
    let mut pair = unit_pair(1000, false);
    assert_eq!(pair.update_price(u64::MAX, 1, 0, 1), Err(ObricError::NumOverflowing));
    assert_eq!(pair.update_price(1, 1, 0, 20), Err(ObricError::NumOverflowing));
    assert_eq!(pair.update_price(1, 1, 255, 0), Err(ObricError::NumOverflowing));
    assert_eq!(pair, unit_pair(1000, false));
    pair.update_price(1, 1, 0, 19).unwrap();
    assert_eq!(pair.mult_x, 10_000_000_000_000_000_000);
}

#[test]
fn abs_diff_both_orders() {
    assert_eq!(abs_diff(3, 10), Ok(7));
    assert_eq!(abs_diff(10, 3), Ok(7));
    assert_eq!(abs_diff(5, 5), Ok(0));
    assert_eq!(abs_diff(0, u64::MAX), Ok(u64::MAX));
}

#[test]
fn sqrt_floor_values() {
    assert_eq!(sqrt_floor(1_000_000), 1000);
    assert_eq!(sqrt_floor(999_999), 999);
    assert_eq!(sqrt_floor(0), 0);
    assert_eq!(sqrt_floor(u128::MAX), u64::MAX as u128);
}

#[test]
fn ten_pow_values() {
    assert_eq!(ten_pow(0), Some(1));
    assert_eq!(ten_pow(3), Some(1000));
    assert_eq!(ten_pow(19), Some(10_000_000_000_000_000_000));
    assert_eq!(ten_pow(20), None);
}
