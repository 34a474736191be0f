use swap_engine::amounts::{
    apply_slippage, calculate_adjusted_amount, calculate_hinted_max_amount_optimised,
    calculate_liquidity_optimized, calculate_optimal_strategy, calculate_price_optimized,
    calculate_upper_bound, calculate_upper_bound_optimised,
};
use swap_engine::error::ErrorCode;

#[test]
fn adjusted_amount_grosses_up_by_the_fee() {
    assert_eq!(calculate_adjusted_amount(9975, false), 10000);
    assert_eq!(calculate_adjusted_amount(19950, true), 20000);
    // a large amount is divided first and loses its remainder
    assert_eq!(calculate_adjusted_amount(19951, true), 20000);
    assert_eq!(calculate_adjusted_amount(1, false), 1);
}

#[test]
fn slippage_is_a_share_in_basis_points() {
    assert_eq!(apply_slippage(10000, 50, false), 50);
    assert_eq!(apply_slippage(1_000_000, 50, true), 5000);
    assert_eq!(apply_slippage(19_999, 5000, true), 5000);
}

#[test]
fn hinted_max_amount_of_nothing_available_is_zero() {
    assert_eq!(calculate_hinted_max_amount_optimised(100, 50, 25, 10000), 0);
}

#[test]
fn hinted_max_amount_grosses_up_the_rest() {
    assert_eq!(calculate_hinted_max_amount_optimised(0, 9975, 25, 10000), 10000);
    assert_eq!(calculate_hinted_max_amount_optimised(25, 10000, 25, 5000), 5000);
    assert_eq!(calculate_hinted_max_amount_optimised(10, 10, 25, 5000), 0);
}

#[test]
fn upper_bound_uses_the_chosen_token() {
    assert_eq!(calculate_upper_bound_optimised(100, 0, 10075, 0, 0, 5000), 5000);
    assert_eq!(calculate_upper_bound_optimised(100, 0, 10075, 0, 1, 5000), 0);
    assert_eq!(calculate_upper_bound_optimised(100, 1, 10000, 0, 0, 5000), 5000);
    assert_eq!(calculate_upper_bound_optimised(100, 0, 0, 10075, 3, 10000), 10000);
}

#[test]
fn upper_bound_is_zero_without_an_excess() {
    assert_eq!(calculate_upper_bound_optimised(500, 0, 500, 900, 0, 10000), 0);
    assert_eq!(calculate_upper_bound(500, 1, 400, 900, true, 10000), 0);
}

#[test]
fn upper_bound_with_a_flag_agrees_with_the_selector() {
    assert_eq!(
        calculate_upper_bound(100, 0, 10075, 20000, true, 5000),
        calculate_upper_bound_optimised(100, 0, 10075, 20000, 0, 5000)
    );
    assert_eq!(
        calculate_upper_bound(100, 0, 10075, 20000, false, 5000),
        calculate_upper_bound_optimised(100, 0, 10075, 20000, 1, 5000)
    );
}

#[test]
fn superseded_strategy_check_always_accepts() {
    assert!(calculate_optimal_strategy(100, 0, 10075, 0, true, 5000));
    assert!(calculate_optimal_strategy(0, 1, 0, 0, false, 0));
}

#[test]
fn liquidity_scales_by_the_fee_fraction() {
    assert_eq!(calculate_liquidity_optimized(100, 200, 0, 5), Ok((100, 200)));
    assert_eq!(calculate_liquidity_optimized(100, 200, 2, 6), Ok((300, 600)));
    assert_eq!(calculate_liquidity_optimized(7, 9, 3, 3), Ok((7, 9)));
}

#[test]
fn liquidity_refuses_zero_parameters() {
    assert_eq!(calculate_liquidity_optimized(0, 1, 1, 1), Err(ErrorCode::InvalidParameter));
    assert_eq!(calculate_liquidity_optimized(1, 0, 1, 1), Err(ErrorCode::InvalidParameter));
    assert_eq!(calculate_liquidity_optimized(1, 1, 1, 0), Err(ErrorCode::InvalidParameter));
}

#[test]
fn liquidity_refuses_an_overflowing_product() {
    assert_eq!(calculate_liquidity_optimized(u64::MAX, 1, 1, 2), Err(ErrorCode::Overflow));
    assert_eq!(calculate_liquidity_optimized(1, u64::MAX, 1, 2), Err(ErrorCode::Overflow));
}

#[test]
fn price_is_the_constant_product_output() {
    assert_eq!(calculate_price_optimized(1000, 2000, 100, true), Ok(181));
    assert_eq!(calculate_price_optimized(1000, 2000, 100, false), Ok(47));
    assert_eq!(calculate_price_optimized(1000, 2000, u64::MAX / 4000, true), Ok(1999));
}

#[test]
fn price_refuses_an_empty_pool_and_overflow() {
    assert_eq!(calculate_price_optimized(0, 5, 1, true), Err(ErrorCode::InsufficientLiquidity));
    assert_eq!(calculate_price_optimized(5, 0, 1, false), Err(ErrorCode::InsufficientLiquidity));
    assert_eq!(calculate_price_optimized(u64::MAX, u64::MAX, 2, true), Err(ErrorCode::Overflow));
    assert_eq!(calculate_price_optimized(u64::MAX, 1, 1, true), Err(ErrorCode::Overflow));
}

#[test]
fn price_never_drains_the_pool() {
    for amount in [1u64, 10, 1000, 1_000_000, 1_000_000_000] {
        if let Ok(out) = calculate_price_optimized(5000, 7000, amount, true) {
            assert!(out < 7000);
        }
        if let Ok(out) = calculate_price_optimized(5000, 7000, amount, false) {
            assert!(out < 5000);
        }
    }
}
