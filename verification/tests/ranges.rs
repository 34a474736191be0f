use swap_engine::amounts::{
    gross_up_in_range, hinted_max_amount_in_range, portion_in_range, upper_bound_in_range,
};
use swap_engine::dex::pump::{pump_fun_swap_in_in_range, FastPathAutoSwapInPumpParams};
use swap_engine::dex::raydium::{raydium_swap_in_in_range, FastPathAutoSwapParams};
use swap_engine::market::quote_in_range;
use swap_engine::sandwich::{identities_in_range, leaders_in_range};
use swap_engine::strategy::{
    strategy_start_in_range, try_calculate_optimal_strategy_optimised, ResultData, StrategyInputs,
};
use swap_engine::swap::{auto_swap_out_slippage_in_range, AutoSwapOutData};
use swap_engine::system::{dynamic_tip_in_range, TIP_PARAM_KEY};

fn reserves(a: u64, b: u64) -> Vec<u8> {
    let mut v = a.to_le_bytes().to_vec();
    v.extend_from_slice(&b.to_le_bytes());
    v
}

#[test]
fn quote_range_follows_the_dex() {
    assert!(quote_in_range(0, &reserves(1_000_000, 2_000_000), 1000, false));
    assert!(!quote_in_range(0, &reserves(1_000_000, 2_000_000), u64::MAX, false));
    assert!(!quote_in_range(0, &reserves(1, u64::MAX), 1_000_000, false));
    assert!(quote_in_range(0, &reserves(0, u64::MAX), 1_000_000, false));
    assert!(!quote_in_range(1, &reserves(0, 5), 0, true));
    assert!(quote_in_range(1, &reserves(0, 5), 1, true));
}

#[test]
fn fee_and_share_ranges() {
    assert!(!gross_up_in_range(5, 0, false));
    assert!(!gross_up_in_range(u64::MAX, 9975, false));
    assert!(!gross_up_in_range(u64::MAX, 9975, true));
    assert!(gross_up_in_range(u64::MAX, 20000, true));
    assert!(!portion_in_range(u64::MAX, 2, false));
    assert!(portion_in_range(u64::MAX, 2, true));
}

#[test]
fn bound_ranges() {
    assert!(!hinted_max_amount_in_range(0, u64::MAX, 25, 10000));
    assert!(hinted_max_amount_in_range(100, 50, 25, 10000));
    assert!(!hinted_max_amount_in_range(0, 10, 10000, 1));
    assert!(!upper_bound_in_range(0, 0, u64::MAX, 1));
    assert!(upper_bound_in_range(10, 0, 5, 1));
    assert!(upper_bound_in_range(10, 1, 9910, 10000));
}

fn tip_params(p: [u64; 4]) -> Vec<u8> {
    let mut v = Vec::new();
    for x in p {
        v.extend_from_slice(&(x ^ TIP_PARAM_KEY).to_le_bytes());
    }
    v
}

#[test]
fn tip_range() {
    assert!(dynamic_tip_in_range(&tip_params([400, 33, 2000, 1000]), 500));
    assert!(!dynamic_tip_in_range(&tip_params([400, 33, u64::MAX, 1000]), 2));
    assert!(!dynamic_tip_in_range(&tip_params([u64::MAX, 0, 1, 1000]), 2));
    assert!(dynamic_tip_in_range(&tip_params([u64::MAX, 7, 1, 1000]), 2));
}

fn block(offset: u64, count: u64, payload: usize) -> Vec<u8> {
    let mut v = offset.to_le_bytes().to_vec();
    v.extend_from_slice(&count.to_le_bytes());
    v.extend(std::iter::repeat(0u8).take(payload));
    v
}

#[test]
fn table_ranges() {
    assert!(!identities_in_range(&block(u64::MAX, 2, 64)));
    assert!(identities_in_range(&block(u64::MAX, 1, 64)));
    assert!(identities_in_range(&block(u64::MAX, 2, 0)));
    assert!(identities_in_range(&[1, 2, 3]));
    assert!(!leaders_in_range(&block(0, u64::MAX, 0)));
    assert!(leaders_in_range(&block(0, 1, 2)));
    assert!(leaders_in_range(&block(5, 0, 0)));
}

#[test]
fn automatic_buy_ranges() {
    let raydium = FastPathAutoSwapParams {
        min_amount_out: 0,
        amount_in: 0,
        is_source_input: true,
        use_slippage_protection: true,
        slippage_bps: 5000,
    };
    assert!(!raydium_swap_in_in_range(raydium, 0, 0, u64::MAX));
    assert!(raydium_swap_in_in_range(raydium, 100, 150, 10025));
    assert!(raydium_swap_in_in_range(raydium, 0, 1000, 10));
    let pump = FastPathAutoSwapInPumpParams {
        min_amount_out: 0,
        amount_in: 0,
        is_source_input: true,
        use_slippage_protection: true,
        slippage_bps: 3000,
    };
    assert!(!pump_fun_swap_in_in_range(pump, true, false, u64::MAX, 0, 1));
    assert!(pump_fun_swap_in_in_range(pump, true, false, 100, 50, 10025));
    assert!(pump_fun_swap_in_in_range(pump, false, false, u64::MAX, 0, 1));
}

#[test]
fn sell_slippage_range() {
    let mut data = AutoSwapOutData {
        input_amount: 0,
        output_amount: 0,
        validator_id: 0,
        is_inverted: false,
        enable_sandwich: false,
        use_alt_location: true,
    };
    assert!(!auto_swap_out_slippage_in_range(data, u64::MAX, 1, 0));
    assert!(auto_swap_out_slippage_in_range(data, 5, 1, 0));
    data.use_alt_location = false;
    assert!(!auto_swap_out_slippage_in_range(data, 1, 0, 2));
    assert!(auto_swap_out_slippage_in_range(data, 5, 0, 2));
}

fn strategy_inputs(amount_a: u64, need_verify: bool, dex_type: u8) -> StrategyInputs {
    StrategyInputs {
        amount_a,
        amount_b: 0,
        min_amount: 0,
        multiplier: 10000,
        swap_type: 0,
        is_reverse: false,
        need_verify,
        dex_type,
    }
}

fn root(q: u64) -> u64 {
    let mut r: u64 = (q as f64).sqrt() as u64;
    while r * r > q {
        r -= 1;
    }
    while (r + 1) * (r + 1) <= q {
        r += 1;
    }
    r
}

#[test]
fn strategy_start_range() {
    assert!(strategy_start_in_range(strategy_inputs(9975, true, 0)));
    assert!(!strategy_start_in_range(strategy_inputs(u64::MAX, true, 0)));
}

#[test]
fn checked_strategy_reports_an_overflowing_search() {
    let mut result = ResultData { result: 1, profit: 2 };
    let r = try_calculate_optimal_strategy_optimised(
        strategy_inputs(99_750, true, 0),
        &reserves(1, 1 << 62),
        &mut result,
        &root,
    );
    assert_eq!(r, None);
    assert_eq!(result, ResultData { result: 1, profit: 2 });
    let short = try_calculate_optimal_strategy_optimised(
        strategy_inputs(99_750, true, 0),
        &[0u8; 8],
        &mut result,
        &root,
    );
    assert_eq!(short, None);
}

#[test]
fn checked_strategy_runs_a_fitting_search() {
    let mut result = ResultData { result: 1, profit: 2 };
    let r = try_calculate_optimal_strategy_optimised(
        strategy_inputs(99_750, true, 0),
        &reserves(1_000_000_000_000, 1_000_000_000_000),
        &mut result,
        &root,
    );
    assert_eq!(r, Some(true));
    assert_eq!(result, ResultData { result: 100_000, profit: 0 });
    let mut unverified = ResultData { result: 1, profit: 2 };
    let s = try_calculate_optimal_strategy_optimised(
        strategy_inputs(99_750, false, 0),
        &reserves(1, 1 << 62),
        &mut unverified,
        &root,
    );
    assert_eq!(s, Some(true));
    assert_eq!(unverified, ResultData { result: 100_000, profit: 2 });
}
