use swap_engine::profit::{
    calculate_profit, calculate_profit_optimised, is_buy_amount_too_big, liquidity_on,
    quote_and_liquidity_on, quote_on,
};

fn pool_of(a: u64, b: u64) -> Vec<u8> {
    let mut v = a.to_le_bytes().to_vec();
    v.extend_from_slice(&b.to_le_bytes());
    v
}

#[test]
fn any_kind_but_raydium_quotes_as_pump_fun() {
    let data = pool_of(1_000_000, 2_000_000);
    assert_eq!(quote_on(0, &data, 1000, false), 1996);
    assert_eq!(quote_on(1, &data, 1000, false), 1_978_021);
    assert_eq!(quote_on(9, &data, 1000, false), 1_978_021);
    assert_eq!(quote_and_liquidity_on(0, &data, 1000, true), (499, 1_000_000, 2_000_000));
    assert_eq!(liquidity_on(4, &data, 1, true), (1_000_000, 2_000_000));
}

#[test]
fn round_trip_through_one_pool_makes_no_profit() {
    let data = pool_of(1_000_000, 2_000_000);
    assert_eq!(calculate_profit(0, &data, 1000, false), 0);
}

#[test]
fn round_trip_through_a_saturated_pump_pool_keeps_the_excess() {
    // both quotes of this pool are large: the amount comes back many times over
    let data = pool_of(10_000, 10_000_000);
    let there = quote_on(1, &data, 100, false);
    let back = quote_on(1, &data, there, true);
    assert_eq!((there, back), (9_801_981, 10_090));
    assert_eq!(calculate_profit(1, &data, 100, false), 9990);
}

#[test]
fn cross_pool_profit_is_the_reverse_quote_less_the_amount() {
    let forward = pool_of(1_000_000, 2_000_000);
    assert_eq!(
        calculate_profit_optimised(1000, 0, 0, &forward, &forward, &pool_of(5_000_000, 1_000_000)),
        3990
    );
    assert_eq!(
        calculate_profit_optimised(1000, 0, 0, &forward, &forward, &pool_of(1_000_000, 5_000_000)),
        0
    );
}

#[test]
fn buy_is_too_big_below_the_threshold_or_on_a_bad_pool() {
    let data = pool_of(1_000_000, 2_000_000);
    assert!(is_buy_amount_too_big(0, &data, 1000, 2000, false, &|_a: u64, _b: u64| true));
    assert!(!is_buy_amount_too_big(0, &data, 1000, 1000, false, &|_a: u64, _b: u64| false));
    assert!(is_buy_amount_too_big(1, &data, 1000, 1000, false, &|_a: u64, _b: u64| false));
    assert!(!is_buy_amount_too_big(1, &data, 1000, 1000, false, &|_a: u64, _b: u64| true));
    assert!(is_buy_amount_too_big(0, &pool_of(900, 2_000_000), 1000, 0, false, &|_a: u64, _b: u64| true));
}
