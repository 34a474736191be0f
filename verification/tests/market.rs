use swap_engine::error::ProgramFailure;
use swap_engine::market::{
    get_liquidity, get_quote, get_quote_and_liquidity, is_valid, pump_fun_get_liquidity,
    pump_fun_get_quote, pump_fun_get_quote_and_liquidity, pump_fun_is_valid, raydium_get_liquidity,
    raydium_get_quote, raydium_get_quote_and_liquidity, raydium_is_valid, read_reserves,
    saturating_mul,
};

fn pool(a: u64, b: u64) -> Vec<u8> {
    let mut v = a.to_le_bytes().to_vec();
    v.extend_from_slice(&b.to_le_bytes());
    v
}

#[test]
fn reserves_are_read_little_endian() {
    let mut data = pool(0x0102030405060708, 42);
    data.push(0xff);
    assert_eq!(read_reserves(&data), (0x0102030405060708, 42));
}

#[test]
fn raydium_quote_takes_the_fee_then_the_price() {
    let data = pool(1_000_000, 2_000_000);
    assert_eq!(raydium_get_quote(&data, 1000, false), 1996);
    assert_eq!(raydium_get_quote(&data, 1000, true), 499);
}

#[test]
fn raydium_quote_of_an_empty_input_reserve_is_zero() {
    assert_eq!(raydium_get_quote(&pool(0, 2_000_000), 1000, false), 0);
    assert_eq!(raydium_get_quote(&pool(5, 0), 1000, true), 0);
}

#[test]
fn raydium_quote_grows_with_the_amount() {
    let data = pool(3_000_000, 7_000_000);
    let mut last = 0;
    for amount in [0u64, 1, 399, 400, 401, 1000, 123_456, 9_999_999] {
        let q = raydium_get_quote(&data, amount, false);
        assert!(q >= last);
        assert!(q <= 7_000_000 * amount / 3_000_000);
        last = q;
    }
}

#[test]
fn pump_fun_quote_is_the_same_both_ways() {
    let data = pool(1_000_000, 2_000_000);
    assert_eq!(pump_fun_get_quote(&data, 1000, false), 1_978_021);
    assert_eq!(pump_fun_get_quote(&data, 1000, true), 1_978_021);
}

#[test]
fn pump_fun_quote_saturates_the_product() {
    let data = pool(u64::MAX, 2);
    // the product holds at u64::MAX and the sum at u64::MAX: one, less nothing
    assert_eq!(pump_fun_get_quote(&data, 5, false), 1);
}

#[test]
fn liquidity_is_the_two_reserves() {
    let data = pool(7, 9);
    assert_eq!(raydium_get_liquidity(&data, 1, false), (7, 9));
    assert_eq!(pump_fun_get_liquidity(&data, 1, true), (7, 9));
    assert_eq!(get_liquidity(0, &data, 1, false), Ok((7, 9)));
    assert_eq!(get_liquidity(1, &data, 1, false), Ok((7, 9)));
    assert_eq!(get_liquidity(2, &data, 1, false), Err(ProgramFailure::InvalidArgument));
}

#[test]
fn quote_dispatches_on_the_dex_kind() {
    let data = pool(1_000_000, 2_000_000);
    assert_eq!(get_quote(0, &data, 1000, false), Ok(1996));
    assert_eq!(get_quote(1, &data, 1000, false), Ok(1_978_021));
    assert_eq!(get_quote(7, &data, 1000, false), Err(ProgramFailure::InvalidArgument));
}

#[test]
fn combined_request_is_quote_then_reserves() {
    let data = pool(1_000_000, 2_000_000);
    assert_eq!(raydium_get_quote_and_liquidity(&data, 1000, false), (1996, 1_000_000, 2_000_000));
    assert_eq!(
        pump_fun_get_quote_and_liquidity(&data, 1000, false),
        (1_978_021, 1_000_000, 2_000_000)
    );
    for kind in 0u8..4 {
        let combined = get_quote_and_liquidity(kind, &data, 1000, true);
        let apart = match (get_quote(kind, &data, 1000, true), get_liquidity(kind, &data, 1000, true)) {
            (Ok(q), Ok((a, b))) => Ok((q, a, b)),
            (Err(e), _) => Err(e),
            (_, Err(e)) => Err(e),
        };
        assert_eq!(combined, apart);
    }
}

#[test]
fn validity_needs_reserves_above_a_thousand() {
    assert!(raydium_is_valid(&pool(1001, 1001)));
    assert!(!raydium_is_valid(&pool(1000, 5000)));
    assert!(!raydium_is_valid(&pool(5000, 1000)));
    assert!(pump_fun_is_valid(&pool(1001, 1001), &|_a: u64, _b: u64| true));
    assert!(!pump_fun_is_valid(&pool(1001, 1001), &|_a: u64, _b: u64| false));
    assert!(!pump_fun_is_valid(&pool(10, 1001), &|_a: u64, _b: u64| true));
    assert!(pump_fun_is_valid(&pool(2000, 4000), &|a: u64, b: u64| b == 2 * a));
}

#[test]
fn validity_of_an_unknown_kind_is_false() {
    let data = pool(5000, 5000);
    assert!(is_valid(0, &data, &|_a: u64, _b: u64| false));
    assert!(!is_valid(1, &data, &|_a: u64, _b: u64| false));
    assert!(!is_valid(2, &data, &|_a: u64, _b: u64| true));
}

#[test]
fn saturating_product_holds_at_the_maximum() {
    assert_eq!(saturating_mul(u64::MAX, 2), u64::MAX);
    assert_eq!(saturating_mul(3, 4), 12);
}
