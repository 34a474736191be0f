//! Round-trip profit estimates and the trade-size check.
use vstd::prelude::*;
use crate::market::{
    lemma_after_fee_monotone, raydium_after_fee, sat_add, sat_mul,
    dex_quote, dex_quote_fits, pump_fun_get_liquidity, pump_fun_get_quote,
    pump_fun_get_quote_and_liquidity, pump_fun_is_valid, raydium_get_liquidity,
    raydium_get_quote, raydium_get_quote_and_liquidity, raydium_is_valid, reserve_a, reserve_b,
    reserves_sufficient, RAYDIUM,
};

verus! {

/// The quote on the DEX of kind `dex_type`: Raydium for kind 0, Pump.fun for any other kind.
pub fn quote_on(dex_type: u8, input_data: &[u8], amount: u64, reverse: bool) -> (quote: u64)
    requires
        input_data@.len() >= 16,
        dex_quote_fits(dex_type, input_data@, amount, reverse),
    ensures
        quote == dex_quote(dex_type, input_data@, amount, reverse),
{
    reveal(dex_quote);
    reveal(dex_quote_fits);
    if dex_type == RAYDIUM {
        raydium_get_quote(input_data, amount, reverse)
    } else {
        pump_fun_get_quote(input_data, amount, reverse)
    }
}

/// The quote and reserves on the DEX of kind `dex_type`: Raydium for kind 0, Pump.fun for any
/// other kind.
pub fn quote_and_liquidity_on(dex_type: u8, input_data: &[u8], amount: u64, reverse: bool) -> (r: (
    u64,
    u64,
    u64,
))
    requires
        input_data@.len() >= 16,
        dex_quote_fits(dex_type, input_data@, amount, reverse),
    ensures
        r.0 == dex_quote(dex_type, input_data@, amount, reverse),
        r.1 == reserve_a(input_data@),
        r.2 == reserve_b(input_data@),
{
    reveal(dex_quote);
    reveal(dex_quote_fits);
    if dex_type == RAYDIUM {
        raydium_get_quote_and_liquidity(input_data, amount, reverse)
    } else {
        pump_fun_get_quote_and_liquidity(input_data, amount, reverse)
    }
}

/// The reserves on the DEX of kind `dex_type`: Raydium for kind 0, Pump.fun for any other kind.
pub fn liquidity_on(dex_type: u8, input_data: &[u8], amount: u64, reverse: bool) -> (r: (u64, u64))
    requires
        input_data@.len() >= 16,
    ensures
        r.0 == reserve_a(input_data@),
        r.1 == reserve_b(input_data@),
{
    if dex_type == RAYDIUM {
        raydium_get_liquidity(input_data, amount, reverse)
    } else {
        pump_fun_get_liquidity(input_data, amount, reverse)
    }
}

/// `a - b`, held at zero.
pub open spec fn sat_sub(a: int, b: int) -> int {
    if a < b { 0 } else { a - b }
}

/// The profit of trading `amount` through a pool and the proceeds straight back through the
/// same pool: what comes back, less `amount`, held at zero.
pub open spec fn round_trip_profit(dex_type: u8, data: Seq<u8>, amount: u64, reverse: bool) -> int {
    let out = dex_quote(dex_type, data, amount, reverse);
    sat_sub(dex_quote(dex_type, data, out as u64, !reverse), amount as int)
}

/// The inputs on which both legs of the round trip fit the machine's arithmetic.
pub open spec fn round_trip_fits(dex_type: u8, data: Seq<u8>, amount: u64, reverse: bool) -> bool {
    &&& dex_quote_fits(dex_type, data, amount, reverse)
    &&& dex_quote_fits(dex_type, data, dex_quote(dex_type, data, amount, reverse) as u64, !reverse)
}

/// The profit of a round trip through one pool (see `round_trip_profit`).
pub fn calculate_profit(dex_type: u8, input_data: &[u8], amount: u64, reverse: bool) -> (profit: u64)
    requires
        input_data@.len() >= 16,
        round_trip_fits(dex_type, input_data@, amount, reverse),
    ensures
        profit == round_trip_profit(dex_type, input_data@, amount, reverse),
{
    let (quote1, _reserve_a, _reserve_b) = quote_and_liquidity_on(
        dex_type,
        input_data,
        amount,
        reverse,
    );
    let (_liquidity_a, _liquidity_b) = liquidity_on(dex_type, input_data, amount, reverse);
    let reverse_quote = quote_on(dex_type, input_data, quote1, !reverse);
    reverse_quote.saturating_sub(amount)
}

/// The profit across two pools: the reverse-direction quote for `amount` on the pool in
/// `quote_reverse_data` (of kind `dex_type_reverse`), less `amount`, held at zero.
pub open spec fn cross_pool_profit(dex_type_reverse: u8, quote_reverse_data: Seq<u8>, amount: u64) -> int {
    sat_sub(dex_quote(dex_type_reverse, quote_reverse_data, amount, true), amount as int)
}

/// The profit of buying on one pool and selling on another (see `cross_pool_profit`). The
/// forward quote and the reverse pool's reserves are read as well, as checks that the pools
/// can be quoted.
pub fn calculate_profit_optimised(
    amount: u64,
    dex_type: u8,
    dex_type_reverse: u8,
    quote_data: &[u8],
    liquidity_data: &[u8],
    quote_reverse_data: &[u8],
) -> (profit: u64)
    requires
        quote_data@.len() >= 16,
        liquidity_data@.len() >= 16,
        quote_reverse_data@.len() >= 16,
        dex_quote_fits(dex_type, quote_data@, amount, false),
        dex_quote_fits(dex_type_reverse, quote_reverse_data@, amount, true),
    ensures
        profit == cross_pool_profit(dex_type_reverse, quote_reverse_data@, amount),
{
    let (_quote1, _reserve_a, _reserve_b) = quote_and_liquidity_on(
        dex_type,
        quote_data,
        amount,
        false,
    );
    let (_reverse_reserve_a, _reverse_reserve_b) = liquidity_on(
        dex_type_reverse,
        liquidity_data,
        amount,
        true,
    );
    let quote2 = quote_on(dex_type_reverse, quote_reverse_data, amount, true);
    quote2.saturating_sub(amount)
}

/// Whether a buy of `amount` is too big for the pool: its quote falls short of `threshold`, or
/// the pool is not tradable (Raydium for kind 0: both reserves above 1000; Pump.fun otherwise:
/// also a price that `price_in_range` accepts).
pub fn is_buy_amount_too_big<F: Fn(u64, u64) -> bool>(
    dex_type: u8,
    input_data: &[u8],
    amount: u64,
    threshold: u64,
    reverse: bool,
    price_in_range: &F,
) -> (too_big: bool)
    requires
        input_data@.len() >= 16,
        dex_quote_fits(dex_type, input_data@, amount, reverse),
        forall|a: u64, b: u64| price_in_range.requires((a, b)),
    ensures
        threshold > dex_quote(dex_type, input_data@, amount, reverse) ==> too_big,
        threshold <= dex_quote(dex_type, input_data@, amount, reverse) && dex_type == RAYDIUM
            ==> too_big == !reserves_sufficient(input_data@),
        threshold <= dex_quote(dex_type, input_data@, amount, reverse) && dex_type != RAYDIUM
            && !reserves_sufficient(input_data@) ==> too_big,
        threshold <= dex_quote(dex_type, input_data@, amount, reverse) && dex_type != RAYDIUM
            && reserves_sufficient(input_data@) ==> price_in_range.ensures(
            (reserve_a(input_data@) as u64, reserve_b(input_data@) as u64),
            !too_big,
        ),
{
    let (_reserve_a, _reserve_b) = liquidity_on(dex_type, input_data, amount, reverse);
    let quote = quote_on(dex_type, input_data, amount, reverse);
    if threshold > quote {
        return true;
    }
    let is_valid_result = if dex_type == RAYDIUM {
        raydium_is_valid(input_data)
    } else {
        pump_fun_is_valid(input_data, price_in_range)
    };
    !is_valid_result
}

/// A round trip through a Raydium pool never profits: what comes back of `amount`, after the
/// return leg is quoted in the opposite direction, is never more than `amount`, in either
/// direction and on any pool whose first leg fits the machine's arithmetic.
pub proof fn lemma_raydium_round_trip_never_profits(data: Seq<u8>, amount: u64, reverse: bool)
    requires
        dex_quote_fits(RAYDIUM, data, amount, reverse),
    ensures
        round_trip_profit(RAYDIUM, data, amount, reverse) == 0,
{
    reveal(dex_quote);
    reveal(dex_quote_fits);
    let a = reserve_a(data);
    let b = reserve_b(data);
    assert(0 <= a && 0 <= b) by {
        assert(0 <= crate::bytes::le_u64(data, 0) && 0 <= crate::bytes::le_u64(data, 8));
    }
    let (rin, rout) = if !reverse { (a, b) } else { (b, a) };
    let f = raydium_after_fee(amount as int);
    lemma_after_fee_monotone(amount as int, amount as int);
    let q1 = dex_quote(RAYDIUM, data, amount, reverse);
    if rin == 0 {
        assert(q1 == 0);
        lemma_after_fee_monotone(0, 0);
        assert(raydium_after_fee(0) == 0);
        let q2 = dex_quote(RAYDIUM, data, q1 as u64, !reverse);
        if rout != 0 {
            assert(q2 == rin * raydium_after_fee(0) / rout);
            assert(rin * raydium_after_fee(0) == 0) by (nonlinear_arith)
                requires
                    rin == 0,
            ;
        }
        assert(q2 == 0);
    } else {
        assert(q1 == rout * f / rin);
        assert(rout * f <= u64::MAX);
        assert(0 <= rout * f) by (nonlinear_arith)
            requires
                rout >= 0,
                f >= 0,
        ;
        assert(0 <= q1 <= rout * f) by (nonlinear_arith)
            requires
                q1 == rout * f / rin,
                rin >= 1,
                rout * f >= 0,
        ;
        assert(rin * q1 <= rout * f) by (nonlinear_arith)
            requires
                q1 == rout * f / rin,
                rin >= 1,
                rout * f >= 0,
        ;
        assert(rout * f <= rout * amount) by (nonlinear_arith)
            requires
                rout >= 0,
                0 <= f <= amount,
        ;
        let back = q1 as u64;
        assert(back == q1);
        let g = raydium_after_fee(back as int);
        lemma_after_fee_monotone(back as int, back as int);
        let q2 = dex_quote(RAYDIUM, data, back, !reverse);
        if rout != 0 {
            assert(q2 == rin * g / rout);
            assert(rin * g <= rin * q1) by (nonlinear_arith)
                requires
                    rin >= 0,
                    0 <= g <= q1,
            ;
            assert(q2 <= amount) by (nonlinear_arith)
                requires
                    q2 == rin * g / rout,
                    rout >= 1,
                    rin * g >= 0,
                    rin * g <= rout * amount,
            ;
        } else {
            assert(q2 == 0);
        }
    }
}

/// A cross-pool profit is quoted with the reverse pool's own DEX: on a Pump.fun pool (kind 1) it
/// is the saturated product of the reserves over the saturated sum of the first reserve and
/// `amount`, less 1% (rounded in the pool's favour), less `amount`, held at zero; on a Raydium
/// pool (kind 0) it is the first reserve times `amount` after the 0.25% fee, over the second
/// reserve, less `amount`, held at zero (zero where that reserve is empty).
pub proof fn lemma_cross_pool_profit_by_kind(data: Seq<u8>, amount: u64)
    ensures
        ({
            let g = sat_mul(reserve_a(data), reserve_b(data)) / sat_add(reserve_a(data), amount as int);
            cross_pool_profit(1, data, amount) == sat_sub(g - g / 100, amount as int)
        }),
        ({
            let f = amount - amount * 25 / 10000;
            let q = if reserve_b(data) == 0 { 0 } else { reserve_a(data) * f / reserve_b(data) };
            cross_pool_profit(0, data, amount) == sat_sub(q, amount as int)
        }),
{
    reveal(dex_quote);
}

} // verus!
