//! Pool reserves, quotes and validity checks for the two supported DEXes.
//!
//! A pool account starts with the reserve of token A and the reserve of token B,
//! each a little-endian `u64`.
use vstd::prelude::*;
use crate::bytes::{le_u64, read_u64_le};
use crate::error::ProgramFailure;

verus! {

/// The DEX kind number of Raydium.
pub const RAYDIUM: u8 = 0;

/// The DEX kind number of Pump.fun.
pub const PUMP_FUN: u8 = 1;

/// The smallest reserve, exclusive, that a tradable pool holds on each side.
pub const MIN_RESERVE: u64 = 1000;

/// The reserve of token A recorded in a pool account.
pub open spec fn reserve_a(data: Seq<u8>) -> int {
    le_u64(data, 0)
}

/// The reserve of token B recorded in a pool account.
pub open spec fn reserve_b(data: Seq<u8>) -> int {
    le_u64(data, 8)
}

/// `a + b`, held at `u64::MAX`.
pub open spec fn sat_add(a: int, b: int) -> int {
    if a + b > u64::MAX { u64::MAX as int } else { a + b }
}

/// `a * b`, held at `u64::MAX`.
pub open spec fn sat_mul(a: int, b: int) -> int {
    if a * b > u64::MAX { u64::MAX as int } else { a * b }
}

/// `a * b`, held at `u64::MAX`.
pub fn saturating_mul(a: u64, b: u64) -> (r: u64)
    ensures
        r == sat_mul(a as int, b as int),
{
    match a.checked_mul(b) {
        Some(p) => p,
        None => u64::MAX,
    }
}

/// An amount less Raydium's 0.25% fee (rounded in the pool's favour).
pub open spec fn raydium_after_fee(amount: int) -> int {
    amount - amount * 25 / 10000
}

/// Raydium's quote: the output reserve times the amount after fee, over the input reserve;
/// zero where the input reserve is empty. `reverse` trades token B for token A.
pub open spec fn raydium_quote(data: Seq<u8>, amount: u64, reverse: bool) -> int {
    let (reserve_in, reserve_out) = if !reverse {
        (reserve_a(data), reserve_b(data))
    } else {
        (reserve_b(data), reserve_a(data))
    };
    if reserve_in == 0 {
        0
    } else {
        reserve_out * raydium_after_fee(amount as int) / reserve_in
    }
}

/// The inputs on which Raydium's quote fits the machine's `u64` arithmetic.
pub open spec fn raydium_quote_fits(data: Seq<u8>, amount: u64, reverse: bool) -> bool {
    let (reserve_in, reserve_out) = if !reverse {
        (reserve_a(data), reserve_b(data))
    } else {
        (reserve_b(data), reserve_a(data))
    };
    &&& amount * 25 <= u64::MAX
    &&& reserve_in == 0 || reserve_out * raydium_after_fee(amount as int) <= u64::MAX
}

/// Pump.fun's quote before its 1% fee: the saturated product of the reserves over the
/// saturated sum of the input reserve and the amount.
pub open spec fn pump_fun_gross_quote(data: Seq<u8>, amount: u64) -> int {
    sat_mul(reserve_a(data), reserve_b(data)) / sat_add(reserve_a(data), amount as int)
}

/// Pump.fun's quote: the gross quote less 1% (rounded in the pool's favour).
pub open spec fn pump_fun_quote(data: Seq<u8>, amount: u64) -> int {
    pump_fun_gross_quote(data, amount) - pump_fun_gross_quote(data, amount) / 100
}

/// The inputs on which Pump.fun's quote divides by a non-zero amount.
pub open spec fn pump_fun_quote_fits(data: Seq<u8>, amount: u64) -> bool {
    reserve_a(data) != 0 || amount != 0
}

/// Whether both reserves of a pool exceed the minimum.
pub open spec fn reserves_sufficient(data: Seq<u8>) -> bool {
    reserve_a(data) > MIN_RESERVE && reserve_b(data) > MIN_RESERVE
}

/// The quote of the DEX of kind `dex_type` (Raydium for kind 0, Pump.fun otherwise).
#[verifier::opaque]
pub open spec fn dex_quote(dex_type: u8, data: Seq<u8>, amount: u64, reverse: bool) -> int {
    if dex_type == RAYDIUM {
        raydium_quote(data, amount, reverse)
    } else {
        pump_fun_quote(data, amount)
    }
}

/// The inputs on which the quote of the DEX of kind `dex_type` fits the machine's arithmetic.
#[verifier::opaque]
pub open spec fn dex_quote_fits(dex_type: u8, data: Seq<u8>, amount: u64, reverse: bool) -> bool {
    if dex_type == RAYDIUM {
        raydium_quote_fits(data, amount, reverse)
    } else {
        pump_fun_quote_fits(data, amount)
    }
}

/// What a quote request gives: the quote of Raydium (kind 0) or Pump.fun (kind 1);
/// `InvalidArgument` for any other kind.
pub open spec fn quote_result(dex_type: u8, data: Seq<u8>, amount: u64, reverse: bool) -> Result<
    u64,
    ProgramFailure,
> {
    if dex_type <= PUMP_FUN {
        Ok(dex_quote(dex_type, data, amount, reverse) as u64)
    } else {
        Err(ProgramFailure::InvalidArgument)
    }
}

/// What a liquidity request gives: the pool's two reserves for Raydium (kind 0) or Pump.fun
/// (kind 1); `InvalidArgument` for any other kind.
pub open spec fn liquidity_result(dex_type: u8, data: Seq<u8>) -> Result<(u64, u64), ProgramFailure> {
    if dex_type <= PUMP_FUN {
        Ok((reserve_a(data) as u64, reserve_b(data) as u64))
    } else {
        Err(ProgramFailure::InvalidArgument)
    }
}

/// What a combined request gives: `(quote, reserve_a, reserve_b)` for Raydium (kind 0) or
/// Pump.fun (kind 1); `InvalidArgument` for any other kind.
pub open spec fn quote_and_liquidity_result(dex_type: u8, data: Seq<u8>, amount: u64, reverse: bool) -> Result<
    (u64, u64, u64),
    ProgramFailure,
> {
    if dex_type <= PUMP_FUN {
        Ok(
            (
                dex_quote(dex_type, data, amount, reverse) as u64,
                reserve_a(data) as u64,
                reserve_b(data) as u64,
            ),
        )
    } else {
        Err(ProgramFailure::InvalidArgument)
    }
}

/// A combined request answers what a quote request and a liquidity request answer apart: the
/// quote followed by the reserves, and the same refusal for an unknown kind.
pub proof fn lemma_quote_and_liquidity_combines(
    dex_type: u8,
    data: Seq<u8>,
    amount: u64,
    reverse: bool,
)
    ensures
        quote_and_liquidity_result(dex_type, data, amount, reverse) == match (
            quote_result(dex_type, data, amount, reverse),
            liquidity_result(dex_type, data),
        ) {
            (Ok(q), Ok((a, b))) => Ok((q, a, b)),
            (Err(e), _) => Err(e),
            (_, Err(e)) => Err(e),
        },
{
}

/// Pump.fun quotes both directions alike: trading token B for token A gives what trading token
/// A for token B gives.
pub proof fn lemma_pump_fun_quote_direction_free(data: Seq<u8>, amount: u64)
    ensures
        dex_quote(PUMP_FUN, data, amount, true) == dex_quote(PUMP_FUN, data, amount, false),
        dex_quote_fits(PUMP_FUN, data, amount, true) == dex_quote_fits(PUMP_FUN, data, amount, false),
{
    reveal(dex_quote);
    reveal(dex_quote_fits);
}

/// What remains of an amount after Raydium's fee is never negative, never more than the amount,
/// and grows with the amount.
pub proof fn lemma_after_fee_monotone(a1: int, a2: int)
    requires
        0 <= a1 <= a2,
    ensures
        0 <= raydium_after_fee(a1) <= raydium_after_fee(a2),
        raydium_after_fee(a2) <= a2,
{
    assert(a1 * 25 / 10000 == a1 / 400) by (nonlinear_arith)
        requires
            a1 >= 0,
    ;
    assert(a2 * 25 / 10000 == a2 / 400) by (nonlinear_arith)
        requires
            a2 >= 0,
    ;
    assert(a2 / 400 - a1 / 400 <= a2 - a1) by (nonlinear_arith)
        requires
            0 <= a1 <= a2,
    ;
    assert(a1 / 400 <= a1) by (nonlinear_arith)
        requires
            a1 >= 0,
    ;
    assert(a2 / 400 >= 0) by (nonlinear_arith)
        requires
            a2 >= 0,
    ;
}

/// A Raydium quote never falls when the amount grows, and its fee never raises it above what
/// the same trade would give without a fee: the output reserve times the amount over the input
/// reserve.
pub proof fn lemma_raydium_quote_monotone(data: Seq<u8>, a1: u64, a2: u64, reverse: bool)
    requires
        a1 <= a2,
    ensures
        raydium_quote(data, a1, reverse) <= raydium_quote(data, a2, reverse),
        ({
            let (reserve_in, reserve_out) = if !reverse {
                (reserve_a(data), reserve_b(data))
            } else {
                (reserve_b(data), reserve_a(data))
            };
            reserve_in != 0 ==> raydium_quote(data, a2, reverse) <= reserve_out * a2 / reserve_in
        }),
{
    let (reserve_in, reserve_out) = if !reverse {
        (reserve_a(data), reserve_b(data))
    } else {
        (reserve_b(data), reserve_a(data))
    };
    assert(0 <= reserve_in && 0 <= reserve_out) by {
        assert(0 <= le_u64(data, 0) && 0 <= le_u64(data, 8));
    }
    if reserve_in != 0 {
        lemma_after_fee_monotone(a1 as int, a2 as int);
        let f1 = raydium_after_fee(a1 as int);
        let f2 = raydium_after_fee(a2 as int);
        vstd::arithmetic::mul::lemma_mul_inequality(f1, f2, reserve_out);
        vstd::arithmetic::mul::lemma_mul_inequality(f2, a2 as int, reserve_out);
        assert(f1 * reserve_out == reserve_out * f1) by (nonlinear_arith);
        assert(f2 * reserve_out == reserve_out * f2) by (nonlinear_arith);
        assert(a2 * reserve_out == reserve_out * a2) by (nonlinear_arith);
        vstd::arithmetic::div_mod::lemma_div_is_ordered(reserve_out * f1, reserve_out * f2, reserve_in);
        vstd::arithmetic::div_mod::lemma_div_is_ordered(reserve_out * f2, reserve_out * a2, reserve_in);
    }
}

/// The two reserves recorded in a pool account: `(reserve_a, reserve_b)`.
pub fn read_reserves(input_data: &[u8]) -> (r: (u64, u64))
    requires
        input_data@.len() >= 16,
    ensures
        r.0 == reserve_a(input_data@),
        r.1 == reserve_b(input_data@),
{
    (read_u64_le(input_data, 0), read_u64_le(input_data, 8))
}

/// Whether the quote of the DEX of kind `dex_type` for `amount` can be computed within `u64`
/// (see `dex_quote_fits`).
pub fn quote_in_range(dex_type: u8, input_data: &[u8], amount: u64, reverse: bool) -> (r: bool)
    requires
        input_data@.len() >= 16,
    ensures
        r == dex_quote_fits(dex_type, input_data@, amount, reverse),
{
    reveal(dex_quote_fits);
    let (amount_a, amount_b) = read_reserves(input_data);
    if dex_type == RAYDIUM {
        if amount > u64::MAX / 25 {
            return false;
        }
        let (reserve_in, reserve_out) = if !reverse {
            (amount_a, amount_b)
        } else {
            (amount_b, amount_a)
        };
        if reserve_in == 0 {
            return true;
        }
        let after_fee = amount - amount * 25 / 10000;
        match reserve_out.checked_mul(after_fee) {
            Some(_) => true,
            None => false,
        }
    } else {
        amount_a != 0 || amount != 0
    }
}

/// Raydium's quote for trading `amount` against the pool in `input_data`.
pub fn raydium_get_quote(input_data: &[u8], amount: u64, reverse: bool) -> (quote: u64)
    requires
        input_data@.len() >= 16,
        raydium_quote_fits(input_data@, amount, reverse),
    ensures
        quote == raydium_quote(input_data@, amount, reverse),
{
    let (amount_a, amount_b) = read_reserves(input_data);
    let adjusted_amount = amount - (amount * 25) / 10000;
    if !reverse {
        if amount_a == 0 {
            return 0;
        }
        amount_b * adjusted_amount / amount_a
    } else {
        if amount_b == 0 {
            return 0;
        }
        amount_a * adjusted_amount / amount_b
    }
}

/// Pump.fun's quote for trading `amount` against the pool in `input_data`.
/// Both directions use the same formula.
pub fn pump_fun_get_quote(input_data: &[u8], amount: u64, reverse: bool) -> (quote: u64)
    requires
        input_data@.len() >= 16,
        pump_fun_quote_fits(input_data@, amount),
    ensures
        quote == pump_fun_quote(input_data@, amount),
        quote <= pump_fun_gross_quote(input_data@, amount),
{
    let (reserve_a, reserve_b) = read_reserves(input_data);
    let mut output;
    if reverse {
        let adjusted_amount = amount.saturating_add(reserve_a);
        output = saturating_mul(reserve_b, reserve_a) / adjusted_amount;
    } else {
        let adjusted_amount = reserve_a.saturating_add(amount);
        output = saturating_mul(reserve_a, reserve_b) / adjusted_amount;
    }
    assert(output == pump_fun_gross_quote(input_data@, amount)) by (nonlinear_arith)
        requires
            reverse ==> output == sat_mul(reserve_b as int, reserve_a as int) / sat_add(
                amount as int,
                reserve_a as int,
            ),
            !reverse ==> output == sat_mul(reserve_a as int, reserve_b as int) / sat_add(
                reserve_a as int,
                amount as int,
            ),
            reserve_a == crate::market::reserve_a(input_data@),
            reserve_b == crate::market::reserve_b(input_data@),
    ;
    output = output.saturating_sub(output / 100);
    output
}

/// The reserves of a Raydium pool: `(reserve_a, reserve_b)`.
pub fn raydium_get_liquidity(input_data: &[u8], amount: u64, reverse: bool) -> (r: (u64, u64))
    requires
        input_data@.len() >= 16,
    ensures
        r.0 == reserve_a(input_data@),
        r.1 == reserve_b(input_data@),
{
    read_reserves(input_data)
}

/// The reserves of a Pump.fun pool: `(reserve_a, reserve_b)`, in either direction.
pub fn pump_fun_get_liquidity(input_data: &[u8], amount: u64, reverse: bool) -> (r: (u64, u64))
    requires
        input_data@.len() >= 16,
    ensures
        r.0 == reserve_a(input_data@),
        r.1 == reserve_b(input_data@),
{
    read_reserves(input_data)
}

/// Raydium's quote together with the pool's reserves: `(quote, reserve_a, reserve_b)`.
pub fn raydium_get_quote_and_liquidity(input_data: &[u8], amount: u64, reverse: bool) -> (r: (
    u64,
    u64,
    u64,
))
    requires
        input_data@.len() >= 16,
        raydium_quote_fits(input_data@, amount, reverse),
    ensures
        r.0 == raydium_quote(input_data@, amount, reverse),
        r.1 == reserve_a(input_data@),
        r.2 == reserve_b(input_data@),
{
    let (reserve_a, reserve_b) = raydium_get_liquidity(input_data, amount, reverse);
    let quote = raydium_get_quote(input_data, amount, reverse);
    (quote, reserve_a, reserve_b)
}

/// Pump.fun's quote together with the pool's reserves: `(quote, reserve_a, reserve_b)`.
pub fn pump_fun_get_quote_and_liquidity(input_data: &[u8], amount: u64, reverse: bool) -> (r: (
    u64,
    u64,
    u64,
))
    requires
        input_data@.len() >= 16,
        pump_fun_quote_fits(input_data@, amount),
    ensures
        r.0 == pump_fun_quote(input_data@, amount),
        r.1 == reserve_a(input_data@),
        r.2 == reserve_b(input_data@),
{
    let (reserve_a, reserve_b) = pump_fun_get_liquidity(input_data, amount, reverse);
    let quote = pump_fun_get_quote(input_data, amount, reverse);
    (quote, reserve_a, reserve_b)
}

/// The quote of the DEX of kind `dex_type`; any kind but Raydium (0) and Pump.fun (1) is
/// refused with `InvalidArgument`.
pub fn get_quote(dex_type: u8, input_data: &[u8], amount: u64, reverse: bool) -> (r: Result<
    u64,
    ProgramFailure,
>)
    requires
        input_data@.len() >= 16,
        dex_type <= PUMP_FUN ==> dex_quote_fits(dex_type, input_data@, amount, reverse),
    ensures
        r == quote_result(dex_type, input_data@, amount, reverse),
{
    reveal(dex_quote);
    reveal(dex_quote_fits);
    if dex_type == RAYDIUM {
        Ok(raydium_get_quote(input_data, amount, reverse))
    } else if dex_type == PUMP_FUN {
        Ok(pump_fun_get_quote(input_data, amount, reverse))
    } else {
        Err(ProgramFailure::InvalidArgument)
    }
}

/// The reserves of the pool of the DEX of kind `dex_type`; unknown kinds are refused with
/// `InvalidArgument`.
pub fn get_liquidity(dex_type: u8, input_data: &[u8], amount: u64, reverse: bool) -> (r: Result<
    (u64, u64),
    ProgramFailure,
>)
    requires
        input_data@.len() >= 16,
    ensures
        r == liquidity_result(dex_type, input_data@),
{
    if dex_type == RAYDIUM {
        Ok(raydium_get_liquidity(input_data, amount, reverse))
    } else if dex_type == PUMP_FUN {
        Ok(pump_fun_get_liquidity(input_data, amount, reverse))
    } else {
        Err(ProgramFailure::InvalidArgument)
    }
}

/// The quote and the reserves of the DEX of kind `dex_type`: `(quote, reserve_a, reserve_b)`;
/// unknown kinds are refused with `InvalidArgument`.
pub fn get_quote_and_liquidity(dex_type: u8, input_data: &[u8], amount: u64, reverse: bool) -> (r:
    Result<(u64, u64, u64), ProgramFailure>)
    requires
        input_data@.len() >= 16,
        dex_type <= PUMP_FUN ==> dex_quote_fits(dex_type, input_data@, amount, reverse),
    ensures
        r == quote_and_liquidity_result(dex_type, input_data@, amount, reverse),
{
    reveal(dex_quote);
    reveal(dex_quote_fits);
    if dex_type == RAYDIUM {
        Ok(raydium_get_quote_and_liquidity(input_data, amount, reverse))
    } else if dex_type == PUMP_FUN {
        Ok(pump_fun_get_quote_and_liquidity(input_data, amount, reverse))
    } else {
        Err(ProgramFailure::InvalidArgument)
    }
}

/// Whether a Raydium pool is tradable: both reserves exceed 1000.
pub fn raydium_is_valid(input_data: &[u8]) -> (r: bool)
    requires
        input_data@.len() >= 16,
    ensures
        r == reserves_sufficient(input_data@),
{
    let (amount_a, amount_b) = read_reserves(input_data);
    amount_a > MIN_RESERVE && amount_b > MIN_RESERVE
}

/// Whether a Pump.fun pool is tradable: both reserves exceed 1000 and `price_in_range`, asked
/// with the two reserves, accepts the pool's price. `price_in_range` is asked only when both
/// reserves pass.
pub fn pump_fun_is_valid<F: Fn(u64, u64) -> bool>(input_data: &[u8], price_in_range: &F) -> (r:
    bool)
    requires
        input_data@.len() >= 16,
        forall|a: u64, b: u64| price_in_range.requires((a, b)),
    ensures
        !reserves_sufficient(input_data@) ==> !r,
        reserves_sufficient(input_data@) ==> price_in_range.ensures(
            (reserve_a(input_data@) as u64, reserve_b(input_data@) as u64),
            r,
        ),
{
    let (reserve_a, reserve_b) = read_reserves(input_data);
    if reserve_a <= MIN_RESERVE || reserve_b <= MIN_RESERVE {
        return false;
    }
    price_in_range(reserve_a, reserve_b)
}

/// Whether the pool of the DEX of kind `dex_type` is tradable; unknown kinds are not.
pub fn is_valid<F: Fn(u64, u64) -> bool>(dex_type: u8, input_data: &[u8], price_in_range: &F) -> (r:
    bool)
    requires
        input_data@.len() >= 16,
        forall|a: u64, b: u64| price_in_range.requires((a, b)),
    ensures
        dex_type == RAYDIUM ==> r == reserves_sufficient(input_data@),
        dex_type == PUMP_FUN && !reserves_sufficient(input_data@) ==> !r,
        dex_type == PUMP_FUN && reserves_sufficient(input_data@) ==> price_in_range.ensures(
            (reserve_a(input_data@) as u64, reserve_b(input_data@) as u64),
            r,
        ),
        dex_type > PUMP_FUN ==> !r,
{
    if dex_type == RAYDIUM {
        raydium_is_valid(input_data)
    } else if dex_type == PUMP_FUN {
        pump_fun_is_valid(input_data, price_in_range)
    } else {
        false
    }
}

} // verus!
