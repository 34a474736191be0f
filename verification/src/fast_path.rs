//! The checks of the account-driven fast paths: validity, validator, direction, liquidity
//! and quote checks that decide whether a swap goes ahead, and what it is quoted at.
use vstd::prelude::*;
use crate::error::SwapError;
use crate::market::{
    dex_quote, dex_quote_fits, pump_fun_get_liquidity, pump_fun_get_quote,
    pump_fun_get_quote_and_liquidity, pump_fun_is_valid, pump_fun_quote, pump_fun_quote_fits,
    raydium_is_valid, reserve_a, reserve_b, reserves_sufficient, RAYDIUM,
};
use crate::profit::{liquidity_on, quote_and_liquidity_on, quote_on};

verus! {

/// The outcome of an automatic buy on a pool whose validity is `valid` and whose quote is
/// `quote`: `InvalidPoolState` for an invalid pool, `InsufficientLiquidity` for a zero quote,
/// the quote otherwise.
pub open spec fn swap_in_outcome(valid: bool, quote: int) -> Result<u64, SwapError> {
    if !valid {
        Err(SwapError::InvalidPoolState)
    } else if quote == 0 {
        Err(SwapError::InsufficientLiquidity)
    } else {
        Ok(quote as u64)
    }
}

/// The quote of an automatic Raydium buy, after checking that the pool is tradable
/// (`InvalidPoolState`; Raydium for kind 0: both reserves above 1000; Pump.fun otherwise: also a
/// price that `price_in_range` accepts) and that the quote is not zero
/// (`InsufficientLiquidity`).
pub fn fast_path_auto_swap_in_raydium_v4<F: Fn(u64, u64) -> bool>(
    dex_type: u8,
    input_data: &[u8],
    amount: u64,
    reverse: bool,
    price_in_range: &F,
) -> (r: Result<u64, SwapError>)
    requires
        input_data@.len() >= 16,
        dex_quote_fits(dex_type, input_data@, amount, reverse),
        forall|a: u64, b: u64| price_in_range.requires((a, b)),
    ensures
        dex_type == RAYDIUM ==> r == swap_in_outcome(
            reserves_sufficient(input_data@),
            dex_quote(dex_type, input_data@, amount, reverse),
        ),
        dex_type != RAYDIUM && !reserves_sufficient(input_data@) ==> r == Err::<u64, SwapError>(
            SwapError::InvalidPoolState,
        ),
        dex_type != RAYDIUM && reserves_sufficient(input_data@) ==> exists|v: bool|
            #[trigger] price_in_range.ensures(
                (reserve_a(input_data@) as u64, reserve_b(input_data@) as u64),
                v,
            ) && r == swap_in_outcome(v, dex_quote(dex_type, input_data@, amount, reverse)),
{
    let is_valid = if dex_type == RAYDIUM {
        raydium_is_valid(input_data)
    } else {
        pump_fun_is_valid(input_data, price_in_range)
    };
    if !is_valid {
        return Err(SwapError::InvalidPoolState);
    }
    let (quote, _reserve_a, _reserve_b) = quote_and_liquidity_on(dex_type, input_data, amount, reverse);
    if quote == 0 {
        return Err(SwapError::InsufficientLiquidity);
    }
    Ok(quote)
}

/// The quote of an automatic Raydium sell, refused with `InsufficientLiquidity` where it is zero.
pub fn fast_path_auto_swap_out_raydium_v4(
    dex_type: u8,
    input_data: &[u8],
    amount: u64,
    reverse: bool,
) -> (r: Result<u64, SwapError>)
    requires
        input_data@.len() >= 16,
        dex_quote_fits(dex_type, input_data@, amount, reverse),
    ensures
        dex_quote(dex_type, input_data@, amount, reverse) == 0 ==> r == Err::<u64, SwapError>(
            SwapError::InsufficientLiquidity,
        ),
        dex_quote(dex_type, input_data@, amount, reverse) != 0 ==> r == Ok::<u64, SwapError>(
            dex_quote(dex_type, input_data@, amount, reverse) as u64,
        ),
{
    let (_reserve_a, _reserve_b) = liquidity_on(dex_type, input_data, amount, reverse);
    let quote = quote_on(dex_type, input_data, amount, reverse);
    if quote == 0 {
        return Err(SwapError::InsufficientLiquidity);
    }
    Ok(quote)
}

/// The new amount of an automatic Pump.fun buy: refused without a global controller
/// (`InvalidGlobalController`), in the reverse direction (`InvalidSwapDirection`), where the
/// pool's token-B reserve is below `threshold` (`InsufficientLiquidity`) and where the forward
/// quote is zero (`InvalidQuote`); otherwise the forward quote.
pub fn fast_path_auto_swap_in_pump_fun(
    has_global_controller: bool,
    is_reverse: bool,
    threshold: u64,
    pool_data: &[u8],
    amount: u64,
) -> (r: Result<u64, SwapError>)
    requires
        pool_data@.len() >= 16,
        pump_fun_quote_fits(pool_data@, amount),
    ensures
        !has_global_controller ==> r == Err::<u64, SwapError>(SwapError::InvalidGlobalController),
        has_global_controller && is_reverse ==> r == Err::<u64, SwapError>(
            SwapError::InvalidSwapDirection,
        ),
        has_global_controller && !is_reverse && reserve_b(pool_data@) < threshold ==> r == Err::<
            u64,
            SwapError,
        >(SwapError::InsufficientLiquidity),
        has_global_controller && !is_reverse && reserve_b(pool_data@) >= threshold && pump_fun_quote(
            pool_data@,
            amount,
        ) == 0 ==> r == Err::<u64, SwapError>(SwapError::InvalidQuote),
        has_global_controller && !is_reverse && reserve_b(pool_data@) >= threshold && pump_fun_quote(
            pool_data@,
            amount,
        ) != 0 ==> r == Ok::<u64, SwapError>(pump_fun_quote(pool_data@, amount) as u64),
{
    if !has_global_controller {
        return Err(SwapError::InvalidGlobalController);
    }
    if is_reverse {
        return Err(SwapError::InvalidSwapDirection);
    }
    let (_reserve_a, reserve_b) = pump_fun_get_liquidity(pool_data, amount, false);
    if reserve_b < threshold {
        return Err(SwapError::InsufficientLiquidity);
    }
    let quote = pump_fun_get_quote(pool_data, amount, false);
    if quote == 0 {
        return Err(SwapError::InvalidQuote);
    }
    Ok(quote)
}

/// The reverse quote and reserves of an automatic Pump.fun sell, `(quote, reserve_a,
/// reserve_b)`: refused where a validator check is asked for and fails (`InvalidValidator`)
/// and where the quote is zero (`InsufficientLiquidity`).
pub fn fast_path_auto_swap_out_pump_fun(
    needs_validator_check: bool,
    validator_ok: bool,
    pool_data: &[u8],
    amount: u64,
) -> (r: Result<(u64, u64, u64), SwapError>)
    requires
        pool_data@.len() >= 16,
        pump_fun_quote_fits(pool_data@, amount),
    ensures
        needs_validator_check && !validator_ok ==> r == Err::<(u64, u64, u64), SwapError>(
            SwapError::InvalidValidator,
        ),
        !(needs_validator_check && !validator_ok) && pump_fun_quote(pool_data@, amount) == 0 ==> r
            == Err::<(u64, u64, u64), SwapError>(SwapError::InsufficientLiquidity),
        !(needs_validator_check && !validator_ok) && pump_fun_quote(pool_data@, amount) != 0 ==> r
            == Ok::<(u64, u64, u64), SwapError>(
            (
                pump_fun_quote(pool_data@, amount) as u64,
                reserve_a(pool_data@) as u64,
                reserve_b(pool_data@) as u64,
            ),
        ),
{
    if needs_validator_check && !validator_ok {
        return Err(SwapError::InvalidValidator);
    }
    let (quote, reserve_a, reserve_b) = pump_fun_get_quote_and_liquidity(pool_data, amount, true);
    if quote == 0 {
        return Err(SwapError::InsufficientLiquidity);
    }
    Ok((quote, reserve_a, reserve_b))
}

/// The quote and reserves of an automatic sell, `(quote, reserve_a, reserve_b)` (Raydium for
/// kind 0, Pump.fun otherwise): refused where a validator account is given and the tracker does
/// not admit it at this slot (`InvalidValidator`), and where the quote is zero
/// (`InsufficientLiquidity`).
pub fn auto_swap_out(
    validator_given: bool,
    validator_admitted: bool,
    dex_type: u8,
    pool_data: &[u8],
    amount: u64,
    reverse: bool,
) -> (r: Result<(u64, u64, u64), SwapError>)
    requires
        pool_data@.len() >= 16,
        dex_quote_fits(dex_type, pool_data@, amount, reverse),
    ensures
        validator_given && !validator_admitted ==> r == Err::<(u64, u64, u64), SwapError>(
            SwapError::InvalidValidator,
        ),
        !(validator_given && !validator_admitted) && dex_quote(dex_type, pool_data@, amount, reverse)
            == 0 ==> r == Err::<(u64, u64, u64), SwapError>(SwapError::InsufficientLiquidity),
        !(validator_given && !validator_admitted) && dex_quote(dex_type, pool_data@, amount, reverse)
            != 0 ==> r == Ok::<(u64, u64, u64), SwapError>(
            (
                dex_quote(dex_type, pool_data@, amount, reverse) as u64,
                reserve_a(pool_data@) as u64,
                reserve_b(pool_data@) as u64,
            ),
        ),
{
    if validator_given {
        if !validator_admitted {
            return Err(SwapError::InvalidValidator);
        }
    }
    let (quote, reserve_a, reserve_b) = quote_and_liquidity_on(dex_type, pool_data, amount, reverse);
    if quote == 0 {
        return Err(SwapError::InsufficientLiquidity);
    }
    Ok((quote, reserve_a, reserve_b))
}

} // verus!
