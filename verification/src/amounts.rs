//! Fee, slippage and bound arithmetic on trade amounts.
//!
//! Amounts above a threshold are divided before they are multiplied, so that the
//! intermediate product stays within `u64`; smaller amounts are multiplied first,
//! which keeps precision.
use vstd::prelude::*;
use crate::error::ErrorCode;

verus! {

/// Amounts above this are divided before they are multiplied in the bound computations.
pub const LARGE_AMOUNT_THRESHOLD: u64 = 0x68db8bac710cc;

/// Price differences above this are divided before they are multiplied in the fast paths.
pub const LARGE_PRICE_DIFF: u64 = 1_000_000_000_000_000;

/// Basis points in a whole.
pub const BPS: u64 = 10000;

/// Raydium's fee rate: 99.75% of an amount reaches the pool.
pub const RAYDIUM_FEE_RATE: u64 = 9975;

/// Pump.fun's fee rate: 99% of an amount reaches the pool.
pub const PUMP_FUN_FEE_RATE: u64 = 9900;

/// `amount` grossed up by the fee rate `rate` (in basis points): `amount * 10000 / rate`,
/// or `amount / rate * 10000` for a large amount.
pub open spec fn gross_up(amount: int, rate: int, large: bool) -> int {
    if large {
        amount / rate * 10000
    } else {
        amount * 10000 / rate
    }
}

/// The inputs on which `gross_up` fits the machine's `u64` arithmetic.
pub open spec fn gross_up_fits(amount: int, rate: int, large: bool) -> bool {
    &&& rate > 0
    &&& if large {
        amount / rate * 10000 <= u64::MAX
    } else {
        amount * 10000 <= u64::MAX
    }
}

/// `bps` basis points of `amount`: `amount * bps / 10000`, or `amount / 10000 * bps` for a
/// large amount.
pub open spec fn portion(amount: int, bps: int, large: bool) -> int {
    if large {
        amount / 10000 * bps
    } else {
        amount * bps / 10000
    }
}

/// The inputs on which `portion` fits the machine's `u64` arithmetic.
pub open spec fn portion_fits(amount: int, bps: int, large: bool) -> bool {
    if large {
        amount / 10000 * bps <= u64::MAX
    } else {
        amount * bps <= u64::MAX
    }
}

/// `gross_up` on machine integers.
pub fn gross_up_amount(amount: u64, rate: u64, large: bool) -> (r: u64)
    requires
        gross_up_fits(amount as int, rate as int, large),
    ensures
        r == gross_up(amount as int, rate as int, large),
{
    if large {
        amount / rate * 10000
    } else {
        amount * 10000 / rate
    }
}

/// `portion` on machine integers.
pub fn portion_of(amount: u64, bps: u64, large: bool) -> (r: u64)
    requires
        portion_fits(amount as int, bps as int, large),
    ensures
        r == portion(amount as int, bps as int, large),
{
    if large {
        amount / 10000 * bps
    } else {
        amount * bps / 10000
    }
}

/// Whether `gross_up` of these inputs fits the machine's `u64` arithmetic.
pub fn gross_up_in_range(amount: u64, rate: u64, large: bool) -> (r: bool)
    ensures
        r == gross_up_fits(amount as int, rate as int, large),
{
    if rate == 0 {
        return false;
    }
    let factor = if large {
        amount / rate
    } else {
        amount
    };
    match factor.checked_mul(10000) {
        Some(_) => true,
        None => false,
    }
}

/// Whether `portion` of these inputs fits the machine's `u64` arithmetic.
pub fn portion_in_range(amount: u64, bps: u64, large: bool) -> (r: bool)
    ensures
        r == portion_fits(amount as int, bps as int, large),
{
    let factor = if large {
        amount / 10000
    } else {
        amount
    };
    match factor.checked_mul(bps) {
        Some(_) => true,
        None => false,
    }
}

/// An amount grossed up by Raydium's 0.25% fee.
pub fn calculate_adjusted_amount(amount: u64, is_large_amount: bool) -> (r: u64)
    requires
        gross_up_fits(amount as int, RAYDIUM_FEE_RATE as int, is_large_amount),
    ensures
        r == gross_up(amount as int, RAYDIUM_FEE_RATE as int, is_large_amount),
{
    gross_up_amount(amount, RAYDIUM_FEE_RATE, is_large_amount)
}

/// `slippage_bps` basis points of an amount.
pub fn apply_slippage(amount: u64, slippage_bps: u16, is_large_amount: bool) -> (r: u64)
    requires
        portion_fits(amount as int, slippage_bps as int, is_large_amount),
    ensures
        r == portion(amount as int, slippage_bps as int, is_large_amount),
{
    portion_of(amount, slippage_bps as u64, is_large_amount)
}

/// The largest amount that can be traded out of `available` once `max_input` is set aside:
/// the rest grossed up by the fee rate `10000 - fee_numerator` and then scaled by
/// `fee_denominator` basis points; zero where `max_input` exceeds `available`.
pub open spec fn hinted_max_amount(
    max_input: u64,
    available: u64,
    fee_numerator: u64,
    fee_denominator: u64,
) -> int {
    if max_input > available {
        0
    } else {
        let amount = available - max_input;
        let rate = if fee_numerator >= 10000 { 0 } else { 10000 - fee_numerator };
        let grossed = gross_up(amount, rate, amount > LARGE_AMOUNT_THRESHOLD);
        portion(grossed, fee_denominator as int, grossed > LARGE_AMOUNT_THRESHOLD)
    }
}

/// The inputs on which `hinted_max_amount` fits the machine's arithmetic.
pub open spec fn hinted_max_amount_fits(
    max_input: u64,
    available: u64,
    fee_numerator: u64,
    fee_denominator: u64,
) -> bool {
    max_input > available || {
        let amount = available - max_input;
        let rate = if fee_numerator >= 10000 { 0 } else { 10000 - fee_numerator };
        let grossed = gross_up(amount, rate, amount > LARGE_AMOUNT_THRESHOLD);
        &&& gross_up_fits(amount, rate, amount > LARGE_AMOUNT_THRESHOLD)
        &&& portion_fits(grossed, fee_denominator as int, grossed > LARGE_AMOUNT_THRESHOLD)
    }
}

/// Whether the largest tradable amount can be computed within `u64` (see
/// `hinted_max_amount_fits`).
pub fn hinted_max_amount_in_range(
    max_input: u64,
    available: u64,
    fee_numerator: u64,
    fee_denominator: u64,
) -> (r: bool)
    ensures
        r == hinted_max_amount_fits(max_input, available, fee_numerator, fee_denominator),
{
    if max_input > available {
        return true;
    }
    let amount = available - max_input;
    let rate = if fee_numerator >= 10000 {
        0
    } else {
        10000 - fee_numerator
    };
    let large = amount > LARGE_AMOUNT_THRESHOLD;
    if !gross_up_in_range(amount, rate, large) {
        return false;
    }
    let grossed = gross_up_amount(amount, rate, large);
    portion_in_range(grossed, fee_denominator, grossed > LARGE_AMOUNT_THRESHOLD)
}

/// The largest tradable amount under a fee and what is available (see `hinted_max_amount`).
pub fn calculate_hinted_max_amount_optimised(
    max_input: u64,
    available: u64,
    fee_numerator: u64,
    fee_denominator: u64,
) -> (r: u64)
    requires
        hinted_max_amount_fits(max_input, available, fee_numerator, fee_denominator),
    ensures
        r == hinted_max_amount(max_input, available, fee_numerator, fee_denominator),
{
    if max_input > available {
        return 0;
    }
    let amount = available.saturating_sub(max_input);
    let fee_adjusted = 10000u64.saturating_sub(fee_numerator);
    let result = gross_up_amount(amount, fee_adjusted, amount > LARGE_AMOUNT_THRESHOLD);
    portion_of(result, fee_denominator, result > LARGE_AMOUNT_THRESHOLD)
}

/// The fee rate of a DEX kind: Pump.fun (1) keeps 99%, every other kind 99.75%.
pub open spec fn fee_rate_of(dex_type: u8) -> u64 {
    if dex_type == 1 {
        PUMP_FUN_FEE_RATE
    } else {
        RAYDIUM_FEE_RATE
    }
}

/// The upper bound of a trade: where the chosen token's available amount exceeds `amount`,
/// the excess grossed up by the DEX's fee rate and scaled by `multiplier` basis points;
/// zero otherwise.
pub open spec fn upper_bound(amount: u64, dex_type: u8, available: u64, multiplier: u64) -> int {
    if available > amount {
        let remaining = available - amount;
        let output = gross_up(
            remaining,
            fee_rate_of(dex_type) as int,
            remaining > LARGE_AMOUNT_THRESHOLD,
        );
        portion(output, multiplier as int, output > LARGE_AMOUNT_THRESHOLD)
    } else {
        0
    }
}

/// The inputs on which `upper_bound` fits the machine's arithmetic.
pub open spec fn upper_bound_fits(amount: u64, dex_type: u8, available: u64, multiplier: u64) -> bool {
    available <= amount || {
        let remaining = available - amount;
        let output = gross_up(
            remaining,
            fee_rate_of(dex_type) as int,
            remaining > LARGE_AMOUNT_THRESHOLD,
        );
        &&& gross_up_fits(remaining, fee_rate_of(dex_type) as int, remaining > LARGE_AMOUNT_THRESHOLD)
        &&& portion_fits(output, multiplier as int, output > LARGE_AMOUNT_THRESHOLD)
    }
}

/// The amount of the token that a trade draws on: token A where `is_token_a` is 0,
/// token B otherwise.
pub open spec fn chosen_amount(token_a_amount: u64, token_b_amount: u64, is_token_a: u8) -> u64 {
    if is_token_a == 0 {
        token_a_amount
    } else {
        token_b_amount
    }
}

/// Whether the upper bound of a trade can be computed within `u64` (see `upper_bound_fits`).
pub fn upper_bound_in_range(amount: u64, dex_type: u8, available: u64, multiplier: u64) -> (r: bool)
    ensures
        r == upper_bound_fits(amount, dex_type, available, multiplier),
{
    if available <= amount {
        return true;
    }
    let remaining = available - amount;
    let rate = if dex_type == 1 {
        PUMP_FUN_FEE_RATE
    } else {
        RAYDIUM_FEE_RATE
    };
    let large = remaining > LARGE_AMOUNT_THRESHOLD;
    if !gross_up_in_range(remaining, rate, large) {
        return false;
    }
    let output = gross_up_amount(remaining, rate, large);
    portion_in_range(output, multiplier, output > LARGE_AMOUNT_THRESHOLD)
}

/// The upper bound of a trade (see `upper_bound`), drawing on token A where `is_token_a` is 0.
pub fn calculate_upper_bound_optimised(
    amount: u64,
    dex_type: u8,
    token_a_amount: u64,
    token_b_amount: u64,
    is_token_a: u8,
    multiplier: u64,
) -> (r: u64)
    requires
        upper_bound_fits(
            amount,
            dex_type,
            chosen_amount(token_a_amount, token_b_amount, is_token_a),
            multiplier,
        ),
    ensures
        r == upper_bound(
            amount,
            dex_type,
            chosen_amount(token_a_amount, token_b_amount, is_token_a),
            multiplier,
        ),
{
    let mut fee_rate = RAYDIUM_FEE_RATE;
    if dex_type == 1 {
        fee_rate = PUMP_FUN_FEE_RATE;
    }
    let available = if is_token_a == 0 {
        token_a_amount
    } else {
        token_b_amount
    };
    if available > amount {
        let remaining = available - amount;
        let output_amount = gross_up_amount(
            remaining,
            fee_rate,
            remaining > LARGE_AMOUNT_THRESHOLD,
        );
        portion_of(output_amount, multiplier, output_amount > LARGE_AMOUNT_THRESHOLD)
    } else {
        0
    }
}

/// The upper bound of a trade (see `upper_bound`), drawing on token A where `is_token_a` holds.
pub fn calculate_upper_bound(
    amount: u64,
    dex_type: u8,
    token_a_amount: u64,
    token_b_amount: u64,
    is_token_a: bool,
    multiplier: u64,
) -> (r: u64)
    requires
        upper_bound_fits(
            amount,
            dex_type,
            if is_token_a { token_a_amount } else { token_b_amount },
            multiplier,
        ),
    ensures
        r == upper_bound(
            amount,
            dex_type,
            if is_token_a { token_a_amount } else { token_b_amount },
            multiplier,
        ),
{
    let selector: u8 = if is_token_a { 0 } else { 1 };
    calculate_upper_bound_optimised(
        amount,
        dex_type,
        token_a_amount,
        token_b_amount,
        selector,
        multiplier,
    )
}

/// The superseded strategy check: it evaluates the upper bound of the trade and accepts every
/// strategy whatever the bound.
pub fn calculate_optimal_strategy(
    amount: u64,
    dex_type: u8,
    token_a_amount: u64,
    token_b_amount: u64,
    is_token_a: bool,
    multiplier: u64,
) -> (r: bool)
    requires
        upper_bound_fits(
            amount,
            dex_type,
            if is_token_a { token_a_amount } else { token_b_amount },
            multiplier,
        ),
    ensures
        r,
{
    let upper_bound = calculate_upper_bound(
        amount,
        dex_type,
        token_a_amount,
        token_b_amount,
        is_token_a,
        multiplier,
    );
    if upper_bound < 1000 {
        return true;
    }
    true
}

/// Both amounts scaled by `fee_denominator / fee_numerator` (unchanged where the numerator is
/// zero); refused with `InvalidParameter` where the denominator or an amount is zero, and with
/// `Overflow` where a product leaves `u64`.
pub open spec fn liquidity_optimized(
    amount_a: u64,
    amount_b: u64,
    fee_numerator: u64,
    fee_denominator: u64,
) -> Result<(u64, u64), ErrorCode> {
    if fee_denominator == 0 || amount_a == 0 || amount_b == 0 {
        Err(ErrorCode::InvalidParameter)
    } else if fee_numerator == 0 {
        Ok((amount_a, amount_b))
    } else if amount_a * fee_denominator > u64::MAX || amount_b * fee_denominator > u64::MAX {
        Err(ErrorCode::Overflow)
    } else {
        Ok(
            (
                (amount_a * fee_denominator / (fee_numerator as int)) as u64,
                (amount_b * fee_denominator / (fee_numerator as int)) as u64,
            ),
        )
    }
}

/// Scales both amounts by the fee fraction (see `liquidity_optimized`).
pub fn calculate_liquidity_optimized(
    amount_a: u64,
    amount_b: u64,
    fee_numerator: u64,
    fee_denominator: u64,
) -> (r: Result<(u64, u64), ErrorCode>)
    ensures
        r == liquidity_optimized(amount_a, amount_b, fee_numerator, fee_denominator),
{
    if !(fee_denominator > 0) {
        return Err(ErrorCode::InvalidParameter);
    }
    if !(amount_a > 0 && amount_b > 0) {
        return Err(ErrorCode::InvalidParameter);
    }
    let mut liquidity_a = amount_a;
    let mut liquidity_b = amount_b;
    if fee_numerator > 0 {
        liquidity_a = match liquidity_a.checked_mul(fee_denominator) {
            Some(p) => match p.checked_div(fee_numerator) {
                Some(q) => q,
                None => return Err(ErrorCode::Overflow),
            },
            None => return Err(ErrorCode::Overflow),
        };
        liquidity_b = match liquidity_b.checked_mul(fee_denominator) {
            Some(p) => match p.checked_div(fee_numerator) {
                Some(q) => q,
                None => return Err(ErrorCode::Overflow),
            },
            None => return Err(ErrorCode::Overflow),
        };
    }
    Ok((liquidity_a, liquidity_b))
}

/// The output of a constant-product trade of `amount_in`: buying gives
/// `reserve_b * amount_in / (reserve_a + amount_in)`, selling
/// `reserve_a * amount_in / (reserve_b + amount_in)`; refused with `InsufficientLiquidity` where a
/// reserve is empty and with `Overflow` where a step leaves `u64`.
pub open spec fn price_optimized(reserve_a: u64, reserve_b: u64, amount_in: u64, is_buy: bool) -> Result<
    u64,
    ErrorCode,
> {
    let (reserve_in, reserve_out) = if is_buy {
        (reserve_a, reserve_b)
    } else {
        (reserve_b, reserve_a)
    };
    if reserve_a == 0 || reserve_b == 0 {
        Err(ErrorCode::InsufficientLiquidity)
    } else if reserve_out * amount_in > u64::MAX || reserve_in + amount_in > u64::MAX {
        Err(ErrorCode::Overflow)
    } else {
        Ok((reserve_out * amount_in / (reserve_in + amount_in) as int) as u64)
    }
}

/// The output of a constant-product trade (see `price_optimized`).
pub fn calculate_price_optimized(reserve_a: u64, reserve_b: u64, amount_in: u64, is_buy: bool) -> (r:
    Result<u64, ErrorCode>)
    ensures
        r == price_optimized(reserve_a, reserve_b, amount_in, is_buy),
{
    if !(reserve_a > 0 && reserve_b > 0) {
        return Err(ErrorCode::InsufficientLiquidity);
    }
    let (reserve_in, reserve_out) = if is_buy {
        (reserve_a, reserve_b)
    } else {
        (reserve_b, reserve_a)
    };
    let product = match reserve_out.checked_mul(amount_in) {
        Some(p) => p,
        None => return Err(ErrorCode::Overflow),
    };
    let pool = match reserve_in.checked_add(amount_in) {
        Some(s) => s,
        None => return Err(ErrorCode::Overflow),
    };
    match product.checked_div(pool) {
        Some(q) => Ok(q),
        None => Err(ErrorCode::Overflow),
    }
}

/// Scaling by a fee fraction whose numerator equals its denominator leaves both amounts as they
/// are, wherever the products fit `u64`.
pub proof fn lemma_liquidity_unit_fraction(amount_a: u64, amount_b: u64, fee: u64)
    requires
        amount_a > 0,
        amount_b > 0,
        fee > 0,
        amount_a * fee <= u64::MAX,
        amount_b * fee <= u64::MAX,
    ensures
        liquidity_optimized(amount_a, amount_b, fee, fee) == Ok::<(u64, u64), ErrorCode>(
            (amount_a, amount_b),
        ),
{
    assert(amount_a * fee / (fee as int) == amount_a) by (nonlinear_arith)
        requires
            fee > 0,
    ;
    assert(amount_b * fee / (fee as int) == amount_b) by (nonlinear_arith)
        requires
            fee > 0,
    ;
}

/// A constant-product trade never takes the whole output reserve: what it gives is less than the
/// reserve it draws on.
pub proof fn lemma_price_below_reserve(reserve_a: u64, reserve_b: u64, amount_in: u64, is_buy: bool)
    ensures
        price_optimized(reserve_a, reserve_b, amount_in, is_buy) matches Ok(out) ==> out < (
        if is_buy {
            reserve_b
        } else {
            reserve_a
        }),
{
    let (reserve_in, reserve_out) = if is_buy {
        (reserve_a, reserve_b)
    } else {
        (reserve_b, reserve_a)
    };
    if reserve_a != 0 && reserve_b != 0 && reserve_out * amount_in <= u64::MAX && reserve_in
        + amount_in <= u64::MAX {
        assert(reserve_out * amount_in / ((reserve_in + amount_in) as int) < reserve_out)
            by (nonlinear_arith)
            requires
                reserve_in > 0,
                reserve_out > 0,
                amount_in >= 0,
        ;
    }
}

} // verus!
