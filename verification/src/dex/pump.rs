//! Pump.fun fast paths and the automatic-swap account.
use vstd::prelude::*;
use crate::amounts::{
    gross_up, gross_up_amount, gross_up_fits, gross_up_in_range, portion, portion_fits,
    portion_in_range, LARGE_PRICE_DIFF, RAYDIUM_FEE_RATE,
};
use crate::error::ErrorCode;
use crate::invocation::{invokes, pool_invocation, writable, InvokedAccount, SwapInvocation};

pub use crate::amounts::{apply_slippage, calculate_adjusted_amount};

verus! {

/// The validator id that asks for no validator check.
pub const NO_VALIDATOR: u16 = 65535;

/// Parameters of an automatic Pump.fun buy.
#[derive(Clone, Copy, Debug, PartialEq, Eq, Structural)]
pub struct FastPathAutoSwapInPumpParams {
    pub min_amount_out: u64,
    pub amount_in: u64,
    pub is_source_input: bool,
    pub use_slippage_protection: bool,
    pub slippage_bps: u16,
}

/// Parameters of an automatic Pump.fun sell.
#[derive(Clone, Copy, Debug, PartialEq, Eq, Structural)]
pub struct FastPathAutoSwapOutPumpParams {
    pub amount: u64,
    pub target_amount: u64,
    pub validator_id: u16,
}

/// Parameters of a new automatic-buy account.
#[derive(Clone, Copy, Debug, PartialEq, Eq, Structural)]
pub struct FastPathCreatePumpFunAutoSwapInParams {
    pub config_flag: u8,
    pub config_value: u32,
}

/// Parameters of a new automatic-sell account.
#[derive(Clone, Copy, Debug, PartialEq, Eq, Structural)]
pub struct FastPathCreatePumpFunAutoSwapOutParams {
    pub config_flag: u8,
    pub config_value: u32,
}

/// The larger of two amounts.
pub open spec fn max_amount(a: int, b: int) -> int {
    if a < b { b } else { a }
}

/// The amount of an automatic buy, or none where the buy is skipped: skipped where it is not
/// enabled, where the expected price exceeds the current price by more than the allowed
/// difference, or where the allowed difference left over after the expected price, grossed up
/// by the fee, is zero; otherwise that grossed-up amount cut to the slippage, and never below
/// 95% (by whole hundredths) of the source amount.
pub open spec fn pump_fun_swap_in_amount(
    params: FastPathAutoSwapInPumpParams,
    enabled: bool,
    blocked: bool,
    current_price: u64,
    expected_price: u64,
    max_price_diff: u64,
    source_amount: u64,
) -> Option<u64> {
    if !enabled || blocked || expected_price > max_price_diff + current_price {
        None
    } else {
        let price_diff = if max_price_diff < expected_price { 0 } else { max_price_diff - expected_price };
        let large = price_diff > LARGE_PRICE_DIFF;
        let grossed = gross_up(price_diff, RAYDIUM_FEE_RATE as int, large);
        if grossed == 0 {
            None
        } else {
            let cut = portion(grossed, params.slippage_bps as int, large);
            Some(max_amount(cut, source_amount / 100 * 95) as u64)
        }
    }
}

/// The inputs on which the amount of an automatic buy fits the machine's arithmetic.
pub open spec fn pump_fun_swap_in_fits(
    params: FastPathAutoSwapInPumpParams,
    enabled: bool,
    blocked: bool,
    current_price: u64,
    expected_price: u64,
    max_price_diff: u64,
) -> bool {
    !enabled || blocked || {
        &&& max_price_diff + current_price <= u64::MAX
        &&& expected_price > max_price_diff + current_price || {
            let price_diff = if max_price_diff < expected_price { 0 } else { max_price_diff - expected_price };
            let large = price_diff > LARGE_PRICE_DIFF;
            &&& gross_up_fits(price_diff, RAYDIUM_FEE_RATE as int, large)
            &&& portion_fits(
                gross_up(price_diff, RAYDIUM_FEE_RATE as int, large),
                params.slippage_bps as int,
                large,
            )
        }
    }
}

/// Whether the amount of an automatic Pump.fun buy can be computed within `u64` (see
/// `pump_fun_swap_in_fits`).
pub fn pump_fun_swap_in_in_range(
    params: FastPathAutoSwapInPumpParams,
    enabled: bool,
    blocked: bool,
    current_price: u64,
    expected_price: u64,
    max_price_diff: u64,
) -> (r: bool)
    ensures
        r == pump_fun_swap_in_fits(params, enabled, blocked, current_price, expected_price, max_price_diff),
{
    if !enabled || blocked {
        return true;
    }
    let ceiling = match max_price_diff.checked_add(current_price) {
        Some(v) => v,
        None => return false,
    };
    if expected_price > ceiling {
        return true;
    }
    let price_diff = max_price_diff.saturating_sub(expected_price);
    let large = price_diff > LARGE_PRICE_DIFF;
    if !gross_up_in_range(price_diff, RAYDIUM_FEE_RATE, large) {
        return false;
    }
    let grossed = gross_up_amount(price_diff, RAYDIUM_FEE_RATE, large);
    portion_in_range(grossed, params.slippage_bps as u64, large)
}

/// Decides the amount of an automatic Pump.fun buy from what is read from the accounts (see
/// `pump_fun_swap_in_amount`). The minimum amount and minimum output take part in a protection
/// step that never changes the amount.
pub fn pump_fun_swap_in_amount_for(
    params: FastPathAutoSwapInPumpParams,
    enabled: bool,
    blocked: bool,
    current_price: u64,
    expected_price: u64,
    max_price_diff: u64,
    min_amount: u64,
    min_output: u64,
    source_amount: u64,
) -> (r: Option<u64>)
    requires
        pump_fun_swap_in_fits(params, enabled, blocked, current_price, expected_price, max_price_diff),
    ensures
        r == pump_fun_swap_in_amount(
            params,
            enabled,
            blocked,
            current_price,
            expected_price,
            max_price_diff,
            source_amount,
        ),
{
    if !enabled || blocked {
        return None;
    }
    if expected_price > max_price_diff + current_price {
        return None;
    }
    let price_diff = max_price_diff.saturating_sub(expected_price);
    let is_large_amount = price_diff > LARGE_PRICE_DIFF;
    let adjusted_diff = calculate_adjusted_amount(price_diff, is_large_amount);
    if adjusted_diff == 0 {
        return None;
    }
    let mut slippage_adjusted_amount = apply_slippage(
        adjusted_diff,
        params.slippage_bps,
        is_large_amount,
    );
    if !params.use_slippage_protection {
        let mut additional_amount: u64 = 0;
        if expected_price > min_amount {
            let diff = min_amount.saturating_sub(expected_price);
            additional_amount = calculate_adjusted_amount(diff, diff > LARGE_PRICE_DIFF);
        }
        let mut final_amount = slippage_adjusted_amount;
        if additional_amount > slippage_adjusted_amount {
            let combined = additional_amount + min_output;
            final_amount = combined / 2;
        }
        if min_output > slippage_adjusted_amount {
            slippage_adjusted_amount = final_amount;
        }
    }
    let minimum_out = (source_amount / 100) * 95;
    if minimum_out > slippage_adjusted_amount {
        slippage_adjusted_amount = minimum_out;
    }
    Some(slippage_adjusted_amount)
}

/// The first checks of an automatic Pump.fun sell: where a validator id is given the tracker
/// must know it (`ValidationFailed` where the tracker's answer is zero); then the quote's
/// excess over the reference value, held at zero, must be zero (`PriceDiffTooLarge`).
pub fn pump_fun_swap_out_check(
    params: FastPathAutoSwapOutPumpParams,
    validator_answer: u64,
    quote: u64,
    reference: u64,
) -> (r: Result<u64, ErrorCode>)
    ensures
        params.validator_id != NO_VALIDATOR && validator_answer == 0 ==> r == Err::<u64, ErrorCode>(
            ErrorCode::ValidationFailed,
        ),
        (params.validator_id == NO_VALIDATOR || validator_answer != 0) && quote > reference ==> r
            == Err::<u64, ErrorCode>(ErrorCode::PriceDiffTooLarge),
        (params.validator_id == NO_VALIDATOR || validator_answer != 0) && quote <= reference ==> r
            == Ok::<u64, ErrorCode>(0),
{
    if params.validator_id != NO_VALIDATOR {
        if validator_answer == 0 {
            return Err(ErrorCode::ValidationFailed);
        }
    }
    let is_registered: u64 = 1;
    let price_diff = quote.saturating_sub(reference);
    if is_registered <= price_diff {
        return Err(ErrorCode::PriceDiffTooLarge);
    }
    Ok(price_diff)
}

/// The settlement of an automatic Pump.fun sell: `FinalCheckFailed` where the target exceeds
/// the final value read back; otherwise the shortfall of the balance against the sale's amount,
/// or none where the balance covers it.
pub fn pump_fun_swap_out_settle(
    params: FastPathAutoSwapOutPumpParams,
    final_check_value: u64,
    balance: u64,
) -> (r: Result<Option<u64>, ErrorCode>)
    ensures
        params.target_amount > final_check_value ==> r == Err::<Option<u64>, ErrorCode>(
            ErrorCode::FinalCheckFailed,
        ),
        params.target_amount <= final_check_value && balance >= params.amount ==> r == Ok::<
            Option<u64>,
            ErrorCode,
        >(None),
        params.target_amount <= final_check_value && balance < params.amount ==> r == Ok::<
            Option<u64>,
            ErrorCode,
        >(Some((params.amount - balance) as u64)),
{
    if params.target_amount > final_check_value {
        return Err(ErrorCode::FinalCheckFailed);
    }
    if balance >= params.amount {
        return Ok(None);
    }
    Ok(Some(params.amount.saturating_sub(balance)))
}

/// The instruction data of a Pump.fun buy.
pub open spec fn pump_fun_buy_data() -> Seq<u8> {
    seq![0xeau8, 0xebu8, 0xdau8, 0x01u8, 0x12u8, 0x3du8, 0x06u8, 0x66u8]
}

/// The instruction data of a Pump.fun sell.
pub open spec fn pump_fun_sell_data() -> Seq<u8> {
    seq![0xadu8, 0x83u8, 0x7fu8, 0x01u8, 0xa4u8, 0x85u8, 0xe6u8, 0x33u8]
}

/// The account metas of a Pump.fun swap: the pool and the two token accounts, writable and not
/// signing.
pub open spec fn pump_fun_metas(pool: [u8; 32], source: [u8; 32], destination: [u8; 32]) -> Seq<
    InvokedAccount,
> {
    seq![writable(pool), writable(source), writable(destination)]
}

fn pump_fun_invocation(
    program: [u8; 32],
    pool: [u8; 32],
    source: [u8; 32],
    destination: [u8; 32],
    data: &[u8],
) -> (r: SwapInvocation)
    ensures
        invokes(r, program, pool, source, destination, pump_fun_metas(pool, source, destination), data@),
{
    let mut metas: Vec<InvokedAccount> = Vec::new();
    metas.push(InvokedAccount { pubkey: pool, is_signer: false, is_writable: true });
    metas.push(InvokedAccount { pubkey: source, is_signer: false, is_writable: true });
    metas.push(InvokedAccount { pubkey: destination, is_signer: false, is_writable: true });
    assert(metas@ =~= pump_fun_metas(pool, source, destination));
    pool_invocation(program, pool, source, destination, metas, data)
}

/// The invocation of a Pump.fun buy: `pump_program` on the pool and the two token accounts (see
/// `pump_fun_metas`), with the buy data.
pub fn pump_fun_buy_invocation(
    pump_program: [u8; 32],
    pool: [u8; 32],
    source: [u8; 32],
    destination: [u8; 32],
) -> (r: SwapInvocation)
    ensures
        invokes(r, pump_program, pool, source, destination, pump_fun_metas(pool, source, destination), pump_fun_buy_data()),
{
    let data: [u8; 8] = [0xea, 0xeb, 0xda, 0x01, 0x12, 0x3d, 0x06, 0x66];
    assert(data@ =~= pump_fun_buy_data());
    pump_fun_invocation(pump_program, pool, source, destination, &data)
}

/// The invocation of a Pump.fun sell: `pump_program` on the pool and the two token accounts (see
/// `pump_fun_metas`), with the sell data.
pub fn pump_fun_sell_invocation(
    pump_program: [u8; 32],
    pool: [u8; 32],
    source: [u8; 32],
    destination: [u8; 32],
) -> (r: SwapInvocation)
    ensures
        invokes(r, pump_program, pool, source, destination, pump_fun_metas(pool, source, destination), pump_fun_sell_data()),
{
    let data: [u8; 8] = [0xad, 0x83, 0x7f, 0x01, 0xa4, 0x85, 0xe6, 0x33];
    assert(data@ =~= pump_fun_sell_data());
    pump_fun_invocation(pump_program, pool, source, destination, &data)
}

/// An automatic Pump.fun buy: none where it is skipped (see `pump_fun_swap_in_amount`), and
/// nothing is invoked; otherwise the amount that is quoted and the Pump.fun buy it invokes.
pub fn fast_path_auto_swap_in_pump_fun(
    params: FastPathAutoSwapInPumpParams,
    enabled: bool,
    blocked: bool,
    current_price: u64,
    expected_price: u64,
    max_price_diff: u64,
    min_amount: u64,
    min_output: u64,
    source_amount: u64,
    pump_program: [u8; 32],
    pool: [u8; 32],
    source: [u8; 32],
    destination: [u8; 32],
) -> (r: Option<(u64, SwapInvocation)>)
    requires
        pump_fun_swap_in_fits(params, enabled, blocked, current_price, expected_price, max_price_diff),
    ensures
        match pump_fun_swap_in_amount(
            params,
            enabled,
            blocked,
            current_price,
            expected_price,
            max_price_diff,
            source_amount,
        ) {
            None => r is None,
            Some(a) => r matches Some((b, inv)) && b == a && invokes(
                inv,
                pump_program,
                pool,
                source,
                destination,
                pump_fun_metas(pool, source, destination),
                pump_fun_buy_data(),
            ),
        },
{
    let amount = pump_fun_swap_in_amount_for(
        params,
        enabled,
        blocked,
        current_price,
        expected_price,
        max_price_diff,
        min_amount,
        min_output,
        source_amount,
    )?;
    Some((amount, pump_fun_buy_invocation(pump_program, pool, source, destination)))
}

/// An automatic Pump.fun sell before its swap: its checks (see `pump_fun_swap_out_check`), and
/// where they pass, the Pump.fun sell it invokes; its settlement follows the swap (see
/// `pump_fun_swap_out_settle`).
pub fn fast_path_auto_swap_out_pump_fun(
    params: FastPathAutoSwapOutPumpParams,
    validator_answer: u64,
    quote: u64,
    reference: u64,
    pump_program: [u8; 32],
    pool: [u8; 32],
    source: [u8; 32],
    destination: [u8; 32],
) -> (r: Result<SwapInvocation, ErrorCode>)
    ensures
        params.validator_id != NO_VALIDATOR && validator_answer == 0 ==> (r matches Err(e) && e
            == ErrorCode::ValidationFailed),
        (params.validator_id == NO_VALIDATOR || validator_answer != 0) && quote > reference ==> (r matches Err(
            e,
        ) && e == ErrorCode::PriceDiffTooLarge),
        (params.validator_id == NO_VALIDATOR || validator_answer != 0) && quote <= reference ==> (r matches Ok(
            inv,
        ) && invokes(
            inv,
            pump_program,
            pool,
            source,
            destination,
            pump_fun_metas(pool, source, destination),
            pump_fun_sell_data(),
        )),
{
    let _price_diff = pump_fun_swap_out_check(params, validator_answer, quote, reference)?;
    Ok(pump_fun_sell_invocation(pump_program, pool, source, destination))
}

/// The identifier at the start of an automatic-swap account.
pub open spec fn auto_swap_identifier() -> Seq<u8> {
    seq![0x3fu8, 0x26u8, 0xdau8, 0xfdu8, 0xf5u8, 0x0cu8, 0x44u8, 0xc6u8]
}

/// An automatic-swap account.
#[derive(Clone, Copy)]
pub struct PumpFunAutoSwapAccount {
    pub identifier: [u8; 8],
    pub data_buffer: [u8; 672],
    pub state_buffer: [u8; 192],
    pub extra_buffer: [u8; 512],
    pub config_value1: u64,
    pub config_value2: u64,
    pub program_reference1: u64,
    pub program_reference2: u64,
    pub config_flag: u32,
}

/// Whether an account is a freshly laid-out automatic-swap account with configuration flag
/// `config_value`: the identifier, cleared buffers, configuration values 24 and 12, no program
/// references.
pub open spec fn fresh_auto_swap_account(a: PumpFunAutoSwapAccount, config_value: u32) -> bool {
    &&& a.identifier@ == auto_swap_identifier()
    &&& forall|i: int| 0 <= i < 672 ==> a.data_buffer@[i] == 0
    &&& forall|i: int| 0 <= i < 192 ==> a.state_buffer@[i] == 0
    &&& forall|i: int| 0 <= i < 512 ==> a.extra_buffer@[i] == 0
    &&& a.config_value1 == 24
    &&& a.config_value2 == 12
    &&& a.program_reference1 == 0
    &&& a.program_reference2 == 0
    &&& a.config_flag == config_value
}

fn lay_out_auto_swap_account(account: &mut PumpFunAutoSwapAccount, config_value: u32)
    ensures
        fresh_auto_swap_account(*final(account), config_value),
{
    account.identifier = [0x3f, 0x26, 0xda, 0xfd, 0xf5, 0x0c, 0x44, 0xc6];
    assert(account.identifier@ =~= auto_swap_identifier());
    let mut i: usize = 0;
    while i < 672
        invariant
            0 <= i <= 672,
            account.identifier@ == auto_swap_identifier(),
            forall|j: int| 0 <= j < i ==> account.data_buffer@[j] == 0,
        decreases 672 - i,
    {
        account.data_buffer[i] = 0;
        i = i + 1;
    }
    let mut i: usize = 0;
    while i < 192
        invariant
            0 <= i <= 192,
            account.identifier@ == auto_swap_identifier(),
            forall|j: int| 0 <= j < 672 ==> account.data_buffer@[j] == 0,
            forall|j: int| 0 <= j < i ==> account.state_buffer@[j] == 0,
        decreases 192 - i,
    {
        account.state_buffer[i] = 0;
        i = i + 1;
    }
    let mut i: usize = 0;
    while i < 512
        invariant
            0 <= i <= 512,
            account.identifier@ == auto_swap_identifier(),
            forall|j: int| 0 <= j < 672 ==> account.data_buffer@[j] == 0,
            forall|j: int| 0 <= j < 192 ==> account.state_buffer@[j] == 0,
            forall|j: int| 0 <= j < i ==> account.extra_buffer@[j] == 0,
        decreases 512 - i,
    {
        account.extra_buffer[i] = 0;
        i = i + 1;
    }
    account.config_value1 = 24;
    account.config_value2 = 12;
    account.program_reference1 = 0;
    account.program_reference2 = 0;
    account.config_flag = config_value;
}

/// Lays out a new automatic-buy account (see `fresh_auto_swap_account`).
pub fn fast_path_create_pump_fun_auto_swap_in(
    account: &mut PumpFunAutoSwapAccount,
    params: FastPathCreatePumpFunAutoSwapInParams,
)
    ensures
        fresh_auto_swap_account(*final(account), params.config_value),
{
    lay_out_auto_swap_account(account, params.config_value);
}

/// Lays out a new automatic-sell account (see `fresh_auto_swap_account`); it is laid out as an
/// automatic-buy account is.
pub fn fast_path_create_pump_fun_auto_swap_out(
    account: &mut PumpFunAutoSwapAccount,
    params: FastPathCreatePumpFunAutoSwapOutParams,
)
    ensures
        fresh_auto_swap_account(*final(account), params.config_value),
{
    lay_out_auto_swap_account(account, params.config_value);
}

} // verus!
