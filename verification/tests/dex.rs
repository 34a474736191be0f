use swap_engine::dex::pump::{
    fast_path_create_pump_fun_auto_swap_in, fast_path_create_pump_fun_auto_swap_out,
    pump_fun_swap_in_amount_for, pump_fun_swap_out_check, pump_fun_swap_out_settle,
    FastPathAutoSwapInPumpParams, FastPathAutoSwapOutPumpParams,
    FastPathCreatePumpFunAutoSwapInParams, FastPathCreatePumpFunAutoSwapOutParams,
    PumpFunAutoSwapAccount,
};
use swap_engine::dex::raydium::{
    initialize_raydium_pool_data, raydium_swap_in_amount_for, raydium_swap_out_check,
    raydium_swap_out_settle, FastPathAutoSwapOutParams, FastPathAutoSwapParams,
    FastPathCreateRaydiumParams, NO_VALIDATOR,
};
use swap_engine::error::ErrorCode;

fn raydium_in(slippage_bps: u16) -> FastPathAutoSwapParams {
    FastPathAutoSwapParams {
        min_amount_out: 0,
        amount_in: 0,
        is_source_input: true,
        use_slippage_protection: true,
        slippage_bps,
    }
}

#[test]
fn raydium_buy_takes_the_room_under_the_limit() {
    assert_eq!(raydium_swap_in_amount_for(raydium_in(5000), 100, 150, 10025, 0, 0, 1000), Ok(5000));
    assert_eq!(raydium_swap_in_amount_for(raydium_in(0), 100, 150, 10025, 0, 0, 1000), Ok(10000));
}

#[test]
fn raydium_buy_never_falls_below_the_token_floor() {
    assert_eq!(
        raydium_swap_in_amount_for(raydium_in(5000), 100, 150, 10025, 0, 0, 100_000),
        Ok(95_000)
    );
}

#[test]
fn raydium_buy_protection_step_keeps_the_amount() {
    let mut p = raydium_in(5000);
    p.use_slippage_protection = false;
    assert_eq!(raydium_swap_in_amount_for(p, 100, 150, 10025, 10, 99_999, 1000), Ok(5000));
}

#[test]
fn raydium_buy_refuses_a_price_move_and_a_zero_amount() {
    assert_eq!(
        raydium_swap_in_amount_for(raydium_in(5000), 0, 1000, 10, 0, 0, 0),
        Err(ErrorCode::PriceOutOfRange)
    );
    assert_eq!(
        raydium_swap_in_amount_for(raydium_in(5000), 0, 10, 10, 0, 0, 0),
        Err(ErrorCode::InvalidAmount)
    );
}

fn raydium_out(validator_id: u16, amount_in: u64) -> FastPathAutoSwapOutParams {
    FastPathAutoSwapOutParams {
        amount_in,
        max_slippage: 0,
        is_source_input: true,
        validate_transaction: false,
        validator_id,
    }
}

#[test]
fn raydium_sell_checks_validator_and_quote() {
    assert_eq!(raydium_swap_out_check(raydium_out(3, 0), false, 15, 10), Err(ErrorCode::InvalidValidator));
    assert_eq!(raydium_swap_out_check(raydium_out(3, 0), true, 15, 10), Ok(5));
    assert_eq!(
        raydium_swap_out_check(raydium_out(NO_VALIDATOR, 0), false, 10, 10),
        Err(ErrorCode::InvalidQuote)
    );
    assert_eq!(raydium_swap_out_check(raydium_out(NO_VALIDATOR, 0), false, 11, 10), Ok(1));
}

#[test]
fn raydium_sell_settles_only_a_shortfall_past_the_limit() {
    assert_eq!(raydium_swap_out_settle(raydium_out(0, 30), 5, 9, 30, 100), None);
    assert_eq!(raydium_swap_out_settle(raydium_out(0, 30), 9, 9, 10, 100), None);
    assert_eq!(raydium_swap_out_settle(raydium_out(0, 30), 5, 9, 10, 100), Some(80));
    assert_eq!(raydium_swap_out_settle(raydium_out(0, 30), 5, 9, 10, 3), Some(0));
}

#[test]
fn raydium_pool_is_laid_out() {
    let mut data = vec![0xaau8; 2360];
    initialize_raydium_pool_data(&mut data, FastPathCreateRaydiumParams { pool_id: 0x01020304, config_data: 0 });
    assert_eq!(&data[0..8], &[0xc6, 0x44, 0x0c, 0xf5, 0xfd, 0xda, 0x26, 0x3f]);
    assert_eq!(data[8], 0xaa);
    assert_eq!(data[1799], 0xaa);
    assert!(data[1800..2312].iter().all(|b| *b == 0));
    assert_eq!(u64::from_le_bytes(data[0x908..0x910].try_into().unwrap()), 0);
    assert_eq!(u64::from_le_bytes(data[0x918..0x920].try_into().unwrap()), 17);
    assert_eq!(u64::from_le_bytes(data[0x920..0x928].try_into().unwrap()), 0);
    assert_eq!(u64::from_le_bytes(data[0x928..0x930].try_into().unwrap()), 17);
    assert_eq!(&data[0x930..0x934], &[4, 3, 2, 1]);
    assert_eq!(u32::from_le_bytes(data[0x930..0x934].try_into().unwrap()), 0x01020304);
    assert_eq!(data[0x934], 0xaa);
}

#[test]
fn short_raydium_pool_gets_only_its_signature() {
    let mut data = vec![0x11u8; 10];
    initialize_raydium_pool_data(&mut data, FastPathCreateRaydiumParams { pool_id: 7, config_data: 1 });
    assert_eq!(data, vec![0xc6, 0x44, 0x0c, 0xf5, 0xfd, 0xda, 0x26, 0x3f, 0x11, 0x11]);
}

fn pump_in(slippage_bps: u16) -> FastPathAutoSwapInPumpParams {
    FastPathAutoSwapInPumpParams {
        min_amount_out: 0,
        amount_in: 0,
        is_source_input: true,
        use_slippage_protection: true,
        slippage_bps,
    }
}

#[test]
fn pump_buy_takes_the_allowed_difference() {
    assert_eq!(pump_fun_swap_in_amount_for(pump_in(3000), true, false, 100, 50, 10025, 0, 0, 0), Some(3000));
    assert_eq!(
        pump_fun_swap_in_amount_for(pump_in(3000), true, false, 100, 50, 10025, 0, 0, 10_000),
        Some(9500)
    );
}

#[test]
fn pump_buy_is_skipped_when_not_wanted() {
    assert_eq!(pump_fun_swap_in_amount_for(pump_in(3000), false, false, 100, 50, 10025, 0, 0, 0), None);
    assert_eq!(pump_fun_swap_in_amount_for(pump_in(3000), true, true, 100, 50, 10025, 0, 0, 0), None);
    assert_eq!(pump_fun_swap_in_amount_for(pump_in(3000), true, false, 0, 20, 10, 0, 0, 0), None);
    assert_eq!(pump_fun_swap_in_amount_for(pump_in(3000), true, false, 100, 50, 50, 0, 0, 0), None);
}

fn pump_out(validator_id: u16, amount: u64, target_amount: u64) -> FastPathAutoSwapOutPumpParams {
    FastPathAutoSwapOutPumpParams { amount, target_amount, validator_id }
}

#[test]
fn pump_sell_checks_validator_and_price() {
    assert_eq!(pump_fun_swap_out_check(pump_out(1, 0, 0), 0, 5, 5), Err(ErrorCode::ValidationFailed));
    assert_eq!(pump_fun_swap_out_check(pump_out(1, 0, 0), 1, 5, 5), Ok(0));
    assert_eq!(pump_fun_swap_out_check(pump_out(NO_VALIDATOR, 0, 0), 0, 4, 5), Ok(0));
    assert_eq!(
        pump_fun_swap_out_check(pump_out(NO_VALIDATOR, 0, 0), 0, 6, 5),
        Err(ErrorCode::PriceDiffTooLarge)
    );
}

#[test]
fn pump_sell_settles_the_shortfall() {
    assert_eq!(pump_fun_swap_out_settle(pump_out(0, 10, 10), 5, 0), Err(ErrorCode::FinalCheckFailed));
    assert_eq!(pump_fun_swap_out_settle(pump_out(0, 10, 5), 5, 10), Ok(None));
    assert_eq!(pump_fun_swap_out_settle(pump_out(0, 10, 5), 5, 3), Ok(Some(7)));
}

fn blank_account() -> PumpFunAutoSwapAccount {
    PumpFunAutoSwapAccount {
        identifier: [1; 8],
        data_buffer: [2; 672],
        state_buffer: [3; 192],
        extra_buffer: [4; 512],
        config_value1: 5,
        config_value2: 6,
        program_reference1: 7,
        program_reference2: 8,
        config_flag: 9,
    }
}

#[test]
fn auto_swap_accounts_are_laid_out_alike() {
    let mut a = blank_account();
    fast_path_create_pump_fun_auto_swap_in(&mut a, FastPathCreatePumpFunAutoSwapInParams { config_flag: 1, config_value: 77 });
    assert_eq!(a.identifier, [0x3f, 0x26, 0xda, 0xfd, 0xf5, 0x0c, 0x44, 0xc6]);
    assert!(a.data_buffer.iter().all(|b| *b == 0));
    assert!(a.state_buffer.iter().all(|b| *b == 0));
    assert!(a.extra_buffer.iter().all(|b| *b == 0));
    assert_eq!((a.config_value1, a.config_value2), (24, 12));
    assert_eq!((a.program_reference1, a.program_reference2), (0, 0));
    assert_eq!(a.config_flag, 77);
    let mut b = blank_account();
    fast_path_create_pump_fun_auto_swap_out(&mut b, FastPathCreatePumpFunAutoSwapOutParams { config_flag: 1, config_value: 77 });
    assert_eq!(a.identifier, b.identifier);
    assert_eq!(b.config_flag, 77);
    assert!(b.data_buffer.iter().all(|x| *x == 0));
}
