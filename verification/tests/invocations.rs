use swap_engine::dex::pump::{
    fast_path_auto_swap_in_pump_fun, fast_path_auto_swap_out_pump_fun, pump_fun_buy_invocation,
    pump_fun_sell_invocation, FastPathAutoSwapInPumpParams, FastPathAutoSwapOutPumpParams,
};
use swap_engine::dex::raydium::{
    fast_path_auto_swap_in_raydium_v4, fast_path_auto_swap_out_raydium_v4, raydium_swap_invocation,
    FastPathAutoSwapOutParams, FastPathAutoSwapParams,
};
use swap_engine::error::{ErrorCode, SwapError};
use swap_engine::invocation::SwapInvocation;
use swap_engine::swap::{auto_swap_out, AutoSwapOutData};

const PROGRAM: [u8; 32] = [1; 32];
const POOL: [u8; 32] = [2; 32];
const SOURCE: [u8; 32] = [3; 32];
const DESTINATION: [u8; 32] = [4; 32];

fn check_pump(inv: &SwapInvocation, data: [u8; 8]) {
    assert_eq!(inv.program_id, PROGRAM);
    assert_eq!(inv.accounts, vec![POOL, SOURCE, DESTINATION]);
    assert_eq!(inv.data, data.to_vec());
    assert_eq!(inv.metas.len(), 3);
    for (meta, key) in inv.metas.iter().zip([POOL, SOURCE, DESTINATION]) {
        assert_eq!(meta.pubkey, key);
        assert!(meta.is_writable);
        assert!(!meta.is_signer);
    }
}

#[test]
fn pump_fun_invocations_carry_their_tags() {
    check_pump(
        &pump_fun_buy_invocation(PROGRAM, POOL, SOURCE, DESTINATION),
        [0xea, 0xeb, 0xda, 0x01, 0x12, 0x3d, 0x06, 0x66],
    );
    check_pump(
        &pump_fun_sell_invocation(PROGRAM, POOL, SOURCE, DESTINATION),
        [0xad, 0x83, 0x7f, 0x01, 0xa4, 0x85, 0xe6, 0x33],
    );
}

#[test]
fn raydium_invocation_is_the_bare_tag() {
    let inv = raydium_swap_invocation(PROGRAM, POOL, SOURCE, DESTINATION);
    assert_eq!(inv.program_id, PROGRAM);
    assert!(inv.metas.is_empty());
    assert_eq!(inv.accounts, vec![POOL, SOURCE, DESTINATION]);
    assert_eq!(inv.data, vec![9u8]);
}

#[test]
fn raydium_fast_buy_invokes_only_when_the_amount_is_decided() {
    let params = FastPathAutoSwapParams {
        min_amount_out: 0,
        amount_in: 0,
        is_source_input: true,
        use_slippage_protection: true,
        slippage_bps: 5000,
    };
    match fast_path_auto_swap_in_raydium_v4(params, 100, 150, 10025, 0, 0, 1000, PROGRAM, POOL, SOURCE, DESTINATION) {
        Ok((amount, inv)) => {
            assert_eq!(amount, 5000);
            assert_eq!(inv.data, vec![9u8]);
        }
        Err(e) => panic!("{:?}", e),
    }
    assert!(matches!(
        fast_path_auto_swap_in_raydium_v4(params, 0, 0, 0, 0, 0, 0, PROGRAM, POOL, SOURCE, DESTINATION),
        Err(ErrorCode::InvalidAmount)
    ));
    assert!(matches!(
        fast_path_auto_swap_in_raydium_v4(params, 0, 1000, 10, 0, 0, 0, PROGRAM, POOL, SOURCE, DESTINATION),
        Err(ErrorCode::PriceOutOfRange)
    ));
}

#[test]
fn raydium_fast_sell_checks_before_invoking() {
    let params = FastPathAutoSwapOutParams {
        amount_in: 30,
        max_slippage: 0,
        is_source_input: true,
        validate_transaction: false,
        validator_id: 4,
    };
    assert!(matches!(
        fast_path_auto_swap_out_raydium_v4(params, false, 15, 10, PROGRAM, POOL, SOURCE, DESTINATION),
        Err(ErrorCode::InvalidValidator)
    ));
    assert!(matches!(
        fast_path_auto_swap_out_raydium_v4(params, true, 10, 10, PROGRAM, POOL, SOURCE, DESTINATION),
        Err(ErrorCode::InvalidQuote)
    ));
    match fast_path_auto_swap_out_raydium_v4(params, true, 15, 10, PROGRAM, POOL, SOURCE, DESTINATION) {
        Ok((diff, inv)) => {
            assert_eq!(diff, 5);
            assert_eq!(inv.accounts, vec![POOL, SOURCE, DESTINATION]);
        }
        Err(e) => panic!("{:?}", e),
    }
}

#[test]
fn pump_fast_buy_skips_or_invokes() {
    let params = FastPathAutoSwapInPumpParams {
        min_amount_out: 0,
        amount_in: 0,
        is_source_input: true,
        use_slippage_protection: true,
        slippage_bps: 3000,
    };
    match fast_path_auto_swap_in_pump_fun(params, true, false, 100, 50, 10025, 0, 0, 0, PROGRAM, POOL, SOURCE, DESTINATION) {
        Some((amount, inv)) => {
            assert_eq!(amount, 3000);
            check_pump(&inv, [0xea, 0xeb, 0xda, 0x01, 0x12, 0x3d, 0x06, 0x66]);
        }
        None => panic!("the buy was skipped"),
    }
    assert!(fast_path_auto_swap_in_pump_fun(params, true, false, 0, 0, 0, 0, 0, 0, PROGRAM, POOL, SOURCE, DESTINATION)
        .is_none());
}

#[test]
fn pump_fast_sell_checks_before_invoking() {
    let params = FastPathAutoSwapOutPumpParams { amount: 10, target_amount: 0, validator_id: 2 };
    assert!(matches!(
        fast_path_auto_swap_out_pump_fun(params, 0, 5, 5, PROGRAM, POOL, SOURCE, DESTINATION),
        Err(ErrorCode::ValidationFailed)
    ));
    assert!(matches!(
        fast_path_auto_swap_out_pump_fun(params, 1, 6, 5, PROGRAM, POOL, SOURCE, DESTINATION),
        Err(ErrorCode::PriceDiffTooLarge)
    ));
    match fast_path_auto_swap_out_pump_fun(params, 1, 5, 5, PROGRAM, POOL, SOURCE, DESTINATION) {
        Ok(inv) => check_pump(&inv, [0xad, 0x83, 0x7f, 0x01, 0xa4, 0x85, 0xe6, 0x33]),
        Err(e) => panic!("{:?}", e),
    }
}

#[test]
fn automatic_sell_decided_whole() {
    let data = AutoSwapOutData {
        input_amount: 0,
        output_amount: 50,
        validator_id: 7,
        is_inverted: false,
        enable_sandwich: false,
        use_alt_location: false,
    };
    assert_eq!(auto_swap_out(data, false, 1, 0, 2, 0, 10, 0), Err(SwapError::InvalidValidatorId));
    assert_eq!(auto_swap_out(data, true, 100, 0, 40, 11, 10, 0), Err(SwapError::ExceedMaxInput));
    assert_eq!(auto_swap_out(data, true, 100, 0, 40, 10, 10, 51), Err(SwapError::InsufficientOutput));
    assert_eq!(auto_swap_out(data, true, 100, 0, 40, 10, 10, 20), Ok((60, 30)));
}
