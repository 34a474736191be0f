use swap_engine::deserialize::{
    deserialize_swap, deserialize_swap_v4, recognise_dex, SwapData, KIND_PUMP_FUN,
    KIND_RAYDIUM_CP, KIND_RAYDIUM_V4, PUMP_FUN_ID1, RAYDIUM_CP_ID1, RAYDIUM_V4_ID1, RAYDIUM_V4_ID2,
    RAYDIUM_V4_ID3,
};

fn program_id(words: [u64; 3]) -> Vec<u8> {
    let mut v = Vec::new();
    for w in words {
        v.extend_from_slice(&w.to_le_bytes());
    }
    v.extend_from_slice(&[0u8; 8]);
    v
}

fn fixed(a: u64, b: u64) -> impl Fn(u8, &[u8]) -> Result<Option<(u64, u64)>, u8> {
    move |_k: u8, _d: &[u8]| Ok(Some((a, b)))
}

fn v4_id() -> Vec<u8> {
    program_id([RAYDIUM_V4_ID1, RAYDIUM_V4_ID2, RAYDIUM_V4_ID3])
}

fn blank_record() -> SwapData {
    SwapData {
        dex_type: 99,
        is_reverse: true,
        reserve_a: 1,
        reserve_b: 2,
        token_a_address: [0xaa; 32],
        token_b_address: [0xbb; 32],
        fee_numerator: 3,
        fee_denominator: 4,
        data: vec![0xcc; 4],
    }
}

fn v4_pool() -> Vec<u8> {
    let mut v = vec![0x01u8; 32];
    v.extend_from_slice(&[0x02u8; 32]);
    v.extend_from_slice(&25u64.to_le_bytes());
    v.extend_from_slice(&10000u64.to_le_bytes());
    v
}

#[test]
fn programs_are_recognised_by_their_ids() {
    assert_eq!(recognise_dex(&v4_id()), Some(KIND_RAYDIUM_V4));
    assert_eq!(recognise_dex(&program_id([RAYDIUM_CP_ID1, 5, 6])), Some(KIND_RAYDIUM_CP));
    assert_eq!(recognise_dex(&program_id([PUMP_FUN_ID1, 0, 0])), Some(KIND_PUMP_FUN));
    assert_eq!(recognise_dex(&program_id([RAYDIUM_V4_ID1, RAYDIUM_V4_ID2, 0])), None);
    assert_eq!(recognise_dex(&program_id([1, 2, 3])), None);
    assert_eq!(recognise_dex(&v4_id()[0..23]), None);
}

#[test]
fn raydium_v4_pool_fills_the_record() {
    let mut out = blank_record();
    let r = deserialize_swap(&v4_id(), &v4_pool(), &mut out, &fixed(11, 22));
    assert_eq!(r, Ok(true));
    assert_eq!(out.dex_type, KIND_RAYDIUM_V4);
    assert!(!out.is_reverse);
    assert_eq!((out.reserve_a, out.reserve_b), (11, 22));
    assert_eq!(out.token_a_address, [0x01; 32]);
    assert_eq!(out.token_b_address, [0x02; 32]);
    assert_eq!((out.fee_numerator, out.fee_denominator), (25, 10000));
    assert_eq!(out.data, vec![0x01; 4]);
}

#[test]
fn other_pools_keep_addresses_and_fees() {
    let mut out = blank_record();
    let r = deserialize_swap(&program_id([PUMP_FUN_ID1, 0, 0]), &[7u8, 8], &mut out, &fixed(5, 6));
    assert_eq!(r, Ok(true));
    assert_eq!(out.dex_type, KIND_PUMP_FUN);
    assert_eq!((out.reserve_a, out.reserve_b), (5, 6));
    assert_eq!(out.token_a_address, [0xaa; 32]);
    assert_eq!((out.fee_numerator, out.fee_denominator), (3, 4));
    assert_eq!(out.data, vec![7, 8, 0xcc, 0xcc]);
}

#[test]
fn unread_reserves_only_set_the_kind() {
    let mut out = blank_record();
    let r = deserialize_swap(&program_id([RAYDIUM_CP_ID1, 0, 0]), &v4_pool(), &mut out, &|_k: u8, _d: &[u8]| -> Result<Option<(u64, u64)>, u8> { Ok(None) });
    assert_eq!(r, Ok(false));
    assert_eq!(out.dex_type, KIND_RAYDIUM_CP);
    assert!(out.is_reverse);
    assert_eq!((out.reserve_a, out.reserve_b), (1, 2));
    assert_eq!(out.data, vec![0xcc; 4]);
}

#[test]
fn unknown_program_leaves_the_record() {
    let mut out = blank_record();
    let r = deserialize_swap(&program_id([1, 2, 3]), &v4_pool(), &mut out, &fixed(1, 1));
    assert_eq!(r, Ok(false));
    assert_eq!(out.dex_type, 99);
    assert_eq!(out.token_a_address, [0xaa; 32]);
}

#[test]
fn v4_reader_takes_only_raydium_v4() {
    let mut out = blank_record();
    let r = deserialize_swap_v4(&program_id([PUMP_FUN_ID1, 0, 0]), &v4_pool(), &mut out, &fixed(1, 1));
    assert_eq!(r, Ok(false));
    assert_eq!(out.dex_type, 99);
    let mut a = blank_record();
    let mut b = blank_record();
    let ra = deserialize_swap_v4(&v4_id(), &v4_pool(), &mut a, &fixed(11, 22));
    let rb = deserialize_swap(&v4_id(), &v4_pool(), &mut b, &fixed(11, 22));
    assert_eq!(ra, rb);
    assert_eq!(a.dex_type, b.dex_type);
    assert_eq!(a.token_b_address, b.token_b_address);
    assert_eq!(a.fee_denominator, b.fee_denominator);
    assert_eq!(a.data, b.data);
}

#[test]
fn parser_reads_the_pool_data_and_its_error_is_passed_on() {
    let head = |_k: u8, d: &[u8]| -> Result<Option<(u64, u64)>, u8> {
        if d.len() < 16 {
            return Err(7);
        }
        Ok(Some((d[0] as u64, d[8] as u64)))
    };
    let mut out = blank_record();
    assert_eq!(deserialize_swap(&v4_id(), &v4_pool(), &mut out, &head), Ok(true));
    assert_eq!((out.reserve_a, out.reserve_b), (1, 1));
    let mut short = blank_record();
    assert_eq!(deserialize_swap(&v4_id(), &[1u8, 2], &mut short, &head), Err(7));
    assert_eq!(short.dex_type, KIND_RAYDIUM_V4);
    assert_eq!((short.reserve_a, short.reserve_b), (1, 2));
}
