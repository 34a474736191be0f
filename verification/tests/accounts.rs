use swap_engine::accounts::{
    create_auth, create_global, create_global_settings, fast_path_create_pump_fun_auto_swap_in,
    fast_path_create_raydium_v4, prepare, update_global, GlobalState, PoolState, SwapAccount,
    GLOBAL_MAGIC,
};
use swap_engine::error::ErrorCode;

fn global_input(words: [u64; 3], fill: u8) -> Vec<u8> {
    let mut v = Vec::new();
    for w in words {
        v.extend_from_slice(&w.to_le_bytes());
    }
    v.extend_from_slice(&[fill; 160]);
    v
}

#[test]
fn global_state_needs_its_full_data() {
    assert!(matches!(create_global(&[0u8; 183]), Err(ErrorCode::InvalidDataLength)));
}

#[test]
fn global_state_reads_its_words_and_block() {
    let mut input = global_input([1, 2, 3], 0x5a);
    input[24] = 0x11;
    match create_global(&input) {
        Ok(g) => {
            assert_eq!(g.magic, GLOBAL_MAGIC);
            assert_eq!((g.data_1, g.data_2, g.data_3), (1, 2, 3));
            assert_eq!(g.remaining_data[0], 0x11);
            assert_eq!(g.remaining_data[159], 0x5a);
        }
        Err(e) => panic!("{:?}", e),
    }
}

fn update_data(words: [u64; 3], fill: u8, words_flag: u8, block_flag: u8) -> Vec<u8> {
    let mut v = global_input(words, fill);
    v.push(words_flag);
    v.push(block_flag);
    v
}

fn fields(g: &GlobalState) -> (u64, u64, u64, u64, Vec<u8>) {
    (g.magic, g.data_1, g.data_2, g.data_3, g.remaining_data.to_vec())
}

#[test]
fn update_with_both_flags_is_a_fresh_creation() {
    let mut g = create_global(&global_input([1, 2, 3], 1)).unwrap();
    let data = update_data([7, 8, 9], 4, 1, 1);
    update_global(&mut g, &data);
    let created = create_global(&data).unwrap();
    assert_eq!(fields(&g), fields(&created));
}

#[test]
fn update_with_no_flag_changes_nothing() {
    let mut g = create_global(&global_input([1, 2, 3], 1)).unwrap();
    let before = fields(&g);
    update_global(&mut g, &update_data([7, 8, 9], 4, 0, 0));
    assert_eq!(fields(&g), before);
}

#[test]
fn update_of_the_words_alone_keeps_the_block() {
    let mut g = create_global(&global_input([1, 2, 3], 1)).unwrap();
    update_global(&mut g, &update_data([7, 8, 9], 4, 1, 0));
    assert_eq!((g.data_1, g.data_2, g.data_3), (7, 8, 9));
    assert_eq!(g.remaining_data, [1u8; 160]);
    let mut h = create_global(&global_input([1, 2, 3], 1)).unwrap();
    update_global(&mut h, &update_data([7, 8, 9], 4, 0, 2));
    assert_eq!((h.data_1, h.data_2, h.data_3), (1, 2, 3));
    assert_eq!(h.remaining_data, [4u8; 160]);
}

#[test]
fn settings_and_authority_start_initialized() {
    let s = create_global_settings([3u8; 32]);
    assert_eq!(s.magic_number, GLOBAL_MAGIC);
    assert_eq!(s.admin, [3u8; 32]);
    assert!(s.initialized);
    assert_eq!((s.tipper_fee, s.fee_numerator, s.fee_denominator), (0, 1, 1000));
    let a = create_auth(254, [9u8; 32]);
    assert_eq!(a.seed, 254);
    assert_eq!(a.authority, [9u8; 32]);
    assert!(a.initialized);
    assert_eq!(a.signature, 0xbdf49c3c3882102f);
}

#[test]
fn pool_and_swap_accounts_are_marked() {
    let mut p = PoolState { dex_type: 5, initialized: false };
    assert!(prepare(&p));
    fast_path_create_raydium_v4(&mut p);
    assert_eq!(p, PoolState { dex_type: 0, initialized: true });
    assert!(!prepare(&p));
    let mut s = SwapAccount { initialized: false, swap_type: 0, dex_type: 0 };
    fast_path_create_pump_fun_auto_swap_in(&mut s);
    assert_eq!(s, SwapAccount { initialized: true, swap_type: 2, dex_type: 1 });
}
