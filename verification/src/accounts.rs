//! The program's own account records and how instructions create and update them.
use vstd::prelude::*;
use crate::bytes::{le_u64, read_u64_le};
use crate::error::ErrorCode;

verus! {

/// The magic number that marks the global state.
pub const GLOBAL_MAGIC: u64 = 0x8001c27439650c5c;

/// The length of the opaque configuration block of the global state.
pub const GLOBAL_BLOCK_LEN: usize = 160;

/// The least length of the data that creates the global state: three words and the block.
pub const GLOBAL_INPUT_LEN: usize = 184;

/// The global state: its magic number, three configuration words and a configuration block.
#[derive(Clone, Copy)]
pub struct GlobalState {
    pub magic: u64,
    pub data_1: u64,
    pub data_2: u64,
    pub data_3: u64,
    pub remaining_data: [u8; 160],
}

/// The global state described by `input`: the words at offsets 0, 8 and 16 and the 160
/// bytes from offset 24.
pub open spec fn global_from(input: Seq<u8>) -> (u64, u64, u64, Seq<u8>) {
    (
        le_u64(input, 0) as u64,
        le_u64(input, 8) as u64,
        le_u64(input, 16) as u64,
        input.subrange(24, 184),
    )
}

/// Creates the global state from `input_data`; `InvalidDataLength` where the data is shorter
/// than 184 bytes.
pub fn create_global(input_data: &[u8]) -> (r: Result<GlobalState, ErrorCode>)
    ensures
        input_data@.len() < GLOBAL_INPUT_LEN ==> r == Err::<GlobalState, ErrorCode>(
            ErrorCode::InvalidDataLength,
        ),
        input_data@.len() >= GLOBAL_INPUT_LEN ==> (r matches Ok(s) && s.magic == GLOBAL_MAGIC
            && (s.data_1, s.data_2, s.data_3, s.remaining_data@) == global_from(input_data@)),
{
    if input_data.len() < GLOBAL_INPUT_LEN {
        return Err(ErrorCode::InvalidDataLength);
    }
    let mut remaining_data = [0u8; 160];
    let mut i: usize = 0;
    while i < GLOBAL_BLOCK_LEN
        invariant
            input_data@.len() >= GLOBAL_INPUT_LEN,
            0 <= i <= GLOBAL_BLOCK_LEN,
            forall|j: int| 0 <= j < i ==> remaining_data@[j] == input_data@[24 + j],
        decreases GLOBAL_BLOCK_LEN - i,
    {
        remaining_data[i] = input_data[24 + i];
        i = i + 1;
    }
    assert(remaining_data@ =~= input_data@.subrange(24, 184));
    Ok(
        GlobalState {
            magic: GLOBAL_MAGIC,
            data_1: read_u64_le(input_data, 0),
            data_2: read_u64_le(input_data, 8),
            data_3: read_u64_le(input_data, 16),
            remaining_data,
        },
    )
}

/// The offset of the flag that asks an update to replace the three words.
pub const UPDATE_WORDS_FLAG: usize = 0xb8;

/// The offset of the flag that asks an update to replace the configuration block.
pub const UPDATE_BLOCK_FLAG: usize = 0xb9;

/// Updates the global state from `global_data`, laid out as for creation and followed by two
/// flags: a non-zero byte at offset 184 replaces the three words, a non-zero byte at offset 185
/// replaces the block; what no flag asks for is left alone.
pub fn update_global(global_state: &mut GlobalState, global_data: &[u8])
    requires
        global_data@.len() > UPDATE_BLOCK_FLAG,
    ensures
        final(global_state).magic == old(global_state).magic,
        global_data@[UPDATE_WORDS_FLAG as int] != 0 ==> (final(global_state).data_1,
        final(global_state).data_2, final(global_state).data_3) == (
            global_from(global_data@).0,
            global_from(global_data@).1,
            global_from(global_data@).2,
        ),
        global_data@[UPDATE_WORDS_FLAG as int] == 0 ==> (final(global_state).data_1,
        final(global_state).data_2, final(global_state).data_3) == (
            old(global_state).data_1,
            old(global_state).data_2,
            old(global_state).data_3,
        ),
        global_data@[UPDATE_BLOCK_FLAG as int] != 0 ==> final(global_state).remaining_data@
            == global_from(global_data@).3,
        global_data@[UPDATE_BLOCK_FLAG as int] == 0 ==> final(global_state).remaining_data@
            == old(global_state).remaining_data@,
{
    let update_first_part = global_data[UPDATE_WORDS_FLAG] != 0;
    if update_first_part {
        global_state.data_1 = read_u64_le(global_data, 0);
        global_state.data_2 = read_u64_le(global_data, 8);
        global_state.data_3 = read_u64_le(global_data, 16);
    }
    let update_second_part = global_data[UPDATE_BLOCK_FLAG] != 0;
    if update_second_part {
        let ghost before = *global_state;
        let mut i: usize = 0;
        while i < GLOBAL_BLOCK_LEN
            invariant
                global_data@.len() > UPDATE_BLOCK_FLAG,
                0 <= i <= GLOBAL_BLOCK_LEN,
                forall|j: int| 0 <= j < i ==> global_state.remaining_data@[j] == global_data@[24 + j],
                global_state.magic == before.magic,
                global_state.data_1 == before.data_1,
                global_state.data_2 == before.data_2,
                global_state.data_3 == before.data_3,
            decreases GLOBAL_BLOCK_LEN - i,
        {
            global_state.remaining_data[i] = global_data[24 + i];
            i = i + 1;
        }
        assert(global_state.remaining_data@ =~= global_data@.subrange(24, 184));
    }
}

/// An update that asks for both parts rewrites the global state to what creating it from the
/// same data gives; one that asks for neither leaves it as it was.
pub proof fn lemma_update_global_rewrites(
    before: GlobalState,
    after: GlobalState,
    created: GlobalState,
    data: Seq<u8>,
)
    requires
        data.len() > UPDATE_BLOCK_FLAG,
        before.magic == GLOBAL_MAGIC,
        after.magic == before.magic,
        data[UPDATE_WORDS_FLAG as int] != 0 ==> (after.data_1, after.data_2, after.data_3) == (
            global_from(data).0,
            global_from(data).1,
            global_from(data).2,
        ),
        data[UPDATE_WORDS_FLAG as int] == 0 ==> (after.data_1, after.data_2, after.data_3) == (
            before.data_1,
            before.data_2,
            before.data_3,
        ),
        data[UPDATE_BLOCK_FLAG as int] != 0 ==> after.remaining_data@ == global_from(data).3,
        data[UPDATE_BLOCK_FLAG as int] == 0 ==> after.remaining_data@ == before.remaining_data@,
        created.magic == GLOBAL_MAGIC,
        (created.data_1, created.data_2, created.data_3, created.remaining_data@) == global_from(
            data,
        ),
    ensures
        data[UPDATE_WORDS_FLAG as int] != 0 && data[UPDATE_BLOCK_FLAG as int] != 0 ==> after
            == created,
        data[UPDATE_WORDS_FLAG as int] == 0 && data[UPDATE_BLOCK_FLAG as int] == 0 ==> after
            == before,
{
    if data[UPDATE_WORDS_FLAG as int] != 0 && data[UPDATE_BLOCK_FLAG as int] != 0 {
        assert(after.remaining_data =~= created.remaining_data);
    }
    if data[UPDATE_WORDS_FLAG as int] == 0 && data[UPDATE_BLOCK_FLAG as int] == 0 {
        assert(after.remaining_data =~= before.remaining_data);
    }
}

/// The global settings kept by the administrator's variant of the global state.
#[derive(Clone, Copy, Debug)]
pub struct GlobalSettings {
    pub magic_number: u64,
    pub admin: [u8; 32],
    pub initialized: bool,
    pub tipper_fee: u64,
    pub fee_numerator: u64,
    pub fee_denominator: u64,
}

/// New global settings for `admin`: no tipper fee and a fee of one part in a thousand.
pub fn create_global_settings(admin: [u8; 32]) -> (r: GlobalSettings)
    ensures
        r == (GlobalSettings {
            magic_number: GLOBAL_MAGIC,
            admin,
            initialized: true,
            tipper_fee: 0,
            fee_numerator: 1,
            fee_denominator: 1000,
        }),
{
    GlobalSettings {
        magic_number: GLOBAL_MAGIC,
        admin,
        initialized: true,
        tipper_fee: 0,
        fee_numerator: 1,
        fee_denominator: 1000,
    }
}

/// The signature that marks an authority account.
pub const AUTH_SIGNATURE: u64 = 0xbdf49c3c3882102f;

/// An authority account.
#[derive(Clone, Copy, Debug)]
pub struct AuthAccount {
    pub seed: u8,
    pub authority: [u8; 32],
    pub initialized: bool,
    pub signature: u64,
}

/// A new authority account for `authority`, derived with `seed`.
pub fn create_auth(seed: u8, authority: [u8; 32]) -> (r: AuthAccount)
    ensures
        r == (AuthAccount { seed, authority, initialized: true, signature: AUTH_SIGNATURE }),
{
    AuthAccount { seed, authority, initialized: true, signature: AUTH_SIGNATURE }
}

/// The state of a pool account of the program.
#[derive(Clone, Copy, Debug, PartialEq, Eq, Structural)]
pub struct PoolState {
    pub dex_type: u8,
    pub initialized: bool,
}

/// Marks a pool account as an initialized Raydium pool.
pub fn fast_path_create_raydium_v4(pool_state: &mut PoolState)
    ensures
        *final(pool_state) == (PoolState { dex_type: 0, initialized: true }),
{
    pool_state.dex_type = 0;
    pool_state.initialized = true;
}

/// Whether a pool still needs its token accounts and token data to be created.
pub fn prepare(pool_state: &PoolState) -> (r: bool)
    ensures
        r == !pool_state.initialized,
{
    !pool_state.initialized
}

/// The state of a swap account of the program.
#[derive(Clone, Copy, Debug, PartialEq, Eq, Structural)]
pub struct SwapAccount {
    pub initialized: bool,
    pub swap_type: u8,
    pub dex_type: u8,
}

/// The swap kind of a Pump.fun automatic buy.
pub const PUMP_FUN_AUTO_SWAP_IN: u8 = 2;

/// Marks a swap account as an initialized Pump.fun automatic buy.
pub fn fast_path_create_pump_fun_auto_swap_in(swap_account: &mut SwapAccount)
    ensures
        *final(swap_account) == (SwapAccount {
            initialized: true,
            swap_type: PUMP_FUN_AUTO_SWAP_IN,
            dex_type: 1,
        }),
{
    swap_account.initialized = true;
    swap_account.swap_type = PUMP_FUN_AUTO_SWAP_IN;
    swap_account.dex_type = 1;
}

} // verus!
