//! Recognising the DEX of a swap from its program id and reading the pool into the
//! program's swap record.
use vstd::prelude::*;
use crate::bytes::{le_u64, read_u64_le};

verus! {

/// The three words of the Raydium V4 program id.
pub const RAYDIUM_V4_ID1: u64 = 0xaa5b17bf6815db44;
pub const RAYDIUM_V4_ID2: u64 = 0x3bffd2f597cb8951;
pub const RAYDIUM_V4_ID3: u64 = 0xb0186dfdb62b5d65;
/// The first word of the Raydium CP program id.
pub const RAYDIUM_CP_ID1: u64 = 0x5259294f8b5a2aa9;
/// The first word of the Pump.fun program id.
pub const PUMP_FUN_ID1: u64 = 0xcf5a6693f6e05601;

/// The swap-record kind of Raydium V4.
pub const KIND_RAYDIUM_V4: u8 = 17;
/// The swap-record kind of Raydium CP.
pub const KIND_RAYDIUM_CP: u8 = 13;
/// The swap-record kind of Pump.fun.
pub const KIND_PUMP_FUN: u8 = 12;

/// The program's record of a swap.
pub struct SwapData {
    pub dex_type: u8,
    pub is_reverse: bool,
    pub reserve_a: u64,
    pub reserve_b: u64,
    pub token_a_address: [u8; 32],
    pub token_b_address: [u8; 32],
    pub fee_numerator: u64,
    pub fee_denominator: u64,
    pub data: Vec<u8>,
}

/// The swap-record kind of the program whose id starts `source`, if it is a known DEX: Raydium
/// V4 by its three words, Raydium CP and Pump.fun by their first word.
pub open spec fn dex_kind(source: Seq<u8>) -> Option<u8> {
    if source.len() < 24 {
        None
    } else if le_u64(source, 0) == RAYDIUM_V4_ID1 && le_u64(source, 8) == RAYDIUM_V4_ID2
        && le_u64(source, 16) == RAYDIUM_V4_ID3 {
        Some(KIND_RAYDIUM_V4)
    } else if le_u64(source, 0) == RAYDIUM_CP_ID1 {
        Some(KIND_RAYDIUM_CP)
    } else if le_u64(source, 0) == PUMP_FUN_ID1 {
        Some(KIND_PUMP_FUN)
    } else {
        None
    }
}

/// A program id is taken for Raydium V4 exactly where its three words are Raydium V4's: the
/// shorter checks for Raydium CP and Pump.fun never claim it.
pub proof fn lemma_raydium_v4_recognised(source: Seq<u8>)
    ensures
        dex_kind(source) == Some(KIND_RAYDIUM_V4) <==> (source.len() >= 24 && le_u64(source, 0)
            == RAYDIUM_V4_ID1 && le_u64(source, 8) == RAYDIUM_V4_ID2 && le_u64(source, 16)
            == RAYDIUM_V4_ID3),
{
}

/// Whether `after` is the record `before` filled from a pool of kind `kind` with reserves
/// `(a, b)` and account data `dex`: forward direction, the reserves, for Raydium V4 the token
/// addresses at 0 and 32 and the fee fraction at 64 and 72 (each where the data reaches it),
/// and the data copied into the record's buffer as far as both reach.
#[verifier::opaque]
pub open spec fn filled(before: SwapData, after: SwapData, kind: u8, a: u64, b: u64, dex: Seq<u8>) -> bool {
    let v4 = kind == KIND_RAYDIUM_V4;
    let n = if dex.len() < before.data@.len() { dex.len() as int } else { before.data@.len() as int };
    &&& after.dex_type == kind
    &&& after.is_reverse == false
    &&& after.reserve_a == a
    &&& after.reserve_b == b
    &&& after.token_a_address@ == if v4 && dex.len() >= 32 {
        dex.subrange(0, 32)
    } else {
        before.token_a_address@
    }
    &&& after.token_b_address@ == if v4 && dex.len() >= 64 {
        dex.subrange(32, 64)
    } else {
        before.token_b_address@
    }
    &&& after.fee_numerator == if v4 && dex.len() >= 72 {
        le_u64(dex, 64) as u64
    } else {
        before.fee_numerator
    }
    &&& after.fee_denominator == if v4 && dex.len() >= 80 {
        le_u64(dex, 72) as u64
    } else {
        before.fee_denominator
    }
    &&& after.data@ == dex.subrange(0, n) + before.data@.subrange(n, before.data@.len() as int)
}

/// Whether `after` is `before` with only its kind set to `kind`.
pub open spec fn only_kind_set(before: SwapData, after: SwapData, kind: u8) -> bool {
    &&& after.dex_type == kind
    &&& after.is_reverse == before.is_reverse
    &&& after.reserve_a == before.reserve_a
    &&& after.reserve_b == before.reserve_b
    &&& after.token_a_address == before.token_a_address
    &&& after.token_b_address == before.token_b_address
    &&& after.fee_numerator == before.fee_numerator
    &&& after.fee_denominator == before.fee_denominator
    &&& after.data@ == before.data@
}

/// Whether `after` is `before` unchanged.
pub open spec fn unchanged(before: SwapData, after: SwapData) -> bool {
    only_kind_set(before, after, before.dex_type)
}

fn copy_address(dex_data: &[u8], at: usize) -> (r: [u8; 32])
    requires
        at + 32 <= dex_data@.len(),
    ensures
        r@ == dex_data@.subrange(at as int, at + 32),
{
    let len = dex_data.len();
    let mut out = [0u8; 32];
    let mut i: usize = 0;
    while i < 32
        invariant
            len == dex_data@.len(),
            at + 32 <= dex_data@.len(),
            0 <= i <= 32,
            forall|j: int| 0 <= j < i ==> out@[j] == dex_data@[at + j],
        decreases 32 - i,
    {
        out[i] = dex_data[at + i];
        i = i + 1;
    }
    assert(out@ =~= dex_data@.subrange(at as int, at + 32));
    out
}

/// Fills the record from a pool of kind `kind` (see `filled`).
fn fill_swap_data(output: &mut SwapData, kind: u8, reserve_a: u64, reserve_b: u64, dex_data: &[u8])
    ensures
        filled(*old(output), *final(output), kind, reserve_a, reserve_b, dex_data@),
{
    reveal(filled);
    output.dex_type = kind;
    output.is_reverse = false;
    output.reserve_a = reserve_a;
    output.reserve_b = reserve_b;
    if kind == KIND_RAYDIUM_V4 {
        if dex_data.len() >= 32 {
            output.token_a_address = copy_address(dex_data, 0);
        }
        if dex_data.len() >= 64 {
            output.token_b_address = copy_address(dex_data, 32);
        }
        if dex_data.len() >= 72 {
            output.fee_numerator = read_u64_le(dex_data, 64);
        }
        if dex_data.len() >= 80 {
            output.fee_denominator = read_u64_le(dex_data, 72);
        }
    }
    let copy_len = if dex_data.len() < output.data.len() {
        dex_data.len()
    } else {
        output.data.len()
    };
    let ghost buffer = output.data@;
    let ghost pre = *output;
    let mut i: usize = 0;
    while i < copy_len
        invariant
            output.dex_type == pre.dex_type,
            output.is_reverse == pre.is_reverse,
            output.reserve_a == pre.reserve_a,
            output.reserve_b == pre.reserve_b,
            output.token_a_address == pre.token_a_address,
            output.token_b_address == pre.token_b_address,
            output.fee_numerator == pre.fee_numerator,
            output.fee_denominator == pre.fee_denominator,
            copy_len <= dex_data@.len(),
            copy_len <= buffer.len(),
            output.data@.len() == buffer.len(),
            0 <= i <= copy_len,
            forall|j: int|
                0 <= j < buffer.len() ==> #[trigger] output.data@[j] == if j < i {
                    dex_data@[j]
                } else {
                    buffer[j]
                },
        decreases copy_len - i,
    {
        output.data.set(i, dex_data[i]);
        i = i + 1;
    }
    assert(output.data@ =~= dex_data@.subrange(0, copy_len as int) + buffer.subrange(
        copy_len as int,
        buffer.len() as int,
    ));
}

/// The swap-record kind of the DEX whose program id starts `source_data` (see `dex_kind`).
pub fn recognise_dex(source_data: &[u8]) -> (r: Option<u8>)
    ensures
        r == dex_kind(source_data@),
{
    if source_data.len() < 24 {
        return None;
    }
    let first_id = read_u64_le(source_data, 0);
    let second_id = read_u64_le(source_data, 8);
    let third_id = read_u64_le(source_data, 16);
    if first_id == RAYDIUM_V4_ID1 && second_id == RAYDIUM_V4_ID2 && third_id == RAYDIUM_V4_ID3 {
        Some(KIND_RAYDIUM_V4)
    } else if first_id == RAYDIUM_CP_ID1 {
        Some(KIND_RAYDIUM_CP)
    } else if first_id == PUMP_FUN_ID1 {
        Some(KIND_PUMP_FUN)
    } else {
        None
    }
}

/// The outcome of reading a pool of kind `kind` whose parser answered `parsed`: a parser error
/// is passed on and the record only takes the kind; where no reserves were read the record only
/// takes the kind and the result is `false`; otherwise the record is filled from the pool and the
/// result is `true`.
pub open spec fn read_outcome<E>(
    before: SwapData,
    after: SwapData,
    r: Result<bool, E>,
    kind: u8,
    parsed: Result<Option<(u64, u64)>, E>,
    dex: Seq<u8>,
) -> bool {
    match parsed {
        Err(e) => r == Err::<bool, E>(e) && only_kind_set(before, after, kind),
        Ok(None) => r == Ok::<bool, E>(false) && only_kind_set(before, after, kind),
        Ok(Some((a, b))) => r == Ok::<bool, E>(true) && filled(before, after, kind, a, b, dex),
    }
}

fn read_pool<E, F: Fn(u8, &[u8]) -> Result<Option<(u64, u64)>, E>>(
    kind: u8,
    dex_data: &[u8],
    output: &mut SwapData,
    parse_liquidity: &F,
) -> (r: Result<bool, E>)
    requires
        forall|k: u8, d: &[u8]| parse_liquidity.requires((k, d)),
    ensures
        exists|p: Result<Option<(u64, u64)>, E>|
            #[trigger] parse_liquidity.ensures((kind, dex_data), p) && read_outcome(
                *old(output),
                *final(output),
                r,
                kind,
                p,
                dex_data@,
            ),
{
    reveal(filled);
    let ghost before = *output;
    output.dex_type = kind;
    let parsed = parse_liquidity(kind, dex_data);
    assert(parse_liquidity.ensures((kind, dex_data), parsed));
    match parsed {
        Err(e) => {
            assert(read_outcome(before, *output, Err::<bool, E>(e), kind, Err::<Option<(u64, u64)>, E>(e), dex_data@));
            Err(e)
        },
        Ok(None) => {
            assert(read_outcome(before, *output, Ok::<bool, E>(false), kind, Ok::<Option<(u64, u64)>, E>(None), dex_data@));
            Ok(false)
        },
        Ok(Some((reserve_a, reserve_b))) => {
            fill_swap_data(output, kind, reserve_a, reserve_b, dex_data);
            Ok(true)
        },
    }
}

/// Reads the pool of a swap into the record, the DEX recognised from the program id in
/// `source_data` (see `dex_kind`). An unknown program, or a source shorter than 24 bytes,
/// leaves the record alone and gives `false`. For a known DEX the record takes its kind, and
/// `parse_liquidity`, asked with the kind and the pool data `dex_data`, reads the pool's
/// reserves: its error is passed on, and where it reads none the result is `false`; in both
/// cases nothing else changes. Otherwise the record is filled from the pool (see `filled`) and
/// the result is `true`.
pub fn deserialize_swap<E, F: Fn(u8, &[u8]) -> Result<Option<(u64, u64)>, E>>(
    source_data: &[u8],
    dex_data: &[u8],
    output: &mut SwapData,
    parse_liquidity: &F,
) -> (r: Result<bool, E>)
    requires
        forall|k: u8, d: &[u8]| parse_liquidity.requires((k, d)),
    ensures
        dex_kind(source_data@) is None ==> r == Ok::<bool, E>(false) && unchanged(*old(output), *final(output)),
        dex_kind(source_data@) matches Some(k) ==> exists|p: Result<Option<(u64, u64)>, E>|
            #[trigger] parse_liquidity.ensures((k, dex_data), p) && read_outcome(
                *old(output),
                *final(output),
                r,
                k,
                p,
                dex_data@,
            ),
{
    match recognise_dex(source_data) {
        None => Ok(false),
        Some(kind) => read_pool(kind, dex_data, output, parse_liquidity),
    }
}

/// Reads a Raydium V4 pool into the record; as `deserialize_swap` does where the program id is
/// Raydium V4's, and otherwise it leaves the record alone and gives `false`.
pub fn deserialize_swap_v4<E, F: Fn(u8, &[u8]) -> Result<Option<(u64, u64)>, E>>(
    source_data: &[u8],
    raydium_data: &[u8],
    output: &mut SwapData,
    parse_liquidity: &F,
) -> (r: Result<bool, E>)
    requires
        forall|k: u8, d: &[u8]| parse_liquidity.requires((k, d)),
    ensures
        dex_kind(source_data@) != Some(KIND_RAYDIUM_V4) ==> r == Ok::<bool, E>(false) && unchanged(
            *old(output),
            *final(output),
        ),
        dex_kind(source_data@) == Some(KIND_RAYDIUM_V4) ==> exists|p: Result<Option<(u64, u64)>, E>|
            #[trigger] parse_liquidity.ensures((KIND_RAYDIUM_V4, raydium_data), p) && read_outcome(
                *old(output),
                *final(output),
                r,
                KIND_RAYDIUM_V4,
                p,
                raydium_data@,
            ),
{
    if source_data.len() < 24 {
        return Ok(false);
    }
    let first_id = read_u64_le(source_data, 0);
    let second_id = read_u64_le(source_data, 8);
    let third_id = read_u64_le(source_data, 16);
    if first_id != RAYDIUM_V4_ID1 || second_id != RAYDIUM_V4_ID2 {
        return Ok(false);
    }
    if third_id != RAYDIUM_V4_ID3 {
        return Ok(false);
    }
    read_pool(KIND_RAYDIUM_V4, raydium_data, output, parse_liquidity)
}

} // verus!
