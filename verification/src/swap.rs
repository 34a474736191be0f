//! Swap instructions: recognising a swap request, building the data of the swap that is
//! invoked, and the limits around an automatic swap.
use vstd::prelude::*;
use crate::bytes::{le_u64, read_u64_le, u64_le_bytes, u64_to_le_bytes};
use crate::error::{ProgramFailure, SwapError};
use crate::market::{pump_fun_get_quote, pump_fun_quote, pump_fun_quote_fits};

verus! {

/// Kind of a direct swap request.
pub const DIRECT_SWAP_ID: u64 = 0xcf5a6693f6e05601;
/// Kind of a routed swap request.
pub const ROUTE_SWAP_ID: u64 = 0x5259294f8b5a2aa9;
/// Kind of a pool swap request.
pub const POOL_SWAP_ID: u64 = 0x3fc30236c449d94b;
/// Second to fourth words of a pool swap request.
pub const POOL_SWAP_ID2: u64 = 0x4c52a316ed907720;
pub const POOL_SWAP_ID3: u64 = 0xa9a221f15c97b9a1;
pub const POOL_SWAP_ID4: u64 = 0xcd8ab6f87decff0c;
/// Second to fourth words of a routed swap request.
pub const ROUTE_SWAP_ID2: u64 = 0x955bfd93aa502584;
pub const ROUTE_SWAP_ID3: u64 = 0x930c92eba8e6acb5;
pub const ROUTE_SWAP_ID4: u64 = 0x73ec200c69432e94;
/// Second to fourth words of a direct swap request.
pub const DIRECT_SWAP_ID2: u64 = 0xaa5b17bf6815db44;
pub const DIRECT_SWAP_ID3: u64 = 0x3bffd2f597cb8951;
pub const DIRECT_SWAP_ID4: u64 = 0xb0186dfdb62b5d65;
/// Instruction tags of the invoked swaps.
pub const ROUTE_SWAP_DATA_ID: u64 = 0xde331ec4da5abe8f;
pub const DIRECT_SWAP_DATA_ID1: u64 = 0xad837f01a485e633;
pub const DIRECT_SWAP_DATA_ID2: u64 = 0xeaebda01123d0666;

/// The word at `offset` of a request, or zero where the request ends before it.
pub open spec fn id_at(data: Seq<u8>, offset: int) -> int {
    if data.len() >= offset + 8 {
        le_u64(data, offset)
    } else {
        0
    }
}

/// The word at `offset` of a request, or zero where the request ends before it.
pub fn get_id_at_offset(data: &[u8], offset: usize) -> (r: u64)
    requires
        offset + 8 <= usize::MAX,
    ensures
        r == id_at(data@, offset as int),
{
    if data.len() >= offset + 8 {
        read_u64_le(data, offset)
    } else {
        0
    }
}

/// The data of an invoked swap: the tag, then up to `data_len` bytes of `instruction_data`,
/// then zeros up to `8 + data_len` bytes.
pub open spec fn swap_payload(data_id: u64, data_len: int, instruction_data: Seq<u8>) -> Seq<u8> {
    let n = if data_len < instruction_data.len() { data_len } else { instruction_data.len() as int };
    u64_le_bytes(data_id) + instruction_data.take(n) + Seq::new((data_len - n) as nat, |i: int| 0u8)
}

/// Builds the data of an invoked swap (see `swap_payload`).
pub fn build_swap_instruction(data_id: u64, data_len: usize, instruction_data: &[u8]) -> (r: Vec<u8>)
    requires
        data_len + 8 <= usize::MAX,
    ensures
        r@ == swap_payload(data_id, data_len as int, instruction_data@),
        r@.len() == 8 + data_len,
{
    let mut data: Vec<u8> = Vec::new();
    let tag = u64_to_le_bytes(data_id);
    let mut i: usize = 0;
    while i < 8
        invariant
            0 <= i <= 8,
            data@ =~= tag@.take(i as int),
        decreases 8 - i,
    {
        data.push(tag[i]);
        i = i + 1;
    }
    let n = if data_len < instruction_data.len() {
        data_len
    } else {
        instruction_data.len()
    };
    let mut j: usize = 0;
    while j < n
        invariant
            n <= data_len,
            n <= instruction_data@.len(),
            0 <= j <= n,
            data@ =~= tag@ + instruction_data@.take(j as int),
        decreases n - j,
    {
        data.push(instruction_data[j]);
        j = j + 1;
    }
    while data.len() < 8 + data_len
        invariant
            n <= data_len,
            data_len + 8 <= usize::MAX,
            8 + n <= data@.len() <= 8 + data_len,
            data@ =~= tag@ + instruction_data@.take(n as int) + Seq::new(
                (data@.len() - 8 - n) as nat,
                |i: int| 0u8,
            ),
        decreases 8 + data_len - data@.len(),
    {
        data.push(0);
    }
    data
}

/// The data of an invoked swap reads back as it was built: `8 + data_len` bytes, the tag in the
/// first eight, then the arguments as far as they reach, then zeros.
pub proof fn lemma_swap_payload_reads_back(data_id: u64, data_len: int, instruction_data: Seq<u8>)
    requires
        data_len >= 0,
    ensures
        swap_payload(data_id, data_len, instruction_data).len() == 8 + data_len,
        le_u64(swap_payload(data_id, data_len, instruction_data), 0) == data_id,
        forall|i: int|
            0 <= i < data_len ==> #[trigger] swap_payload(data_id, data_len, instruction_data)[8 + i]
                == if i < instruction_data.len() {
                instruction_data[i]
            } else {
                0u8
            },
{
    let p = swap_payload(data_id, data_len, instruction_data);
    let tag = u64_le_bytes(data_id);
    crate::bytes::lemma_u64_le_roundtrip(data_id);
    assert(p.subrange(0, 8) =~= tag.subrange(0, 8));
    crate::bytes::lemma_le_u64_window(p, 0, tag, 0);
}

/// The data of the swap that a request asks for, or `InvalidInstructionData`: a direct request
/// (its four words checked) invokes the second direct tag where byte 31 is zero and the first
/// otherwise, with 24 bytes of arguments; a routed request invokes the routed tag with 24 bytes;
/// a pool request invokes tag 9 with 17 bytes; the arguments are taken from byte 32 on.
pub open spec fn execute_swap_data(data: Seq<u8>) -> Result<Seq<u8>, ProgramFailure> {
    if data.len() < 8 {
        Err(ProgramFailure::InvalidInstructionData)
    } else {
        let kind = le_u64(data, 0);
        if kind == DIRECT_SWAP_ID {
            if data.len() < 16 || le_u64(data, 8) != DIRECT_SWAP_ID2 || id_at(data, 16)
                != DIRECT_SWAP_ID3 || id_at(data, 24) != DIRECT_SWAP_ID4 {
                Err(ProgramFailure::InvalidInstructionData)
            } else {
                let tag = if data[31] == 0 { DIRECT_SWAP_DATA_ID2 } else { DIRECT_SWAP_DATA_ID1 };
                Ok(swap_payload(tag, 24, data.skip(32)))
            }
        } else if kind == ROUTE_SWAP_ID {
            if id_at(data, 8) != ROUTE_SWAP_ID2 || id_at(data, 16) != ROUTE_SWAP_ID3 || id_at(data, 24)
                != ROUTE_SWAP_ID4 {
                Err(ProgramFailure::InvalidInstructionData)
            } else {
                Ok(swap_payload(ROUTE_SWAP_DATA_ID, 24, data.skip(32)))
            }
        } else if kind == POOL_SWAP_ID {
            if id_at(data, 8) != POOL_SWAP_ID2 || id_at(data, 16) != POOL_SWAP_ID3 || id_at(data, 24)
                != POOL_SWAP_ID4 {
                Err(ProgramFailure::InvalidInstructionData)
            } else {
                Ok(swap_payload(9, 17, data.skip(32)))
            }
        } else {
            Err(ProgramFailure::InvalidInstructionData)
        }
    }
}

proof fn lemma_top_byte(s: Seq<u8>, off: int)
    requires
        0 <= off,
        off + 8 <= s.len(),
    ensures
        le_u64(s, off) / 0x100_0000_0000_0000 == s[off + 7],
{
    let lower = s[off] + 0x100 * s[off + 1] + 0x1_0000 * s[off + 2] + 0x100_0000 * s[off + 3]
        + 0x1_0000_0000 * s[off + 4] + 0x100_0000_0000 * s[off + 5] + 0x1_0000_0000_0000 * s[off
        + 6];
    assert(0 <= lower < 0x100_0000_0000_0000);
    assert(le_u64(s, off) == lower + 0x100_0000_0000_0000 * s[off + 7]);
}

/// A direct request that is accepted always invokes the first direct tag: its fourth word
/// fixes byte 31 of the request, and that byte is not zero.
pub proof fn lemma_direct_request_tag(data: Seq<u8>)
    requires
        data.len() >= 8,
        le_u64(data, 0) == DIRECT_SWAP_ID,
        execute_swap_data(data) is Ok,
    ensures
        execute_swap_data(data) == Ok::<Seq<u8>, ProgramFailure>(
            swap_payload(DIRECT_SWAP_DATA_ID1, 24, data.skip(32)),
        ),
{
    assert(data.len() >= 32);
    lemma_top_byte(data, 24);
    assert(DIRECT_SWAP_ID4 / 0x100_0000_0000_0000 == 0xb0);
}

fn arguments_after_header(swap_data: &[u8]) -> (r: Vec<u8>)
    requires
        swap_data@.len() >= 32,
    ensures
        r@ == swap_data@.skip(32),
{
    let mut out: Vec<u8> = Vec::new();
    let mut i: usize = 32;
    while i < swap_data.len()
        invariant
            32 <= i <= swap_data@.len(),
            out@ =~= swap_data@.subrange(32, i as int),
        decreases swap_data@.len() - i,
    {
        out.push(swap_data[i]);
        i = i + 1;
    }
    assert(out@ =~= swap_data@.skip(32));
    out
}

/// The data of the swap that `swap_data` asks for (see `execute_swap_data`); the caller
/// invokes it, signed for the program.
pub fn execute_swap(swap_data: &[u8]) -> (r: Result<Vec<u8>, ProgramFailure>)
    ensures
        match execute_swap_data(swap_data@) {
            Ok(d) => r matches Ok(v) && v@ == d,
            Err(e) => r == Err::<Vec<u8>, ProgramFailure>(e),
        },
{
    if swap_data.len() < 8 {
        return Err(ProgramFailure::InvalidInstructionData);
    }
    let swap_type = read_u64_le(swap_data, 0);
    if swap_type == DIRECT_SWAP_ID {
        if swap_data.len() < 16 {
            return Err(ProgramFailure::InvalidInstructionData);
        }
        let secondary_id = read_u64_le(swap_data, 8);
        if secondary_id != DIRECT_SWAP_ID2 || get_id_at_offset(swap_data, 16) != DIRECT_SWAP_ID3
            || get_id_at_offset(swap_data, 24) != DIRECT_SWAP_ID4 {
            return Err(ProgramFailure::InvalidInstructionData);
        }
        let data_id = if swap_data.len() >= 32 && swap_data[31] == 0 {
            DIRECT_SWAP_DATA_ID2
        } else {
            DIRECT_SWAP_DATA_ID1
        };
        let args = arguments_after_header(swap_data);
        Ok(build_swap_instruction(data_id, 24, &args))
    } else if swap_type == ROUTE_SWAP_ID {
        if get_id_at_offset(swap_data, 8) != ROUTE_SWAP_ID2 || get_id_at_offset(swap_data, 16)
            != ROUTE_SWAP_ID3 || get_id_at_offset(swap_data, 24) != ROUTE_SWAP_ID4 {
            return Err(ProgramFailure::InvalidInstructionData);
        }
        let args = arguments_after_header(swap_data);
        Ok(build_swap_instruction(ROUTE_SWAP_DATA_ID, 24, &args))
    } else if swap_type == POOL_SWAP_ID {
        if get_id_at_offset(swap_data, 8) != POOL_SWAP_ID2 || get_id_at_offset(swap_data, 16)
            != POOL_SWAP_ID3 || get_id_at_offset(swap_data, 24) != POOL_SWAP_ID4 {
            return Err(ProgramFailure::InvalidInstructionData);
        }
        let args = arguments_after_header(swap_data);
        Ok(build_swap_instruction(9, 17, &args))
    } else {
        Err(ProgramFailure::InvalidInstructionData)
    }
}

/// Instruction tag of a Raydium swap.
pub const RAYDIUM_SWAP_TAG: u8 = 9;

/// The instruction tag of a Pump.fun swap.
pub open spec fn pump_fun_swap_tag() -> Seq<u8> {
    seq![0xdeu8, 0x33u8, 0x1eu8, 0xc4u8, 0xdau8, 0x5au8, 0xbeu8, 0x8fu8]
}

/// The instruction tag of an Orca sell.
pub open spec fn orca_sell_tag() -> Seq<u8> {
    seq![0xadu8, 0x83u8, 0x7fu8, 0x01u8, 0xa4u8, 0x85u8, 0xe6u8, 0x33u8]
}

/// The instruction tag of an Orca buy.
pub open spec fn orca_buy_tag() -> Seq<u8> {
    seq![0xeau8, 0xebu8, 0xdau8, 0x01u8, 0x12u8, 0x3du8, 0x06u8, 0x66u8]
}

/// The instruction data and the amount of the swap on the DEX that a program id stands for:
/// Raydium (kind 0) and Pump.fun (kind 1) swap `amount` with their own tags; Orca (kind 2) swaps
/// `amount` with its sell tag in reverse, and the Pump.fun quote for `amount` with its buy tag
/// otherwise; other kinds are refused with `InvalidDexType`.
pub open spec fn swap_instruction_for(key_type: u8, amount: u64, reverse: bool, pool_data: Seq<u8>) -> Result<
    (Seq<u8>, u64),
    SwapError,
> {
    if key_type == 0 {
        Ok((seq![RAYDIUM_SWAP_TAG], amount))
    } else if key_type == 1 {
        Ok((pump_fun_swap_tag(), amount))
    } else if key_type == 2 {
        if reverse {
            Ok((orca_sell_tag(), amount))
        } else {
            Ok((orca_buy_tag(), pump_fun_quote(pool_data, amount) as u64))
        }
    } else {
        Err(SwapError::InvalidDexType)
    }
}

fn tag_vec(tag: [u8; 8]) -> (r: Vec<u8>)
    ensures
        r@ == tag@,
{
    let mut v: Vec<u8> = Vec::new();
    let mut i: usize = 0;
    while i < 8
        invariant
            0 <= i <= 8,
            v@ =~= tag@.take(i as int),
        decreases 8 - i,
    {
        v.push(tag[i]);
        i = i + 1;
    }
    assert(v@ =~= tag@);
    v
}

/// The instruction data and amount of a swap on the DEX that the checked program id stands
/// for (see `swap_instruction_for`); `key_type` is that DEX's kind.
pub fn get_swap_instruction_optimised(key_type: u8, amount: u64, reverse: bool, pool_data: &[u8]) -> (r:
    Result<(Vec<u8>, u64), SwapError>)
    requires
        key_type == 2 && !reverse ==> pool_data@.len() >= 16 && pump_fun_quote_fits(pool_data@, amount),
    ensures
        match swap_instruction_for(key_type, amount, reverse, pool_data@) {
            Ok((d, a)) => r matches Ok((v, b)) && v@ == d && b == a,
            Err(e) => r == Err::<(Vec<u8>, u64), SwapError>(e),
        },
{
    if key_type == 0 {
        let mut ix: Vec<u8> = Vec::new();
        ix.push(RAYDIUM_SWAP_TAG);
        assert(ix@ =~= seq![RAYDIUM_SWAP_TAG]);
        Ok((ix, amount))
    } else if key_type == 1 {
        let tag: [u8; 8] = [0xde, 0x33, 0x1e, 0xc4, 0xda, 0x5a, 0xbe, 0x8f];
        assert(tag@ =~= pump_fun_swap_tag());
        Ok((tag_vec(tag), amount))
    } else if key_type == 2 {
        if reverse {
            let tag: [u8; 8] = [0xad, 0x83, 0x7f, 0x01, 0xa4, 0x85, 0xe6, 0x33];
            assert(tag@ =~= orca_sell_tag());
            Ok((tag_vec(tag), amount))
        } else {
            let quote = pump_fun_get_quote(pool_data, amount, false);
            let tag: [u8; 8] = [0xea, 0xeb, 0xda, 0x01, 0x12, 0x3d, 0x06, 0x66];
            assert(tag@ =~= orca_buy_tag());
            Ok((tag_vec(tag), quote))
        }
    } else {
        Err(SwapError::InvalidDexType)
    }
}

/// The data of an automatic buy.
#[derive(Clone, Copy, Debug, PartialEq, Eq, Structural)]
pub struct AutoSwapInData {
    pub amount: u64,
    pub min_out_amount: u64,
    pub in_amount: u64,
    pub out_amount: u64,
    pub swap_fee: u16,
    pub use_alt_path: bool,
    pub is_inverted: bool,
    pub enable_sandwich: bool,
    pub enable_price_protection: bool,
    pub use_alt_location: bool,
}

/// The cap on the slippage of a sandwich buy.
pub const SANDWICH_SLIPPAGE_CAP: u64 = 50_000_000_000;

/// The slippage allowed to an automatic buy: 80% (by whole hundredths) of the amount, capped at
/// 50 000 000 000, for a sandwich; 95% otherwise.
pub open spec fn auto_swap_in_slippage(data: AutoSwapInData) -> u64 {
    if data.enable_sandwich {
        let share = data.amount / 100 * 80;
        if share > SANDWICH_SLIPPAGE_CAP { SANDWICH_SLIPPAGE_CAP } else { share as u64 }
    } else {
        (data.amount / 100 * 95) as u64
    }
}

/// An automatic buy is never allowed more slippage than its amount, and a sandwich buy never
/// more than the cap.
pub proof fn lemma_auto_swap_in_slippage_bounded(data: AutoSwapInData)
    ensures
        auto_swap_in_slippage(data) <= data.amount,
        data.enable_sandwich ==> auto_swap_in_slippage(data) <= SANDWICH_SLIPPAGE_CAP,
{
    assert(data.amount / 100 * 95 <= data.amount);
    assert(data.amount / 100 * 80 <= data.amount);
}

/// The checks of an automatic buy: its quote must exceed the minimum output
/// (`InsufficientOutAmount`); the result is the slippage it is allowed
/// (see `auto_swap_in_slippage`).
pub fn auto_swap_in(data: AutoSwapInData, quote: u64) -> (r: Result<u64, SwapError>)
    ensures
        quote <= data.min_out_amount ==> r == Err::<u64, SwapError>(SwapError::InsufficientOutAmount),
        quote > data.min_out_amount ==> r == Ok::<u64, SwapError>(auto_swap_in_slippage(data)),
{
    if !(quote > data.min_out_amount) {
        return Err(SwapError::InsufficientOutAmount);
    }
    let max_slippage = if data.enable_sandwich {
        let base_amount: u64 = 0xba43b7400;
        let amount = (data.amount / 100) * 80;
        if amount > base_amount {
            base_amount
        } else {
            amount
        }
    } else {
        (data.amount / 100) * 95
    };
    Ok(max_slippage)
}

/// The data of an automatic sell.
#[derive(Clone, Copy, Debug, PartialEq, Eq, Structural)]
pub struct AutoSwapOutData {
    pub input_amount: u64,
    pub output_amount: u64,
    pub validator_id: u16,
    pub is_inverted: bool,
    pub enable_sandwich: bool,
    pub use_alt_location: bool,
}

/// The validator id that asks for no validator check.
pub const NO_VALIDATOR_ID: u16 = 0xFFFF;

/// The validator check of an automatic sell: a given validator id must be admitted by the
/// tracker (`InvalidValidatorId`).
pub fn auto_swap_out_validator(data: AutoSwapOutData, admitted: bool) -> (r: Result<(), SwapError>)
    ensures
        data.validator_id != NO_VALIDATOR_ID && !admitted ==> r == Err::<(), SwapError>(
            SwapError::InvalidValidatorId,
        ),
        data.validator_id == NO_VALIDATOR_ID || admitted ==> r == Ok::<(), SwapError>(()),
{
    if data.validator_id != NO_VALIDATOR_ID {
        if !admitted {
            return Err(SwapError::InvalidValidatorId);
        }
    }
    Ok(())
}

/// The slippage of an automatic sell: the base price plus the alternative price at the
/// alternative location, the base price less the market price otherwise.
pub open spec fn auto_swap_out_slippage_of(data: AutoSwapOutData, base: u64, alt: u64, market: u64) -> int {
    if data.use_alt_location {
        base + alt
    } else {
        base - market
    }
}

/// Whether the slippage of an automatic sell lies within `u64` (see `auto_swap_out_slippage_of`).
pub fn auto_swap_out_slippage_in_range(data: AutoSwapOutData, base_price: u64, alt_price: u64, market_price: u64) -> (r:
    bool)
    ensures
        r == (0 <= auto_swap_out_slippage_of(data, base_price, alt_price, market_price) <= u64::MAX),
{
    if data.use_alt_location {
        base_price.checked_add(alt_price).is_some()
    } else {
        base_price >= market_price
    }
}

/// The slippage of an automatic sell (see `auto_swap_out_slippage_of`).
pub fn auto_swap_out_slippage(data: AutoSwapOutData, base_price: u64, alt_price: u64, market_price: u64) -> (r:
    u64)
    requires
        0 <= auto_swap_out_slippage_of(data, base_price, alt_price, market_price) <= u64::MAX,
    ensures
        r == auto_swap_out_slippage_of(data, base_price, alt_price, market_price),
{
    if data.use_alt_location {
        base_price + alt_price
    } else {
        base_price - market_price
    }
}

/// The final checks of an automatic sell: its updated input may not exceed the maximum input
/// (`ExceedMaxInput`) and its output must reach the minimum output (`InsufficientOutput`); the
/// result is what is transferred: the output's excess over the minimum.
pub fn auto_swap_out_settle(data: AutoSwapOutData, input_amount: u64, max_input: u64, min_output: u64) -> (r:
    Result<u64, SwapError>)
    ensures
        input_amount > max_input ==> r == Err::<u64, SwapError>(SwapError::ExceedMaxInput),
        input_amount <= max_input && min_output > data.output_amount ==> r == Err::<u64, SwapError>(
            SwapError::InsufficientOutput,
        ),
        input_amount <= max_input && min_output <= data.output_amount ==> r == Ok::<u64, SwapError>(
            (data.output_amount - min_output) as u64,
        ),
{
    if !(input_amount <= max_input) {
        return Err(SwapError::ExceedMaxInput);
    }
    if !(min_output <= data.output_amount) {
        return Err(SwapError::InsufficientOutput);
    }
    Ok(data.output_amount - min_output)
}

/// An automatic sell, decided whole: a given validator id must be admitted by the tracker
/// (`InvalidValidatorId`, and nothing else is done); then its slippage (see
/// `auto_swap_out_slippage_of`); then, once its input has been updated to `input_amount`, the
/// final checks (`ExceedMaxInput` where it exceeds `max_input`, `InsufficientOutput` where the
/// output falls short of `min_output`). The result is the slippage and the amount transferred:
/// the output's excess over the minimum. A failure after the swap undoes it with the transaction.
pub fn auto_swap_out(
    data: AutoSwapOutData,
    admitted: bool,
    base_price: u64,
    alt_price: u64,
    market_price: u64,
    input_amount: u64,
    max_input: u64,
    min_output: u64,
) -> (r: Result<(u64, u64), SwapError>)
    requires
        data.validator_id == NO_VALIDATOR_ID || admitted ==> 0 <= auto_swap_out_slippage_of(
            data,
            base_price,
            alt_price,
            market_price,
        ) <= u64::MAX,
    ensures
        data.validator_id != NO_VALIDATOR_ID && !admitted ==> r == Err::<(u64, u64), SwapError>(
            SwapError::InvalidValidatorId,
        ),
        (data.validator_id == NO_VALIDATOR_ID || admitted) && input_amount > max_input ==> r == Err::<
            (u64, u64),
            SwapError,
        >(SwapError::ExceedMaxInput),
        (data.validator_id == NO_VALIDATOR_ID || admitted) && input_amount <= max_input && min_output
            > data.output_amount ==> r == Err::<(u64, u64), SwapError>(SwapError::InsufficientOutput),
        (data.validator_id == NO_VALIDATOR_ID || admitted) && input_amount <= max_input && min_output
            <= data.output_amount ==> r == Ok::<(u64, u64), SwapError>(
            (
                auto_swap_out_slippage_of(data, base_price, alt_price, market_price) as u64,
                (data.output_amount - min_output) as u64,
            ),
        ),
{
    auto_swap_out_validator(data, admitted)?;
    let slippage = auto_swap_out_slippage(data, base_price, alt_price, market_price);
    let transferred = auto_swap_out_settle(data, input_amount, max_input, min_output)?;
    Ok((slippage, transferred))
}

/// An ordinary automatic buy (no sandwich) is allowed 95% of its amount by whole hundredths,
/// never capped: 95 for every full 100 of the amount, so exactly 95% of an amount divisible by
/// 100. A sandwich buy is allowed 80% by whole hundredths, up to
/// the cap.
pub proof fn lemma_auto_swap_in_slippage_shares(data: AutoSwapInData)
    ensures
        !data.enable_sandwich ==> 100 * auto_swap_in_slippage(data) + 95 * (data.amount % 100) == 95
            * data.amount,
        !data.enable_sandwich && data.amount % 100 == 0 ==> 100 * auto_swap_in_slippage(data) == 95
            * data.amount,
        data.enable_sandwich ==> 100 * auto_swap_in_slippage(data) == if 80 * (data.amount - data.amount
            % 100) > 100 * SANDWICH_SLIPPAGE_CAP {
            100 * SANDWICH_SLIPPAGE_CAP
        } else {
            80 * (data.amount - data.amount % 100)
        },
{
    let a = data.amount as int;
    assert(a == 100 * (a / 100) + a % 100);
}

} // verus!
