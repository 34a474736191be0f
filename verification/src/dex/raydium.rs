//! Raydium fast paths and the layout of a new Raydium pool account.
use vstd::prelude::*;
use crate::amounts::{
    gross_up, gross_up_amount, gross_up_fits, gross_up_in_range, portion, portion_fits,
    portion_in_range, LARGE_PRICE_DIFF, RAYDIUM_FEE_RATE,
};
use crate::bytes::{u32_le_bytes, u32_to_le_bytes, u64_le_bytes, u64_to_le_bytes};
use crate::error::ErrorCode;
use crate::invocation::{invokes, pool_invocation, InvokedAccount, SwapInvocation};

pub use crate::amounts::{apply_slippage, calculate_adjusted_amount};

verus! {

/// The validator id that asks for no validator check.
pub const NO_VALIDATOR: u16 = 65535;

/// Parameters of an automatic Raydium buy.
#[derive(Clone, Copy, Debug, PartialEq, Eq, Structural)]
pub struct FastPathAutoSwapParams {
    pub min_amount_out: u64,
    pub amount_in: u64,
    pub is_source_input: bool,
    pub use_slippage_protection: bool,
    pub slippage_bps: u16,
}

/// Parameters of an automatic Raydium sell.
#[derive(Clone, Copy, Debug, PartialEq, Eq, Structural)]
pub struct FastPathAutoSwapOutParams {
    pub amount_in: u64,
    pub max_slippage: u64,
    pub is_source_input: bool,
    pub validate_transaction: bool,
    pub validator_id: u16,
}

/// Parameters of a new Raydium pool account.
#[derive(Clone, Copy, Debug, PartialEq, Eq, Structural)]
pub struct FastPathCreateRaydiumParams {
    pub pool_id: u32,
    pub config_data: u8,
}

/// The larger of two amounts.
pub open spec fn max_amount(a: int, b: int) -> int {
    if a < b { b } else { a }
}

/// The amount of an automatic buy: the room left under the limit once the price has moved
/// (`PriceOutOfRange` where the move exceeds the limit), grossed
/// up by the fee (`InvalidAmount` where that is zero), cut to the slippage where one is set,
/// and never below 95% (by whole hundredths) of the token account's amount.
pub open spec fn raydium_swap_in_amount(
    params: FastPathAutoSwapParams,
    current_price: u64,
    expected_price: u64,
    time_limit: u64,
    token_account_amount: u64,
) -> Result<u64, ErrorCode> {
    let difference = if expected_price < current_price { 0 } else { expected_price - current_price };
    if difference > time_limit {
        Err(ErrorCode::PriceOutOfRange)
    } else {
        let room = time_limit - difference;
        let large = room > LARGE_PRICE_DIFF;
        let grossed = gross_up(room, RAYDIUM_FEE_RATE as int, large);
        if grossed == 0 {
            Err(ErrorCode::InvalidAmount)
        } else {
            let cut = if params.slippage_bps > 0 {
                portion(grossed, params.slippage_bps as int, large)
            } else {
                grossed
            };
            Ok(max_amount(cut, token_account_amount / 100 * 95) as u64)
        }
    }
}

/// The inputs on which the amount of an automatic buy fits the machine's arithmetic.
pub open spec fn raydium_swap_in_fits(
    params: FastPathAutoSwapParams,
    current_price: u64,
    expected_price: u64,
    time_limit: u64,
) -> bool {
    let difference = if expected_price < current_price { 0 } else { expected_price - current_price };
    difference > time_limit || {
        let room = time_limit - difference;
        let large = room > LARGE_PRICE_DIFF;
        &&& gross_up_fits(room, RAYDIUM_FEE_RATE as int, large)
        &&& params.slippage_bps > 0 ==> portion_fits(
            gross_up(room, RAYDIUM_FEE_RATE as int, large),
            params.slippage_bps as int,
            large,
        )
    }
}

/// Whether the amount of an automatic Raydium buy can be computed within `u64` (see
/// `raydium_swap_in_fits`).
pub fn raydium_swap_in_in_range(
    params: FastPathAutoSwapParams,
    current_price: u64,
    expected_price: u64,
    time_limit: u64,
) -> (r: bool)
    ensures
        r == raydium_swap_in_fits(params, current_price, expected_price, time_limit),
{
    let difference = expected_price.saturating_sub(current_price);
    if difference > time_limit {
        return true;
    }
    let room = time_limit - difference;
    let large = room > LARGE_PRICE_DIFF;
    if !gross_up_in_range(room, RAYDIUM_FEE_RATE, large) {
        return false;
    }
    if params.slippage_bps == 0 {
        return true;
    }
    let grossed = gross_up_amount(room, RAYDIUM_FEE_RATE, large);
    portion_in_range(grossed, params.slippage_bps as u64, large)
}

/// Decides the amount of an automatic Raydium buy from the prices, the limit and the token
/// account's amount read from the accounts (see `raydium_swap_in_amount`). The minimum amount
/// and minimum output read from the accounts take part in a protection step that never changes
/// the amount.
pub fn raydium_swap_in_amount_for(
    params: FastPathAutoSwapParams,
    current_price: u64,
    expected_price: u64,
    time_limit: u64,
    min_amount: u64,
    min_output: u64,
    token_account_amount: u64,
) -> (r: Result<u64, ErrorCode>)
    requires
        raydium_swap_in_fits(params, current_price, expected_price, time_limit),
    ensures
        r == raydium_swap_in_amount(
            params,
            current_price,
            expected_price,
            time_limit,
            token_account_amount,
        ),
{
    let difference = expected_price.saturating_sub(current_price);
    if difference > time_limit {
        return Err(ErrorCode::PriceOutOfRange);
    }
    let mut adjusted_amount = time_limit.saturating_sub(difference);
    let is_large_amount = adjusted_amount > LARGE_PRICE_DIFF;
    adjusted_amount = calculate_adjusted_amount(adjusted_amount, is_large_amount);
    if adjusted_amount == 0 {
        return Err(ErrorCode::InvalidAmount);
    }
    let mut slippage_adjusted_amount = adjusted_amount;
    if params.slippage_bps > 0 {
        slippage_adjusted_amount = apply_slippage(
            adjusted_amount,
            params.slippage_bps,
            is_large_amount,
        );
    }
    if !params.use_slippage_protection {
        let mut additional_amount: u64 = 0;
        if difference > min_amount {
            let diff_adjusted = min_amount.saturating_sub(difference);
            additional_amount = calculate_adjusted_amount(
                diff_adjusted,
                diff_adjusted > LARGE_PRICE_DIFF,
            );
        }
        let mut final_amount = slippage_adjusted_amount;
        if additional_amount > slippage_adjusted_amount {
            let combined = additional_amount + min_output;
            final_amount = combined / 2;
        }
        if min_output > slippage_adjusted_amount {
            slippage_adjusted_amount = final_amount;
        }
    }
    let minimum_out = (token_account_amount / 100) * 95;
    if minimum_out > slippage_adjusted_amount {
        slippage_adjusted_amount = minimum_out;
    }
    Ok(slippage_adjusted_amount)
}

/// The first checks of an automatic Raydium sell: where a validator id is given it must be
/// known to the tracker (`InvalidValidator`), and the quote must beat the expected quote
/// (`InvalidQuote`); the result is the quote's excess over the expected quote.
pub fn raydium_swap_out_check(
    params: FastPathAutoSwapOutParams,
    validator_known: bool,
    quote: u64,
    expected_quote: u64,
) -> (r: Result<u64, ErrorCode>)
    ensures
        params.validator_id != NO_VALIDATOR && !validator_known ==> r == Err::<u64, ErrorCode>(
            ErrorCode::InvalidValidator,
        ),
        (params.validator_id == NO_VALIDATOR || validator_known) && quote <= expected_quote ==> r
            == Err::<u64, ErrorCode>(ErrorCode::InvalidQuote),
        (params.validator_id == NO_VALIDATOR || validator_known) && quote > expected_quote ==> r
            == Ok::<u64, ErrorCode>((quote - expected_quote) as u64),
{
    if params.validator_id != NO_VALIDATOR {
        if !validator_known {
            return Err(ErrorCode::InvalidValidator);
        }
    }
    let quote_diff = quote.saturating_sub(expected_quote);
    if quote_diff <= 0 {
        return Err(ErrorCode::InvalidQuote);
    }
    Ok(quote_diff)
}

/// The settlement of an automatic Raydium sell: nothing where the initial amount already covers
/// the sale's input; otherwise, where the remaining amount exceeds the limit, the current balance
/// less the shortfall (held at zero); nothing else.
pub fn raydium_swap_out_settle(
    params: FastPathAutoSwapOutParams,
    limit_amount: u64,
    remaining_amount: u64,
    initial_amount: u64,
    current_balance: u64,
) -> (r: Option<u64>)
    ensures
        initial_amount >= params.amount_in ==> r == None::<u64>,
        initial_amount < params.amount_in && remaining_amount <= limit_amount ==> r == None::<u64>,
        initial_amount < params.amount_in && remaining_amount > limit_amount ==> r == Some(
            (if current_balance + initial_amount < params.amount_in {
                0
            } else {
                current_balance + initial_amount - params.amount_in
            }) as u64,
        ),
{
    if initial_amount >= params.amount_in {
        return None;
    }
    if remaining_amount > limit_amount {
        let diff_amount = params.amount_in.saturating_sub(initial_amount);
        let new_balance = current_balance.saturating_sub(diff_amount);
        return Some(new_balance);
    }
    None
}

/// The instruction data of a Raydium swap: its tag alone.
pub open spec fn raydium_swap_data() -> Seq<u8> {
    seq![9u8]
}

/// The invocation of a Raydium swap: `raydium_program` on the pool and the two token accounts,
/// with no account metas and the Raydium tag as data.
pub fn raydium_swap_invocation(
    raydium_program: [u8; 32],
    pool: [u8; 32],
    source: [u8; 32],
    destination: [u8; 32],
) -> (r: SwapInvocation)
    ensures
        invokes(r, raydium_program, pool, source, destination, Seq::<InvokedAccount>::empty(), raydium_swap_data()),
{
    let metas: Vec<InvokedAccount> = Vec::new();
    let data: [u8; 1] = [9];
    assert(data@ =~= raydium_swap_data());
    assert(metas@ =~= Seq::<InvokedAccount>::empty());
    pool_invocation(raydium_program, pool, source, destination, metas, &data)
}

/// An automatic Raydium buy: its amount (see `raydium_swap_in_amount`) and the Raydium swap it
/// invokes (see `raydium_swap_invocation`); where the amount is refused, nothing is invoked.
pub fn fast_path_auto_swap_in_raydium_v4(
    params: FastPathAutoSwapParams,
    current_price: u64,
    expected_price: u64,
    time_limit: u64,
    min_amount: u64,
    min_output: u64,
    token_account_amount: u64,
    raydium_program: [u8; 32],
    pool: [u8; 32],
    source: [u8; 32],
    destination: [u8; 32],
) -> (r: Result<(u64, SwapInvocation), ErrorCode>)
    requires
        raydium_swap_in_fits(params, current_price, expected_price, time_limit),
    ensures
        match raydium_swap_in_amount(params, current_price, expected_price, time_limit, token_account_amount) {
            Ok(a) => r matches Ok((b, inv)) && b == a && invokes(
                inv,
                raydium_program,
                pool,
                source,
                destination,
                Seq::<InvokedAccount>::empty(),
                raydium_swap_data(),
            ),
            Err(e) => r matches Err(f) && f == e,
        },
{
    let amount = raydium_swap_in_amount_for(
        params,
        current_price,
        expected_price,
        time_limit,
        min_amount,
        min_output,
        token_account_amount,
    )?;
    Ok((amount, raydium_swap_invocation(raydium_program, pool, source, destination)))
}

/// An automatic Raydium sell before its swap: its checks (see `raydium_swap_out_check`), and
/// where they pass, the quote's excess and the Raydium swap it invokes; its settlement follows
/// the swap (see `raydium_swap_out_settle`).
pub fn fast_path_auto_swap_out_raydium_v4(
    params: FastPathAutoSwapOutParams,
    validator_known: bool,
    quote: u64,
    expected_quote: u64,
    raydium_program: [u8; 32],
    pool: [u8; 32],
    source: [u8; 32],
    destination: [u8; 32],
) -> (r: Result<(u64, SwapInvocation), ErrorCode>)
    ensures
        params.validator_id != NO_VALIDATOR && !validator_known ==> (r matches Err(e) && e
            == ErrorCode::InvalidValidator),
        (params.validator_id == NO_VALIDATOR || validator_known) && quote <= expected_quote ==> (r matches Err(
            e,
        ) && e == ErrorCode::InvalidQuote),
        (params.validator_id == NO_VALIDATOR || validator_known) && quote > expected_quote ==> (r matches Ok(
            (d, inv),
        ) && d == quote - expected_quote && invokes(
            inv,
            raydium_program,
            pool,
            source,
            destination,
            Seq::<InvokedAccount>::empty(),
            raydium_swap_data(),
        )),
{
    let diff = raydium_swap_out_check(params, validator_known, quote, expected_quote)?;
    Ok((diff, raydium_swap_invocation(raydium_program, pool, source, destination)))
}

/// The size of a new Raydium pool account.
pub const RAYDIUM_POOL_SIZE: usize = 2360;

/// The signature at the start of a Raydium pool account.
pub open spec fn pool_signature() -> Seq<u8> {
    seq![0xc6u8, 0x44u8, 0x0cu8, 0xf5u8, 0xfdu8, 0xdau8, 0x26u8, 0x3fu8]
}

/// The byte at position `j` of a pool account of length `len` after initialization, where it
/// held `old` before: the signature in the first 8 bytes; zeros in `[1800, 2312)` once the
/// account reaches 2072 bytes; five words at `0x908..0x930` (0, 0, 17, 0, 17) once it reaches
/// `0x930` bytes; the pool id at `0x930..0x934` once it reaches `0x934` bytes; `old` elsewhere.
pub open spec fn initialized_pool_byte(old: u8, len: int, pool_id: u32, j: int) -> u8 {
    if 0 <= j < 8 && len >= 8 {
        pool_signature()[j]
    } else if 1800 <= j < 2312 && len >= 2072 {
        0u8
    } else if 0x918 <= j < 0x920 && len >= 0x930 {
        u64_le_bytes(17)[j - 0x918]
    } else if 0x928 <= j < 0x930 && len >= 0x930 {
        u64_le_bytes(17)[j - 0x928]
    } else if 0x908 <= j < 0x930 && len >= 0x930 {
        0u8
    } else if 0x930 <= j < 0x934 && len >= 0x934 {
        u32_le_bytes(pool_id)[j - 0x930]
    } else {
        old
    }
}

/// A pool account after initialization, byte by byte (see `initialized_pool_byte`).
pub open spec fn initialized_pool(old: Seq<u8>, pool_id: u32) -> Seq<u8> {
    Seq::new(old.len(), |j: int| initialized_pool_byte(old[j], old.len() as int, pool_id, j))
}

fn write_bytes(data: &mut [u8], at: usize, bytes: &[u8])
    requires
        at + bytes@.len() <= old(data)@.len(),
    ensures
        final(data)@.len() == old(data)@.len(),
        forall|j: int|
            0 <= j < old(data)@.len() ==> #[trigger] final(data)@[j] == if at <= j < at + bytes@.len() {
                bytes@[j - at]
            } else {
                old(data)@[j]
            },
{
    let n = data.len();
    let mut i: usize = 0;
    while i < bytes.len()
        invariant
            n == old(data)@.len(),
            at + bytes@.len() <= old(data)@.len(),
            data@.len() == old(data)@.len(),
            0 <= i <= bytes@.len(),
            forall|j: int|
                0 <= j < old(data)@.len() ==> #[trigger] data@[j] == if at <= j < at + i {
                    bytes@[j - at]
                } else {
                    old(data)@[j]
                },
        decreases bytes@.len() - i,
    {
        data[at + i] = bytes[i];
        i = i + 1;
    }
}

/// A laid-out pool account reads back what was laid out: the signature in its first eight
/// bytes, and the pool id, little-endian, at offset `0x930` wherever the account reaches that far.
pub proof fn lemma_pool_reads_back(old: Seq<u8>, pool_id: u32)
    requires
        old.len() >= 0x934,
    ensures
        initialized_pool(old, pool_id).len() == old.len(),
        initialized_pool(old, pool_id).subrange(0, 8) == pool_signature(),
        crate::bytes::le_u32(initialized_pool(old, pool_id), 0x930) == pool_id,
{
    let p = initialized_pool(old, pool_id);
    assert(p.subrange(0, 8) =~= pool_signature());
    crate::bytes::lemma_u32_le_roundtrip(pool_id);
    let id = u32_le_bytes(pool_id);
    assert(p[0x930] == id[0] && p[0x931] == id[1] && p[0x932] == id[2] && p[0x933] == id[3]);
}

/// Lays out a new Raydium pool account (see `initialized_pool`).
pub fn initialize_raydium_pool_data(pool_data: &mut [u8], params: FastPathCreateRaydiumParams)
    ensures
        final(pool_data)@ == initialized_pool(old(pool_data)@, params.pool_id),
{
    let len = pool_data.len();
    let ghost before = pool_data@;
    let id = u32_to_le_bytes(params.pool_id);
    let offset: usize = 0x930;
    if len >= offset + 4 {
        write_bytes(pool_data, offset, &id);
    }
    let ghost s1 = pool_data@;
    let signature_bytes: [u8; 8] = [0xc6, 0x44, 0x0c, 0xf5, 0xfd, 0xda, 0x26, 0x3f];
    assert(signature_bytes@ =~= pool_signature());
    if len >= 8 {
        write_bytes(pool_data, 0, &signature_bytes);
    }
    let ghost s2 = pool_data@;
    if len >= 2072 {
        let mut i: usize = 1800;
        while i < 2312
            invariant
                pool_data@.len() == len,
                len >= 2072,
                1800 <= i <= 2312,
                forall|j: int|
                    0 <= j < len ==> #[trigger] pool_data@[j] == if 1800 <= j < i {
                        0u8
                    } else {
                        s2[j]
                    },
            decreases 2312 - i,
        {
            if i < len {
                pool_data[i] = 0;
            }
            i = i + 1;
        }
    }
    let ghost s3 = pool_data@;
    let seventeen = u64_to_le_bytes(17);
    let zero = u64_to_le_bytes(0);
    if len >= 0x928 + 8 {
        write_bytes(pool_data, 0x928, &seventeen);
        write_bytes(pool_data, 0x918, &seventeen);
        write_bytes(pool_data, 0x910, &zero);
        write_bytes(pool_data, 0x908, &zero);
        write_bytes(pool_data, 0x920, &zero);
    }
    proof {
        crate::bytes::lemma_u64_le_roundtrip(0);
        reveal(u64_le_bytes);
        assert(zero@ =~= seq![0u8, 0u8, 0u8, 0u8, 0u8, 0u8, 0u8, 0u8]);
    }
    assert forall|j: int| 0 <= j < len implies pool_data@[j] == initialized_pool_byte(
        before[j],
        len as int,
        params.pool_id,
        j,
    ) by {
        assert(s1[j] == if len >= 0x934 && 0x930 <= j < 0x934 {
            id@[j - 0x930]
        } else {
            before[j]
        });
        assert(s2[j] == if len >= 8 && 0 <= j < 8 {
            signature_bytes@[j]
        } else {
            s1[j]
        });
        assert(s3[j] == if len >= 2072 && 1800 <= j < 2312 {
            0u8
        } else {
            s2[j]
        });
    }
    assert(pool_data@ =~= initialized_pool(before, params.pool_id));
}

} // verus!
