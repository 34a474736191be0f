//! The tipper account and the tips that it pays from a payer to a recipient.
use vstd::prelude::*;
use crate::bytes::{le_u64, read_u64_le};
use crate::error::ErrorCode;
use crate::lamports::{move_lamports, transfer_outcome};

verus! {

/// The magic number that marks a tipper account.
pub const TIPPER_MAGIC: u64 = 0xfc74a147ce401273;

/// The key that masks the parameters of a dynamic tip.
pub const TIP_PARAM_KEY: u64 = 0x2f5cc235403ddc54;

/// The state of a tipper account.
#[derive(Clone, Copy, Debug, PartialEq, Eq, Structural)]
pub struct TipperState {
    pub magic: u64,
    pub tip_amount: u64,
    pub tip_flag: u8,
    pub static_tip_amount: u64,
}

/// A new tipper account: marked with its magic number, everything else zero.
pub fn create_tipper() -> (r: TipperState)
    ensures
        r == (TipperState { magic: TIPPER_MAGIC, tip_amount: 0, tip_flag: 0, static_tip_amount: 0 }),
{
    TipperState { magic: TIPPER_MAGIC, tip_amount: 0, tip_flag: 0, static_tip_amount: 0 }
}

/// The `i`-th masked parameter of a dynamic tip.
pub open spec fn tip_param(data: Seq<u8>, i: int) -> u64 {
    (le_u64(data, 8 * i) as u64) ^ TIP_PARAM_KEY
}

/// The tip of a dynamic tip at time `timestamp`: the third parameter's share (in basis
/// points) of the timestamp while the fourth parameter, a deadline, lies ahead; afterwards the
/// second parameter, or the first parameter's share of the timestamp where the second is zero.
pub open spec fn dynamic_tip_amount(data: Seq<u8>, timestamp: u64) -> int {
    if tip_param(data, 3) <= timestamp {
        if tip_param(data, 1) == 0 {
            timestamp * tip_param(data, 0) / 10000
        } else {
            tip_param(data, 1) as int
        }
    } else {
        timestamp * tip_param(data, 2) / 10000
    }
}

/// The inputs on which the dynamic tip fits the machine's arithmetic.
pub open spec fn dynamic_tip_fits(data: Seq<u8>, timestamp: u64) -> bool {
    &&& timestamp * tip_param(data, 2) <= u64::MAX
    &&& tip_param(data, 1) == 0 ==> timestamp * tip_param(data, 0) <= u64::MAX
}

/// Whether the dynamic tip described by `tip_data` at time `timestamp` can be computed within
/// `u64` (see `dynamic_tip_fits`).
pub fn dynamic_tip_in_range(tip_data: &[u8], timestamp: u64) -> (r: bool)
    requires
        tip_data@.len() >= 32,
    ensures
        r == dynamic_tip_fits(tip_data@, timestamp),
{
    let param1 = read_u64_le(tip_data, 0) ^ TIP_PARAM_KEY;
    let param2 = read_u64_le(tip_data, 8) ^ TIP_PARAM_KEY;
    let param3 = read_u64_le(tip_data, 16) ^ TIP_PARAM_KEY;
    if timestamp.checked_mul(param3).is_none() {
        return false;
    }
    param2 != 0 || timestamp.checked_mul(param1).is_some()
}

/// The outcome of a tip: the payer's and the recipient's new balances and the tipper's new
/// state.
pub struct TipOutcome {
    pub payer: u64,
    pub recipient: u64,
    pub state: TipperState,
}

/// Pays a dynamic tip described by the parameter block `tip_data` at time `timestamp`
/// (see `dynamic_tip_amount`): `InsufficientFunds` where the payer holds too little,
/// `ArithmeticOverflow` where the recipient would leave `u64`; the tipper records the tip and
/// the flag byte at offset 32 of the block.
pub fn tip_dynamic(
    tip_data: &[u8],
    timestamp: u64,
    payer: u64,
    recipient: u64,
    state: TipperState,
) -> (r: Result<TipOutcome, ErrorCode>)
    requires
        tip_data@.len() > 32,
        dynamic_tip_fits(tip_data@, timestamp),
    ensures
        ({
            let tip = dynamic_tip_amount(tip_data@, timestamp) as u64;
            match transfer_outcome(
                payer,
                recipient,
                tip,
                ErrorCode::InsufficientFunds,
                ErrorCode::ArithmeticOverflow,
            ) {
                Ok((p, q)) => (r matches Ok(o) && o.payer == p && o.recipient == q && o.state
                    == TipperState { tip_amount: tip, tip_flag: tip_data@[32], ..state }),
                Err(e) => r == Err::<TipOutcome, ErrorCode>(e),
            }
        }),
{
    let param1 = read_u64_le(tip_data, 0) ^ TIP_PARAM_KEY;
    let mut param2 = read_u64_le(tip_data, 8) ^ TIP_PARAM_KEY;
    let param3 = read_u64_le(tip_data, 16) ^ TIP_PARAM_KEY;
    let param4 = read_u64_le(tip_data, 24) ^ TIP_PARAM_KEY;
    if param2 == 0 {
        param2 = (timestamp * param1) / 10000;
    }
    let mut tip_amount = (timestamp * param3) / 10000;
    if param4 <= timestamp {
        tip_amount = param2;
    }
    let (payer_lamports, recipient_lamports) = move_lamports(
        payer,
        recipient,
        tip_amount,
        ErrorCode::InsufficientFunds,
        ErrorCode::ArithmeticOverflow,
    )?;
    let new_state = TipperState { tip_amount, tip_flag: tip_data[32], ..state };
    Ok(TipOutcome { payer: payer_lamports, recipient: recipient_lamports, state: new_state })
}

/// Pays the static tip whose amount is the first eight bytes of `amount_data`:
/// `InsufficientFunds` where the payer holds too little, `ArithmeticOverflow` where the
/// recipient would leave `u64`; the tipper records the amount as its static tip.
pub fn tip_static(amount_data: &[u8], payer: u64, recipient: u64, state: TipperState) -> (r:
    Result<TipOutcome, ErrorCode>)
    requires
        amount_data@.len() >= 8,
    ensures
        ({
            let tip = le_u64(amount_data@, 0) as u64;
            match transfer_outcome(
                payer,
                recipient,
                tip,
                ErrorCode::InsufficientFunds,
                ErrorCode::ArithmeticOverflow,
            ) {
                Ok((p, q)) => (r matches Ok(o) && o.payer == p && o.recipient == q && o.state
                    == TipperState { static_tip_amount: tip, ..state }),
                Err(e) => r == Err::<TipOutcome, ErrorCode>(e),
            }
        }),
{
    let tip_amount = read_u64_le(amount_data, 0);
    let (payer_lamports, recipient_lamports) = move_lamports(
        payer,
        recipient,
        tip_amount,
        ErrorCode::InsufficientFunds,
        ErrorCode::ArithmeticOverflow,
    )?;
    let new_state = TipperState { static_tip_amount: tip_amount, ..state };
    Ok(TipOutcome { payer: payer_lamports, recipient: recipient_lamports, state: new_state })
}

/// The dynamic tip follows its deadline, the fourth parameter: while the deadline lies after the
/// timestamp the tip is the third parameter's share, in basis points, of the timestamp, whatever
/// the first two parameters are; from the deadline on it is the second parameter where that is
/// not zero, and the first parameter's share of the timestamp where it is.
pub proof fn lemma_dynamic_tip_follows_deadline(data: Seq<u8>, timestamp: u64)
    ensures
        tip_param(data, 3) > timestamp ==> dynamic_tip_amount(data, timestamp) == timestamp
            * tip_param(data, 2) / 10000,
        tip_param(data, 3) <= timestamp && tip_param(data, 1) != 0 ==> dynamic_tip_amount(
            data,
            timestamp,
        ) == tip_param(data, 1),
        tip_param(data, 3) <= timestamp && tip_param(data, 1) == 0 ==> dynamic_tip_amount(
            data,
            timestamp,
        ) == timestamp * tip_param(data, 0) / 10000,
{
}

/// Two parameter blocks that differ only in their first two parameters give the same tip before
/// the deadline.
pub proof fn lemma_dynamic_tip_before_deadline_ignores_fixed_tip(d1: Seq<u8>, d2: Seq<u8>, timestamp: u64)
    requires
        tip_param(d1, 2) == tip_param(d2, 2),
        tip_param(d1, 3) == tip_param(d2, 3),
        tip_param(d1, 3) > timestamp,
    ensures
        dynamic_tip_amount(d1, timestamp) == dynamic_tip_amount(d2, timestamp),
{
}

} // verus!
