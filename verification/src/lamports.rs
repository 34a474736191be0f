//! Lamport movements: tips, top-ups and closing sandwich accounts.
//!
//! Each function takes the balances involved and returns the balances after the
//! movement; the caller writes them back to the accounts.
use vstd::prelude::*;
use crate::error::ErrorCode;

verus! {

/// The balances after moving `amount` lamports from a balance of `from` to a balance of
/// `to`: refused with `short` where `from` holds less than `amount`, and with `overflow` where
/// `to` would leave `u64`.
pub open spec fn transfer_outcome(
    from: u64,
    to: u64,
    amount: u64,
    short: ErrorCode,
    overflow: ErrorCode,
) -> Result<(u64, u64), ErrorCode> {
    if from < amount {
        Err(short)
    } else if to + amount > u64::MAX {
        Err(overflow)
    } else {
        Ok(((from - amount) as u64, (to + amount) as u64))
    }
}

/// Moves `amount` lamports between two balances (see `transfer_outcome`).
pub fn move_lamports(from: u64, to: u64, amount: u64, short: ErrorCode, overflow: ErrorCode) -> (r:
    Result<(u64, u64), ErrorCode>)
    ensures
        r == transfer_outcome(from, to, amount, short, overflow),
{
    let new_from = match from.checked_sub(amount) {
        Some(v) => v,
        None => return Err(short),
    };
    let new_to = match to.checked_add(amount) {
        Some(v) => v,
        None => return Err(overflow),
    };
    Ok((new_from, new_to))
}

/// A movement of lamports neither creates nor destroys lamports.
pub proof fn lemma_transfer_conserves(
    from: u64,
    to: u64,
    amount: u64,
    short: ErrorCode,
    overflow: ErrorCode,
)
    ensures
        transfer_outcome(from, to, amount, short, overflow) matches Ok((f, t)) ==> f + t == from
            + to,
        transfer_outcome(from, to, amount, short, overflow) matches Ok((f, t)) ==> f + amount
            == from,
{
}

/// Moving lamports back undoes a movement: once `amount` has moved from `from` to `to`, moving
/// it from the new `to` balance to the new `from` balance gives back the balances that were there
/// before.
pub proof fn lemma_transfer_undone(
    from: u64,
    to: u64,
    amount: u64,
    short: ErrorCode,
    overflow: ErrorCode,
)
    ensures
        transfer_outcome(from, to, amount, short, overflow) matches Ok((f, t)) ==> transfer_outcome(
            t,
            f,
            amount,
            short,
            overflow,
        ) == Ok::<(u64, u64), ErrorCode>((to, from)),
{
}

/// The tip for a base amount: the amount weighted by a factor of 10000 basis points, which
/// leaves it unchanged; `Overflow` where the weighting leaves `u64`.
pub open spec fn weighted_tip(amount: u64) -> Result<u64, ErrorCode> {
    if amount * 10000 > u64::MAX {
        Err(ErrorCode::Overflow)
    } else {
        Ok(amount)
    }
}

fn weigh_tip(amount: u64) -> (r: Result<u64, ErrorCode>)
    ensures
        r == weighted_tip(amount),
{
    let tip = match amount.checked_mul(10000) {
        Some(v) => v,
        None => return Err(ErrorCode::Overflow),
    };
    match tip.checked_div(10000) {
        Some(v) => Ok(v),
        None => Err(ErrorCode::Overflow),
    }
}

/// The balances after a weighted tip of `amount` from `from` to `to`.
pub open spec fn weighted_tip_outcome(from: u64, to: u64, amount: u64) -> Result<(u64, u64), ErrorCode> {
    match weighted_tip(amount) {
        Ok(tip) => transfer_outcome(from, to, tip, ErrorCode::Overflow, ErrorCode::Overflow),
        Err(e) => Err(e),
    }
}

/// Tips `amount` lamports weighted by the base factor (see `weighted_tip_outcome`).
pub fn tip_dynamic(from: u64, to: u64, amount: u64) -> (r: Result<(u64, u64), ErrorCode>)
    ensures
        r == weighted_tip_outcome(from, to, amount),
{
    let tip = weigh_tip(amount)?;
    move_lamports(from, to, tip, ErrorCode::Overflow, ErrorCode::Overflow)
}

/// Tips `base_amount` lamports weighted by the time factor, which is the base factor
/// (see `weighted_tip_outcome`).
pub fn fast_path_tip_dynamic(from: u64, to: u64, base_amount: u64) -> (r: Result<(u64, u64), ErrorCode>)
    ensures
        r == weighted_tip_outcome(from, to, base_amount),
{
    let time_factor: u64 = 10000;
    let tip_amount = match base_amount.checked_mul(time_factor) {
        Some(v) => v,
        None => return Err(ErrorCode::Overflow),
    };
    let tip_amount = match tip_amount.checked_div(10000) {
        Some(v) => v,
        None => return Err(ErrorCode::Overflow),
    };
    move_lamports(from, to, tip_amount, ErrorCode::Overflow, ErrorCode::Overflow)
}

/// A dynamic tip is weighted by a factor of one: wherever the weighting fits `u64` it moves
/// exactly the base amount, as a static tip of that amount does.
pub proof fn lemma_weighted_tip_is_static(from: u64, to: u64, amount: u64)
    requires
        amount * 10000 <= u64::MAX,
    ensures
        weighted_tip_outcome(from, to, amount) == transfer_outcome(
            from,
            to,
            amount,
            ErrorCode::Overflow,
            ErrorCode::Overflow,
        ),
{
}

/// Tips exactly `amount` lamports.
pub fn fast_path_tip_static(from: u64, to: u64, amount: u64) -> (r: Result<(u64, u64), ErrorCode>)
    ensures
        r == transfer_outcome(from, to, amount, ErrorCode::Overflow, ErrorCode::Overflow),
{
    move_lamports(from, to, amount, ErrorCode::Overflow, ErrorCode::Overflow)
}

/// Moves `amount` lamports from the payer to the tipper.
pub fn topup_tipper(payer: u64, tipper: u64, amount: u64) -> (r: Result<(u64, u64), ErrorCode>)
    ensures
        r == transfer_outcome(payer, tipper, amount, ErrorCode::Overflow, ErrorCode::Overflow),
{
    move_lamports(payer, tipper, amount, ErrorCode::Overflow, ErrorCode::Overflow)
}

/// The balances after closing a sandwich account: an account with data hands all its
/// lamports to the destination (`Overflow` where the destination would leave `u64`); an
/// account without data is left alone.
pub open spec fn closed_sandwich(data_len: usize, sandwich: u64, destination: u64) -> Result<
    (u64, u64),
    ErrorCode,
> {
    if data_len == 0 {
        Ok((sandwich, destination))
    } else if destination + sandwich > u64::MAX {
        Err(ErrorCode::Overflow)
    } else {
        Ok((0, (destination + sandwich) as u64))
    }
}

/// Closes a sandwich account into a destination (see `closed_sandwich`).
pub fn close_sandwich(data_len: usize, sandwich: u64, destination: u64) -> (r: Result<
    (u64, u64),
    ErrorCode,
>)
    ensures
        r == closed_sandwich(data_len, sandwich, destination),
{
    if data_len > 0 {
        let rent_lamports = sandwich;
        let new_destination = match destination.checked_add(rent_lamports) {
            Some(v) => v,
            None => return Err(ErrorCode::Overflow),
        };
        Ok((0, new_destination))
    } else {
        Ok((sandwich, destination))
    }
}

/// Closing a sandwich account neither creates nor destroys lamports, and an account with data
/// is left with none.
pub proof fn lemma_close_sandwich_conserves(data_len: usize, sandwich: u64, destination: u64)
    ensures
        closed_sandwich(data_len, sandwich, destination) matches Ok((s, d)) ==> s + d == sandwich
            + destination,
        data_len > 0 ==> (closed_sandwich(data_len, sandwich, destination) matches Ok((s, d)) ==> s
            == 0),
{
}

/// The most sandwich accounts closed in one sweep.
pub const MAX_SANDWICHES: u64 = 10;

/// The number of accounts with data among the first `n` of `is_empty`.
pub open spec fn count_with_data(is_empty: Seq<bool>, n: int) -> nat
    decreases n,
{
    if n <= 0 {
        0
    } else {
        count_with_data(is_empty, n - 1) + if !is_empty[n - 1] { 1nat } else { 0nat }
    }
}

/// The accounts that a sweep visits: the first `count` of them, or none where `count` exceeds
/// the limit of one sweep.
pub open spec fn sweep_len(count: u64, listed: int) -> int {
    if count > MAX_SANDWICHES {
        0
    } else if count < listed {
        count as int
    } else {
        listed
    }
}

/// The outcome of a sweep over sandwich accounts: the indices of the visited accounts that
/// hold data, and the rent they return, `rent_per_account` each; `Overflow` where the total
/// leaves `u64`.
pub struct SandwichSweep {
    pub closed: Vec<usize>,
    pub total_rent: u64,
}

/// The indices below `n` of the accounts with data, in order.
pub open spec fn indices_with_data(is_empty: Seq<bool>, n: int) -> Seq<usize>
    decreases n,
{
    if n <= 0 {
        seq![]
    } else if !is_empty[n - 1] {
        indices_with_data(is_empty, n - 1).push((n - 1) as usize)
    } else {
        indices_with_data(is_empty, n - 1)
    }
}

/// A sweep closes exactly the accounts with data that it visits, in order, and so never more
/// than it visits: at most `MAX_SANDWICHES`.
pub proof fn lemma_sweep_bounded(is_empty: Seq<bool>, n: int)
    requires
        0 <= n <= is_empty.len(),
        is_empty.len() <= usize::MAX,
    ensures
        indices_with_data(is_empty, n).len() == count_with_data(is_empty, n),
        count_with_data(is_empty, n) <= n,
        forall|k: int|
            0 <= k < indices_with_data(is_empty, n).len() ==> {
                let i = #[trigger] indices_with_data(is_empty, n)[k];
                i < n && !is_empty[i as int]
            },
    decreases n,
{
    if n > 0 {
        lemma_sweep_bounded(is_empty, n - 1);
        let prev = indices_with_data(is_empty, n - 1);
        let cur = indices_with_data(is_empty, n);
        assert forall|k: int| 0 <= k < cur.len() implies {
            let i = #[trigger] cur[k];
            i < n && !is_empty[i as int]
        } by {
            if !is_empty[n - 1] {
                assert(cur == prev.push((n - 1) as usize));
                if k < prev.len() {
                    assert(cur[k] == prev[k]);
                } else {
                    assert(cur[k] == (n - 1) as usize);
                }
            } else {
                assert(cur == prev);
            }
        }
    }
}

/// The visits of a sweep never exceed `MAX_SANDWICHES`.
pub proof fn lemma_sweep_len_bounded(count: u64, listed: int)
    requires
        listed >= 0,
    ensures
        0 <= sweep_len(count, listed) <= MAX_SANDWICHES,
        sweep_len(count, listed) <= listed,
{
}

/// Decides which sandwich accounts a sweep closes and the rent it collects: the first
/// `sandwiches_count` listed accounts (none where the count exceeds 10), those with data, at
/// `rent_per_account` each.
pub fn close_sandwiches_and_topup_tipper(
    sandwiches_count: u64,
    sandwich_is_empty: &[bool],
    rent_per_account: u64,
) -> (r: Result<SandwichSweep, ErrorCode>)
    ensures
        ({
            let n = sweep_len(sandwiches_count, sandwich_is_empty@.len() as int);
            let total = count_with_data(sandwich_is_empty@, n) * rent_per_account;
            &&& total > u64::MAX ==> r == Err::<SandwichSweep, ErrorCode>(ErrorCode::Overflow)
            &&& total <= u64::MAX ==> (r matches Ok(s) && s.total_rent == total && s.closed@
                =~= indices_with_data(sandwich_is_empty@, n))
        }),
{
    let mut closed: Vec<usize> = Vec::new();
    let mut collected_rent: u64 = 0;
    let ghost n = sweep_len(sandwiches_count, sandwich_is_empty@.len() as int);
    assert(count_with_data(sandwich_is_empty@, 0) == 0);
    assert(indices_with_data(sandwich_is_empty@, 0) =~= Seq::<usize>::empty());
    if sandwiches_count <= MAX_SANDWICHES {
        let mut i: u64 = 0;
        assert(0 * rent_per_account == 0) by (nonlinear_arith);
        while i < sandwiches_count
            invariant
                sandwiches_count <= MAX_SANDWICHES,
                n == sweep_len(sandwiches_count, sandwich_is_empty@.len() as int),
                0 <= i <= sandwiches_count,
                collected_rent == count_with_data(
                    sandwich_is_empty@,
                    if (i as int) < sandwich_is_empty@.len() { i as int } else { sandwich_is_empty@.len() as int },
                ) * rent_per_account,
                closed@ =~= indices_with_data(
                    sandwich_is_empty@,
                    if (i as int) < sandwich_is_empty@.len() { i as int } else { sandwich_is_empty@.len() as int },
                ),
            decreases sandwiches_count - i,
        {
            if (i as usize) < sandwich_is_empty.len() {
                let idx = i as usize;
                if !sandwich_is_empty[idx] {
                    collected_rent = match collected_rent.checked_add(rent_per_account) {
                        Some(v) => v,
                        None => {
                            proof {
                                lemma_count_monotone(sandwich_is_empty@, i as int + 1, n);
                                assert(count_with_data(sandwich_is_empty@, i as int + 1) * rent_per_account
                                    <= count_with_data(sandwich_is_empty@, n) * rent_per_account)
                                    by (nonlinear_arith)
                                    requires
                                        count_with_data(sandwich_is_empty@, i as int + 1)
                                            <= count_with_data(sandwich_is_empty@, n),
                                ;
                                assert(count_with_data(sandwich_is_empty@, i as int + 1) * rent_per_account
                                    == count_with_data(sandwich_is_empty@, i as int) * rent_per_account
                                    + rent_per_account) by (nonlinear_arith)
                                    requires
                                        count_with_data(sandwich_is_empty@, i as int + 1)
                                            == count_with_data(sandwich_is_empty@, i as int) + 1,
                                ;
                            }
                            return Err(ErrorCode::Overflow);
                        },
                    };
                    closed.push(idx);
                    proof {
                        assert(count_with_data(sandwich_is_empty@, i as int + 1) * rent_per_account
                            == count_with_data(sandwich_is_empty@, i as int) * rent_per_account
                            + rent_per_account) by (nonlinear_arith)
                            requires
                                count_with_data(sandwich_is_empty@, i as int + 1)
                                    == count_with_data(sandwich_is_empty@, i as int) + 1,
                        ;
                    }
                }
            }
            i = i + 1;
        }
    }
    Ok(SandwichSweep { closed, total_rent: collected_rent })
}

/// The count of accounts with data grows with the prefix.
pub proof fn lemma_count_monotone(is_empty: Seq<bool>, m: int, n: int)
    requires
        m <= n,
    ensures
        count_with_data(is_empty, m) <= count_with_data(is_empty, n),
    decreases n - m,
{
    if m < n {
        lemma_count_monotone(is_empty, m, n - 1);
    }
}

} // verus!
