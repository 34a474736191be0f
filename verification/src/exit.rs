//! The decisions of the exit instruction: whether the swap it reads goes ahead, and what it
//! settles at once the swap has been invoked.
use vstd::prelude::*;

verus! {

/// How the exit instruction ends.
#[derive(Clone, Copy, Debug, PartialEq, Eq, Structural)]
pub enum ExitOutcome {
    /// The swap could not be read, and nothing was traded.
    NotDeserialized,
    /// The invoked swap reported a failure.
    SwapFailed,
    /// The swap went through; `output` is what it gave, the quote it was made at.
    Completed { output: u64 },
}

/// Decides how the exit instruction ends, from whether the swap record was read, the quote and
/// reserves `(quote, reserve_a, reserve_b)` of the pool, and the status the invoked swap reported
/// (zero for success): an unread swap ends it at once, a failed swap ends it without output, and a
/// completed swap gives the quote as its output. Neither early end is an error.
pub fn exit_program(is_swap_valid: bool, quote: (u64, u64, u64), execute_result: u64) -> (r: ExitOutcome)
    ensures
        !is_swap_valid ==> r == ExitOutcome::NotDeserialized,
        is_swap_valid && execute_result != 0 ==> r == ExitOutcome::SwapFailed,
        is_swap_valid && execute_result == 0 ==> r == (ExitOutcome::Completed { output: quote.0 }),
{
    if !is_swap_valid {
        return ExitOutcome::NotDeserialized;
    }
    let (quote_amount, _reserve_a, _reserve_b) = quote;
    if execute_result != 0 {
        return ExitOutcome::SwapFailed;
    }
    let actual_output_amount = quote_amount;
    ExitOutcome::Completed { output: actual_output_amount }
}

} // verus!
