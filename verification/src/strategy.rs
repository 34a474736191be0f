//! The search for the most profitable trade size.
//!
//! The search starts from the tradable amount implied by the fee and the multiplier, then
//! probes up to 15 times around the square root of the current quote, keeping the amount with
//! the best profit seen.
use vstd::prelude::*;
use crate::amounts::{
    gross_up, gross_up_amount, gross_up_fits, gross_up_in_range, portion, portion_fits,
    portion_in_range, portion_of,
    LARGE_AMOUNT_THRESHOLD, PUMP_FUN_FEE_RATE, RAYDIUM_FEE_RATE,
};
use crate::market::{dex_quote, dex_quote_fits, quote_in_range};
use crate::profit::quote_and_liquidity_on;

verus! {

/// The smallest amount a probe trades.
pub const BASE_AMOUNT: u64 = 1000;

/// The most probes a search makes.
pub const MAX_PROBES: u64 = 15;

/// The largest square root that a probe is built from.
pub const MAX_ROOT: u64 = 0x1_0000_0000;

/// The largest amount that a probe trades.
pub const MAX_PROBE_AMOUNT: u64 = 1000 + 0x5000_0000;

/// Where the search records what it found.
#[derive(Clone, Copy, Debug, PartialEq, Eq, Structural)]
pub struct ResultData {
    pub result: u64,
    pub profit: u64,
}

/// The inputs of the search, as read from the accounts.
#[derive(Clone, Copy, Debug, PartialEq, Eq, Structural)]
pub struct StrategyInputs {
    pub amount_a: u64,
    pub amount_b: u64,
    pub min_amount: u64,
    pub multiplier: u64,
    pub swap_type: u8,
    pub is_reverse: bool,
    pub need_verify: bool,
    pub dex_type: u8,
}

/// The fee rate of a swap kind: kind 1 keeps 99%, every other kind 99.75%.
pub open spec fn strategy_fee_rate(swap_type: u8) -> int {
    if swap_type == 1 { PUMP_FUN_FEE_RATE as int } else { RAYDIUM_FEE_RATE as int }
}

/// The amount the search starts from, or none where there is nothing to search: the token
/// amount of the direction (token B in reverse, token A otherwise) must exceed the minimum; it
/// is grossed up by the fee rate and scaled by the multiplier (in basis points), and the
/// result must exceed 999.
pub open spec fn strategy_start(p: StrategyInputs) -> Option<u64> {
    let amount = if p.is_reverse { p.amount_b } else { p.amount_a };
    if amount <= p.min_amount {
        None
    } else {
        let grossed = gross_up(amount as int, strategy_fee_rate(p.swap_type), amount > LARGE_AMOUNT_THRESHOLD);
        let scaled = portion(grossed, p.multiplier as int, grossed > LARGE_AMOUNT_THRESHOLD);
        if scaled <= 999 {
            None
        } else {
            Some(scaled as u64)
        }
    }
}

/// The inputs on which the start of the search fits the machine's arithmetic.
pub open spec fn strategy_start_fits(p: StrategyInputs) -> bool {
    let amount = if p.is_reverse { p.amount_b } else { p.amount_a };
    amount <= p.min_amount || {
        let grossed = gross_up(amount as int, strategy_fee_rate(p.swap_type), amount > LARGE_AMOUNT_THRESHOLD);
        &&& gross_up_fits(amount as int, strategy_fee_rate(p.swap_type), amount > LARGE_AMOUNT_THRESHOLD)
        &&& portion_fits(grossed, p.multiplier as int, grossed > LARGE_AMOUNT_THRESHOLD)
    }
}

/// The profit of a probe of `t`: its quote, read as a signed 64-bit number, less `t`.
pub open spec fn probe_profit(dex_type: u8, pool: Seq<u8>, reverse: bool, t: u64) -> int {
    (dex_quote(dex_type, pool, t, reverse) as u64 as i64) - t
}

/// Whether a probe of `t` fits the machine's arithmetic.
pub open spec fn probe_fits(dex_type: u8, pool: Seq<u8>, reverse: bool, t: u64) -> bool {
    &&& dex_quote_fits(dex_type, pool, t, reverse)
    &&& probe_profit(dex_type, pool, reverse, t) >= i64::MIN
}

/// The two amounts probed around a square root `root`: 1000 plus 0.1875 and 0.3125 of it,
/// rounded down.
pub open spec fn probes(root: u64) -> (u64, u64) {
    ((1000 + root * 3 / 16) as u64, (1000 + root * 5 / 16) as u64)
}

/// One round of the search from the best amount and profit so far, with the square root
/// `root`: each probe that beats the best profit so far becomes the best.
#[verifier::opaque]
pub open spec fn search_step(dex_type: u8, pool: Seq<u8>, reverse: bool, best: (u64, int), root: u64) -> (
    u64,
    int,
) {
    let (t1, t2) = probes(root);
    let p1 = probe_profit(dex_type, pool, reverse, t1);
    let p2 = probe_profit(dex_type, pool, reverse, t2);
    let after_first = if p1 > best.1 { (t1, p1) } else { best };
    if p2 > after_first.1 { (t2, p2) } else { after_first }
}

/// The best amount and profit after the rounds with the square roots `roots`, from `start`.
pub open spec fn search_run(dex_type: u8, pool: Seq<u8>, reverse: bool, start: (u64, int), roots: Seq<u64>) -> (
    u64,
    int,
)
    decreases roots.len(),
{
    if roots.len() == 0 {
        start
    } else {
        search_step(
            dex_type,
            pool,
            reverse,
            search_run(dex_type, pool, reverse, start, roots.drop_last()),
            roots.last(),
        )
    }
}

/// Whether the search goes on for another round after `rounds` rounds, with best amount
/// `amount`: fewer than 15 rounds, and the amount more than 10000 above 1000.
pub open spec fn search_continues(amount: u64, rounds: int) -> bool {
    rounds < MAX_PROBES && amount - BASE_AMOUNT > 10000
}

/// Whether a round of a search from `start`, after the rounds with the square roots `prefix`,
/// goes on and takes the square root `root`: the search goes on (see `search_continues`), and
/// `root` is one that `isqrt` gives for the quote of the best amount so far.
#[verifier::opaque]
pub open spec fn round_taken<F: Fn(u64) -> u64>(
    isqrt: F,
    dex_type: u8,
    pool: Seq<u8>,
    reverse: bool,
    start: (u64, int),
    prefix: Seq<u64>,
    root: u64,
) -> bool {
    let before = search_run(dex_type, pool, reverse, start, prefix);
    &&& search_continues(before.0, prefix.len() as int)
    &&& isqrt.ensures((dex_quote(dex_type, pool, before.0, reverse) as u64,), root)
}

/// Whether the rounds with the square roots `roots` are the first rounds of a search from
/// `start`: every one of them is taken (see `round_taken`).
pub open spec fn prefix_taken<F: Fn(u64) -> u64>(
    isqrt: F,
    dex_type: u8,
    pool: Seq<u8>,
    reverse: bool,
    start: (u64, int),
    roots: Seq<u64>,
) -> bool {
    forall|k: int|
        0 <= k < roots.len() ==> #[trigger] round_taken(
            isqrt,
            dex_type,
            pool,
            reverse,
            start,
            roots.take(k),
            roots[k],
        )
}

/// Whether `roots` are the square roots that a search from `start` takes: every round is taken
/// (see `round_taken`), and after the last round the search stops.
pub open spec fn search_roots<F: Fn(u64) -> u64>(
    isqrt: F,
    dex_type: u8,
    pool: Seq<u8>,
    reverse: bool,
    start: (u64, int),
    roots: Seq<u64>,
) -> bool {
    &&& prefix_taken(isqrt, dex_type, pool, reverse, start, roots)
    &&& !search_continues(search_run(dex_type, pool, reverse, start, roots).0, roots.len() as int)
}

/// Whether a round from the best amount `best` fits the machine's arithmetic: the pool holds
/// its reserves, the quote of `best` fits, and both probes fit for every square root that
/// `isqrt` may give for that quote.
pub open spec fn round_safe<F: Fn(u64) -> u64>(
    isqrt: F,
    dex_type: u8,
    pool: Seq<u8>,
    reverse: bool,
    best: u64,
) -> bool {
    &&& pool.len() >= 16
    &&& dex_quote_fits(dex_type, pool, best, reverse)
    &&& forall|root: u64|
        #[trigger] isqrt.ensures((dex_quote(dex_type, pool, best, reverse) as u64,), root) ==> {
            &&& probe_fits(dex_type, pool, reverse, probes(root).0)
            &&& probe_fits(dex_type, pool, reverse, probes(root).1)
        }
}

/// Whether a search from `start` fits the machine's arithmetic whichever square roots `isqrt`
/// gives: every round it can reach is safe (see `round_safe`).
pub open spec fn search_safe<F: Fn(u64) -> u64>(
    isqrt: F,
    dex_type: u8,
    pool: Seq<u8>,
    reverse: bool,
    start: u64,
) -> bool {
    forall|roots: Seq<u64>|
        #[trigger] prefix_taken(isqrt, dex_type, pool, reverse, (start, 0), roots) && search_continues(
            search_run(dex_type, pool, reverse, (start, 0), roots).0,
            roots.len() as int,
        ) ==> round_safe(
            isqrt,
            dex_type,
            pool,
            reverse,
            search_run(dex_type, pool, reverse, (start, 0), roots).0,
        )
}

/// Whether a probe of `t` fits the machine's arithmetic (see `probe_fits`).
fn probe_in_range(dex_type: u8, pool_data: &[u8], reverse: bool, t: u64) -> (r: bool)
    requires
        pool_data@.len() >= 16,
        t <= MAX_PROBE_AMOUNT,
    ensures
        r == probe_fits(dex_type, pool_data@, reverse, t),
{
    if !quote_in_range(dex_type, pool_data, t, reverse) {
        return false;
    }
    let (quote, _reserve_a, _reserve_b) = quote_and_liquidity_on(dex_type, pool_data, t, reverse);
    (quote as i64).checked_sub(t as i64).is_some()
}

proof fn lemma_run_push(dex_type: u8, pool: Seq<u8>, reverse: bool, start: (u64, int), roots: Seq<u64>, root: u64)
    ensures
        search_run(dex_type, pool, reverse, start, roots.push(root)) == search_step(
            dex_type,
            pool,
            reverse,
            search_run(dex_type, pool, reverse, start, roots),
            root,
        ),
{
    assert(roots.push(root).drop_last() =~= roots);
}

/// The search only ever improves on what it has: its best profit never falls below the profit
/// it started from (so never below zero from a start of zero), and its best amount is the start
/// amount or an amount that a probe traded, at least 1000 and at most `MAX_PROBE_AMOUNT`.
pub proof fn lemma_run_bounds(dex_type: u8, pool: Seq<u8>, reverse: bool, start: (u64, int), roots: Seq<u64>)
    requires
        start.0 >= BASE_AMOUNT,
        start.1 >= 0,
        forall|k: int| 0 <= k < roots.len() ==> #[trigger] roots[k] <= MAX_ROOT,
    ensures
        search_run(dex_type, pool, reverse, start, roots).0 >= BASE_AMOUNT,
        search_run(dex_type, pool, reverse, start, roots).1 >= start.1,
        search_run(dex_type, pool, reverse, start, roots).1 >= 0,
        search_run(dex_type, pool, reverse, start, roots).0 == start.0 || search_run(
            dex_type,
            pool,
            reverse,
            start,
            roots,
        ).0 <= MAX_PROBE_AMOUNT,
    decreases roots.len(),
{
    reveal(search_step);
    if roots.len() > 0 {
        let prefix = roots.drop_last();
        assert forall|k: int| 0 <= k < prefix.len() implies #[trigger] prefix[k] <= MAX_ROOT by {
            assert(prefix[k] == roots[k]);
        }
        lemma_run_bounds(dex_type, pool, reverse, start, prefix);
        assert(roots.last() == roots[roots.len() - 1]);
    }
}

/// One round of the search from the best amount `amount` with profit `best_profit`: the square
/// root that `isqrt` gives for the amount's quote and the best amount and profit after the
/// round; none where a probe of that root does not fit the machine's arithmetic.
fn search_round<F: Fn(u64) -> u64>(
    dex_type: u8,
    pool_data: &[u8],
    reverse: bool,
    amount: u64,
    best_profit: i64,
    isqrt: &F,
) -> (r: Option<(u64, i64, u64)>)
    requires
        pool_data@.len() >= 16,
        dex_quote_fits(dex_type, pool_data@, amount, reverse),
        forall|q: u64| isqrt.requires((q,)),
        forall|q: u64, s: u64| isqrt.ensures((q,), s) ==> s <= MAX_ROOT,
    ensures
        r matches Some((a, p, root)) ==> {
            &&& isqrt.ensures((dex_quote(dex_type, pool_data@, amount, reverse) as u64,), root)
            &&& root <= MAX_ROOT
            &&& (a, p as int) == search_step(dex_type, pool_data@, reverse, (amount, best_profit as int), root)
        },
        r is None ==> !round_safe(*isqrt, dex_type, pool_data@, reverse, amount),
{
    reveal(search_step);
    let base_amount = BASE_AMOUNT;
    let (quote1, _reserve_a1, _reserve_b1) = quote_and_liquidity_on(
        dex_type,
        pool_data,
        amount,
        reverse,
    );
    let sqrt_val = isqrt(quote1);
    let adjust1 = sqrt_val * 3 / 16;
    let adjust2 = sqrt_val * 5 / 16;
    let test_amount1 = base_amount + adjust1;
    let test_amount2 = base_amount + adjust2;
    if !probe_in_range(dex_type, pool_data, reverse, test_amount1) || !probe_in_range(
        dex_type,
        pool_data,
        reverse,
        test_amount2,
    ) {
        assert(isqrt.ensures((dex_quote(dex_type, pool_data@, amount, reverse) as u64,), sqrt_val));
        return None;
    }
    let (quote2, _, _) = quote_and_liquidity_on(dex_type, pool_data, test_amount1, reverse);
    let (quote3, _, _) = quote_and_liquidity_on(dex_type, pool_data, test_amount2, reverse);
    let profit1 = quote2 as i64 - test_amount1 as i64;
    let profit2 = quote3 as i64 - test_amount2 as i64;
    let mut best_amount = amount;
    let mut best = best_profit;
    if profit1 > best {
        best = profit1;
        best_amount = test_amount1;
    }
    if profit2 > best {
        best = profit2;
        best_amount = test_amount2;
    }
    Some((best_amount, best, sqrt_val))
}

/// Whether the start of a search can be computed within `u64` (see `strategy_start_fits`).
pub fn strategy_start_in_range(inputs: StrategyInputs) -> (r: bool)
    ensures
        r == strategy_start_fits(inputs),
{
    let amount = if inputs.is_reverse {
        inputs.amount_b
    } else {
        inputs.amount_a
    };
    if amount <= inputs.min_amount {
        return true;
    }
    let rate = if inputs.swap_type == 1 {
        PUMP_FUN_FEE_RATE
    } else {
        RAYDIUM_FEE_RATE
    };
    let large = amount > LARGE_AMOUNT_THRESHOLD;
    if !gross_up_in_range(amount, rate, large) {
        return false;
    }
    let grossed = gross_up_amount(amount, rate, large);
    portion_in_range(grossed, inputs.multiplier, grossed > LARGE_AMOUNT_THRESHOLD)
}

/// The amount a search starts from (see `strategy_start`).
fn strategy_start_amount(inputs: StrategyInputs) -> (r: Option<u64>)
    requires
        strategy_start_fits(inputs),
    ensures
        r == strategy_start(inputs),
{
    let mut fee_rate: u64 = RAYDIUM_FEE_RATE;
    if inputs.swap_type == 1 {
        fee_rate = PUMP_FUN_FEE_RATE;
    }
    let mut amount = if inputs.is_reverse {
        inputs.amount_b
    } else {
        inputs.amount_a
    };
    if amount <= inputs.min_amount {
        return None;
    }
    let threshold = LARGE_AMOUNT_THRESHOLD;
    amount = gross_up_amount(amount, fee_rate, amount > threshold);
    amount = portion_of(amount, inputs.multiplier, amount > threshold);
    if amount <= 999 {
        return None;
    }
    Some(amount)
}

/// Runs the search from `start_amount` and gives the best amount and profit; none where a round
/// that it reaches does not fit the machine's arithmetic, which cannot happen where the search
/// is safe (see `search_safe`).
fn run_search<F: Fn(u64) -> u64>(
    dex_type: u8,
    pool_data: &[u8],
    reverse: bool,
    start_amount: u64,
    isqrt: &F,
) -> (r: Option<(u64, i64)>)
    requires
        start_amount >= BASE_AMOUNT,
        forall|q: u64| isqrt.requires((q,)),
        forall|q: u64, s: u64| isqrt.ensures((q,), s) ==> s <= MAX_ROOT,
    ensures
        r matches Some(v) ==> v.1 >= 0 && exists|roots: Seq<u64>|
            #[trigger] search_roots(*isqrt, dex_type, pool_data@, reverse, (start_amount, 0), roots)
                && (v.0, v.1 as int) == search_run(
                dex_type,
                pool_data@,
                reverse,
                (start_amount, 0),
                roots,
            ),
        r is None ==> !search_safe(*isqrt, dex_type, pool_data@, reverse, start_amount),
{
    let ghost start: (u64, int) = (start_amount, 0);
    let mut amount = start_amount;
    let mut best_amount = start_amount;
    let mut best_profit: i64 = 0;
    let base_amount = BASE_AMOUNT;
    let mut iteration: u64 = 0;
    let ghost mut roots: Seq<u64> = Seq::empty();
    while iteration < MAX_PROBES && (amount - base_amount) > 10000
        invariant
            forall|q: u64| isqrt.requires((q,)),
            forall|q: u64, s: u64| isqrt.ensures((q,), s) ==> s <= MAX_ROOT,
            start.0 == start_amount,
            start.0 >= BASE_AMOUNT,
            start.1 == 0,
            base_amount == BASE_AMOUNT,
            iteration == roots.len(),
            iteration <= MAX_PROBES,
            forall|k: int| 0 <= k < roots.len() ==> #[trigger] roots[k] <= MAX_ROOT,
            amount == best_amount,
            amount >= BASE_AMOUNT,
            best_profit >= 0,
            (best_amount, best_profit as int) == search_run(dex_type, pool_data@, reverse, start, roots),
            prefix_taken(*isqrt, dex_type, pool_data@, reverse, start, roots),
        decreases MAX_PROBES - iteration,
    {
        if pool_data.len() < 16 || !quote_in_range(dex_type, pool_data, amount, reverse) {
            assert(prefix_taken(*isqrt, dex_type, pool_data@, reverse, start, roots));
            assert(!round_safe(*isqrt, dex_type, pool_data@, reverse, amount));
            return None;
        }
        let step = search_round(dex_type, pool_data, reverse, amount, best_profit, isqrt);
        let (next_amount, next_profit, sqrt_val) = match step {
            Some(v) => v,
            None => {
                assert(prefix_taken(*isqrt, dex_type, pool_data@, reverse, start, roots));
                return None;
            },
        };
        proof {
            let old_roots = roots;
            assert(round_taken(*isqrt, dex_type, pool_data@, reverse, start, old_roots, sqrt_val)) by {
                reveal(round_taken);
            }
            lemma_run_push(dex_type, pool_data@, reverse, start, old_roots, sqrt_val);
            roots = roots.push(sqrt_val);
            assert forall|k: int| 0 <= k < roots.len() implies #[trigger] round_taken(
                *isqrt,
                dex_type,
                pool_data@,
                reverse,
                start,
                roots.take(k),
                roots[k],
            ) by {
                if k < old_roots.len() {
                    assert(roots.take(k) =~= old_roots.take(k));
                    assert(roots[k] == old_roots[k]);
                } else {
                    assert(roots.take(k) =~= old_roots);
                }
            }
            assert forall|k: int| 0 <= k < roots.len() implies #[trigger] roots[k] <= MAX_ROOT by {
                if k < old_roots.len() {
                    assert(roots[k] == old_roots[k]);
                }
            }
            lemma_run_bounds(dex_type, pool_data@, reverse, start, roots);
        }
        best_amount = next_amount;
        best_profit = next_profit;
        amount = best_amount;
        iteration += 1;
    }
    assert(search_roots(*isqrt, dex_type, pool_data@, reverse, start, roots));
    Some((best_amount, best_profit))
}

/// Whether the best amount and profit `best` of a search from `start` over the square roots
/// `roots` are the best that its probes give: the profit is at least that of every probe and
/// never below zero; a profit of zero leaves the start amount; a positive profit is that of a
/// probed amount, which is the best amount.
pub open spec fn keeps_best_probe(
    dex_type: u8,
    pool: Seq<u8>,
    reverse: bool,
    start: u64,
    roots: Seq<u64>,
    best: (u64, int),
) -> bool {
    &&& best.1 >= 0
    &&& forall|k: int|
        0 <= k < roots.len() ==> best.1 >= probe_profit(dex_type, pool, reverse, probes(#[trigger] roots[k]).0)
            && best.1 >= probe_profit(dex_type, pool, reverse, probes(roots[k]).1)
    &&& best.1 == 0 ==> best.0 == start
    &&& best.1 > 0 ==> exists|k: int|
        0 <= k < roots.len() && (best.0 == probes(#[trigger] roots[k]).0 || best.0 == probes(roots[k]).1)
            && best.1 == probe_profit(dex_type, pool, reverse, best.0)
}

/// A search keeps the best probe it makes (see `keeps_best_probe`), whatever its square roots.
pub proof fn lemma_search_keeps_best(dex_type: u8, pool: Seq<u8>, reverse: bool, start: u64, roots: Seq<u64>)
    ensures
        keeps_best_probe(dex_type, pool, reverse, start, roots, search_run(dex_type, pool, reverse, (start, 0), roots)),
    decreases roots.len(),
{
    reveal(search_step);
    if roots.len() > 0 {
        let prefix = roots.drop_last();
        let root = roots.last();
        lemma_search_keeps_best(dex_type, pool, reverse, start, prefix);
        let before = search_run(dex_type, pool, reverse, (start, 0), prefix);
        let after = search_run(dex_type, pool, reverse, (start, 0), roots);
        assert(after == search_step(dex_type, pool, reverse, before, root));
        assert(root == roots[roots.len() - 1]);
        assert forall|k: int| 0 <= k < roots.len() implies after.1 >= probe_profit(dex_type, pool, reverse, probes(#[trigger] roots[k]).0)
            && after.1 >= probe_profit(dex_type, pool, reverse, probes(roots[k]).1) by {
            if k < prefix.len() {
                assert(roots[k] == prefix[k]);
            }
        }
        if after.1 > 0 {
            if after.0 == before.0 && after.1 == before.1 {
                let k = choose|k: int|
                    0 <= k < prefix.len() && (before.0 == probes(#[trigger] prefix[k]).0 || before.0 == probes(prefix[k]).1)
                        && before.1 == probe_profit(dex_type, pool, reverse, before.0);
                assert(roots[k] == prefix[k]);
            } else {
                assert(roots[roots.len() - 1] == root);
            }
        }
    }
}

/// A search from a start of at most 11000 takes no round: it records the start with no profit.
pub proof fn lemma_small_start_searches_nothing<F: Fn(u64) -> u64>(
    isqrt: F,
    dex_type: u8,
    pool: Seq<u8>,
    reverse: bool,
    start: u64,
    roots: Seq<u64>,
)
    requires
        start <= 11000,
        search_roots(isqrt, dex_type, pool, reverse, (start, 0), roots),
    ensures
        roots.len() == 0,
        search_run(dex_type, pool, reverse, (start, 0), roots) == (start, 0int),
{
    if roots.len() > 0 {
        assert(round_taken(isqrt, dex_type, pool, reverse, (start, 0), roots.take(0), roots[0]));
        reveal(round_taken);
        assert(roots.take(0) =~= Seq::<u64>::empty());
    }
}

/// The outcome that a search records: where there is nothing to search (see `strategy_start`)
/// nothing; without verification the start amount as the result; otherwise, for square roots
/// `roots` that the search takes (see `search_roots`), the best amount and profit it reaches.
pub open spec fn strategy_recorded<F: Fn(u64) -> u64>(
    isqrt: F,
    inputs: StrategyInputs,
    pool: Seq<u8>,
    before: ResultData,
    after: ResultData,
    r: bool,
) -> bool {
    match strategy_start(inputs) {
        None => !r && after == before,
        Some(s) => r && if !inputs.need_verify {
            after == (ResultData { result: s, ..before })
        } else {
            exists|roots: Seq<u64>|
                #[trigger] search_roots(isqrt, inputs.dex_type, pool, inputs.is_reverse, (s, 0), roots)
                    && after.result == search_run(inputs.dex_type, pool, inputs.is_reverse, (s, 0), roots).0
                    && after.profit == search_run(inputs.dex_type, pool, inputs.is_reverse, (s, 0), roots).1
        },
    }
}

/// Whether the search of `inputs` fits the machine's arithmetic: its start does, and where it
/// verifies, the search from its start is safe (see `search_safe`).
pub open spec fn strategy_safe<F: Fn(u64) -> u64>(isqrt: F, inputs: StrategyInputs, pool: Seq<u8>) -> bool {
    &&& strategy_start_fits(inputs)
    &&& inputs.need_verify ==> (strategy_start(inputs) matches Some(s) ==> search_safe(
        isqrt,
        inputs.dex_type,
        pool,
        inputs.is_reverse,
        s,
    ))
}

/// Searches for the most profitable trade size and records it, or gives none where the search
/// leaves the machine's arithmetic (and then records nothing). Where there is nothing to search
/// (see `strategy_start`) the result is `false` and nothing is recorded. Without verification
/// the start amount is recorded as the result. Otherwise the search runs (see `search_roots`,
/// with `isqrt` the square root of a quote, rounded down by the caller) and the best amount and
/// its profit are recorded; the result is `true`.
pub fn try_calculate_optimal_strategy_optimised<F: Fn(u64) -> u64>(
    inputs: StrategyInputs,
    pool_data: &[u8],
    result: &mut ResultData,
    isqrt: &F,
) -> (r: Option<bool>)
    requires
        strategy_start_fits(inputs),
        forall|q: u64| isqrt.requires((q,)),
        forall|q: u64, s: u64| isqrt.ensures((q,), s) ==> s <= MAX_ROOT,
    ensures
        r matches Some(b) ==> strategy_recorded(*isqrt, inputs, pool_data@, *old(result), *final(result), b),
        r is None ==> *final(result) == *old(result) && !strategy_safe(*isqrt, inputs, pool_data@),
        strategy_safe(*isqrt, inputs, pool_data@) ==> r is Some,
{
    let amount = match strategy_start_amount(inputs) {
        None => return Some(false),
        Some(a) => a,
    };
    if !inputs.need_verify {
        result.result = amount;
        return Some(true);
    }
    match run_search(inputs.dex_type, pool_data, inputs.is_reverse, amount, isqrt) {
        None => None,
        Some((best_amount, best_profit)) => {
            result.result = best_amount;
            result.profit = best_profit as u64;
            Some(true)
        },
    }
}

/// Searches for the most profitable trade size and records it (see
/// `try_calculate_optimal_strategy_optimised`), for a search that fits the machine's arithmetic.
pub fn calculate_optimal_strategy_optimised<F: Fn(u64) -> u64>(
    inputs: StrategyInputs,
    pool_data: &[u8],
    result: &mut ResultData,
    isqrt: &F,
) -> (r: bool)
    requires
        strategy_safe(*isqrt, inputs, pool_data@),
        forall|q: u64| isqrt.requires((q,)),
        forall|q: u64, s: u64| isqrt.ensures((q,), s) ==> s <= MAX_ROOT,
    ensures
        strategy_recorded(*isqrt, inputs, pool_data@, *old(result), *final(result), r),
{
    match try_calculate_optimal_strategy_optimised(inputs, pool_data, result, isqrt) {
        Some(b) => b,
        None => {
            assert(false);
            false
        },
    }
}

/// What a verified search records is the best of its probes: the recorded profit is never below
/// zero and at least that of every probe of the rounds taken; with no profit the start amount is
/// recorded, with a profit the probed amount that gives it; a start of at most 11000 is recorded
/// as it is, with no profit.
pub proof fn lemma_recorded_search_is_best<F: Fn(u64) -> u64>(
    isqrt: F,
    inputs: StrategyInputs,
    pool: Seq<u8>,
    before: ResultData,
    after: ResultData,
    r: bool,
)
    requires
        strategy_recorded(isqrt, inputs, pool, before, after, r),
        inputs.need_verify,
        strategy_start(inputs) is Some,
    ensures
        r,
        ({
            let s = strategy_start(inputs)->0;
            &&& exists|roots: Seq<u64>|
                #[trigger] search_roots(isqrt, inputs.dex_type, pool, inputs.is_reverse, (s, 0), roots)
                    && keeps_best_probe(
                    inputs.dex_type,
                    pool,
                    inputs.is_reverse,
                    s,
                    roots,
                    (after.result, after.profit as int),
                )
            &&& s <= 11000 ==> after.result == s && after.profit == 0
        }),
{
    let s = strategy_start(inputs)->0;
    let roots = choose|roots: Seq<u64>|
        #[trigger] search_roots(isqrt, inputs.dex_type, pool, inputs.is_reverse, (s, 0), roots)
            && after.result == search_run(inputs.dex_type, pool, inputs.is_reverse, (s, 0), roots).0
            && after.profit == search_run(inputs.dex_type, pool, inputs.is_reverse, (s, 0), roots).1;
    lemma_search_keeps_best(inputs.dex_type, pool, inputs.is_reverse, s, roots);
    if s <= 11000 {
        lemma_small_start_searches_nothing(isqrt, inputs.dex_type, pool, inputs.is_reverse, s, roots);
    }
}

/// The start of a search is the token amount of its direction grossed up by the fee and then
/// scaled by the multiplier in basis points: nothing where that amount does not exceed the
/// minimum; for an amount `a` up to the threshold whose grossed-up amount `g = a * 10000 / rate`
/// is also within it, `g * multiplier / 10000`, or nothing where that is at most 999. So a start
/// with multiplier `m` is `m / 10000` of the grossed-up amount, rounded down.
pub proof fn lemma_strategy_start_scales(p: StrategyInputs)
    ensures
        ({
            let a = if p.is_reverse { p.amount_b } else { p.amount_a };
            let rate: int = if p.swap_type == 1 { 9900 } else { 9975 };
            let g = a * 10000 / rate;
            &&& a <= p.min_amount ==> strategy_start(p) is None
            &&& a > p.min_amount && a <= LARGE_AMOUNT_THRESHOLD && g <= LARGE_AMOUNT_THRESHOLD
                ==> strategy_start(p) == if g * p.multiplier / 10000 <= 999 {
                None::<u64>
            } else {
                Some((g * p.multiplier / 10000) as u64)
            }
        }),
{
}

/// How the multiplier changes the start of a search: where the start with a multiplier of 10000
/// (the whole) is `g`, and both starts fit the machine's arithmetic, the start with multiplier `m` is `g * m / 10000`, wherever that exceeds
/// 999, and there is none where it does not.
pub proof fn lemma_strategy_start_multiplier(p: StrategyInputs, whole: StrategyInputs)
    requires
        whole == (StrategyInputs { multiplier: 10000, ..p }),
        strategy_start(whole) is Some,
        strategy_start_fits(whole),
        strategy_start_fits(p),
    ensures
        ({
            let g = strategy_start(whole)->0;
            &&& g * p.multiplier / 10000 > 999 ==> strategy_start(p) == Some((g * p.multiplier / 10000) as u64)
            &&& g * p.multiplier / 10000 <= 999 ==> strategy_start(p) is None
        }),
{
    let a = if p.is_reverse { p.amount_b } else { p.amount_a };
    let rate = strategy_fee_rate(p.swap_type);
    let grossed = gross_up(a as int, rate, a > LARGE_AMOUNT_THRESHOLD);
    let m = p.multiplier as int;
    assert(grossed >= 0) by (nonlinear_arith)
        requires
            a >= 0,
            rate > 0,
            grossed == if a > LARGE_AMOUNT_THRESHOLD { (a as int) / rate * 10000 } else { (a as int) * 10000 / rate },
    {
    }
    let g = strategy_start(whole)->0;
    if grossed > LARGE_AMOUNT_THRESHOLD {
        let k = grossed / 10000;
        assert(g == k * 10000);
        assert(k * 10000 * m / 10000 == k * m) by (nonlinear_arith)
            requires
                k >= 0,
                m >= 0,
        {
        }
        assert(portion(grossed, m, true) == k * m);
    } else {
        assert(grossed * 10000 / 10000 == grossed) by (nonlinear_arith)
            requires
                grossed >= 0,
        {
        }
        assert(g == grossed);
        assert(portion(grossed, m, false) == grossed * m / 10000);
    }
}

} // verus!
