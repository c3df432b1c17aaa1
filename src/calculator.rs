use vstd::prelude::*;

use crate::accumulator::{
    applied, average_price, empty_state, within_limits, AccumulatorState, PriceAccumulator,
};
use crate::transfer::{Transfer, UserStats, UserStatsView};

verus! {

/// The receiving side of `t` as seen by account `a`: a purchase of
/// `t.amount` at `t.usd_price` if `a` is the receiver.
pub open spec fn received(s: AccumulatorState, t: Transfer, a: Seq<char>) -> AccumulatorState {
    if t.to@ == a {
        applied(s, t.amount as int, t.usd_price as int)
    } else {
        s
    }
}

/// The sending side of `t` as seen by account `a`: a sale of `t.amount` at
/// `t.usd_price` if `a` is the sender.
pub open spec fn dispatched(s: AccumulatorState, t: Transfer, a: Seq<char>) -> AccumulatorState {
    if t.from@ == a {
        applied(s, -(t.amount as int), t.usd_price as int)
    } else {
        s
    }
}

/// State of account `a` after folding `ts` in order, each transfer as its
/// receipt followed by its dispatch.
pub open spec fn account_after(ts: Seq<Transfer>, a: Seq<char>) -> AccumulatorState
    decreases ts.len(),
{
    if ts.len() == 0 {
        empty_state()
    } else {
        let t = ts.last();
        dispatched(received(account_after(ts.drop_last(), a), t, a), t, a)
    }
}

/// `seen` with `a` appended unless it is already there.
pub open spec fn with_account(seen: Seq<Seq<char>>, a: Seq<char>) -> Seq<Seq<char>> {
    if seen.contains(a) {
        seen
    } else {
        seen.push(a)
    }
}

/// The accounts that take part in `ts`, each once, in order of first
/// appearance (a transfer's receiver before its sender).
pub open spec fn accounts(ts: Seq<Transfer>) -> Seq<Seq<char>>
    decreases ts.len(),
{
    if ts.len() == 0 {
        Seq::empty()
    } else {
        let t = ts.last();
        with_account(with_account(accounts(ts.drop_last()), t.to@), t.from@)
    }
}

/// Whether `a` is the sender or the receiver of `t`.
pub open spec fn involves(t: Transfer, a: Seq<char>) -> bool {
    t.to@ == a || t.from@ == a
}

/// Whether `a` sends or receives in at least one transfer of `ts`.
pub open spec fn participates(ts: Seq<Transfer>, a: Seq<char>) -> bool {
    exists|i: int| 0 <= i < ts.len() && #[trigger] involves(ts[i], a)
}

/// The reported summary of account `a` in state `s`.
pub open spec fn summary(a: Seq<char>, s: AccumulatorState) -> UserStatsView {
    UserStatsView {
        address: a,
        total_volume: s.buy_volume + s.sell_volume,
        avg_buy_price: average_price(s.weight_buy_amount, s.buy_volume),
        avg_sell_price: average_price(s.weight_sell_amount, s.sell_volume),
        max_balance: s.max_balance,
    }
}

/// One summary per participating account, in order of first appearance.
pub open spec fn user_stats_of(ts: Seq<Transfer>) -> Seq<UserStatsView> {
    accounts(ts).map_values(|a: Seq<char>| summary(a, account_after(ts, a)))
}

/// Sum of all transferred amounts.
pub open spec fn total_amount(ts: Seq<Transfer>) -> int {
    ts.fold_left(0int, |acc: int, t: Transfer| acc + t.amount)
}

/// Sum of all transferred values (amount times unit price).
pub open spec fn total_value(ts: Seq<Transfer>) -> int {
    ts.fold_left(0int, |acc: int, t: Transfer| acc + t.amount * t.usd_price)
}

/// Adds a transfer's quantity to a running sum when `a` receives it.
pub open spec fn add_received(a: Seq<char>) -> spec_fn(int, Transfer) -> int {
    |acc: int, t: Transfer| acc + if t.to@ == a { t.amount as int } else { 0 }
}

/// Adds a transfer's quantity to a running sum when `a` sends it.
pub open spec fn add_sent(a: Seq<char>) -> spec_fn(int, Transfer) -> int {
    |acc: int, t: Transfer| acc + if t.from@ == a { t.amount as int } else { 0 }
}

/// Adds a transfer's value to a running sum when `a` receives it.
pub open spec fn add_received_value(a: Seq<char>) -> spec_fn(int, Transfer) -> int {
    |acc: int, t: Transfer| acc + if t.to@ == a { t.amount * t.usd_price } else { 0 }
}

/// Adds a transfer's value to a running sum when `a` sends it.
pub open spec fn add_sent_value(a: Seq<char>) -> spec_fn(int, Transfer) -> int {
    |acc: int, t: Transfer| acc + if t.from@ == a { t.amount * t.usd_price } else { 0 }
}

/// Quantity that `a` received over `ts`.
pub open spec fn received_amount(ts: Seq<Transfer>, a: Seq<char>) -> int {
    ts.fold_left(0int, add_received(a))
}

/// Quantity that `a` sent over `ts`.
pub open spec fn sent_amount(ts: Seq<Transfer>, a: Seq<char>) -> int {
    ts.fold_left(0int, add_sent(a))
}

/// Value that `a` paid for what it received over `ts`.
pub open spec fn received_value(ts: Seq<Transfer>, a: Seq<char>) -> int {
    ts.fold_left(0int, add_received_value(a))
}

/// Value that `a` was paid for what it sent over `ts`.
pub open spec fn sent_value(ts: Seq<Transfer>, a: Seq<char>) -> int {
    ts.fold_left(0int, add_sent_value(a))
}

/// The whole run fits the accumulators' machine integers: every balance and
/// volume within `i128`, every traded value within `u128`.
pub open spec fn fits_accumulators(ts: Seq<Transfer>) -> bool {
    total_amount(ts) <= i128::MAX && total_value(ts) <= u128::MAX
}

/// The figures of an account after `ts` are the sums of what it received
/// and sent, and its peak balance lies between its final balance and what
/// it received.
pub proof fn lemma_account_sums(ts: Seq<Transfer>, a: Seq<char>)
    ensures
        account_after(ts, a).buy_volume == received_amount(ts, a),
        account_after(ts, a).sell_volume == sent_amount(ts, a),
        account_after(ts, a).weight_buy_amount == received_value(ts, a),
        account_after(ts, a).weight_sell_amount == sent_value(ts, a),
        account_after(ts, a).balance == received_amount(ts, a) - sent_amount(ts, a),
        account_after(ts, a).balance <= account_after(ts, a).max_balance,
        0 <= account_after(ts, a).max_balance <= received_amount(ts, a),
        0 <= sent_amount(ts, a),
    decreases ts.len(),
{
    if ts.len() > 0 {
        let t = ts.last();
        lemma_account_sums(ts.drop_last(), a);
        assert(t.amount * t.usd_price >= 0) by (nonlinear_arith);
        assert(t.amount == 0 ==> t.amount * t.usd_price == 0) by (nonlinear_arith);
    }
}

/// Each account's share of the totals is bounded by the totals.
pub proof fn lemma_shares_within_totals(ts: Seq<Transfer>, a: Seq<char>)
    ensures
        0 <= received_amount(ts, a) <= total_amount(ts),
        0 <= sent_amount(ts, a) <= total_amount(ts),
        0 <= received_value(ts, a) <= total_value(ts),
        0 <= sent_value(ts, a) <= total_value(ts),
    decreases ts.len(),
{
    if ts.len() > 0 {
        let t = ts.last();
        lemma_shares_within_totals(ts.drop_last(), a);
        assert(t.amount * t.usd_price >= 0) by (nonlinear_arith);
    }
}

/// A prefix of a run that fits the accumulators fits them too.
pub proof fn lemma_prefix_fits(ts: Seq<Transfer>, i: int)
    requires
        fits_accumulators(ts),
        0 <= i <= ts.len(),
    ensures
        fits_accumulators(ts.take(i)),
    decreases ts.len(),
{
    if i < ts.len() {
        let t = ts.last();
        assert(t.amount * t.usd_price >= 0) by (nonlinear_arith);
        lemma_shares_within_totals(ts.drop_last(), Seq::empty());
        assert(ts.drop_last().take(i) == ts.take(i));
        lemma_prefix_fits(ts.drop_last(), i);
    } else {
        assert(ts.take(i) == ts);
    }
}

/// In a run that fits, every account stays within the machine integers,
/// also halfway through the last transfer.
pub proof fn lemma_account_within_limits(ts: Seq<Transfer>, a: Seq<char>)
    requires
        fits_accumulators(ts),
    ensures
        within_limits(account_after(ts, a)),
        ts.len() > 0 ==> within_limits(
            received(account_after(ts.drop_last(), a), ts.last(), a),
        ),
{
    lemma_account_sums(ts, a);
    lemma_shares_within_totals(ts, a);
    if ts.len() > 0 {
        let t = ts.last();
        let prev = ts.drop_last();
        lemma_account_sums(prev, a);
        lemma_shares_within_totals(prev, a);
        assert(t.amount * t.usd_price >= 0) by (nonlinear_arith);
    }
}

/// The addresses held by a list of strings.
pub open spec fn keys_of(addresses: Seq<String>) -> Seq<Seq<char>> {
    addresses.map_values(|s: String| s@)
}

/// The running book of the fold over `ts`: one entry per account of `ts`, in
/// order of first appearance, each holding that account's state.
pub open spec fn ledger(
    addresses: Seq<String>,
    accumulators: Seq<PriceAccumulator>,
    ts: Seq<Transfer>,
) -> bool {
    &&& addresses.len() == accumulators.len()
    &&& keys_of(addresses) == accounts(ts)
    &&& forall|j: int|
        0 <= j < accumulators.len() ==> #[trigger] accumulators[j]@ == account_after(
            ts,
            accounts(ts)[j],
        )
}

pub proof fn lemma_with_account_contains(seen: Seq<Seq<char>>, a: Seq<char>, b: Seq<char>)
    ensures
        with_account(seen, a).contains(b) <==> (seen.contains(b) || b == a),
{
    if !seen.contains(a) {
        assert(seen.push(a)[seen.len() as int] == a);
        if seen.push(a).contains(b) && b != a {
            let j = choose|j: int| 0 <= j < seen.push(a).len() && seen.push(a)[j] == b;
            assert(seen[j] == b);
        }
        if seen.contains(b) {
            let j = choose|j: int| 0 <= j < seen.len() && seen[j] == b;
            assert(seen.push(a)[j] == b);
        }
    }
}

/// Appending an address that is not there keeps a list free of repeats.
pub proof fn lemma_push_distinct(seen: Seq<Seq<char>>, a: Seq<char>)
    requires
        seen.no_duplicates(),
        !seen.contains(a),
    ensures
        seen.push(a).no_duplicates(),
{
    let longer = seen.push(a);
    assert forall|i: int, j: int|
        0 <= i < longer.len() && 0 <= j < longer.len() && i != j implies longer[i] != longer[j] by {
        if j == seen.len() {
            assert(longer[i] == seen[i]);
        }
        if i == seen.len() {
            assert(longer[j] == seen[j]);
        }
    }
}

/// Each account is listed once.
pub proof fn lemma_accounts_distinct(ts: Seq<Transfer>)
    ensures
        accounts(ts).no_duplicates(),
    decreases ts.len(),
{
    if ts.len() > 0 {
        let t = ts.last();
        let prev = accounts(ts.drop_last());
        lemma_accounts_distinct(ts.drop_last());
        if !prev.contains(t.to@) {
            lemma_push_distinct(prev, t.to@);
        }
        let mid = with_account(prev, t.to@);
        if !mid.contains(t.from@) {
            lemma_push_distinct(mid, t.from@);
        }
    }
}

/// An account is listed exactly when it takes part in some transfer; one
/// that is not listed still has the empty state.
pub proof fn lemma_accounts_are_participants(ts: Seq<Transfer>, a: Seq<char>)
    ensures
        accounts(ts).contains(a) <==> participates(ts, a),
        !accounts(ts).contains(a) ==> account_after(ts, a) == empty_state(),
    decreases ts.len(),
{
    if ts.len() > 0 {
        let t = ts.last();
        let prev = ts.drop_last();
        lemma_accounts_are_participants(prev, a);
        lemma_with_account_contains(accounts(prev), t.to@, a);
        lemma_with_account_contains(with_account(accounts(prev), t.to@), t.from@, a);
        if participates(prev, a) {
            let i = choose|i: int| 0 <= i < prev.len() && #[trigger] involves(prev[i], a);
            assert(ts[i] == prev[i]);
        }
        if participates(ts, a) && !participates(prev, a) {
            let i = choose|i: int| 0 <= i < ts.len() && #[trigger] involves(ts[i], a);
            if i < prev.len() {
                assert(prev[i] == ts[i]);
            }
        }
        if involves(t, a) {
            assert(ts[ts.len() - 1] == t);
        }
    }
}

/// Index of the entry for `address`, appending a fresh empty entry when
/// there is none yet.
fn slot_for(
    addresses: &mut Vec<String>,
    accumulators: &mut Vec<PriceAccumulator>,
    address: &String,
) -> (k: usize)
    requires
        old(addresses)@.len() == old(accumulators)@.len(),
    ensures
        keys_of(final(addresses)@) == with_account(keys_of(old(addresses)@), address@),
        final(accumulators)@.len() == final(addresses)@.len(),
        k < final(addresses)@.len(),
        keys_of(final(addresses)@)[k as int] == address@,
        forall|j: int|
            0 <= j < old(accumulators)@.len() ==> final(accumulators)@[j] == old(
                accumulators,
            )@[j],
        k >= old(accumulators)@.len() ==> final(accumulators)@[k as int]@ == empty_state(),
{
    let mut j: usize = 0;
    while j < addresses.len()
        invariant
            j <= addresses@.len(),
            old(addresses)@.len() == old(accumulators)@.len(),
            addresses@ == old(addresses)@,
            accumulators@ == old(accumulators)@,
            forall|m: int| 0 <= m < j ==> addresses@[m]@ != address@,
        decreases addresses@.len() - j,
    {
        if addresses[j] == *address {
            proof {
                assert(keys_of(addresses@)[j as int] == address@);
            }
            return j;
        }
        j = j + 1;
    }
    proof {
        assert(!keys_of(addresses@).contains(address@)) by {
            if keys_of(addresses@).contains(address@) {
                let m = choose|m: int|
                    0 <= m < keys_of(addresses@).len() && keys_of(addresses@)[m] == address@;
                assert(addresses@[m]@ == address@);
            }
        }
    }
    addresses.push(address.clone());
    accumulators.push(PriceAccumulator::default());
    proof {
        assert(keys_of(addresses@) == keys_of(old(addresses)@).push(address@));
    }
    j
}

/// Folds `transfers`, in the given order, into one summary per account that
/// sends or receives in them, listed in order of first appearance.
///
/// Transfers are expected in ascending timestamp order: any other order
/// leaves volumes and average prices as they are but changes the reported
/// peak balances.
pub fn calculate_user_stats(transfers: &[Transfer]) -> (r: Vec<UserStats>)
    requires
        fits_accumulators(transfers@),
    ensures
        r@.map_values(|u: UserStats| u@) == user_stats_of(transfers@),
{
    let mut addresses: Vec<String> = Vec::new();
    let mut accumulators: Vec<PriceAccumulator> = Vec::new();
    let mut i: usize = 0;
    proof {
        assert(transfers@.take(0) == Seq::<Transfer>::empty());
        assert(keys_of(addresses@) == Seq::<Seq<char>>::empty());
    }
    while i < transfers.len()
        invariant
            i <= transfers@.len(),
            fits_accumulators(transfers@),
            ledger(addresses@, accumulators@, transfers@.take(i as int)),
        decreases transfers@.len() - i,
    {
        let t = &transfers[i];
        let ghost prefix = transfers@.take(i as int);
        let ghost next = transfers@.take(i + 1);
        let ghost before = accumulators@;
        proof {
            assert(next.drop_last() == prefix);
            assert(next.last() == *t);
            lemma_prefix_fits(transfers@, i + 1);
            lemma_account_within_limits(next, t.to@);
            lemma_account_within_limits(next, t.from@);
            lemma_accounts_distinct(prefix);
            lemma_accounts_distinct(next);
            lemma_accounts_are_participants(prefix, t.to@);
            lemma_accounts_are_participants(prefix, t.from@);
            lemma_with_account_contains(accounts(prefix), t.to@, t.from@);
        }
        let k = slot_for(&mut addresses, &mut accumulators, &t.to);
        let ghost mid_keys = keys_of(addresses@);
        accumulators[k].accumulate(t.amount as i128, t.usd_price);
        proof {
            assert forall|j: int| 0 <= j < accumulators@.len() implies #[trigger] accumulators@[j]@
                == received(account_after(prefix, mid_keys[j]), *t, mid_keys[j]) by {
                if j != k {
                    assert(mid_keys[j] != mid_keys[k as int]) by {
                        assert(mid_keys == with_account(accounts(prefix), t.to@));
                        assert(mid_keys == accounts(prefix) || mid_keys == accounts(prefix).push(t.to@));
                        lemma_accounts_distinct(next);
                    }
                }
            }
        }
        let ghost mid = accumulators@;
        let h = slot_for(&mut addresses, &mut accumulators, &t.from);
        proof {
            assert(keys_of(addresses@) == accounts(next));
            if h >= mid.len() {
                assert(!mid_keys.contains(t.from@));
                assert(account_after(prefix, t.from@) == empty_state());
            } else {
                assert(accumulators@[h as int] == mid[h as int]);
                assert(mid_keys[h as int] == t.from@);
            }
            assert(accumulators@[h as int]@ == received(account_after(prefix, t.from@), *t, t.from@));
        }
        accumulators[h].accumulate(-(t.amount as i128), t.usd_price);
        proof {
            assert forall|j: int| 0 <= j < accumulators@.len() implies #[trigger] accumulators@[j]@
                == account_after(next, accounts(next)[j]) by {
                if j != h {
                    assert(accounts(next)[j] != accounts(next)[h as int]);
                    assert(accounts(next)[j] == mid_keys[j]);
                    assert(accumulators@[j] == mid[j]);
                }
            }
        }
        i = i + 1;
    }
    proof {
        assert(transfers@.take(transfers@.len() as int) == transfers@);
    }
    let mut stats: Vec<UserStats> = Vec::new();
    let mut j: usize = 0;
    while j < addresses.len()
        invariant
            j <= addresses@.len(),
            fits_accumulators(transfers@),
            ledger(addresses@, accumulators@, transfers@),
            stats@.len() == j,
            forall|m: int|
                0 <= m < j ==> #[trigger] stats@[m]@ == summary(
                    accounts(transfers@)[m],
                    account_after(transfers@, accounts(transfers@)[m]),
                ),
        decreases addresses@.len() - j,
    {
        let acc = &accumulators[j];
        proof {
            lemma_account_within_limits(transfers@, accounts(transfers@)[j as int]);
            assert(keys_of(addresses@)[j as int] == addresses@[j as int]@);
            assert(accumulators@[j as int]@ == account_after(transfers@, accounts(transfers@)[j as int]));
        }
        let entry = UserStats {
            address: addresses[j].clone(),
            total_volume: acc.total_volume(),
            avg_buy_price: acc.avg_buy_price(),
            avg_sell_price: acc.avg_sell_price(),
            max_balance: acc.max_balance(),
        };
        stats.push(entry);
        j = j + 1;
    }
    proof {
        assert(stats@.map_values(|u: UserStats| u@) == user_stats_of(transfers@));
    }
    stats
}

/// Whether `transfers` fits the accumulators, so that
/// [`calculate_user_stats`] may be called on it.
pub fn fits_accumulator_limits(transfers: &[Transfer]) -> (r: bool)
    ensures
        r == fits_accumulators(transfers@),
{
    let mut amount_sum: u128 = 0;
    let mut value_sum: u128 = 0;
    let mut i: usize = 0;
    proof {
        assert(transfers@.take(0) == Seq::<Transfer>::empty());
    }
    while i < transfers.len()
        invariant
            i <= transfers@.len(),
            amount_sum == total_amount(transfers@.take(i as int)),
            value_sum == total_value(transfers@.take(i as int)),
            amount_sum <= i128::MAX,
        decreases transfers@.len() - i,
    {
        let t = &transfers[i];
        let ghost next = transfers@.take(i + 1);
        proof {
            assert(next.drop_last() == transfers@.take(i as int));
            assert(next.last() == *t);
        }
        let amount = t.amount as u128;
        assert(amount * (t.usd_price as u128) <= u64::MAX * u64::MAX) by (nonlinear_arith)
            requires
                amount <= u64::MAX,
                t.usd_price <= u64::MAX,
        ;
        let value = amount * (t.usd_price as u128);
        if amount_sum + amount > i128::MAX as u128 || value_sum > u128::MAX - value {
            proof {
                assert(!fits_accumulators(next));
                if fits_accumulators(transfers@) {
                    lemma_prefix_fits(transfers@, i + 1);
                }
            }
            return false;
        }
        amount_sum = amount_sum + amount;
        value_sum = value_sum + value;
        i = i + 1;
    }
    proof {
        assert(transfers@.take(transfers@.len() as int) == transfers@);
    }
    true
}

/// Something that reports per-account statistics for a sequence of transfers.
pub trait CalculatesStats {
    fn calculate_user_stats(&self, transfers: &[Transfer]) -> (r: Vec<UserStats>)
        requires
            fits_accumulators(transfers@),
        ensures
            r@.map_values(|u: UserStats| u@) == user_stats_of(transfers@),
    ;
}

/// The in-memory statistics engine.
pub struct StatsCalculator;

impl StatsCalculator {
    pub fn new() -> (r: StatsCalculator) {
        StatsCalculator
    }
}

impl CalculatesStats for StatsCalculator {
    fn calculate_user_stats(&self, transfers: &[Transfer]) -> (r: Vec<UserStats>) {
        calculate_user_stats(transfers)
    }
}

} // verus!
