use vstd::prelude::*;
use vstd::seq_lib::{commutative_foldl, lemma_fold_left_permutation};

use crate::accumulator::AccumulatorState;
use crate::calculator::{
    account_after, accounts, add_received, add_received_value, add_sent, add_sent_value, lemma_account_sums, lemma_accounts_are_participants,
    lemma_accounts_distinct, participates, received_amount, received_value, sent_amount,
    sent_value, summary, user_stats_of,
};
use crate::transfer::{Transfer, UserStatsView};

verus! {

/// Reordering a run (the same transfers, as a multiset) changes neither the
/// volumes nor the weighted prices of any account, hence neither its total
/// volume nor its average buy and sell prices; the total volume is always the
/// bought plus the sold quantity.
pub proof fn law_volumes_and_prices_ignore_order(
    first: Seq<Transfer>,
    second: Seq<Transfer>,
    a: Seq<char>,
)
    requires
        first.to_multiset() == second.to_multiset(),
    ensures
        account_after(first, a).buy_volume == account_after(second, a).buy_volume,
        account_after(first, a).sell_volume == account_after(second, a).sell_volume,
        account_after(first, a).weight_buy_amount == account_after(second, a).weight_buy_amount,
        account_after(first, a).weight_sell_amount == account_after(
            second,
            a,
        ).weight_sell_amount,
        summary(a, account_after(first, a)).total_volume == summary(
            a,
            account_after(second, a),
        ).total_volume,
        summary(a, account_after(first, a)).avg_buy_price == summary(
            a,
            account_after(second, a),
        ).avg_buy_price,
        summary(a, account_after(first, a)).avg_sell_price == summary(
            a,
            account_after(second, a),
        ).avg_sell_price,
        summary(a, account_after(first, a)).total_volume == account_after(first, a).buy_volume
            + account_after(first, a).sell_volume,
{
    lemma_account_sums(first, a);
    lemma_account_sums(second, a);
    assert(commutative_foldl(add_received(a)));
    assert(commutative_foldl(add_sent(a)));
    assert(commutative_foldl(add_received_value(a)));
    assert(commutative_foldl(add_sent_value(a)));
    lemma_fold_left_permutation(first, second, add_received(a), 0);
    lemma_fold_left_permutation(first, second, add_sent(a), 0);
    lemma_fold_left_permutation(first, second, add_received_value(a), 0);
    lemma_fold_left_permutation(first, second, add_sent_value(a), 0);
    assert(received_amount(first, a) == received_amount(second, a));
    assert(sent_amount(first, a) == sent_amount(second, a));
    assert(received_value(first, a) == received_value(second, a));
    assert(sent_value(first, a) == sent_value(second, a));
}

/// An address is reported exactly when it sends or receives in some
/// transfer, and no address is reported twice.
pub proof fn law_only_participants_reported(ts: Seq<Transfer>, a: Seq<char>)
    ensures
        (exists|j: int| 0 <= j < user_stats_of(ts).len() && #[trigger] user_stats_of(ts)[j].address == a)
            <==> participates(ts, a),
        forall|i: int, j: int|
            0 <= i < user_stats_of(ts).len() && 0 <= j < user_stats_of(ts).len() && i != j
                ==> #[trigger] user_stats_of(ts)[i].address != #[trigger] user_stats_of(ts)[j].address,
{
    lemma_accounts_are_participants(ts, a);
    lemma_accounts_distinct(ts);
    let listed = accounts(ts);
    if participates(ts, a) {
        let j = choose|j: int| 0 <= j < listed.len() && listed[j] == a;
        assert(user_stats_of(ts)[j].address == a);
    }
    if exists|j: int| 0 <= j < user_stats_of(ts).len() && #[trigger] user_stats_of(ts)[j].address == a {
        let j = choose|j: int| 0 <= j < user_stats_of(ts).len() && #[trigger] user_stats_of(ts)[j].address == a;
        assert(listed[j] == a);
    }
    assert forall|i: int, j: int|
        0 <= i < user_stats_of(ts).len() && 0 <= j < user_stats_of(ts).len() && i != j
            implies #[trigger] user_stats_of(ts)[i].address != #[trigger] user_stats_of(ts)[j].address by {
        assert(user_stats_of(ts)[i].address == listed[i]);
        assert(user_stats_of(ts)[j].address == listed[j]);
    }
}

/// The report is a function of the input alone: two runs over the same
/// transfers in the same order report the same summaries.
pub proof fn law_repeatable(ts: Seq<Transfer>, first: Seq<UserStatsView>, second: Seq<UserStatsView>)
    requires
        first == user_stats_of(ts),
        second == user_stats_of(ts),
    ensures
        first == second,
{
}

} // verus!
