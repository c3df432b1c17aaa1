use vstd::prelude::*;

use crate::transfer::{Transfer, TransferOrdering};

verus! {

broadcast use vstd::seq_lib::group_to_multiset_ensures;

/// Name of the table that holds the transfers.
pub const TABLE: &'static str = "transfers";

/// The key that `ordering` sorts by: the timestamp, or the amount for
/// [`TransferOrdering::ByVolume`].
pub open spec fn sort_key(t: Transfer, ordering: TransferOrdering) -> int {
    match ordering {
        TransferOrdering::ByVolume => t.amount as int,
        _ => t.ts as int,
    }
}

/// `s` is in ascending order of `sort_key`.
pub open spec fn sorted_by(s: Seq<Transfer>, ordering: TransferOrdering) -> bool {
    forall|i: int, j: int|
        0 <= i <= j < s.len() ==> sort_key(#[trigger] s[i], ordering) <= sort_key(
            #[trigger] s[j],
            ordering,
        )
}

/// What `get_sorted` hands out from the stored `stored`: the stored order
/// for [`TransferOrdering::Raw`], otherwise the same transfers in ascending
/// order of the ordering's key.
pub open spec fn arranged(r: Seq<Transfer>, stored: Seq<Transfer>, ordering: TransferOrdering) -> bool {
    if ordering == TransferOrdering::Raw {
        r == stored
    } else {
        r.to_multiset() == stored.to_multiset() && sorted_by(r, ordering)
    }
}

fn key_of(t: &Transfer, ordering: TransferOrdering) -> (k: u64)
    ensures
        k == sort_key(*t, ordering),
{
    match ordering {
        TransferOrdering::ByVolume => t.amount,
        _ => t.ts,
    }
}

/// A field-by-field copy of a sequence of transfers.
pub fn copy_transfers(items: &[Transfer]) -> (r: Vec<Transfer>)
    ensures
        r@ == items@,
{
    let mut out: Vec<Transfer> = Vec::new();
    let mut i: usize = 0;
    while i < items.len()
        invariant
            i <= items@.len(),
            out@ == items@.take(i as int),
        decreases items@.len() - i,
    {
        out.push(items[i].duplicate());
        proof {
            assert(out@ == items@.take(i + 1));
        }
        i = i + 1;
    }
    proof {
        assert(items@.take(items@.len() as int) == items@);
    }
    out
}

/// A copy of `items` in ascending order of `ordering`'s key; transfers with
/// equal keys keep their relative order.
fn sorted_copy(items: &[Transfer], ordering: TransferOrdering) -> (r: Vec<Transfer>)
    ensures
        r@.to_multiset() == items@.to_multiset(),
        sorted_by(r@, ordering),
{
    let mut out: Vec<Transfer> = Vec::new();
    let mut i: usize = 0;
    proof {
        assert(items@.take(0) == Seq::<Transfer>::empty());
    }
    while i < items.len()
        invariant
            i <= items@.len(),
            out@.to_multiset() == items@.take(i as int).to_multiset(),
            sorted_by(out@, ordering),
        decreases items@.len() - i,
    {
        let t = items[i].duplicate();
        let key = key_of(&t, ordering);
        let mut p: usize = out.len();
        while p > 0 && key_of(&out[p - 1], ordering) > key
            invariant
                p <= out@.len(),
                forall|m: int| p <= m < out@.len() ==> sort_key(#[trigger] out@[m], ordering) > key,
            decreases p,
        {
            p = p - 1;
        }
        let ghost before = out@;
        out.insert(p, t);
        proof {
            assert(items@.take(i + 1) == items@.take(i as int).push(items@[i as int]));
            assert forall|a: int, b: int| 0 <= a <= b < out@.len() implies sort_key(
                #[trigger] out@[a],
                ordering,
            ) <= sort_key(#[trigger] out@[b], ordering) by {
                if a < p && b > p {
                    assert(out@[a] == before[a]);
                    assert(out@[b] == before[b - 1]);
                } else if a < p && b == p {
                    assert(out@[a] == before[a]);
                    assert(sort_key(before[p - 1], ordering) <= key);
                } else if a == p && b > p {
                    assert(out@[b] == before[b - 1]);
                } else if a < p {
                    assert(out@[a] == before[a]);
                    assert(out@[b] == before[b]);
                } else if a > p {
                    assert(out@[a] == before[a - 1]);
                    assert(out@[b] == before[b - 1]);
                }
            }
        }
        i = i + 1;
    }
    proof {
        assert(items@.take(items@.len() as int) == items@);
    }
    out
}

/// In-memory storage for tests: keeps the transfers it was last given.
pub struct MockStorage {
    transfers: Vec<Transfer>,
}

impl View for MockStorage {
    type V = Seq<Transfer>;

    closed spec fn view(&self) -> Seq<Transfer> {
        self.transfers@
    }
}

impl Default for MockStorage {
    fn default() -> (r: MockStorage)
        ensures
            r@ == Seq::<Transfer>::empty(),
    {
        MockStorage { transfers: Vec::new() }
    }
}

impl MockStorage {
    /// The stored transfers in the order that `ordering` asks for.
    pub fn get_sorted(&self, ordering: TransferOrdering) -> (r: Vec<Transfer>)
        ensures
            arranged(r@, self@, ordering),
    {
        match ordering {
            TransferOrdering::Raw => copy_transfers(self.transfers.as_slice()),
            _ => sorted_copy(self.transfers.as_slice(), ordering),
        }
    }

    /// The stored transfers in ascending timestamp order.
    pub fn get_chronologically(&self) -> (r: Vec<Transfer>)
        ensures
            arranged(r@, self@, TransferOrdering::Chronological),
    {
        self.get_sorted(TransferOrdering::Chronological)
    }

    /// Replaces what is stored with `transfers`.
    pub fn insert_all(&mut self, transfers: &[Transfer])
        ensures
            final(self)@ == transfers@,
    {
        self.transfers = copy_transfers(transfers);
    }
}

/// Text of the `ORDER BY` clause for `ordering`.
pub open spec fn clause_of(ordering: TransferOrdering) -> Seq<char> {
    match ordering {
        TransferOrdering::Raw => ""@,
        TransferOrdering::Chronological => " ORDER BY ts ASC"@,
        TransferOrdering::ByVolume => " ORDER BY amount DESC"@,
    }
}

impl TransferOrdering {
    /// The `ORDER BY` clause, with its leading space, that asks the database
    /// for this ordering; empty for [`TransferOrdering::Raw`].
    pub fn order_by_clause(&self) -> (r: &'static str)
        ensures
            r@ == clause_of(*self),
    {
        match self {
            TransferOrdering::Raw => "",
            TransferOrdering::Chronological => " ORDER BY ts ASC",
            TransferOrdering::ByVolume => " ORDER BY amount DESC",
        }
    }
}

/// The query that reads every transfer in the given order; `?` stands for
/// the table name, bound as an identifier.
pub fn select_query(ordering: TransferOrdering) -> (r: String)
    ensures
        r@ == "SELECT * from ? "@ + clause_of(ordering),
{
    let mut query = String::from_str("SELECT * from ? ");
    query.append(ordering.order_by_clause());
    query
}

#[verifier::external_type_specification]
#[verifier::external_body]
pub struct ExClient(clickhouse::Client);

#[verifier::external_type_specification]
#[verifier::external_body]
pub struct ExClickhouseError(clickhouse::error::Error);

/// Relies on the `Display` impl of `clickhouse::error::Error`: the error's
/// text, carried along for the operator and never inspected.
#[verifier::external_body]
fn describe(e: &clickhouse::error::Error) -> String {
    e.to_string()
}

/// Storage backed by a ClickHouse table, reached through `client`.
pub struct ClickhouseStorage {
    client: clickhouse::Client,
}

impl ClickhouseStorage {
    /// The client that the storage talks through.
    pub closed spec fn handle(&self) -> clickhouse::Client {
        self.client
    }

    pub fn new(client: clickhouse::Client) -> (r: ClickhouseStorage)
        ensures
            r.handle() == client,
    {
        ClickhouseStorage { client }
    }

    pub fn client(&self) -> (r: &clickhouse::Client)
        ensures
            *r == self.handle(),
    {
        &self.client
    }
}

/// A storage failure: what was being done, and why it failed.
#[derive(Debug, Clone, PartialEq, Eq)]
pub struct StorageError {
    pub context: String,
    pub cause: String,
}

impl StorageError {
    /// `context: cause`.
    pub fn message(&self) -> (r: String)
        ensures
            r@ == self.context@ + ": "@ + self.cause@,
    {
        let mut text = self.context.clone();
        text.append(": ");
        text.append(self.cause.as_str());
        text
    }
}

/// Attaches a description of the failed operation to a storage result.
pub trait StorageResult<T>: Sized {
    fn with_context(self, context: &str) -> Result<T, StorageError>;
}

impl<T> StorageResult<T> for Result<T, clickhouse::error::Error> {
    fn with_context(self, context: &str) -> (r: Result<T, StorageError>)
        ensures
            self is Ok ==> r == Ok::<T, StorageError>(self->Ok_0),
            self is Err ==> r is Err && r->Err_0.context@ == context@,
    {
        match self {
            Ok(value) => Ok(value),
            Err(e) => Err(StorageError { context: context.to_string(), cause: describe(&e) }),
        }
    }
}

} // verus!
