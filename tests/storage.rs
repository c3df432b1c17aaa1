use transfer_analytics::{
    copy_transfers, select_query, MockStorage, StorageError, StorageResult, Transfer,
    TransferOrdering, TABLE,
};

fn stamped(ts: u64, amount: u64) -> Transfer {
    Transfer {
        ts,
        amount,
        ..Default::default()
    }
}

#[test]
fn mock_storage_sorts_chronologically() {
    let mut storage = MockStorage::default();
    storage.insert_all(&[stamped(200, 1), stamped(600, 2), stamped(100, 3)]);

    let res = storage.get_sorted(TransferOrdering::Chronological);

    assert_eq!(res, vec![stamped(100, 3), stamped(200, 1), stamped(600, 2)]);
    assert_eq!(storage.get_chronologically(), res);
}

#[test]
fn mock_storage_keeps_raw_order() {
    let mut storage = MockStorage::default();
    storage.insert_all(&[stamped(200, 1), stamped(600, 2), stamped(100, 3)]);
    assert_eq!(
        storage.get_sorted(TransferOrdering::Raw),
        vec![stamped(200, 1), stamped(600, 2), stamped(100, 3)]
    );
}

#[test]
fn mock_storage_sorts_by_amount() {
    let mut storage = MockStorage::default();
    storage.insert_all(&[stamped(1, 30), stamped(2, 10), stamped(3, 20)]);
    assert_eq!(
        storage.get_sorted(TransferOrdering::ByVolume),
        vec![stamped(2, 10), stamped(3, 20), stamped(1, 30)]
    );
}

#[test]
fn mock_storage_sort_keeps_ties_in_order() {
    let mut storage = MockStorage::default();
    storage.insert_all(&[stamped(5, 1), stamped(1, 2), stamped(5, 3), stamped(1, 4)]);
    assert_eq!(
        storage.get_chronologically(),
        vec![stamped(1, 2), stamped(1, 4), stamped(5, 1), stamped(5, 3)]
    );
}

#[test]
fn mock_storage_insert_replaces() {
    let mut storage = MockStorage::default();
    assert!(storage.get_sorted(TransferOrdering::Raw).is_empty());
    storage.insert_all(&[stamped(1, 1)]);
    storage.insert_all(&[stamped(2, 2), stamped(3, 3)]);
    assert_eq!(
        storage.get_sorted(TransferOrdering::Raw),
        vec![stamped(2, 2), stamped(3, 3)]
    );
}

#[test]
fn copying_transfers_keeps_them() {
    let items = vec![stamped(9, 8), stamped(7, 6)];
    assert_eq!(copy_transfers(&items), items);
}

#[test]
fn order_by_clauses() {
    assert_eq!(TransferOrdering::Raw.order_by_clause(), "");
    assert_eq!(
        TransferOrdering::Chronological.order_by_clause(),
        " ORDER BY ts ASC"
    );
    assert_eq!(
        TransferOrdering::ByVolume.order_by_clause(),
        " ORDER BY amount DESC"
    );
    assert_eq!(
        select_query(TransferOrdering::Chronological),
        "SELECT * from ?  ORDER BY ts ASC"
    );
    assert_eq!(select_query(TransferOrdering::Raw), "SELECT * from ? ");
    assert_eq!(TABLE, "transfers");
}

#[test]
fn storage_error_message() {
    let error = StorageError {
        context: "Could not fetch transfers".to_string(),
        cause: "network error".to_string(),
    };
    assert_eq!(error.message(), "Could not fetch transfers: network error");
}

#[test]
fn storage_result_context() {
    let ok: Result<u32, clickhouse::error::Error> = Ok(5);
    assert_eq!(ok.with_context("unused"), Ok(5));

    let failed: Result<u32, clickhouse::error::Error> = Err(clickhouse::error::Error::RowNotFound);
    let error = failed.with_context("Could not fetch transfers").unwrap_err();
    assert_eq!(error.context, "Could not fetch transfers");
    assert_eq!(
        error.cause,
        "no rows returned by a query that expected to return at least one row"
    );
    assert_eq!(
        error.message(),
        "Could not fetch transfers: no rows returned by a query that expected to return at least one row"
    );
}
