use rpc::table::CorrelationTable;

#[test]
fn take_after_insert_returns_callback_then_absent() {
    let mut table: CorrelationTable<&'static str> = CorrelationTable::new();
    table.insert(12, "cb");
    assert_eq!(table.take(12), Some("cb"));
    assert_eq!(table.take(12), None);
}

#[test]
fn take_of_never_inserted_id_is_absent() {
    let mut table: CorrelationTable<u32> = CorrelationTable::new();
    assert_eq!(table.take(99), None);
    table.insert(1, 10);
    assert_eq!(table.take(2), None);
    assert_eq!(table.take(1), Some(10));
}

#[test]
fn insert_overwrites_an_existing_id() {
    let mut table: CorrelationTable<u32> = CorrelationTable::new();
    table.insert(5, 100);
    table.insert(5, 200);
    assert_eq!(table.len(), 1);
    assert_eq!(table.take(5), Some(200));
    assert_eq!(table.take(5), None);
}

#[test]
fn len_counts_outstanding_calls() {
    let mut table: CorrelationTable<u32> = CorrelationTable::new();
    assert_eq!(table.len(), 0);
    table.insert(1, 1);
    table.insert(2, 2);
    assert_eq!(table.len(), 2);
    table.take(1);
    assert_eq!(table.len(), 1);
}
