use session_driver::ledger::DedupLedger;

#[test]
fn ledger_starts_empty() {
    let ledger = DedupLedger::new();
    assert_eq!(ledger.len(), 0);
    assert!(!ledger.seen("A1"));
}

#[test]
fn ledger_records_once() {
    let mut ledger = DedupLedger::new();
    assert!(ledger.record("A1".to_string()));
    assert!(ledger.seen("A1"));
    assert!(!ledger.record("A1".to_string()));
    assert_eq!(ledger.len(), 1);
    assert!(ledger.record("B2".to_string()));
    assert_eq!(ledger.len(), 2);
    assert!(!ledger.seen("a1"));
}
