use stellai::atomic::{AtomicTransaction, AtomicTransactionUtils, TransactionStep};
use stellai::types::Address;

fn step(id: u32, depends_on: Option<u32>) -> TransactionStep {
    TransactionStep { step_id: id, contract: Address(1), function: format!("f{}", id), depends_on }
}

fn tx(steps: Vec<TransactionStep>) -> AtomicTransaction {
    AtomicTransaction { transaction_id: 1, initiator: Address(2), steps, created_at: 0, deadline: 300 }
}

#[test]
fn validate_transaction_errors() {
    assert_eq!(AtomicTransactionUtils::validate_transaction(&tx(vec![])), Err("Transaction must have at least one step"));
    let many: Vec<TransactionStep> = (0..11).map(|i| step(i, None)).collect();
    assert_eq!(AtomicTransactionUtils::validate_transaction(&tx(many)), Err("Too many transaction steps"));
    assert_eq!(AtomicTransactionUtils::validate_transaction(&tx(vec![step(1, Some(1))])),
        Err("Invalid dependency: step cannot depend on itself or later steps"));
    assert_eq!(AtomicTransactionUtils::validate_transaction(&tx(vec![step(2, Some(1))])), Err("Dependency step not found"));
    assert_eq!(AtomicTransactionUtils::validate_transaction(&tx(vec![step(1, None), step(2, Some(1))])), Ok(()));
}

#[test]
fn execution_order_respects_dependencies() {
    let steps = vec![step(3, Some(2)), step(1, None), step(2, Some(1))];
    assert_eq!(AtomicTransactionUtils::resolve_execution_order(&steps), vec![1, 2, 3]);
    let cyclic = vec![step(1, Some(5)), step(2, None)];
    assert_eq!(AtomicTransactionUtils::resolve_execution_order(&cyclic), vec![2]);
}

#[test]
fn timeouts_and_journal() {
    let t = tx(vec![step(1, None)]);
    assert!(!AtomicTransactionUtils::is_transaction_timed_out(&t, 300));
    assert!(AtomicTransactionUtils::is_transaction_timed_out(&t, 301));
    let e = AtomicTransactionUtils::create_journal_entry(1, 2, "commit", 10, false, Some("boom"));
    assert_eq!(e.action, "commit");
    assert_eq!(e.error_message, Some("boom".to_string()));
    assert!(e.state_snapshot.is_none());
}

#[test]
fn execution_order_follows_passes_in_list_order() {
    // First pass: 4 is ready, 2 waits for 1, 1 is ready, 3 follows 1; the second pass places 2.
    let steps = vec![step(4, None), step(2, Some(1)), step(1, None), step(3, Some(1))];
    assert_eq!(AtomicTransactionUtils::resolve_execution_order(&steps), vec![4, 1, 3, 2]);
    // A dependency-free step is placed even beside a cycle.
    let mixed = vec![step(5, Some(6)), step(6, Some(5)), step(7, None), step(8, Some(7))];
    assert_eq!(AtomicTransactionUtils::resolve_execution_order(&mixed), vec![7, 8]);
}
