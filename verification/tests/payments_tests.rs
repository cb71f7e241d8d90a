use stellai::payments::{calculate_splits, try_calculate_splits, PaymentError, PaymentLedger, PaymentRoutingContext, PaymentStatus};
use stellai::types::Address;

fn build_context(seller: Address, platform_address: Address, royalty_bps: Option<u32>) -> PaymentRoutingContext {
    let mut royalty_recipients = Vec::new();
    if let Some(bps) = royalty_bps {
        royalty_recipients.push((Address(50), bps, "creator".to_string()));
    }
    PaymentRoutingContext {
        agent_id: 1,
        transaction_id: 1,
        buyer: Address(60),
        seller,
        platform_address,
        royalty_recipients,
    }
}

#[test]
fn test_calculate_splits_basic() {
    let seller = Address(2);
    let context = build_context(seller, Address(3), Some(500));
    let split = calculate_splits(10_000, 500, 250, &context);
    assert_eq!(split.agent_id, 1);
    assert_eq!(split.royalty_rate_bps, 500);
    assert_eq!(split.platform_fee_bps, 250);
    assert!(split.splits.len() >= 3);
    assert_eq!(split.splits[0].amount, 500);
    assert_eq!(split.splits[1].amount, 250);
    assert_eq!(split.splits[2].recipient, seller);
    assert_eq!(split.splits[2].amount, 9250);
}

#[test]
fn test_calculate_splits_zero_royalty() {
    let seller = Address(2);
    let context = build_context(seller, Address(3), None);
    let split = calculate_splits(5_000, 0, 100, &context);
    assert_eq!(split.splits.len(), 2);
    assert_eq!(split.splits[1].amount, 4_950);
}

#[test]
fn test_payment_record_history() {
    let seller = Address(2);
    let context = build_context(seller, Address(3), Some(100));
    let split = calculate_splits(2_000, 100, 50, &context);
    let sale_price = split.sale_price;
    let transaction_id = split.transaction_id;

    let mut ledger = PaymentLedger::new();
    ledger.execute_payment_routing(split, 77).unwrap();

    let history_count = ledger.get_payment_history_count(context.agent_id);
    assert_eq!(history_count, 1);
    let payment_id = ledger.get_payment_history_entry(context.agent_id, 0).unwrap();
    let record = ledger.get_payment_record(payment_id).unwrap();
    assert_eq!(record.total_amount, sale_price);
    assert_eq!(record.transaction_id, transaction_id);
    assert_eq!(record.status, PaymentStatus::Completed);
    assert_eq!(record.timestamp, 77);
}

#[test]
fn split_errors() {
    let context = build_context(Address(2), Address(3), Some(500));
    assert_eq!(try_calculate_splits(0, 500, 250, &context).err(), Some(PaymentError::NonPositivePrice));
    assert_eq!(try_calculate_splits(1_000, 2600, 250, &context).err(), Some(PaymentError::RoyaltyAboveCap));
    assert_eq!(try_calculate_splits(1_000, 400, 250, &context).err(), Some(PaymentError::RecipientsExceedRoyaltyRate));
    assert_eq!(try_calculate_splits(1_000, 500, 9600, &context).err(), Some(PaymentError::FeesExceedPrice));
    assert_eq!(try_calculate_splits(i128::MAX, 500, 0, &context).err(), Some(PaymentError::ArithmeticOverflow));
}

#[test]
fn splits_conserve_the_price() {
    let mut context = build_context(Address(2), Address(3), Some(333));
    context.royalty_recipients.push((Address(51), 667, "previous_owner".to_string()));
    let split = calculate_splits(12_345, 1000, 199, &context);
    let total: i128 = split.splits.iter().map(|s| s.amount).sum();
    assert_eq!(total, 12_345);
    assert_eq!(split.splits[0].amount, 411);
    assert_eq!(split.splits[1].amount, 823);
    assert_eq!(split.splits[2].amount, 245);
    assert_eq!(split.splits[2].label, "platform");
    assert_eq!(split.splits[3].label, "seller_net");
    assert_eq!(split.splits[3].amount, 12_345 - 411 - 823 - 245);
}

#[test]
fn payment_ids_increase() {
    let context = build_context(Address(2), Address(3), None);
    let mut ledger = PaymentLedger::new();
    let a = ledger.execute_payment_routing(calculate_splits(100, 0, 0, &context), 1).unwrap();
    let b = ledger.execute_payment_routing(calculate_splits(200, 0, 0, &context), 2).unwrap();
    assert_eq!((a, b), (1, 2));
    assert_eq!(ledger.get_payment_history_count(1), 2);
    assert_eq!(ledger.get_payment_history_entry(1, 1), Some(2));
    assert_eq!(ledger.get_payment_history_entry(1, 2), None);
    assert!(ledger.get_payment_record(3).is_none());
}

#[test]
#[should_panic(expected = "Royalty rate exceeds maximum cap")]
fn test_calculate_splits_royalty_cap() {
    let seller = Address(2);
    let context = build_context(seller, Address(3), Some(500));
    match try_calculate_splits(1_000, stellai::payments::MAX_ROYALTY_CAP_BPS + 100, 250, &context) {
        Ok(_) => {}
        Err(e) => panic!("{}", e.message()),
    }
}

#[test]
fn splits_refusal_texts() {
    let context = build_context(Address(2), Address(3), Some(500));
    assert_eq!(try_calculate_splits(0, 500, 250, &context).err(), Some(PaymentError::NonPositivePrice));
    assert_eq!(PaymentError::NonPositivePrice.message(), "Sale price must be positive");
    assert_eq!(try_calculate_splits(1_000, 400, 250, &context).err(), Some(PaymentError::RecipientsExceedRoyaltyRate));
    assert_eq!(try_calculate_splits(1_000, 500, 9_600, &context).err(), Some(PaymentError::FeesExceedPrice));
}
