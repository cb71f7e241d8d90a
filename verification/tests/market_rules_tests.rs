use stellai::market_rules::{
    auction_split, fixed_price_split, increment_listing_counter, validate_price, validate_royalty_fee,
    AtomicTransactionSupport, MarketplaceAtomicSupport,
};

#[test]
fn fixed_price_split_conserves_price() {
    assert_eq!(fixed_price_split(10_000, 250), (250, 9_750));
    assert_eq!(fixed_price_split(999, 333), (33, 966));
    let (fee, seller) = fixed_price_split(123_457, 10_000);
    assert_eq!((fee, seller), (123_457, 0));
    // Rounds toward zero for negative amounts, as Rust's division does.
    assert_eq!(fixed_price_split(-999, 333), (-33, -966));
}

#[test]
fn auction_split_conserves_bid() {
    let (fee, royalty, seller) = auction_split(1_000_000, 250, 500);
    assert_eq!((fee, royalty, seller), (25_000, 50_000, 925_000));
    assert_eq!(fee + royalty + seller, 1_000_000);
    assert_eq!(auction_split(7, 1000, 2500), (0, 1, 6));
}

#[test]
fn listing_rules() {
    assert_eq!(validate_royalty_fee(2500), Ok(()));
    assert_eq!(validate_royalty_fee(2501), Err("RoyaltyExceedsMaximum"));
    assert_eq!(validate_price(1), Ok(()));
    assert_eq!(validate_price(0), Err("PriceMustBePositive"));
    assert_eq!(validate_price(-5), Err("PriceMustBePositive"));
    assert_eq!(increment_listing_counter(41), 42);
}

#[test]
fn atomic_steps_prepare_commit_rollback() {
    let mut s = MarketplaceAtomicSupport::new();
    assert!(!s.is_step_prepared(1, 0));
    assert_eq!(s.get_step_result(1, 0), None);
    assert!(s.prepare_step(1, 0));
    assert!(s.is_step_prepared(1, 0));
    assert!(!s.is_step_prepared(1, 1));
    assert!(s.commit_step(1, 0));
    assert_eq!(s.get_step_result(1, 0), Some(true));
    assert!(s.rollback_step(1, 0));
    assert!(!s.is_step_prepared(1, 0));
    assert!(s.commit_step(2, 3));
    assert_eq!(s.get_step_result(2, 3), None);
}
