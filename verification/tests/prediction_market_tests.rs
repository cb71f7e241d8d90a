use stellai::prediction_market::{BetPosition, Dispute, LiquidityPosition, MarketStatus, Outcome, PredictionMarket};
use stellai::types::Address;

#[test]
fn test_create_market() {
    let mut pm = PredictionMarket::new(Some(Address(1)));
    let creator = Address(2);
    pm.create_market(creator, 1, "Test market".to_string(), 0);
    let m = pm.get_market(1);
    assert!(m.is_some());
}

#[test]
fn liquidity_bets_and_resolution() {
    let admin = Address(1);
    let mut pm = PredictionMarket::new(Some(admin));
    pm.create_market(Address(2), 1, "m".to_string(), 10);
    pm.provide_liquidity(Address(3), 1, 500, 300);
    pm.place_bet(Address(4), 1, Outcome::A, 50);
    pm.place_bet(Address(4), 1, Outcome::B, i128::MAX);
    let m = pm.get_market(1).unwrap();
    assert_eq!(m.outcome_a_reserve, 550);
    assert_eq!(m.outcome_b_reserve, i128::MAX);
    assert_eq!(m.total_liquidity, 800);
    pm.resolve_market(admin, 1, Outcome::B);
    let m = pm.get_market(1).unwrap();
    assert_eq!(m.status, MarketStatus::Resolved);
    assert_eq!(m.resolved_outcome, Outcome::B);
}

#[test]
fn counters_saturate() {
    let mut pm = PredictionMarket::new(None);
    assert_eq!(pm.get_counter("pm_market_ctr"), 0);
    assert_eq!(pm.increment_counter("pm_market_ctr"), 1);
    assert_eq!(pm.increment_counter("pm_market_ctr"), 2);
    assert_eq!(pm.get_counter("pm_liq_ctr"), 0);
}

#[test]
fn positions_and_disputes_read_back_what_was_stored() {
    let mut pm = PredictionMarket::new(Some(Address(1)));
    pm.store_liquidity_position(LiquidityPosition { provider: Address(3), market_id: 1, shares: 10, entry_a: 5, entry_b: 6 });
    pm.store_liquidity_position(LiquidityPosition { provider: Address(3), market_id: 2, shares: 20, entry_a: 1, entry_b: 1 });
    assert_eq!(pm.get_liquidity_position(&Address(3), 1).unwrap().shares, 10);
    assert_eq!(pm.get_liquidity_position(&Address(3), 2).unwrap().shares, 20);
    assert!(pm.get_liquidity_position(&Address(4), 1).is_none());
    pm.store_liquidity_position(LiquidityPosition { provider: Address(3), market_id: 1, shares: 11, entry_a: 5, entry_b: 6 });
    assert_eq!(pm.get_liquidity_position(&Address(3), 1).unwrap().shares, 11);

    pm.store_bet_position(BetPosition { bettor: Address(4), market_id: 1, outcome: Outcome::B, tokens: 7, amount_paid: 70 });
    let bet = pm.get_bet_position(&Address(4), 1).unwrap();
    assert_eq!(bet.outcome, Outcome::B);
    assert_eq!(bet.amount_paid, 70);
    assert!(pm.get_bet_position(&Address(4), 2).is_none());

    pm.store_dispute(Dispute { dispute_id: 9, market_id: 1, challenger: Address(5), bond: 100, votes_for: 0,
        votes_against: 0, deadline: 1000, reason: "wrong outcome".to_string() });
    assert_eq!(pm.get_dispute(9).unwrap().reason, "wrong outcome");
    assert!(pm.get_dispute(8).is_none());
}
