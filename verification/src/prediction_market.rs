use vstd::prelude::*;
use vstd::hash_map::{HashMapWithView, StringHashMap};
use crate::types::{lemma_pair_key_injective, make_pair_key, pair_key, Address, map_set_at, sat_add_i128, saturating_add_i128};

verus! {

broadcast use vstd::std_specs::hash::group_hash_axioms;

/// Outcome of a binary market.
#[derive(Clone, Copy, Debug, PartialEq, Eq, Structural)]
pub enum Outcome {
    Unresolved,
    A,
    B,
}

/// Whether a market still takes bets.
#[derive(Clone, Copy, Debug, PartialEq, Eq, Structural)]
pub enum MarketStatus {
    Open,
    Resolved,
}

/// A binary prediction market with a reserve per outcome.
#[derive(Debug)]
pub struct Market {
    pub market_id: u64,
    pub creator: Address,
    pub description: String,
    pub status: MarketStatus,
    pub outcome_a_reserve: i128,
    pub outcome_b_reserve: i128,
    pub total_liquidity: i128,
    pub created_at: u64,
    pub resolved_outcome: Outcome,
}

/// A provider's liquidity stake in a market.
#[derive(Debug)]
pub struct LiquidityPosition {
    pub provider: Address,
    pub market_id: u64,
    pub shares: u128,
    pub entry_a: i128,
    pub entry_b: i128,
}

/// A bettor's holding of one outcome of a market.
#[derive(Debug)]
pub struct BetPosition {
    pub bettor: Address,
    pub market_id: u64,
    pub outcome: Outcome,
    pub tokens: u128,
    pub amount_paid: i128,
}

/// A challenge of a market's resolution, with its bond and the votes cast.
#[derive(Debug)]
pub struct Dispute {
    pub dispute_id: u64,
    pub market_id: u64,
    pub challenger: Address,
    pub bond: i128,
    pub votes_for: u128,
    pub votes_against: u128,
    pub deadline: u64,
    pub reason: String,
}

/// Storage of the prediction market contract.
pub struct PredictionMarket {
    pub admin: Option<Address>,
    pub markets: HashMapWithView<u64, Market>,
    pub counters: StringHashMap<u64>,
    pub liquidity_positions: HashMapWithView<u128, LiquidityPosition>,
    pub bet_positions: HashMapWithView<u128, BetPosition>,
    pub disputes: HashMapWithView<u64, Dispute>,
}

impl PredictionMarket {
    /// Value of a named counter (zero when never incremented).
    pub open spec fn counter_of(self, key: Seq<char>) -> u64 {
        if self.counters@.contains_key(key) { self.counters@[key] } else { 0 }
    }

    /// The liquidity position of `provider` in market `market_id`, if any.
    pub open spec fn liquidity_of(self, provider: Address, market_id: u64) -> Option<LiquidityPosition> {
        let k = pair_key(provider.0, market_id);
        if self.liquidity_positions@.contains_key(k) { Some(self.liquidity_positions@[k]) } else { None }
    }

    /// The bet position of `bettor` in market `market_id`, if any.
    pub open spec fn bet_of(self, bettor: Address, market_id: u64) -> Option<BetPosition> {
        let k = pair_key(bettor.0, market_id);
        if self.bet_positions@.contains_key(k) { Some(self.bet_positions@[k]) } else { None }
    }

    /// The dispute stored under `dispute_id`, if any.
    pub open spec fn dispute_of(self, dispute_id: u64) -> Option<Dispute> {
        if self.disputes@.contains_key(dispute_id) { Some(self.disputes@[dispute_id]) } else { None }
    }

    /// Positions and disputes are the same in both storages.
    pub open spec fn same_records(self, other: Self) -> bool {
        &&& self.liquidity_positions@ == other.liquidity_positions@
        &&& self.bet_positions@ == other.bet_positions@
        &&& self.disputes@ == other.disputes@
    }

    /// Empty storage with the given administrator.
    pub fn new(admin: Option<Address>) -> (s: Self)
        ensures
            s.admin == admin,
            s.markets@ == Map::<u64, Market>::empty(),
            s.counters@ == Map::<Seq<char>, u64>::empty(),
            s.liquidity_positions@ == Map::<u128, LiquidityPosition>::empty(),
            s.bet_positions@ == Map::<u128, BetPosition>::empty(),
            s.disputes@ == Map::<u64, Dispute>::empty(),
    {
        PredictionMarket {
            admin,
            markets: HashMapWithView::new(),
            counters: StringHashMap::new(),
            liquidity_positions: HashMapWithView::new(),
            bet_positions: HashMapWithView::new(),
            disputes: HashMapWithView::new(),
        }
    }

    /// Value of a named counter.
    pub fn get_counter(&self, key: &str) -> (n: u64)
        ensures
            n == self.counter_of(key@),
    {
        match self.counters.get(key) {
            Some(v) => *v,
            None => 0,
        }
    }

    /// Increments a named counter, stopping at the largest value, and returns it.
    pub fn increment_counter(&mut self, key: &str) -> (n: u64)
        ensures
            n == (if old(self).counter_of(key@) == u64::MAX { u64::MAX } else { (old(self).counter_of(key@) + 1) as u64 }),
            final(self).counters@ == old(self).counters@.insert(key@, n),
            final(self).markets@ == old(self).markets@,
            final(self).admin == old(self).admin,
            final(self).same_records(*old(self)),
    {
        let next = self.get_counter(key).saturating_add(1);
        self.counters.insert(key.to_owned(), next);
        next
    }

    /// Stores a market, replacing any market under its identifier.
    pub fn store_market(&mut self, m: Market)
        ensures
            final(self).markets@ == old(self).markets@.insert(m.market_id, m),
            final(self).counters@ == old(self).counters@,
            final(self).admin == old(self).admin,
            final(self).same_records(*old(self)),
    {
        self.markets.insert(m.market_id, m);
    }

    /// The market stored under `market_id`, if any.
    pub fn get_market(&self, market_id: u64) -> (r: Option<&Market>)
        ensures
            match r {
                Some(m) => self.markets@.contains_key(market_id) && *m == self.markets@[market_id],
                None => !self.markets@.contains_key(market_id),
            },
    {
        self.markets.get(&market_id)
    }

    /// Opens market `market_id` at `now` with empty reserves, replacing any
    /// market stored under that identifier.
    pub fn create_market(&mut self, creator: Address, market_id: u64, description: String, now: u64)
        ensures
            final(self).markets@ == old(self).markets@.insert(market_id, Market {
                market_id,
                creator,
                description,
                status: MarketStatus::Open,
                outcome_a_reserve: 0,
                outcome_b_reserve: 0,
                total_liquidity: 0,
                created_at: now,
                resolved_outcome: Outcome::Unresolved,
            }),
            final(self).counters@ == old(self).counters@,
            final(self).admin == old(self).admin,
            final(self).same_records(*old(self)),
    {
        let m = Market {
            market_id,
            creator,
            description,
            status: MarketStatus::Open,
            outcome_a_reserve: 0,
            outcome_b_reserve: 0,
            total_liquidity: 0,
            created_at: now,
            resolved_outcome: Outcome::Unresolved,
        };
        self.store_market(m);
    }

    /// Adds liquidity to both reserves of a market (clamped sums); the total
    /// liquidity grows by their clamped sum.
    pub fn provide_liquidity(&mut self, provider: Address, market_id: u64, amount_a: i128, amount_b: i128)
        requires
            old(self).markets@.contains_key(market_id),
        ensures
            map_set_at(old(self).markets@, final(self).markets@, market_id),
            ({
                let o = old(self).markets@[market_id];
                final(self).markets@[market_id] == (Market {
                    outcome_a_reserve: sat_add_i128(o.outcome_a_reserve, amount_a),
                    outcome_b_reserve: sat_add_i128(o.outcome_b_reserve, amount_b),
                    total_liquidity: sat_add_i128(o.total_liquidity, sat_add_i128(amount_a, amount_b)),
                    ..o
                })
            }),
            final(self).counters@ == old(self).counters@,
            final(self).admin == old(self).admin,
            final(self).same_records(*old(self)),
    {
        let _ = provider;
        let mut m = self.markets.remove(&market_id).unwrap();
        m.outcome_a_reserve = saturating_add_i128(m.outcome_a_reserve, amount_a);
        m.outcome_b_reserve = saturating_add_i128(m.outcome_b_reserve, amount_b);
        m.total_liquidity = saturating_add_i128(m.total_liquidity, saturating_add_i128(amount_a, amount_b));
        self.markets.insert(market_id, m);
        assert(self.markets@.dom() =~= old(self).markets@.dom().insert(market_id));
    }

    /// Adds a bet to the reserve of the chosen outcome (clamped).
    pub fn place_bet(&mut self, bettor: Address, market_id: u64, outcome: Outcome, amount: i128)
        requires
            old(self).markets@.contains_key(market_id),
            outcome != Outcome::Unresolved,
        ensures
            map_set_at(old(self).markets@, final(self).markets@, market_id),
            ({
                let o = old(self).markets@[market_id];
                final(self).markets@[market_id] == (if outcome == Outcome::A {
                    Market { outcome_a_reserve: sat_add_i128(o.outcome_a_reserve, amount), ..o }
                } else {
                    Market { outcome_b_reserve: sat_add_i128(o.outcome_b_reserve, amount), ..o }
                })
            }),
            final(self).counters@ == old(self).counters@,
            final(self).admin == old(self).admin,
            final(self).same_records(*old(self)),
    {
        let _ = bettor;
        let mut m = self.markets.remove(&market_id).unwrap();
        match outcome {
            Outcome::A => {
                m.outcome_a_reserve = saturating_add_i128(m.outcome_a_reserve, amount);
            },
            _ => {
                m.outcome_b_reserve = saturating_add_i128(m.outcome_b_reserve, amount);
            },
        }
        self.markets.insert(market_id, m);
        assert(self.markets@.dom() =~= old(self).markets@.dom().insert(market_id));
    }

    /// Administrator only: marks a market resolved with the winning outcome.
    pub fn resolve_market(&mut self, caller: Address, market_id: u64, winning: Outcome)
        requires
            old(self).admin == Some(caller),
            old(self).markets@.contains_key(market_id),
        ensures
            map_set_at(old(self).markets@, final(self).markets@, market_id),
            final(self).markets@[market_id] == (Market {
                status: MarketStatus::Resolved,
                resolved_outcome: winning,
                ..old(self).markets@[market_id]
            }),
            final(self).counters@ == old(self).counters@,
            final(self).admin == old(self).admin,
            final(self).same_records(*old(self)),
    {
        let _ = caller;
        let mut m = self.markets.remove(&market_id).unwrap();
        m.status = MarketStatus::Resolved;
        m.resolved_outcome = winning;
        self.markets.insert(market_id, m);
        assert(self.markets@.dom() =~= old(self).markets@.dom().insert(market_id));
    }

    /// Stores a liquidity position under its provider and market, replacing
    /// the one stored there; every other position reads as before.
    pub fn store_liquidity_position(&mut self, pos: LiquidityPosition)
        ensures
            final(self).liquidity_positions@ == old(self).liquidity_positions@.insert(pair_key(pos.provider.0, pos.market_id), pos),
            forall|p: Address, m: u64| #[trigger] final(self).liquidity_of(p, m)
                == if p == pos.provider && m == pos.market_id { Some(pos) } else { old(self).liquidity_of(p, m) },
            final(self).bet_positions@ == old(self).bet_positions@,
            final(self).disputes@ == old(self).disputes@,
            final(self).markets@ == old(self).markets@,
            final(self).counters@ == old(self).counters@,
            final(self).admin == old(self).admin,
    {
        let k = make_pair_key(pos.provider.0, pos.market_id);
        let ghost (gp, gm) = (pos.provider, pos.market_id);
        self.liquidity_positions.insert(k, pos);
        assert forall|p: Address, m: u64| #[trigger] self.liquidity_of(p, m)
            == if p == gp && m == gm { Some(self.liquidity_positions@[k]) } else { old(self).liquidity_of(p, m) } by {
            lemma_pair_key_injective(p.0, m, gp.0, gm);
        }
    }

    /// The liquidity position of `provider` in market `market_id`, if any.
    pub fn get_liquidity_position(&self, provider: &Address, market_id: u64) -> (r: Option<&LiquidityPosition>)
        ensures
            match r {
                Some(p) => self.liquidity_of(*provider, market_id) == Some(*p),
                None => self.liquidity_of(*provider, market_id) is None,
            },
    {
        let k = make_pair_key(provider.0, market_id);
        self.liquidity_positions.get(&k)
    }

    /// Stores a bet position under its bettor and market, replacing the one
    /// stored there; every other position reads as before.
    pub fn store_bet_position(&mut self, pos: BetPosition)
        ensures
            final(self).bet_positions@ == old(self).bet_positions@.insert(pair_key(pos.bettor.0, pos.market_id), pos),
            forall|b: Address, m: u64| #[trigger] final(self).bet_of(b, m)
                == if b == pos.bettor && m == pos.market_id { Some(pos) } else { old(self).bet_of(b, m) },
            final(self).liquidity_positions@ == old(self).liquidity_positions@,
            final(self).disputes@ == old(self).disputes@,
            final(self).markets@ == old(self).markets@,
            final(self).counters@ == old(self).counters@,
            final(self).admin == old(self).admin,
    {
        let k = make_pair_key(pos.bettor.0, pos.market_id);
        let ghost (gb, gm) = (pos.bettor, pos.market_id);
        self.bet_positions.insert(k, pos);
        assert forall|b: Address, m: u64| #[trigger] self.bet_of(b, m)
            == if b == gb && m == gm { Some(self.bet_positions@[k]) } else { old(self).bet_of(b, m) } by {
            lemma_pair_key_injective(b.0, m, gb.0, gm);
        }
    }

    /// The bet position of `bettor` in market `market_id`, if any.
    pub fn get_bet_position(&self, bettor: &Address, market_id: u64) -> (r: Option<&BetPosition>)
        ensures
            match r {
                Some(p) => self.bet_of(*bettor, market_id) == Some(*p),
                None => self.bet_of(*bettor, market_id) is None,
            },
    {
        let k = make_pair_key(bettor.0, market_id);
        self.bet_positions.get(&k)
    }

    /// Stores a dispute under its identifier, replacing the one stored there.
    pub fn store_dispute(&mut self, dispute: Dispute)
        ensures
            final(self).disputes@ == old(self).disputes@.insert(dispute.dispute_id, dispute),
            final(self).liquidity_positions@ == old(self).liquidity_positions@,
            final(self).bet_positions@ == old(self).bet_positions@,
            final(self).markets@ == old(self).markets@,
            final(self).counters@ == old(self).counters@,
            final(self).admin == old(self).admin,
    {
        self.disputes.insert(dispute.dispute_id, dispute);
    }

    /// The dispute stored under `dispute_id`, if any.
    pub fn get_dispute(&self, dispute_id: u64) -> (r: Option<&Dispute>)
        ensures
            match r {
                Some(d) => self.dispute_of(dispute_id) == Some(*d),
                None => self.dispute_of(dispute_id) is None,
            },
    {
        self.disputes.get(&dispute_id)
    }
}

} // verus!
