use vstd::prelude::*;
use vstd::hash_map::HashMapWithView;
use crate::types::{make_pair_key, pair_key, Address};

verus! {

broadcast use vstd::std_specs::hash::group_hash_axioms;

/// Instance and persistent storage of the AMM contract: its administrator,
/// the pool counter, and liquidity-provider balances by pool and provider.
pub struct AmmStorage {
    pub admin: Option<Address>,
    pub pool_counter: u64,
    pub lp_balances: HashMapWithView<u128, i128>,
}

impl AmmStorage {
    /// A provider's LP balance in a pool (zero when none is recorded).
    pub open spec fn lp_balance_of(self, pool_id: u64, provider: Address) -> i128 {
        let k = pair_key(pool_id, provider.0);
        if self.lp_balances@.contains_key(k) { self.lp_balances@[k] } else { 0 }
    }

    /// Empty storage.
    pub fn new() -> (s: Self)
        ensures
            s.admin is None && s.pool_counter == 0,
            s.lp_balances@ == Map::<u128, i128>::empty(),
    {
        AmmStorage { admin: None, pool_counter: 0, lp_balances: HashMapWithView::new() }
    }

    /// Records the administrator.
    pub fn set_admin(&mut self, admin: &Address)
        ensures
            final(self).admin == Some(*admin),
            final(self).pool_counter == old(self).pool_counter,
            final(self).lp_balances@ == old(self).lp_balances@,
    {
        self.admin = Some(*admin);
    }

    /// The administrator.
    pub fn get_admin(&self) -> (a: Address)
        requires
            self.admin is Some,
        ensures
            a == self.admin->0,
    {
        self.admin.unwrap()
    }

    /// Whether `caller` is the administrator.
    pub fn require_admin(&self, caller: &Address) -> (ok: bool)
        requires
            self.admin is Some,
        ensures
            ok == (self.admin->0 == *caller),
    {
        self.get_admin() == *caller
    }

    /// Number of pools created.
    pub fn get_pool_counter(&self) -> (n: u64)
        ensures
            n == self.pool_counter,
    {
        self.pool_counter
    }

    /// Sets the number of pools created.
    pub fn set_pool_counter(&mut self, counter: u64)
        ensures
            final(self).pool_counter == counter,
            final(self).admin == old(self).admin,
            final(self).lp_balances@ == old(self).lp_balances@,
    {
        self.pool_counter = counter;
    }

    /// A provider's LP balance in a pool.
    pub fn get_lp_balance(&self, pool_id: u64, provider: &Address) -> (b: i128)
        ensures
            b == self.lp_balance_of(pool_id, *provider),
    {
        let k = make_pair_key(pool_id, provider.0);
        match self.lp_balances.get(&k) {
            Some(v) => *v,
            None => 0,
        }
    }

    /// Sets a provider's LP balance in a pool.
    pub fn set_lp_balance(&mut self, pool_id: u64, provider: &Address, amount: i128)
        ensures
            final(self).lp_balances@ == old(self).lp_balances@.insert(pair_key(pool_id, provider.0), amount),
            final(self).admin == old(self).admin,
            final(self).pool_counter == old(self).pool_counter,
    {
        let k = make_pair_key(pool_id, provider.0);
        self.lp_balances.insert(k, amount);
    }
}

} // verus!
