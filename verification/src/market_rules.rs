use vstd::prelude::*;
use vstd::hash_map::HashMapWithView;

verus! {

broadcast use vstd::std_specs::hash::group_hash_axioms;

/// Highest royalty a listing may carry, in basis points (25%).
pub const MAX_LISTING_ROYALTY_BPS: u32 = 2500;

/// Quotient of integer division rounded toward zero, as Rust's `/` on
/// signed integers computes it (for a positive divisor).
pub open spec fn trunc_div(a: int, b: int) -> int {
    if a >= 0 { a / b } else { -((-a) / b) }
}

/// Share of `amount` at `bps` basis points, rounded toward zero.
pub open spec fn fee_share(amount: int, bps: int) -> int {
    trunc_div(amount * bps, 10000)
}

/// Splits a fixed price into the marketplace fee (`fee_bps` of the price,
/// rounded toward zero) and the seller's amount, the rest.
pub fn fixed_price_split(price: i128, fee_bps: u32) -> (r: (i128, i128))
    requires
        i128::MIN <= price * fee_bps <= i128::MAX,
    ensures
        r.0 == fee_share(price as int, fee_bps as int),
        r.1 == price - r.0,
{
    let product = price * fee_bps as i128;
    assert(price >= 0 ==> product >= 0) by (nonlinear_arith)
        requires product == price * fee_bps, fee_bps >= 0;
    assert(price < 0 ==> product <= 0) by (nonlinear_arith)
        requires product == price * fee_bps, fee_bps >= 0;
    let marketplace_fee = product / 10000;
    let seller_amount = price - marketplace_fee;
    (marketplace_fee, seller_amount)
}

/// Splits the winning bid of an auction into the marketplace fee
/// (`fee_bps`, rounded toward zero), the royalty (`royalty_bps` of the bid
/// taken as unsigned, rounded down) and the seller's amount, the rest.
pub fn auction_split(highest_bid: i128, fee_bps: u32, royalty_bps: u32) -> (r: (i128, i128, i128))
    requires
        i128::MIN <= highest_bid * fee_bps <= i128::MAX,
        (highest_bid as u128) * royalty_bps <= u128::MAX,
        i128::MIN <= highest_bid - ((((highest_bid as u128) * royalty_bps) / 10000) as i128) <= i128::MAX,
        i128::MIN <= highest_bid - ((((highest_bid as u128) * royalty_bps) / 10000) as i128)
            - fee_share(highest_bid as int, fee_bps as int) <= i128::MAX,
    ensures
        r.0 == fee_share(highest_bid as int, fee_bps as int),
        r.1 == ((((highest_bid as u128) * royalty_bps) / 10000) as i128),
        r.2 == highest_bid - r.1 - r.0,
{
    let marketplace_fee = (highest_bid * fee_bps as i128) / 10000;
    let royalty = ((highest_bid as u128 * royalty_bps as u128) / 10000) as i128;
    let seller_amount = highest_bid - royalty - marketplace_fee;
    (marketplace_fee, royalty, seller_amount)
}

/// Checks a listing royalty against the 25% cap.
pub fn validate_royalty_fee(fee: u32) -> (r: Result<(), &'static str>)
    ensures
        r == (if fee > MAX_LISTING_ROYALTY_BPS { Err::<(), &'static str>("RoyaltyExceedsMaximum") } else { Ok(()) }),
{
    if fee > MAX_LISTING_ROYALTY_BPS {
        return Err("RoyaltyExceedsMaximum");
    }
    Ok(())
}

/// Checks that a listing price is positive.
pub fn validate_price(price: i128) -> (r: Result<(), &'static str>)
    ensures
        r == (if price <= 0 { Err::<(), &'static str>("PriceMustBePositive") } else { Ok(()) }),
{
    if price <= 0 {
        return Err("PriceMustBePositive");
    }
    Ok(())
}

/// The listing counter after one more listing.
pub fn increment_listing_counter(counter: u64) -> (next: u64)
    requires
        counter < u64::MAX,
    ensures
        next == counter + 1,
{
    counter + 1
}

/// A fixed-price sale of a positive price with a fee of at most 100%
/// distributes exactly the price, and neither share is negative.
pub proof fn fixed_price_split_conserves_funds(price: i128, fee_bps: u32)
    requires
        price > 0,
        fee_bps <= 10000,
    ensures
        i128::MIN <= price * fee_bps <= i128::MAX ==> {
            let fee = fee_share(price as int, fee_bps as int);
            &&& fee + (price - fee) == price
            &&& fee >= 0
            &&& price - fee >= 0
        },
{
    let fee = fee_share(price as int, fee_bps as int);
    assert(0 <= price * fee_bps <= price * 10000) by (nonlinear_arith)
        requires price > 0, fee_bps <= 10000;
    assert(fee <= price) by (nonlinear_arith)
        requires fee == (price * fee_bps) / 10000, 0 <= price * fee_bps <= price * 10000, price > 0;
}

/// An auction sale of a positive bid whose fee and royalty together stay
/// within 100% (royalty at most 25%) distributes exactly the bid, and no
/// share is negative.
pub proof fn auction_split_conserves_funds(highest_bid: i128, fee_bps: u32, royalty_bps: u32)
    requires
        highest_bid > 0,
        fee_bps <= 10000,
        royalty_bps <= MAX_LISTING_ROYALTY_BPS,
        fee_bps + royalty_bps <= 10000,
        highest_bid <= i128::MAX / 10000,
    ensures
        (highest_bid as u128) * royalty_bps <= u128::MAX,
        i128::MIN <= highest_bid * fee_bps <= i128::MAX,
        ({
            let fee = fee_share(highest_bid as int, fee_bps as int);
            let royalty = ((((highest_bid as u128) * royalty_bps) / 10000) as i128) as int;
            &&& fee + royalty + (highest_bid - royalty - fee) == highest_bid
            &&& fee >= 0 && royalty >= 0
            &&& highest_bid - royalty - fee >= 0
        }),
{
    let b = highest_bid as int;
    assert((highest_bid as u128) as int == b);
    assert(0 <= b * fee_bps <= b * 10000) by (nonlinear_arith)
        requires b > 0, fee_bps <= 10000;
    assert(0 <= b * royalty_bps <= b * 10000) by (nonlinear_arith)
        requires b > 0, royalty_bps <= 10000;
    let fee = (b * fee_bps) / 10000;
    let royalty = (b * royalty_bps) / 10000;
    assert(royalty <= b) by (nonlinear_arith)
        requires royalty == (b * royalty_bps) / 10000, 0 <= b * royalty_bps <= b * 10000, b > 0;
    assert(fee >= 0 && royalty >= 0) by (nonlinear_arith)
        requires b > 0, fee == (b * fee_bps) / 10000, royalty == (b * royalty_bps) / 10000, fee_bps >= 0, royalty_bps >= 0;
    assert(fee + royalty <= b) by (nonlinear_arith)
        requires b > 0, fee == (b * fee_bps) / 10000, royalty == (b * royalty_bps) / 10000,
            fee_bps + royalty_bps <= 10000, fee_bps >= 0, royalty_bps >= 0,
    {
        assert(fee * 10000 <= b * fee_bps);
        assert(royalty * 10000 <= b * royalty_bps);
        assert((fee + royalty) * 10000 <= b * (fee_bps + royalty_bps));
        assert(b * (fee_bps + royalty_bps) <= b * 10000);
    }
}

/// The two-phase protocol a contract follows to take part in an atomic
/// transaction: steps are prepared, then committed or rolled back.
pub trait AtomicTransactionSupport {
    /// Prepares a step; whether it may be committed.
    fn prepare_step(&mut self, transaction_id: u64, step_id: u32) -> bool;

    /// Executes a prepared step; whether it succeeded.
    fn commit_step(&mut self, transaction_id: u64, step_id: u32) -> bool;

    /// Whether a step is prepared and ready for commit.
    fn is_step_prepared(&self, transaction_id: u64, step_id: u32) -> bool;

    /// The result of a step, for the steps that depend on it.
    fn get_step_result(&self, transaction_id: u64, step_id: u32) -> Option<bool>;

    /// Undoes a step; whether it succeeded.
    fn rollback_step(&mut self, transaction_id: u64, step_id: u32) -> bool;
}

/// Prepare/commit state of one step of an atomic transaction.
#[derive(Clone, Copy, Debug, PartialEq, Eq, Structural)]
pub struct AtomicStepState {
    pub transaction_id: u64,
    pub step_id: u32,
    pub prepared: bool,
    pub executed: bool,
}

/// Storage key of step `step_id` of transaction `transaction_id`.
pub open spec fn step_key(transaction_id: u64, step_id: u32) -> u128 {
    (transaction_id * 0x1_0000_0000_0000_0000 + step_id) as u128
}

fn make_step_key(transaction_id: u64, step_id: u32) -> (k: u128)
    ensures
        k == step_key(transaction_id, step_id),
{
    (transaction_id as u128) * 0x1_0000_0000_0000_0000u128 + step_id as u128
}

/// The marketplace's side of atomic transactions: a record per prepared step.
pub struct MarketplaceAtomicSupport {
    pub steps: HashMapWithView<u128, AtomicStepState>,
}

impl MarketplaceAtomicSupport {
    /// No step prepared.
    pub fn new() -> (s: Self)
        ensures
            s.steps@ == Map::<u128, AtomicStepState>::empty(),
    {
        MarketplaceAtomicSupport { steps: HashMapWithView::new() }
    }
}

impl AtomicTransactionSupport for MarketplaceAtomicSupport {
    /// Marks a step prepared (and not executed); every step can be prepared.
    fn prepare_step(&mut self, transaction_id: u64, step_id: u32) -> (ok: bool)
        ensures
            ok,
            final(self).steps@ == old(self).steps@.insert(step_key(transaction_id, step_id), AtomicStepState {
                transaction_id,
                step_id,
                prepared: true,
                executed: false,
            }),
    {
        let state = AtomicStepState { transaction_id, step_id, prepared: true, executed: false };
        self.steps.insert(make_step_key(transaction_id, step_id), state);
        true
    }

    /// Marks a recorded step executed; reports success either way.
    fn commit_step(&mut self, transaction_id: u64, step_id: u32) -> (ok: bool)
        ensures
            ok,
            ({
                let k = step_key(transaction_id, step_id);
                final(self).steps@ == (if old(self).steps@.contains_key(k) {
                    old(self).steps@.insert(k, AtomicStepState { executed: true, ..old(self).steps@[k] })
                } else {
                    old(self).steps@
                })
            }),
    {
        let k = make_step_key(transaction_id, step_id);
        let current = match self.steps.get(&k) {
            Some(s) => Some(*s),
            None => None,
        };
        if let Some(mut state) = current {
            state.executed = true;
            self.steps.insert(k, state);
        }
        true
    }

    /// Whether a step is recorded as prepared.
    fn is_step_prepared(&self, transaction_id: u64, step_id: u32) -> (b: bool)
        ensures
            b == (self.steps@.contains_key(step_key(transaction_id, step_id))
                && self.steps@[step_key(transaction_id, step_id)].prepared),
    {
        match self.steps.get(&make_step_key(transaction_id, step_id)) {
            Some(s) => s.prepared,
            None => false,
        }
    }

    /// The result of a recorded step: always success.
    fn get_step_result(&self, transaction_id: u64, step_id: u32) -> (r: Option<bool>)
        ensures
            r == (if self.steps@.contains_key(step_key(transaction_id, step_id)) { Some(true) } else { None::<bool> }),
    {
        match self.steps.get(&make_step_key(transaction_id, step_id)) {
            Some(_) => Some(true),
            None => None,
        }
    }

    /// Forgets a step; reports success.
    fn rollback_step(&mut self, transaction_id: u64, step_id: u32) -> (ok: bool)
        ensures
            ok,
            final(self).steps@ == old(self).steps@.remove(step_key(transaction_id, step_id)),
    {
        self.steps.remove(&make_step_key(transaction_id, step_id));
        true
    }
}

} // verus!
