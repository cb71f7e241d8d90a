use vstd::prelude::*;
use vstd::hash_map::HashMapWithView;
use crate::types::Address;

verus! {

broadcast use vstd::std_specs::hash::group_hash_axioms;

/// Highest royalty rate that can be routed, in basis points (25%).
pub const MAX_ROYALTY_CAP_BPS: u32 = 2500;

/// Why a payment cannot be split or routed.
#[derive(Clone, Copy, Debug, PartialEq, Eq, Structural)]
pub enum PaymentError {
    NonPositivePrice,
    RoyaltyAboveCap,
    RecipientsExceedRoyaltyRate,
    FeesExceedPrice,
    ArithmeticOverflow,
}

/// The text a sale is aborted with for each refusal.
pub open spec fn payment_error_text(e: PaymentError) -> Seq<char> {
    match e {
        PaymentError::NonPositivePrice => "Sale price must be positive"@,
        PaymentError::RoyaltyAboveCap => "Royalty rate exceeds maximum cap"@,
        PaymentError::RecipientsExceedRoyaltyRate => "Combined royalty recipients exceed configured royalty rate"@,
        PaymentError::FeesExceedPrice => "Fees exceed the sale price"@,
        PaymentError::ArithmeticOverflow => "Arithmetic overflow"@,
    }
}

impl PaymentError {
    /// The text a sale is aborted with when it is refused for this reason.
    pub fn message(&self) -> (m: &'static str)
        ensures
            m@ == payment_error_text(*self),
    {
        match self {
            PaymentError::NonPositivePrice => "Sale price must be positive",
            PaymentError::RoyaltyAboveCap => "Royalty rate exceeds maximum cap",
            PaymentError::RecipientsExceedRoyaltyRate => "Combined royalty recipients exceed configured royalty rate",
            PaymentError::FeesExceedPrice => "Fees exceed the sale price",
            PaymentError::ArithmeticOverflow => "Arithmetic overflow",
        }
    }
}

/// One recipient's share of a sale.
#[derive(Debug)]
pub struct PaymentSplit {
    pub recipient: Address,
    pub amount: i128,
    pub label: String,
}

/// How a sale price is distributed.
#[derive(Debug)]
pub struct RoyaltyPaymentSplit {
    pub agent_id: u64,
    pub transaction_id: u64,
    pub sale_price: i128,
    pub royalty_rate_bps: u32,
    pub platform_fee_bps: u32,
    pub splits: Vec<PaymentSplit>,
}

/// Status of a recorded payment.
#[derive(Clone, Copy, Debug, PartialEq, Eq, Structural)]
pub enum PaymentStatus {
    Pending,
    Completed,
    Failed,
}

/// Audit trail entry of a routed payment.
#[derive(Debug)]
pub struct PaymentRecord {
    pub payment_id: u64,
    pub transaction_id: u64,
    pub agent_id: u64,
    pub total_amount: i128,
    pub splits: Vec<(Address, i128, String)>,
    pub timestamp: u64,
    pub status: PaymentStatus,
}

/// Context of one sale.
#[derive(Debug)]
pub struct PaymentRoutingContext {
    pub agent_id: u64,
    pub transaction_id: u64,
    pub buyer: Address,
    pub seller: Address,
    pub platform_address: Address,
    /// Royalty recipients in order, each with its rate in basis points and a label.
    pub royalty_recipients: Vec<(Address, u32, String)>,
}

/// Share of `price` at `bps` basis points, rounded down.
pub open spec fn bps_share(price: int, bps: int) -> int {
    (price * bps) / 10000
}

/// Running totals after the royalty recipients from `i` on: the summed
/// rates and amounts, or the overflow that stops the computation.
pub open spec fn royalty_scan(price: i128, recips: Seq<(Address, u32, String)>, i: int, bps_sum: int, allocated: int) -> Result<(int, int), PaymentError>
    decreases recips.len() - i,
{
    if i < 0 || i >= recips.len() {
        Ok((bps_sum, allocated))
    } else {
        let b = recips[i].1 as int;
        if bps_sum + b > u32::MAX {
            Err(PaymentError::ArithmeticOverflow)
        } else if price * b > i128::MAX {
            Err(PaymentError::ArithmeticOverflow)
        } else if allocated + bps_share(price as int, b) > i128::MAX {
            Err(PaymentError::ArithmeticOverflow)
        } else {
            royalty_scan(price, recips, i + 1, bps_sum + b, allocated + bps_share(price as int, b))
        }
    }
}

/// Outcome of `calculate_splits`.
pub open spec fn splits_result(sale_price: i128, royalty_rate: u32, platform_fee: u32, recips: Seq<(Address, u32, String)>) -> Result<(), PaymentError> {
    if sale_price <= 0 {
        Err(PaymentError::NonPositivePrice)
    } else if royalty_rate > MAX_ROYALTY_CAP_BPS {
        Err(PaymentError::RoyaltyAboveCap)
    } else {
        match royalty_scan(sale_price, recips, 0, 0, 0) {
            Err(e) => Err(e),
            Ok((bps_sum, allocated)) => {
                let platform = bps_share(sale_price as int, platform_fee as int);
                if bps_sum > royalty_rate {
                    Err(PaymentError::RecipientsExceedRoyaltyRate)
                } else if sale_price * platform_fee > i128::MAX || allocated + platform > i128::MAX {
                    Err(PaymentError::ArithmeticOverflow)
                } else if allocated + platform > sale_price {
                    Err(PaymentError::FeesExceedPrice)
                } else {
                    Ok(())
                }
            },
        }
    }
}

/// Sum of the amounts of a list of splits.
pub open spec fn total_amount(splits: Seq<PaymentSplit>) -> int
    decreases splits.len(),
{
    if splits.len() == 0 {
        0
    } else {
        total_amount(splits.drop_last()) + splits.last().amount
    }
}

proof fn lemma_scan_step(price: i128, recips: Seq<(Address, u32, String)>, i: int, bps_sum: int, allocated: int)
    requires
        0 <= i < recips.len(),
        bps_sum + recips[i].1 <= u32::MAX,
        price * recips[i].1 <= i128::MAX,
        allocated + bps_share(price as int, recips[i].1 as int) <= i128::MAX,
    ensures
        royalty_scan(price, recips, i, bps_sum, allocated) == royalty_scan(price, recips, i + 1,
            bps_sum + recips[i].1, allocated + bps_share(price as int, recips[i].1 as int)),
{
}

/// Splits `sale_price` between the royalty recipients (each its rate of the
/// price, rounded down), the platform (`platform_fee` basis points, when that
/// share is positive) and the seller, who gets the rest.  The recipients'
/// rates together may not exceed `royalty_rate`, which may not exceed 25%.
///
/// Checked form of `calculate_splits`: a sale the contract refuses is
/// answered with the reason it aborts with.
pub fn try_calculate_splits(sale_price: i128, royalty_rate: u32, platform_fee: u32, context: &PaymentRoutingContext) -> (r: Result<RoyaltyPaymentSplit, PaymentError>)
    ensures
        match r {
            Ok(_) => splits_result(sale_price, royalty_rate, platform_fee, context.royalty_recipients@) is Ok,
            Err(e) => splits_result(sale_price, royalty_rate, platform_fee, context.royalty_recipients@) == Err::<(), PaymentError>(e),
        },
        r is Ok ==> {
            let s = r->Ok_0;
            let recips = context.royalty_recipients@;
            let k = recips.len() as int;
            let platform = bps_share(sale_price as int, platform_fee as int);
            &&& s.agent_id == context.agent_id && s.transaction_id == context.transaction_id
            &&& s.sale_price == sale_price && s.royalty_rate_bps == royalty_rate && s.platform_fee_bps == platform_fee
            &&& s.splits@.len() == k + (if platform > 0 { 2int } else { 1int })
            &&& forall|i: int| 0 <= i < k ==> {
                &&& (#[trigger] s.splits@[i]).recipient == recips[i].0
                &&& s.splits@[i].amount == bps_share(sale_price as int, recips[i].1 as int)
                &&& s.splits@[i].label@ == recips[i].2@
            }
            &&& platform > 0 ==> s.splits@[k].recipient == context.platform_address && s.splits@[k].amount == platform
                && s.splits@[k].label@ == "platform"@
            &&& s.splits@.last().recipient == context.seller
            &&& s.splits@.last().label@ == "seller_net"@
            // Fund conservation: the shares add up to the sale price, and none is negative.
            &&& total_amount(s.splits@) == sale_price
            &&& forall|i: int| 0 <= i < s.splits@.len() ==> (#[trigger] s.splits@[i]).amount >= 0
        },
{
    if sale_price <= 0 {
        return Err(PaymentError::NonPositivePrice);
    }
    if royalty_rate > MAX_ROYALTY_CAP_BPS {
        return Err(PaymentError::RoyaltyAboveCap);
    }
    let recips = &context.royalty_recipients;
    let mut splits: Vec<PaymentSplit> = Vec::new();
    let mut royalty_allocated: i128 = 0;
    let mut royalty_bps_sum: u32 = 0;
    let mut i: usize = 0;
    while i < recips.len()
        invariant
            sale_price > 0,
            royalty_rate <= MAX_ROYALTY_CAP_BPS,
            recips@ == context.royalty_recipients@,
            i <= recips.len(),
            royalty_scan(sale_price, recips@, 0, 0, 0) == royalty_scan(sale_price, recips@, i as int,
                royalty_bps_sum as int, royalty_allocated as int),
            royalty_allocated >= 0,
            splits@.len() == i,
            total_amount(splits@) == royalty_allocated,
            forall|j: int| 0 <= j < i ==> {
                &&& (#[trigger] splits@[j]).recipient == recips@[j].0
                &&& splits@[j].amount == bps_share(sale_price as int, recips@[j].1 as int)
                &&& splits@[j].label@ == recips@[j].2@
            },
            forall|j: int| 0 <= j < i ==> (#[trigger] splits@[j]).amount >= 0,
        decreases recips.len() - i,
    {
        let entry = &recips[i];
        let b = entry.1;
        let new_sum = match royalty_bps_sum.checked_add(b) {
            Some(v) => v,
            None => {
                return Err(PaymentError::ArithmeticOverflow);
            },
        };
        let product = match sale_price.checked_mul(b as i128) {
            Some(v) => v,
            None => {
                return Err(PaymentError::ArithmeticOverflow);
            },
        };
        let amount = product / 10000;
        assert(amount == bps_share(sale_price as int, b as int));
        assert(amount >= 0) by (nonlinear_arith)
            requires amount == (sale_price * b) / 10000, sale_price > 0;
        let new_alloc = match royalty_allocated.checked_add(amount) {
            Some(v) => v,
            None => {
                return Err(PaymentError::ArithmeticOverflow);
            },
        };
        proof {
            lemma_scan_step(sale_price, recips@, i as int, royalty_bps_sum as int, royalty_allocated as int);
        }
        let ghost before = splits@;
        splits.push(PaymentSplit { recipient: entry.0, amount, label: entry.2.clone() });
        assert(splits@.drop_last() =~= before);
        royalty_bps_sum = new_sum;
        royalty_allocated = new_alloc;
        i = i + 1;
    }
    if royalty_bps_sum > royalty_rate {
        return Err(PaymentError::RecipientsExceedRoyaltyRate);
    }
    let product = match sale_price.checked_mul(platform_fee as i128) {
        Some(v) => v,
        None => {
            return Err(PaymentError::ArithmeticOverflow);
        },
    };
    let platform_amount = product / 10000;
    assert(platform_amount >= 0) by (nonlinear_arith)
        requires platform_amount == (sale_price * platform_fee) / 10000, sale_price > 0;
    let total_allocated = match royalty_allocated.checked_add(platform_amount) {
        Some(v) => v,
        None => {
            return Err(PaymentError::ArithmeticOverflow);
        },
    };
    if total_allocated > sale_price {
        return Err(PaymentError::FeesExceedPrice);
    }
    let ghost k = splits@.len();
    if platform_amount > 0 {
        let ghost before = splits@;
        splits.push(PaymentSplit { recipient: context.platform_address, amount: platform_amount, label: "platform".to_string() });
        assert(splits@.drop_last() =~= before);
        assert(total_amount(splits@) == royalty_allocated + platform_amount);
    }
    assert(total_amount(splits@) == total_allocated);
    let seller_amount = sale_price - total_allocated;
    let ghost before = splits@;
    splits.push(PaymentSplit { recipient: context.seller, amount: seller_amount, label: "seller_net".to_string() });
    assert(splits@.drop_last() =~= before);
    assert(total_amount(splits@) == total_allocated + seller_amount);
    Ok(RoyaltyPaymentSplit {
        agent_id: context.agent_id,
        transaction_id: context.transaction_id,
        sale_price,
        royalty_rate_bps: royalty_rate,
        platform_fee_bps: platform_fee,
        splits,
    })
}

/// Splits `sale_price` between the royalty recipients (each its rate of the
/// price, rounded down), the platform (`platform_fee` basis points, when that
/// share is positive) and the seller, who gets the rest.  The price must be
/// positive, the royalty rate at most 25%, the recipients' rates within it and
/// the fees within the price; `splits_succeed_within_bounds` gives bounds under
/// which all of that holds.
pub fn calculate_splits(sale_price: i128, royalty_rate: u32, platform_fee: u32, context: &PaymentRoutingContext) -> (r: RoyaltyPaymentSplit)
    requires
        splits_result(sale_price, royalty_rate, platform_fee, context.royalty_recipients@) is Ok,
    ensures
        ({
            let s = r;
            let recips = context.royalty_recipients@;
            let k = recips.len() as int;
            let platform = bps_share(sale_price as int, platform_fee as int);
            &&& s.agent_id == context.agent_id && s.transaction_id == context.transaction_id
            &&& s.sale_price == sale_price && s.royalty_rate_bps == royalty_rate && s.platform_fee_bps == platform_fee
            &&& s.splits@.len() == k + (if platform > 0 { 2int } else { 1int })
            &&& forall|i: int| 0 <= i < k ==> {
                &&& (#[trigger] s.splits@[i]).recipient == recips[i].0
                &&& s.splits@[i].amount == bps_share(sale_price as int, recips[i].1 as int)
                &&& s.splits@[i].label@ == recips[i].2@
            }
            &&& platform > 0 ==> s.splits@[k].recipient == context.platform_address && s.splits@[k].amount == platform
                && s.splits@[k].label@ == "platform"@
            &&& s.splits@.last().recipient == context.seller
            &&& s.splits@.last().label@ == "seller_net"@
            // Fund conservation: the shares add up to the sale price, and none is negative.
            &&& total_amount(s.splits@) == sale_price
            &&& forall|i: int| 0 <= i < s.splits@.len() ==> (#[trigger] s.splits@[i]).amount >= 0
        }),
{
    match try_calculate_splits(sale_price, royalty_rate, platform_fee, context) {
        Ok(s) => s,
        Err(_) => {
            proof {
                assert(false);
            }
            RoyaltyPaymentSplit {
                agent_id: 0,
                transaction_id: 0,
                sale_price: 0,
                royalty_rate_bps: 0,
                platform_fee_bps: 0,
                splits: Vec::new(),
            }
        },
    }
}

/// Sum of the rates of the royalty recipients from `i` on.
pub open spec fn rate_sum_from(recips: Seq<(Address, u32, String)>, i: int) -> int
    decreases recips.len() - i,
{
    if i < 0 || i >= recips.len() {
        0
    } else {
        recips[i].1 + rate_sum_from(recips, i + 1)
    }
}

proof fn lemma_scan_within_bounds(price: i128, recips: Seq<(Address, u32, String)>, i: int, bps_sum: int, allocated: int)
    requires
        0 <= i <= recips.len(),
        price > 0,
        price * 10000 <= i128::MAX,
        0 <= bps_sum,
        0 <= allocated,
        allocated * 10000 <= price * bps_sum,
        bps_sum + rate_sum_from(recips, i) <= 10000,
    ensures
        royalty_scan(price, recips, i, bps_sum, allocated) is Ok,
        ({
            let (b, a) = royalty_scan(price, recips, i, bps_sum, allocated)->Ok_0;
            &&& b == bps_sum + rate_sum_from(recips, i)
            &&& 0 <= a
            &&& a * 10000 <= price * b
        }),
    decreases recips.len() - i,
{
    if i < recips.len() {
        let b = recips[i].1 as int;
        let p = price as int;
        assert(rate_sum_from(recips, i) == b + rate_sum_from(recips, i + 1));
        assert(rate_sum_from(recips, i + 1) >= 0) by {
            lemma_rate_sum_nonnegative(recips, i + 1);
        }
        assert(p * b <= p * 10000) by (nonlinear_arith)
            requires p > 0, 0 <= b <= 10000;
        let share = bps_share(p, b);
        assert(0 <= share && share * 10000 <= p * b) by (nonlinear_arith)
            requires share == (p * b) / 10000, p > 0, b >= 0;
        assert((allocated + share) * 10000 <= p * (bps_sum + b)) by (nonlinear_arith)
            requires allocated * 10000 <= p * bps_sum, share * 10000 <= p * b;
        assert(allocated + share <= p) by (nonlinear_arith)
            requires (allocated + share) * 10000 <= p * (bps_sum + b), bps_sum + b <= 10000, p > 0;
        lemma_scan_within_bounds(price, recips, i + 1, bps_sum + b, allocated + share);
    }
}

proof fn lemma_rate_sum_nonnegative(recips: Seq<(Address, u32, String)>, i: int)
    ensures
        rate_sum_from(recips, i) >= 0,
    decreases recips.len() - i,
{
    if 0 <= i < recips.len() {
        lemma_rate_sum_nonnegative(recips, i + 1);
    }
}

/// Fund conservation is always available within the documented bounds: a
/// positive price small enough that basis-point products cannot overflow, a
/// royalty rate of at most 25% that covers the recipients' rates, and a
/// royalty rate and platform fee that together stay within 100% always give
/// a split (which then adds up to the price exactly).
pub proof fn splits_succeed_within_bounds(sale_price: i128, royalty_rate: u32, platform_fee: u32,
    recips: Seq<(Address, u32, String)>)
    requires
        sale_price > 0,
        sale_price * 10000 <= i128::MAX,
        royalty_rate <= MAX_ROYALTY_CAP_BPS,
        rate_sum_from(recips, 0) <= royalty_rate,
        royalty_rate + platform_fee <= 10000,
    ensures
        splits_result(sale_price, royalty_rate, platform_fee, recips) is Ok,
{
    lemma_scan_within_bounds(sale_price, recips, 0, 0, 0);
    let (b, a) = royalty_scan(sale_price, recips, 0, 0, 0)->Ok_0;
    let p = sale_price as int;
    let f = platform_fee as int;
    assert(p * f <= p * 10000) by (nonlinear_arith)
        requires p > 0, 0 <= f <= 10000;
    let platform = bps_share(p, f);
    assert(0 <= platform && platform * 10000 <= p * f) by (nonlinear_arith)
        requires platform == (p * f) / 10000, p > 0, f >= 0;
    assert((a + platform) * 10000 <= p * (b + f)) by (nonlinear_arith)
        requires a * 10000 <= p * b, platform * 10000 <= p * f;
    assert(a + platform <= p) by (nonlinear_arith)
        requires (a + platform) * 10000 <= p * (b + f), b + f <= 10000, p > 0;
}

/// Routed payments: a counter, the records, and each agent's payment identifiers.
pub struct PaymentLedger {
    pub payment_counter: u64,
    pub records: HashMapWithView<u64, PaymentRecord>,
    pub history: HashMapWithView<u64, Vec<u64>>,
}

impl PaymentLedger {
    /// The payment identifiers recorded for an agent, oldest first.
    pub open spec fn history_of(self, agent_id: u64) -> Seq<u64> {
        if self.history@.contains_key(agent_id) { self.history@[agent_id]@ } else { Seq::empty() }
    }

    /// An empty ledger.
    pub fn new() -> (l: Self)
        ensures
            l.payment_counter == 0,
            l.records@ == Map::<u64, PaymentRecord>::empty(),
            l.history@ == Map::<u64, Vec<u64>>::empty(),
    {
        PaymentLedger { payment_counter: 0, records: HashMapWithView::new(), history: HashMapWithView::new() }
    }

    /// Records a split as a completed payment at `now` under the next payment
    /// identifier, appends that identifier to the agent's history, and returns it.
    pub fn execute_payment_routing(&mut self, split: RoyaltyPaymentSplit, now: u64) -> (r: Result<u64, PaymentError>)
        ensures
            old(self).payment_counter == u64::MAX ==> r == Err::<u64, PaymentError>(PaymentError::ArithmeticOverflow)
                && *final(self) == *old(self),
            old(self).payment_counter < u64::MAX ==> r == Ok::<u64, PaymentError>((old(self).payment_counter + 1) as u64) && {
                let id = r->Ok_0;
                let rec = final(self).records@[id];
                &&& final(self).payment_counter == id
                &&& final(self).records@.dom() == old(self).records@.dom().insert(id)
                &&& forall|j: u64| j != id && old(self).records@.contains_key(j) ==> #[trigger] final(self).records@[j] == old(self).records@[j]
                &&& rec.payment_id == id && rec.transaction_id == split.transaction_id
                &&& rec.agent_id == split.agent_id && rec.total_amount == split.sale_price
                &&& rec.timestamp == now && rec.status == PaymentStatus::Completed
                &&& rec.splits@.len() == split.splits@.len()
                &&& forall|i: int| 0 <= i < rec.splits@.len() ==> (#[trigger] rec.splits@[i]).0 == split.splits@[i].recipient
                    && rec.splits@[i].1 == split.splits@[i].amount && rec.splits@[i].2@ == split.splits@[i].label@
                &&& final(self).history_of(split.agent_id) == old(self).history_of(split.agent_id).push(id)
                &&& forall|a: u64| a != split.agent_id ==> #[trigger] final(self).history_of(a) == old(self).history_of(a)
            },
    {
        if self.payment_counter == u64::MAX {
            return Err(PaymentError::ArithmeticOverflow);
        }
        let mut record_splits: Vec<(Address, i128, String)> = Vec::new();
        let mut i: usize = 0;
        while i < split.splits.len()
            invariant
                i <= split.splits.len(),
                record_splits@.len() == i,
                forall|j: int| 0 <= j < i ==> (#[trigger] record_splits@[j]).0 == split.splits@[j].recipient
                    && record_splits@[j].1 == split.splits@[j].amount && record_splits@[j].2@ == split.splits@[j].label@,
            decreases split.splits.len() - i,
        {
            let e = &split.splits[i];
            record_splits.push((e.recipient, e.amount, e.label.clone()));
            i = i + 1;
        }
        let payment_id = self.payment_counter + 1;
        self.payment_counter = payment_id;
        let record = PaymentRecord {
            payment_id,
            transaction_id: split.transaction_id,
            agent_id: split.agent_id,
            total_amount: split.sale_price,
            splits: record_splits,
            timestamp: now,
            status: PaymentStatus::Completed,
        };
        self.records.insert(payment_id, record);
        let mut ids = match self.history.remove(&split.agent_id) {
            Some(v) => v,
            None => Vec::new(),
        };
        ids.push(payment_id);
        self.history.insert(split.agent_id, ids);
        Ok(payment_id)
    }

    /// Number of payments recorded for an agent.
    pub fn get_payment_history_count(&self, agent_id: u64) -> (n: usize)
        ensures
            n == self.history_of(agent_id).len(),
    {
        match self.history.get(&agent_id) {
            Some(v) => v.len(),
            None => 0,
        }
    }

    /// The `index`-th payment identifier recorded for an agent.
    pub fn get_payment_history_entry(&self, agent_id: u64, index: usize) -> (r: Option<u64>)
        ensures
            r == (if index < self.history_of(agent_id).len() {
                Some(self.history_of(agent_id)[index as int])
            } else {
                None
            }),
    {
        match self.history.get(&agent_id) {
            Some(v) => if index < v.len() { Some(v[index]) } else { None },
            None => None,
        }
    }

    /// The record of payment `payment_id`.
    pub fn get_payment_record(&self, payment_id: u64) -> (r: Option<&PaymentRecord>)
        ensures
            match r {
                Some(rec) => self.records@.contains_key(payment_id) && *rec == self.records@[payment_id],
                None => !self.records@.contains_key(payment_id),
            },
    {
        self.records.get(&payment_id)
    }
}

} // verus!
