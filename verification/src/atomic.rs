use vstd::prelude::*;
use crate::types::{Address, MAX_TRANSACTION_STEPS};

verus! {

/// One step of an atomic transaction; it may depend on one earlier step.
#[derive(Clone, Debug)]
pub struct TransactionStep {
    pub step_id: u32,
    pub contract: Address,
    pub function: String,
    pub depends_on: Option<u32>,
}

/// A multi-step transaction that either completes entirely or not at all.
#[derive(Debug)]
pub struct AtomicTransaction {
    pub transaction_id: u64,
    pub initiator: Address,
    pub steps: Vec<TransactionStep>,
    pub created_at: u64,
    pub deadline: u64,
}

/// A journal line recording one step of a transaction.
#[derive(Debug)]
pub struct TransactionJournalEntry {
    pub transaction_id: u64,
    pub step_id: u32,
    pub action: String,
    pub timestamp: u64,
    pub success: bool,
    pub error_message: Option<String>,
    pub state_snapshot: Option<Vec<u8>>,
}

/// Some step of `steps` has identifier `id`.
pub open spec fn has_step(steps: Seq<TransactionStep>, id: u32) -> bool {
    exists|j: int| 0 <= j < steps.len() && #[trigger] steps[j].step_id == id
}

/// The complaint about step `i`'s dependency, if any.
pub open spec fn dependency_error(steps: Seq<TransactionStep>, i: int) -> Option<&'static str> {
    match steps[i].depends_on {
        Some(d) => if d >= steps[i].step_id {
            Some("Invalid dependency: step cannot depend on itself or later steps")
        } else if !has_step(steps, d) {
            Some("Dependency step not found")
        } else {
            None
        },
        None => None,
    }
}

/// Outcome of checking the dependencies of steps `i..`: the complaint about the first bad one.
pub open spec fn dependency_scan(steps: Seq<TransactionStep>, i: int) -> Result<(), &'static str>
    decreases steps.len() - i,
{
    if i < 0 || i >= steps.len() {
        Ok(())
    } else {
        match dependency_error(steps, i) {
            Some(e) => Err(e),
            None => dependency_scan(steps, i + 1),
        }
    }
}

/// Outcome of `validate_transaction` on a list of steps.
pub open spec fn transaction_result(steps: Seq<TransactionStep>) -> Result<(), &'static str> {
    if steps.len() == 0 {
        Err("Transaction must have at least one step")
    } else if steps.len() > MAX_TRANSACTION_STEPS {
        Err("Too many transaction steps")
    } else {
        dependency_scan(steps, 0)
    }
}

proof fn lemma_dependency_scan(steps: Seq<TransactionStep>, i: int)
    requires
        0 <= i <= steps.len(),
    ensures
        dependency_scan(steps, i) is Ok <==> forall|k: int| i <= k < steps.len() ==> #[trigger] dependency_error(steps, k) is None,
    decreases steps.len() - i,
{
    if i < steps.len() {
        lemma_dependency_scan(steps, i + 1);
        if dependency_error(steps, i) is None {
            assert forall|k: int| i <= k < steps.len() && (forall|m: int| i + 1 <= m < steps.len() ==> #[trigger] dependency_error(steps, m) is None)
                implies #[trigger] dependency_error(steps, k) is None by {
                if k > i {
                }
            }
        }
    }
}

proof fn lemma_dependency_error_iff(steps: Seq<TransactionStep>, i: int)
    requires
        0 <= i < steps.len(),
    ensures
        dependency_error(steps, i) is None <==> (steps[i].depends_on matches Some(d)
            ==> d < steps[i].step_id && exists|j: int| 0 <= j < steps.len() && steps[j].step_id == d),
{
    match steps[i].depends_on {
        Some(d) => {
            if exists|j: int| 0 <= j < steps.len() && steps[j].step_id == d {
                let j = choose|j: int| 0 <= j < steps.len() && steps[j].step_id == d;
                assert(steps[j].step_id == d);
            }
        },
        None => {},
    }
}

/// A transaction is accepted exactly when it has one to ten steps and every
/// dependency names a step of the list, wherever it stands in the list, with
/// a smaller identifier than the step that depends on it.
pub proof fn transaction_accepted_exactly_when_well_founded(steps: Seq<TransactionStep>)
    ensures
        transaction_result(steps) is Ok <==> (1 <= steps.len() <= MAX_TRANSACTION_STEPS
            && forall|i: int| 0 <= i < steps.len() ==> (#[trigger] steps[i].depends_on matches Some(d)
                ==> d < steps[i].step_id && exists|j: int| 0 <= j < steps.len() && steps[j].step_id == d)),
{
    lemma_dependency_scan(steps, 0);
    if 1 <= steps.len() <= MAX_TRANSACTION_STEPS {
        if transaction_result(steps) is Ok {
            assert forall|i: int| 0 <= i < steps.len() implies (#[trigger] steps[i].depends_on matches Some(d)
                ==> d < steps[i].step_id && exists|j: int| 0 <= j < steps.len() && steps[j].step_id == d) by {
                assert(dependency_error(steps, i) is None);
                lemma_dependency_error_iff(steps, i);
            }
        }
        if forall|i: int| 0 <= i < steps.len() ==> (#[trigger] steps[i].depends_on matches Some(d)
            ==> d < steps[i].step_id && exists|j: int| 0 <= j < steps.len() && steps[j].step_id == d) {
            assert forall|k: int| 0 <= k < steps.len() implies #[trigger] dependency_error(steps, k) is None by {
                lemma_dependency_error_iff(steps, k);
                assert(steps[k].depends_on matches Some(d)
                    ==> d < steps[k].step_id && exists|j: int| 0 <= j < steps.len() && steps[j].step_id == d);
            }
        }
    }
}

/// Every step depends only on an existing step with a smaller identifier.
pub open spec fn dependencies_well_founded(steps: Seq<TransactionStep>) -> bool {
    forall|i: int| 0 <= i < steps.len() ==> (#[trigger] steps[i].depends_on matches Some(d)
        ==> d < steps[i].step_id && has_step(steps, d))
}

/// A step can run once its dependency, if any, is among `done`.
pub open spec fn ready(step: TransactionStep, done: Seq<u32>) -> bool {
    match step.depends_on {
        Some(d) => done.contains(d),
        None => true,
    }
}

/// `order` runs the steps at the distinct positions `placed`, each after its dependency.
pub open spec fn is_execution_order(steps: Seq<TransactionStep>, order: Seq<u32>, placed: Seq<int>) -> bool {
    &&& placed.len() == order.len()
    &&& forall|p: int| 0 <= p < placed.len() ==> 0 <= #[trigger] placed[p] < steps.len()
    &&& forall|p: int, q: int| 0 <= p < q < placed.len() ==> placed[p] != placed[q]
    &&& forall|p: int| 0 <= p < order.len() ==> #[trigger] order[p] == steps[placed[p]].step_id
    &&& forall|p: int| 0 <= p < order.len() ==> ready(#[trigger] steps[placed[p]], order.take(p))
}

/// Helpers for validating and scheduling atomic transactions.
pub struct AtomicTransactionUtils;

impl AtomicTransactionUtils {
    /// Checks that a transaction has 1 to 10 steps and that every dependency
    /// names an existing step with a smaller identifier.
    pub fn validate_transaction(transaction: &AtomicTransaction) -> (r: Result<(), &'static str>)
        ensures
            r == transaction_result(transaction.steps@),
            r is Ok ==> dependencies_well_founded(transaction.steps@),
    {
        let steps = &transaction.steps;
        if steps.len() == 0 {
            return Err("Transaction must have at least one step");
        }
        if steps.len() > MAX_TRANSACTION_STEPS as usize {
            return Err("Too many transaction steps");
        }
        let n = steps.len();
        let mut i: usize = 0;
        while i < n
            invariant
                n == steps.len(),
                steps@ == transaction.steps@,
                0 < n <= MAX_TRANSACTION_STEPS,
                i <= n,
                dependency_scan(steps@, 0) == dependency_scan(steps@, i as int),
                forall|k: int| 0 <= k < i ==> #[trigger] dependency_error(steps@, k) is None,
            decreases n - i,
        {
            if let Some(depends_on) = steps[i].depends_on {
                if depends_on >= steps[i].step_id {
                    assert(dependency_error(steps@, i as int) == Some("Invalid dependency: step cannot depend on itself or later steps"));
                    assert(dependency_scan(steps@, i as int) == Err::<(), &'static str>("Invalid dependency: step cannot depend on itself or later steps"));
                    return Err("Invalid dependency: step cannot depend on itself or later steps");
                }
                let mut found = false;
                let mut j: usize = 0;
                while j < n
                    invariant
                        n == steps.len(),
                        j <= n,
                        found <==> exists|k: int| 0 <= k < j && #[trigger] steps@[k].step_id == depends_on,
                    decreases n - j,
                {
                    if steps[j].step_id == depends_on {
                        found = true;
                    }
                    j = j + 1;
                }
                if !found {
                    assert(!has_step(steps@, depends_on));
                    assert(dependency_error(steps@, i as int) == Some("Dependency step not found"));
                    assert(dependency_scan(steps@, i as int) == Err::<(), &'static str>("Dependency step not found"));
                    return Err("Dependency step not found");
                }
            }
            assert(dependency_error(steps@, i as int) is None);
            i = i + 1;
        }
        assert forall|k: int| 0 <= k < n implies (#[trigger] steps@[k].depends_on matches Some(d)
            ==> d < steps@[k].step_id && has_step(steps@, d)) by {
            assert(dependency_error(steps@, k) is None);
        }
        Ok(())
    }
}

/// Whether `id` occurs in `ids`.
fn contains_id(ids: &Vec<u32>, id: u32) -> (b: bool)
    ensures
        b == ids@.contains(id),
{
    let mut j: usize = 0;
    while j < ids.len()
        invariant
            j <= ids.len(),
            forall|k: int| 0 <= k < j ==> ids@[k] != id,
        decreases ids.len() - j,
    {
        if ids[j] == id {
            return true;
        }
        j = j + 1;
    }
    false
}

/// Position in `rem` of a step with the smallest identifier.
pub open spec fn min_position(steps: Seq<TransactionStep>, rem: Seq<usize>) -> int
    decreases rem.len(),
{
    if rem.len() <= 1 {
        0
    } else {
        let k = min_position(steps, rem.drop_last());
        if steps[rem.last() as int].step_id < steps[rem[k] as int].step_id {
            rem.len() - 1
        } else {
            k
        }
    }
}

proof fn lemma_min_position(steps: Seq<TransactionStep>, rem: Seq<usize>)
    requires
        rem.len() > 0,
    ensures
        0 <= min_position(steps, rem) < rem.len(),
        forall|k: int| 0 <= k < rem.len() ==> steps[rem[min_position(steps, rem)] as int].step_id <= #[trigger] steps[rem[k] as int].step_id,
    decreases rem.len(),
{
    if rem.len() > 1 {
        lemma_min_position(steps, rem.drop_last());
        let k0 = min_position(steps, rem.drop_last());
        assert forall|k: int| 0 <= k < rem.len() implies steps[rem[min_position(steps, rem)] as int].step_id <= #[trigger] steps[rem[k] as int].step_id by {
            if k < rem.len() - 1 {
                assert(rem.drop_last()[k] == rem[k]);
            }
            assert(rem.drop_last()[k0] == rem[k0]);
        }
    }
}

/// With well-founded dependencies, some remaining step is always ready.
proof fn lemma_some_step_ready(steps: Seq<TransactionStep>, rem: Seq<usize>, order: Seq<u32>, placed: Seq<int>)
    requires
        dependencies_well_founded(steps),
        steps.len() <= usize::MAX,
        rem.len() > 0,
        is_execution_order(steps, order, placed),
        forall|k: int| 0 <= k < rem.len() ==> (#[trigger] rem[k] as int) < steps.len(),
        forall|j: int| 0 <= j < steps.len() ==> rem.contains(j as usize) || placed.contains(j),
    ensures
        exists|k: int| 0 <= k < rem.len() && ready(steps[#[trigger] rem[k] as int], order),
{
    lemma_min_position(steps, rem);
    let k = min_position(steps, rem);
    let s = steps[rem[k] as int];
    assert(rem[k] as int >= 0);
    match s.depends_on {
        Some(d) => {
            assert(steps[rem[k] as int].depends_on matches Some(dd) ==> dd < steps[rem[k] as int].step_id && has_step(steps, dd));
            let j = choose|j: int| 0 <= j < steps.len() && #[trigger] steps[j].step_id == d;
            if rem.contains(j as usize) {
                let k2 = choose|k2: int| 0 <= k2 < rem.len() && rem[k2] == j as usize;
                assert(rem[k2] as int == j);
                assert(steps[rem[k2] as int].step_id == d);
                assert(false);
            }
            assert(placed.contains(j));
            let p = choose|p: int| 0 <= p < placed.len() && placed[p] == j;
            assert(order[p] == d);
            assert(order.contains(d));
        },
        None => {},
    }
    assert(ready(steps[rem[k] as int], order));
}

/// One pass over the steps still waiting, at positions `rem`, in list order:
/// a step whose dependency is already ordered is appended to `ordered` (so
/// later steps of the same pass may follow it), the others keep waiting.
/// Gives the order and the steps still waiting after the pass.
pub open spec fn ordering_pass(steps: Seq<TransactionStep>, rem: Seq<usize>, ordered: Seq<u32>) -> (Seq<u32>, Seq<usize>)
    decreases rem.len(),
{
    if rem.len() == 0 {
        (ordered, rem)
    } else {
        let idx = rem[0];
        if ready(steps[idx as int], ordered) {
            ordering_pass(steps, rem.drop_first(), ordered.push(steps[idx as int].step_id))
        } else {
            let after = ordering_pass(steps, rem.drop_first(), ordered);
            (after.0, seq![idx] + after.1)
        }
    }
}

/// The order reached by passes over the waiting steps `rem`, starting from
/// `ordered`, until none waits or a pass places nothing.
pub open spec fn ordering_from(steps: Seq<TransactionStep>, rem: Seq<usize>, ordered: Seq<u32>) -> Seq<u32>
    decreases rem.len(),
{
    if rem.len() == 0 {
        ordered
    } else {
        let after = ordering_pass(steps, rem, ordered);
        if after.1.len() >= rem.len() {
            after.0
        } else {
            ordering_from(steps, after.1, after.0)
        }
    }
}

impl AtomicTransactionUtils {
    /// Orders the step identifiers so that every step comes after the step it
    /// depends on, taking ready steps in list order pass after pass.  Steps
    /// caught in a circular or dangling dependency are left out.
    pub fn resolve_execution_order(steps: &Vec<TransactionStep>) -> (order: Vec<u32>)
        ensures
            exists|placed: Seq<int>| is_execution_order(steps@, order@, placed)
                && forall|j: int| 0 <= j < steps@.len() && !placed.contains(j) ==> !ready(#[trigger] steps@[j], order@),
            order@.len() <= steps@.len(),
            dependencies_well_founded(steps@) ==> order@.len() == steps@.len(),
            order@ == ordering_from(steps@, Seq::new(steps@.len(), |k: int| k as usize), Seq::empty()),
    {
        let n = steps.len();
        let mut ordered: Vec<u32> = Vec::new();
        let mut remaining: Vec<usize> = Vec::new();
        let mut t: usize = 0;
        while t < n
            invariant
                n == steps.len(),
                t <= n,
                remaining@ == Seq::new(t as nat, |k: int| k as usize),
            decreases n - t,
        {
            remaining.push(t);
            t = t + 1;
            assert(remaining@ =~= Seq::new(t as nat, |k: int| k as usize));
        }
        let ghost mut placed: Seq<int> = Seq::empty();
        assert forall|j: int| 0 <= j < n implies remaining@.contains(j as usize) || placed.contains(j) by {
            assert(remaining@[j] == j as usize);
        }
        let ghost all_steps = remaining@;
        let mut stuck = false;
        while remaining.len() > 0 && !stuck
            invariant
                all_steps == Seq::new(steps@.len(), |k: int| k as usize),
                ordering_from(steps@, all_steps, Seq::empty()) == if stuck { ordered@ } else { ordering_from(steps@, remaining@, ordered@) },
                stuck ==> !dependencies_well_founded(steps@),
                stuck ==> forall|k: int| 0 <= k < remaining@.len() ==> !ready(steps@[#[trigger] remaining@[k] as int], ordered@),
                n == steps.len(),
                is_execution_order(steps@, ordered@, placed),
                forall|k: int| 0 <= k < remaining@.len() ==> (#[trigger] remaining@[k] as int) < n,
                forall|a: int, b: int| 0 <= a < b < remaining@.len() ==> remaining@[a] != remaining@[b],
                forall|k: int, p: int| 0 <= k < remaining@.len() && 0 <= p < placed.len() ==> remaining@[k] as int != placed[p],
                forall|j: int| 0 <= j < n ==> remaining@.contains(j as usize) || placed.contains(j),
                remaining@.len() + placed.len() == n,
            decreases remaining@.len() + (if stuck { 0int } else { 1int }),
        {
            let ghost start_len = remaining@.len();
            let ghost start_order = ordered@;
            let ghost start_rem = remaining@;
            let mut progress = false;
            let mut i: usize = 0;
            assert(remaining@.skip(0) =~= remaining@);
            assert(remaining@.take(0) + ordering_pass(steps@, remaining@, ordered@).1 =~= ordering_pass(steps@, remaining@, ordered@).1);
            while i < remaining.len()
                invariant
                    ordering_pass(steps@, start_rem, start_order) == ({
                        let after = ordering_pass(steps@, remaining@.skip(i as int), ordered@);
                        (after.0, remaining@.take(i as int) + after.1)
                    }),
                    n == steps.len(),
                    is_execution_order(steps@, ordered@, placed),
                    forall|k: int| 0 <= k < remaining@.len() ==> (#[trigger] remaining@[k] as int) < n,
                    forall|a: int, b: int| 0 <= a < b < remaining@.len() ==> remaining@[a] != remaining@[b],
                    forall|k: int, p: int| 0 <= k < remaining@.len() && 0 <= p < placed.len() ==> remaining@[k] as int != placed[p],
                    forall|j: int| 0 <= j < n ==> remaining@.contains(j as usize) || placed.contains(j),
                    remaining@.len() + placed.len() == n,
                    i <= remaining@.len(),
                    progress ==> remaining@.len() < start_len,
                    !progress ==> remaining@.len() == start_len && ordered@ == start_order,
                    !progress ==> forall|k: int| 0 <= k < i ==> !ready(steps@[#[trigger] remaining@[k] as int], ordered@),
                decreases remaining@.len() - i,
            {
                let idx = remaining[i];
                let can_execute = match steps[idx].depends_on {
                    None => true,
                    Some(dep_id) => contains_id(&ordered, dep_id),
                };
                if can_execute {
                    let ghost old_rem = remaining@;
                    let ghost old_order = ordered@;
                    let ghost old_placed = placed;
                    ordered.push(steps[idx].step_id);
                    remaining.remove(i);
                    proof {
                        assert(old_rem.skip(i as int)[0] == idx);
                        assert(old_rem.skip(i as int).drop_first() =~= remaining@.skip(i as int));
                        assert(old_rem.take(i as int) =~= remaining@.take(i as int));
                        placed = placed.push(idx as int);
                        assert(ordered@.take(old_order.len() as int) =~= old_order);
                        assert forall|p: int| 0 <= p < ordered@.len() implies ready(#[trigger] steps@[placed[p]], ordered@.take(p)) by {
                            if p < old_order.len() {
                                assert(ordered@.take(p) =~= old_order.take(p));
                            }
                        }
                        assert forall|j: int| 0 <= j < n implies remaining@.contains(j as usize) || placed.contains(j) by {
                            if old_rem.contains(j as usize) {
                                let k = choose|k: int| 0 <= k < old_rem.len() && old_rem[k] == j as usize;
                                if k == i {
                                    assert(placed[placed.len() - 1] == j);
                                } else if k < i {
                                    assert(remaining@[k] == j as usize);
                                } else {
                                    assert(remaining@[k - 1] == j as usize);
                                }
                            } else {
                                assert(old_placed.contains(j));
                                let p = choose|p: int| 0 <= p < old_placed.len() && old_placed[p] == j;
                                assert(placed[p] == j);
                            }
                        }
                    }
                    progress = true;
                } else {
                    proof {
                        let r = remaining@;
                        assert(r.skip(i as int)[0] == idx);
                        assert(r.skip(i as int).drop_first() =~= r.skip(i as int + 1));
                        let after = ordering_pass(steps@, r.skip(i as int + 1), ordered@);
                        assert(r.take(i as int) + (seq![idx] + after.1) =~= r.take(i as int + 1) + after.1);
                    }
                    i = i + 1;
                }
            }
            proof {
                assert(remaining@.skip(remaining@.len() as int) =~= Seq::<usize>::empty());
                assert(remaining@.take(remaining@.len() as int) =~= remaining@);
                assert(remaining@.take(remaining@.len() as int) + Seq::<usize>::empty() =~= remaining@);
            }
            if !progress {
                proof {
                    if dependencies_well_founded(steps@) {
                        lemma_some_step_ready(steps@, remaining@, ordered@, placed);
                        assert(false);
                    }
                }
                stuck = true;
            }
        }
        assert forall|j: int| 0 <= j < steps@.len() && !placed.contains(j) implies !ready(#[trigger] steps@[j], ordered@) by {
            assert(remaining@.contains(j as usize));
            let k = choose|k: int| 0 <= k < remaining@.len() && remaining@[k] == j as usize;
            assert(remaining@[k] as int == j);
        }
        ordered
    }

    /// Whether the transaction's deadline has passed at `now`.
    pub fn is_transaction_timed_out(transaction: &AtomicTransaction, now: u64) -> (b: bool)
        ensures
            b == (now > transaction.deadline),
    {
        now > transaction.deadline
    }

    /// A journal entry for step `step_id` of transaction `transaction_id`.
    pub fn create_journal_entry(
        transaction_id: u64,
        step_id: u32,
        action: &str,
        timestamp: u64,
        success: bool,
        error_message: Option<&str>,
    ) -> (e: TransactionJournalEntry)
        ensures
            e.transaction_id == transaction_id,
            e.step_id == step_id,
            e.action@ == action@,
            e.timestamp == timestamp,
            e.success == success,
            match error_message {
                Some(m) => e.error_message matches Some(s) && s@ == m@,
                None => e.error_message is None,
            },
            e.state_snapshot is None,
    {
        TransactionJournalEntry {
            transaction_id,
            step_id,
            action: action.to_owned(),
            timestamp,
            success,
            error_message: match error_message {
                Some(m) => Some(m.to_owned()),
                None => None,
            },
            state_snapshot: None,
        }
    }
}

} // verus!
