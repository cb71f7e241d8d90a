use vstd::prelude::*;

verus! {

/// An account or contract identity on the ledger.
#[derive(Clone, Copy, Debug, PartialEq, Eq, Structural, Hash)]
pub struct Address(pub u64);

/// Errors shared by the agent contracts.
#[derive(Clone, Copy, Debug, PartialEq, Eq, Structural)]
pub enum ContractError {
    Unauthorized,
    AlreadyInitialized,
    NotInitialized,
    InvalidInput,
    InvalidAgentId,
    AgentNotFound,
    DuplicateAgentId,
    NotOwner,
    AgentLeased,
    SameAddressTransfer,
    InvalidRoyaltyFee,
    OverflowError,
    InvalidMetadata,
    MetadataTooLong,
    CapabilitiesExceeded,
}

/// Maximum byte length of a metadata string.
pub const MAX_STRING_LENGTH: u32 = 256;
/// Maximum number of capabilities of an agent.
pub const MAX_CAPABILITIES: usize = 32;
/// Maximum size of opaque action data, in bytes.
pub const MAX_DATA_SIZE: u32 = 65536;
/// Maximum number of records kept in an action history.
pub const MAX_HISTORY_SIZE: u32 = 1000;
/// Maximum number of records a history query may ask for.
pub const MAX_HISTORY_QUERY_LIMIT: u32 = 500;
/// Default rate limit: operations per window.
pub const DEFAULT_RATE_LIMIT_OPERATIONS: u32 = 100;
/// Default rate limit window, in seconds.
pub const DEFAULT_RATE_LIMIT_WINDOW_SECONDS: u64 = 60;
/// Maximum number of steps of an atomic transaction.
pub const MAX_TRANSACTION_STEPS: u32 = 10;
/// Default lease deposit in basis points of the lease value.
pub const DEFAULT_LEASE_DEPOSIT_BPS: u32 = 1000;
/// Default early termination penalty in basis points of the remaining value.
pub const DEFAULT_EARLY_TERMINATION_PENALTY_BPS: u32 = 2000;

/// Royalty owed to a recipient on every sale, in basis points.
#[derive(Clone, Copy, Debug, PartialEq, Eq, Structural)]
pub struct RoyaltyInfo {
    pub recipient: Address,
    pub fee: u32,
}

/// An AI agent token.
#[derive(Debug)]
pub struct Agent {
    pub id: u64,
    pub owner: Address,
    pub name: String,
    pub model_hash: String,
    pub metadata_cid: String,
    pub capabilities: Vec<String>,
    pub evolution_level: u32,
    pub created_at: u64,
    pub updated_at: u64,
    pub nonce: u64,
    pub escrow_locked: bool,
    pub escrow_holder: Option<Address>,
}

/// Length in bytes of the UTF-8 encoding of a string.
pub open spec fn text_len(s: String) -> nat {
    vstd::utf8::encode_utf8(s@).len()
}

/// Returns the byte length of a string.
pub fn byte_len(s: &String) -> (n: usize)
    ensures
        n == text_len(*s),
{
    s.as_str().as_bytes().len()
}

/// Returns a copy of a string.
pub fn copy_text(s: &String) -> (r: String)
    ensures
        r == *s,
{
    s.clone()
}

/// Returns a copy of a byte string.
pub fn copy_bytes(v: &Vec<u8>) -> (r: Vec<u8>)
    ensures
        r@ == v@,
{
    let mut r: Vec<u8> = Vec::new();
    let mut i: usize = 0;
    while i < v.len()
        invariant
            i <= v.len(),
            r@ == v@.take(i as int),
        decreases v.len() - i,
    {
        r.push(v[i]);
        i = i + 1;
        assert(r@ =~= v@.take(i as int));
    }
    assert(v@.take(v.len() as int) =~= v@);
    r
}

/// Returns a copy of a list of strings.
pub fn copy_texts(v: &Vec<String>) -> (r: Vec<String>)
    ensures
        r@ == v@,
{
    let mut r: Vec<String> = Vec::new();
    let mut i: usize = 0;
    while i < v.len()
        invariant
            i <= v.len(),
            r@ == v@.take(i as int),
        decreases v.len() - i,
    {
        r.push(v[i].clone());
        i = i + 1;
        assert(r@ =~= v@.take(i as int));
    }
    assert(v@.take(v.len() as int) =~= v@);
    r
}

/// `a + b` clamped to the range of `i128`.
pub open spec fn sat_add_i128(a: i128, b: i128) -> i128 {
    if a + b > i128::MAX {
        i128::MAX
    } else if a + b < i128::MIN {
        i128::MIN
    } else {
        (a + b) as i128
    }
}

/// Adds two `i128` values, clamping at the type's bounds instead of overflowing.
pub fn saturating_add_i128(a: i128, b: i128) -> (r: i128)
    ensures
        r == sat_add_i128(a, b),
{
    match a.checked_add(b) {
        Some(v) => v,
        None => if b > 0 { i128::MAX } else { i128::MIN },
    }
}

/// `new` is `old` with key `k` set and every other entry kept.
pub open spec fn map_set_at<V>(old: Map<u64, V>, new: Map<u64, V>, k: u64) -> bool {
    &&& new.dom() == old.dom().insert(k)
    &&& forall|j: u64| j != k && old.contains_key(j) ==> new[j] == old[j]
}

/// Offset separating the two halves of a composite storage key.
pub const PAIR_SHIFT: u128 = 0x1_0000_0000_0000_0000;

/// Storage key of the pair `(a, b)`.
pub open spec fn pair_key(a: u64, b: u64) -> u128 {
    (a * PAIR_SHIFT + b) as u128
}

/// Computes the storage key of the pair `(a, b)`.
pub fn make_pair_key(a: u64, b: u64) -> (k: u128)
    ensures
        k == pair_key(a, b),
{
    (a as u128) * PAIR_SHIFT + b as u128
}

/// Distinct pairs have distinct storage keys.
pub proof fn lemma_pair_key_injective(a1: u64, b1: u64, a2: u64, b2: u64)
    ensures
        pair_key(a1, b1) == pair_key(a2, b2) ==> a1 == a2 && b1 == b2,
{
    if a1 < a2 {
        assert(a1 * PAIR_SHIFT + PAIR_SHIFT <= a2 * PAIR_SHIFT) by (nonlinear_arith)
            requires a1 < a2;
    } else if a2 < a1 {
        assert(a2 * PAIR_SHIFT + PAIR_SHIFT <= a1 * PAIR_SHIFT) by (nonlinear_arith)
            requires a2 < a1;
    }
}

} // verus!
