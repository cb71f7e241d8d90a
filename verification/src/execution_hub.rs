use vstd::prelude::*;
use vstd::hash_map::{HashMapWithView, StringHashMap};
use crate::types::{
    byte_len, copy_bytes, map_set_at, text_len, Address, DEFAULT_RATE_LIMIT_OPERATIONS,
    DEFAULT_RATE_LIMIT_WINDOW_SECONDS, MAX_DATA_SIZE, MAX_HISTORY_QUERY_LIMIT, MAX_HISTORY_SIZE,
    MAX_STRING_LENGTH,
};

verus! {

broadcast use vstd::std_specs::hash::group_hash_axioms;

/// Why an execution hub call is refused.
#[derive(Clone, Copy, Debug, PartialEq, Eq, Structural)]
pub enum HubError {
    AlreadyInitialized,
    AdminNotSet,
    AgentNftNotSet,
    GlobalLimitNotSet,
    InvalidAgentId,
    StringTooLong,
    DataTooLarge,
    NotAgentOwner,
    NotOwnerOrOperator,
    OperatorExpired,
    InvalidNonce,
    RateLimitExceeded,
    HistoryLimitExceeded,
    LimitTooLarge,
    NotAdmin,
    ZeroOperations,
    ZeroWindow,
    BypassNotInFuture,
    ArithmeticOverflow,
}

/// The text the hub aborts a transaction with for each refusal.
pub open spec fn hub_error_text(e: HubError) -> Seq<char> {
    match e {
        HubError::AlreadyInitialized => "Contract already initialized"@,
        HubError::AdminNotSet => "Admin not set"@,
        HubError::AgentNftNotSet => "AgentNFT contract not set"@,
        HubError::GlobalLimitNotSet => "Global rate limit not set"@,
        HubError::InvalidAgentId => "Invalid agent ID: must be non-zero"@,
        HubError::StringTooLong => "String exceeds maximum length"@,
        HubError::DataTooLarge => "Data exceeds maximum size"@,
        HubError::NotAgentOwner => "Unauthorized: caller is not agent owner"@,
        HubError::NotOwnerOrOperator => "Unauthorized: executor is not owner or operator"@,
        HubError::OperatorExpired => "Unauthorized: operator authorization expired"@,
        HubError::InvalidNonce => "Invalid nonce: replay protection triggered"@,
        HubError::RateLimitExceeded => "Rate limit exceeded"@,
        HubError::HistoryLimitExceeded => "Action history limit exceeded"@,
        HubError::LimitTooLarge => "Limit exceeds maximum allowed (500)"@,
        HubError::NotAdmin => "Unauthorized: caller is not admin"@,
        HubError::ZeroOperations => "operations must be greater than 0"@,
        HubError::ZeroWindow => "window_seconds must be greater than 0"@,
        HubError::BypassNotInFuture => "valid_until must be in the future"@,
        HubError::ArithmeticOverflow => "Execution ID overflow"@,
    }
}

impl HubError {
    /// The text the hub aborts a transaction with when it refuses a call for this reason.
    pub fn message(&self) -> (m: &'static str)
        ensures
            m@ == hub_error_text(*self),
    {
        match self {
            HubError::AlreadyInitialized => "Contract already initialized",
            HubError::AdminNotSet => "Admin not set",
            HubError::AgentNftNotSet => "AgentNFT contract not set",
            HubError::GlobalLimitNotSet => "Global rate limit not set",
            HubError::InvalidAgentId => "Invalid agent ID: must be non-zero",
            HubError::StringTooLong => "String exceeds maximum length",
            HubError::DataTooLarge => "Data exceeds maximum size",
            HubError::NotAgentOwner => "Unauthorized: caller is not agent owner",
            HubError::NotOwnerOrOperator => "Unauthorized: executor is not owner or operator",
            HubError::OperatorExpired => "Unauthorized: operator authorization expired",
            HubError::InvalidNonce => "Invalid nonce: replay protection triggered",
            HubError::RateLimitExceeded => "Rate limit exceeded",
            HubError::HistoryLimitExceeded => "Action history limit exceeded",
            HubError::LimitTooLarge => "Limit exceeds maximum allowed (500)",
            HubError::NotAdmin => "Unauthorized: caller is not admin",
            HubError::ZeroOperations => "operations must be greater than 0",
            HubError::ZeroWindow => "window_seconds must be greater than 0",
            HubError::BypassNotInFuture => "valid_until must be in the future",
            HubError::ArithmeticOverflow => "Execution ID overflow",
        }
    }
}

/// An operator allowed to execute for an agent until `expires_at`.
#[derive(Clone, Copy, Debug, PartialEq, Eq, Structural)]
pub struct OperatorData {
    pub operator: Address,
    pub expires_at: u64,
}

/// Rate limit window state of one agent.
#[derive(Clone, Copy, Debug, PartialEq, Eq, Structural)]
pub struct RateLimitData {
    pub last_reset: u64,
    pub count: u32,
}

/// At most `operations` executions per `window_seconds`.
#[derive(Clone, Copy, Debug, PartialEq, Eq, Structural)]
pub struct RateLimitConfig {
    pub operations: u32,
    pub window_seconds: u64,
}

/// An emergency exemption from rate limiting, valid until `valid_until`.
#[derive(Debug)]
pub struct BypassRecord {
    pub valid_until: u64,
    pub reason: String,
}

/// One executed action in an agent's history.
#[derive(Debug)]
pub struct ActionRecord {
    pub execution_id: u64,
    pub agent_id: u64,
    pub action: String,
    pub executor: Address,
    pub timestamp: u64,
    pub nonce: u64,
    pub execution_hash: Vec<u8>,
}

/// Proof of an execution, written once under its execution identifier.
#[derive(Debug)]
pub struct ExecutionReceipt {
    pub execution_id: u64,
    pub agent_id: u64,
    pub action: String,
    pub executor: Address,
    pub timestamp: u64,
    pub execution_hash: Vec<u8>,
    pub created_at: u64,
}

/// Storage of the execution hub contract.
pub struct ExecutionHub {
    pub admin: Option<Address>,
    pub agent_nft: Option<Address>,
    pub execution_counter: u64,
    pub global_rate_limit: Option<RateLimitConfig>,
    pub agent_rate_limits: HashMapWithView<u64, RateLimitConfig>,
    pub bypasses: HashMapWithView<u64, BypassRecord>,
    pub operators: HashMapWithView<u64, OperatorData>,
    pub rules: HashMapWithView<u64, StringHashMap<Vec<u8>>>,
    pub nonces: HashMapWithView<u64, u64>,
    pub rate_data: HashMapWithView<u64, RateLimitData>,
    pub history: HashMapWithView<u64, Vec<ActionRecord>>,
    pub receipts: HashMapWithView<u64, ExecutionReceipt>,
    pub execution_agents: HashMapWithView<u64, u64>,
}

/// Rate limit window after one more execution at `now`, or `None` when the
/// limit is reached: a window older than `window_seconds` restarts at `now`.
pub open spec fn spec_apply_rate_limit(now: u64, data: Option<RateLimitData>, max_operations: u32, window_seconds: u64) -> Option<RateLimitData> {
    let last_reset = match data { Some(d) => d.last_reset, None => now };
    let count = match data { Some(d) => d.count, None => 0u32 };
    let elapsed = if now >= last_reset { now - last_reset } else { 0 };
    if elapsed > window_seconds {
        Some(RateLimitData { last_reset: now, count: 1 })
    } else if count < max_operations {
        Some(RateLimitData { last_reset: last_reset, count: (count + 1) as u32 })
    } else {
        None
    }
}

/// `executor` is the owner, or the registered operator whose grant has not expired.
pub open spec fn spec_is_authorized(executor: Address, owner: Address, operator: Option<OperatorData>, now: u64) -> bool {
    executor == owner || (operator matches Some(o) && o.operator == executor && now <= o.expires_at)
}

/// `r` is the history record with these fields.
pub open spec fn record_is(r: ActionRecord, execution_id: u64, agent_id: u64, action: Seq<char>, executor: Address, timestamp: u64, nonce: u64, hash: Seq<u8>) -> bool {
    &&& r.execution_id == execution_id
    &&& r.agent_id == agent_id
    &&& r.action@ == action
    &&& r.executor == executor
    &&& r.timestamp == timestamp
    &&& r.nonce == nonce
    &&& r.execution_hash@ == hash
}

/// Two history records agree on every field.
pub open spec fn same_record(a: ActionRecord, b: ActionRecord) -> bool {
    record_is(a, b.execution_id, b.agent_id, b.action@, b.executor, b.timestamp, b.nonce, b.execution_hash@)
}

/// `r` is the receipt with these fields.
pub open spec fn receipt_is(r: ExecutionReceipt, execution_id: u64, agent_id: u64, action: Seq<char>, executor: Address, timestamp: u64, hash: Seq<u8>, created_at: u64) -> bool {
    &&& r.execution_id == execution_id
    &&& r.agent_id == agent_id
    &&& r.action@ == action
    &&& r.executor == executor
    &&& r.timestamp == timestamp
    &&& r.execution_hash@ == hash
    &&& r.created_at == created_at
}

/// Two receipts agree on every field.
pub open spec fn same_receipt(a: ExecutionReceipt, b: ExecutionReceipt) -> bool {
    receipt_is(a, b.execution_id, b.agent_id, b.action@, b.executor, b.timestamp, b.execution_hash@, b.created_at)
}

/// The last `limit` entries of `s` (all of them when there are fewer).
pub open spec fn tail(s: Seq<ActionRecord>, limit: u32) -> Seq<ActionRecord> {
    if s.len() > limit { s.subrange(s.len() - limit, s.len() as int) } else { s }
}

/// Rate limit window after one more execution: see `spec_apply_rate_limit`.
pub fn apply_rate_limit(now: u64, data: Option<RateLimitData>, max_operations: u32, window_seconds: u64) -> (r: Option<RateLimitData>)
    ensures
        r == spec_apply_rate_limit(now, data, max_operations, window_seconds),
        r matches Some(d) ==> d.count >= 1,
        (data matches Some(d) && d.count <= max_operations && max_operations > 0) ==> (r matches Some(n) ==> n.count <= max_operations),
        r is None ==> (match data { Some(d) => d.count >= max_operations, None => max_operations == 0 }),
{
    let (last_reset, count) = match data {
        Some(d) => (d.last_reset, d.count),
        None => (now, 0u32),
    };
    let elapsed = now.saturating_sub(last_reset);
    if elapsed > window_seconds {
        Some(RateLimitData { last_reset: now, count: 1 })
    } else if count < max_operations {
        Some(RateLimitData { last_reset, count: count + 1 })
    } else {
        None
    }
}

/// How many of the execution attempts at `times`, made one after another
/// from window state `data` under a limit of `ops` per `win` seconds, are
/// admitted; a refused attempt leaves the window as it was.
pub open spec fn admitted_count(data: Option<RateLimitData>, times: Seq<u64>, ops: u32, win: u64) -> nat
    decreases times.len(),
{
    if times.len() == 0 {
        0
    } else {
        match spec_apply_rate_limit(times[0], data, ops, win) {
            Some(d) => 1 + admitted_count(Some(d), times.drop_first(), ops, win),
            None => admitted_count(data, times.drop_first(), ops, win),
        }
    }
}

/// When the window of `data` opened; a first execution opens one at its own time.
pub open spec fn window_opened(data: Option<RateLimitData>, times: Seq<u64>) -> int {
    match data {
        Some(d) => d.last_reset as int,
        None => times[0] as int,
    }
}

/// Executions already counted in the window of `data`.
pub open spec fn window_used(data: Option<RateLimitData>) -> int {
    match data {
        Some(d) => d.count as int,
        None => 0,
    }
}

proof fn lemma_admitted_in_window(d: RateLimitData, times: Seq<u64>, ops: u32, win: u64)
    requires
        d.count <= ops,
        forall|i: int| 0 <= i < times.len() ==> #[trigger] times[i] <= d.last_reset + win,
    ensures
        d.count + admitted_count(Some(d), times, ops, win) <= ops,
    decreases times.len(),
{
    if times.len() > 0 {
        let rest = times.drop_first();
        assert forall|i: int| 0 <= i < rest.len() implies #[trigger] rest[i] <= d.last_reset + win by {
            assert(rest[i] == times[i + 1]);
        }
        match spec_apply_rate_limit(times[0], Some(d), ops, win) {
            Some(d2) => {
                lemma_admitted_in_window(d2, rest, ops, win);
            },
            None => {
                lemma_admitted_in_window(d, rest, ops, win);
            },
        }
    }
}

proof fn lemma_nothing_admitted(times: Seq<u64>, win: u64)
    ensures
        admitted_count(None, times, 0, win) == 0,
    decreases times.len(),
{
    if times.len() > 0 {
        lemma_nothing_admitted(times.drop_first(), win);
    }
}

/// Rate limiting: within one window, at most `ops` executions are admitted.
/// Whatever an agent's window state, attempts made no later than `win`
/// seconds after that window opened are admitted at most `ops` times,
/// counting those the window already holds.
pub proof fn window_admits_at_most_limit(start: Option<RateLimitData>, times: Seq<u64>, ops: u32, win: u64)
    requires
        times.len() > 0,
        window_used(start) <= ops,
        forall|i: int| 0 <= i < times.len() ==> #[trigger] times[i] <= window_opened(start, times) + win,
    ensures
        window_used(start) + admitted_count(start, times, ops, win) <= ops,
{
    match start {
        Some(d) => {
            lemma_admitted_in_window(d, times, ops, win);
        },
        None => {
            if ops == 0 {
                lemma_nothing_admitted(times, win);
            } else {
                let first = RateLimitData { last_reset: times[0], count: 1 };
                assert(spec_apply_rate_limit(times[0], None, ops, win) == Some(first));
                let rest = times.drop_first();
                assert forall|i: int| 0 <= i < rest.len() implies #[trigger] rest[i] <= first.last_reset + win by {
                    assert(rest[i] == times[i + 1]);
                }
                lemma_admitted_in_window(first, rest, ops, win);
            }
        },
    }
}

/// Replay protection: a submitted nonce is accepted only above the stored one.
pub fn apply_nonce(stored_nonce: u64, submitted_nonce: u64) -> (r: Option<u64>)
    ensures
        r == (if submitted_nonce <= stored_nonce { None } else { Some(submitted_nonce) }),
        r matches Some(n) ==> n > stored_nonce,
{
    if submitted_nonce <= stored_nonce {
        None
    } else {
        Some(submitted_nonce)
    }
}

/// The execution identifier after `current`; the counter saturates at `u64::MAX`.
pub fn next_execution_id(current: u64) -> (next: u64)
    requires
        current < u64::MAX,
    ensures
        next == current + 1,
{
    current + 1
}

/// Whether `executor` may act for an agent owned by `owner`.
pub fn is_authorized(executor: Address, owner: Address, operator: Option<OperatorData>, now: u64) -> (b: bool)
    ensures
        b == spec_is_authorized(executor, owner, operator, now),
{
    if executor == owner {
        return true;
    }
    if let Some(o) = operator {
        if o.operator == executor && now <= o.expires_at {
            return true;
        }
    }
    false
}

fn copy_record(r: &ActionRecord) -> (c: ActionRecord)
    ensures
        same_record(c, *r),
{
    ActionRecord {
        execution_id: r.execution_id,
        agent_id: r.agent_id,
        action: r.action.clone(),
        executor: r.executor,
        timestamp: r.timestamp,
        nonce: r.nonce,
        execution_hash: copy_bytes(&r.execution_hash),
    }
}

fn copy_receipt(r: &ExecutionReceipt) -> (c: ExecutionReceipt)
    ensures
        same_receipt(c, *r),
{
    ExecutionReceipt {
        execution_id: r.execution_id,
        agent_id: r.agent_id,
        action: r.action.clone(),
        executor: r.executor,
        timestamp: r.timestamp,
        execution_hash: copy_bytes(&r.execution_hash),
        created_at: r.created_at,
    }
}

impl ExecutionHub {
    /// The stored nonce of an agent (zero before its first execution).
    pub open spec fn stored_nonce(self, agent_id: u64) -> u64 {
        if self.nonces@.contains_key(agent_id) { self.nonces@[agent_id] } else { 0 }
    }

    /// The rate limit in force for an agent: its override, else the global one.
    pub open spec fn effective_limit(self, agent_id: u64) -> Option<RateLimitConfig> {
        if self.agent_rate_limits@.contains_key(agent_id) {
            Some(self.agent_rate_limits@[agent_id])
        } else {
            self.global_rate_limit
        }
    }

    /// An agent's bypass is in force at `now`.
    pub open spec fn bypass_active(self, agent_id: u64, now: u64) -> bool {
        self.bypasses@.contains_key(agent_id) && now < self.bypasses@[agent_id].valid_until
    }

    /// The rate limit window state of an agent, if any.
    pub open spec fn rate_entry(self, agent_id: u64) -> Option<RateLimitData> {
        if self.rate_data@.contains_key(agent_id) { Some(self.rate_data@[agent_id]) } else { None }
    }

    /// The operator grant of an agent, if any.
    pub open spec fn operator_of(self, agent_id: u64) -> Option<OperatorData> {
        if self.operators@.contains_key(agent_id) { Some(self.operators@[agent_id]) } else { None }
    }

    /// An agent's action history, oldest first.
    pub open spec fn history_of(self, agent_id: u64) -> Seq<ActionRecord> {
        if self.history@.contains_key(agent_id) { self.history@[agent_id]@ } else { Seq::empty() }
    }

    /// An agent's rules by name.
    pub open spec fn rules_of(self, agent_id: u64) -> Map<Seq<char>, Vec<u8>> {
        if self.rules@.contains_key(agent_id) { self.rules@[agent_id]@ } else { Map::empty() }
    }

    /// Receipts and reverse lookups exist only for issued execution identifiers.
    pub open spec fn wf(self) -> bool {
        &&& forall|id: u64| #[trigger] self.receipts@.contains_key(id) ==> 1 <= id <= self.execution_counter
        &&& forall|id: u64| #[trigger] self.execution_agents@.contains_key(id) ==> 1 <= id <= self.execution_counter
    }

    /// Every stored rate limit allows at least one operation per non-empty window.
    pub open spec fn limits_positive(self) -> bool {
        &&& (self.global_rate_limit matches Some(c) ==> c.operations > 0 && c.window_seconds > 0)
        &&& forall|a: u64| #[trigger] self.agent_rate_limits@.contains_key(a)
            ==> self.agent_rate_limits@[a].operations > 0 && self.agent_rate_limits@[a].window_seconds > 0
    }

    /// Administrator, rate limits and bypasses are the same in `a` and `b`.
    pub open spec fn same_controls(a: Self, b: Self) -> bool {
        &&& a.admin == b.admin
        &&& a.agent_nft == b.agent_nft
        &&& a.global_rate_limit == b.global_rate_limit
        &&& a.agent_rate_limits@ == b.agent_rate_limits@
        &&& a.bypasses@ == b.bypasses@
    }

    /// Operators and rules are the same in `a` and `b`.
    pub open spec fn same_delegation(a: Self, b: Self) -> bool {
        &&& a.operators@ == b.operators@
        &&& a.rules@ == b.rules@
    }

    /// Execution records are the same in `a` and `b`.
    pub open spec fn same_activity(a: Self, b: Self) -> bool {
        &&& a.execution_counter == b.execution_counter
        &&& a.nonces@ == b.nonces@
        &&& a.rate_data@ == b.rate_data@
        &&& a.history@ == b.history@
        &&& a.receipts@ == b.receipts@
        &&& a.execution_agents@ == b.execution_agents@
    }

    /// Outcome of `execute_action`, given the owner the agent NFT contract reports.
    pub open spec fn execute_result(
        self,
        agent_id: u64,
        executor: Address,
        action: String,
        parameters: Seq<u8>,
        nonce: u64,
        execution_hash: Seq<u8>,
        owner: Address,
        now: u64,
    ) -> Result<u64, HubError> {
        let op = self.operator_of(agent_id);
        if agent_id == 0 {
            Err(HubError::InvalidAgentId)
        } else if self.agent_nft is None {
            Err(HubError::AgentNftNotSet)
        } else if !spec_is_authorized(executor, owner, op, now) {
            if op matches Some(o) && o.operator == executor {
                Err(HubError::OperatorExpired)
            } else {
                Err(HubError::NotOwnerOrOperator)
            }
        } else if text_len(action) > MAX_STRING_LENGTH {
            Err(HubError::StringTooLong)
        } else if parameters.len() > MAX_DATA_SIZE || execution_hash.len() > MAX_DATA_SIZE {
            Err(HubError::DataTooLarge)
        } else if nonce <= self.stored_nonce(agent_id) {
            Err(HubError::InvalidNonce)
        } else if !self.bypass_active(agent_id, now) && self.effective_limit(agent_id) is None {
            Err(HubError::GlobalLimitNotSet)
        } else if !self.bypass_active(agent_id, now) && spec_apply_rate_limit(now, self.rate_entry(agent_id),
            self.effective_limit(agent_id)->Some_0.operations, self.effective_limit(agent_id)->Some_0.window_seconds) is None {
            Err(HubError::RateLimitExceeded)
        } else if self.execution_counter == u64::MAX {
            Err(HubError::ArithmeticOverflow)
        } else if self.history_of(agent_id).len() >= MAX_HISTORY_SIZE {
            Err(HubError::HistoryLimitExceeded)
        } else {
            Ok((self.execution_counter + 1) as u64)
        }
    }

    /// Empty storage of a hub that has not been initialised.
    pub fn new() -> (s: Self)
        ensures
            s.admin is None && s.agent_nft is None && s.global_rate_limit is None,
            s.execution_counter == 0,
            s.agent_rate_limits@ == Map::<u64, RateLimitConfig>::empty(),
            s.bypasses@ == Map::<u64, BypassRecord>::empty(),
            s.operators@ == Map::<u64, OperatorData>::empty(),
            s.rules@ == Map::<u64, StringHashMap<Vec<u8>>>::empty(),
            s.nonces@ == Map::<u64, u64>::empty(),
            s.rate_data@ == Map::<u64, RateLimitData>::empty(),
            s.history@ == Map::<u64, Vec<ActionRecord>>::empty(),
            s.receipts@ == Map::<u64, ExecutionReceipt>::empty(),
            s.execution_agents@ == Map::<u64, u64>::empty(),
            s.wf(),
    {
        ExecutionHub {
            admin: None,
            agent_nft: None,
            execution_counter: 0,
            global_rate_limit: None,
            agent_rate_limits: HashMapWithView::new(),
            bypasses: HashMapWithView::new(),
            operators: HashMapWithView::new(),
            rules: HashMapWithView::new(),
            nonces: HashMapWithView::new(),
            rate_data: HashMapWithView::new(),
            history: HashMapWithView::new(),
            receipts: HashMapWithView::new(),
            execution_agents: HashMapWithView::new(),
        }
    }

    /// One-time set-up: administrator, agent NFT contract, a zero counter and
    /// the default global rate limit.
    ///
    /// Checked form of `initialize`: a call the contract refuses is answered
    /// with the reason it aborts with, and storage is left as it was.
    pub fn try_initialize(&mut self, admin: Address, agent_nft: Address) -> (r: Result<(), HubError>)
        ensures
            old(self).admin is Some ==> r == Err::<(), HubError>(HubError::AlreadyInitialized) && *final(self) == *old(self),
            old(self).admin is None ==> r is Ok
                && final(self).admin == Some(admin)
                && final(self).agent_nft == Some(agent_nft)
                && final(self).execution_counter == 0
                && final(self).global_rate_limit == Some(RateLimitConfig {
                    operations: DEFAULT_RATE_LIMIT_OPERATIONS,
                    window_seconds: DEFAULT_RATE_LIMIT_WINDOW_SECONDS,
                })
                && final(self).agent_rate_limits@ == old(self).agent_rate_limits@
                && final(self).bypasses@ == old(self).bypasses@
                && Self::same_delegation(*old(self), *final(self))
                && final(self).nonces@ == old(self).nonces@
                && final(self).rate_data@ == old(self).rate_data@
                && final(self).history@ == old(self).history@
                && final(self).receipts@ == old(self).receipts@
                && final(self).execution_agents@ == old(self).execution_agents@,
            old(self).limits_positive() ==> final(self).limits_positive(),
    {
        if self.admin.is_some() {
            return Err(HubError::AlreadyInitialized);
        }
        self.admin = Some(admin);
        self.agent_nft = Some(agent_nft);
        self.execution_counter = 0;
        self.global_rate_limit = Some(RateLimitConfig {
            operations: DEFAULT_RATE_LIMIT_OPERATIONS,
            window_seconds: DEFAULT_RATE_LIMIT_WINDOW_SECONDS,
        });
        Ok(())
    }

    /// The number of execution identifiers issued.
    pub fn get_execution_counter(&self) -> (c: u64)
        ensures
            c == self.execution_counter,
    {
        self.execution_counter
    }

    /// Rejects agent identifier zero.
    pub fn validate_agent_id(agent_id: u64) -> (r: Result<(), HubError>)
        ensures
            r == (if agent_id == 0 { Err(HubError::InvalidAgentId) } else { Ok(()) }),
    {
        match crate::validation::validate_nonzero_id(agent_id) {
            Ok(()) => Ok(()),
            Err(_) => Err(HubError::InvalidAgentId),
        }
    }

    /// Rejects strings longer than `MAX_STRING_LENGTH` bytes.
    pub fn validate_string_length(s: &String) -> (r: Result<(), HubError>)
        ensures
            r == (if text_len(*s) > MAX_STRING_LENGTH { Err(HubError::StringTooLong) } else { Ok(()) }),
    {
        if byte_len(s) > MAX_STRING_LENGTH as usize {
            return Err(HubError::StringTooLong);
        }
        Ok(())
    }

    /// Rejects data longer than `MAX_DATA_SIZE` bytes.
    pub fn validate_data_size(data: &Vec<u8>) -> (r: Result<(), HubError>)
        ensures
            r == (if data@.len() > MAX_DATA_SIZE { Err(HubError::DataTooLarge) } else { Ok(()) }),
    {
        if data.len() > MAX_DATA_SIZE as usize {
            return Err(HubError::DataTooLarge);
        }
        Ok(())
    }

    /// Rejects a rate limit with zero operations or a zero window.
    pub fn validate_rate_limit_config(ops: u32, window_secs: u64) -> (r: Result<(), HubError>)
        ensures
            r == (if ops == 0 {
                Err(HubError::ZeroOperations)
            } else if window_secs == 0 {
                Err(HubError::ZeroWindow)
            } else {
                Ok(())
            }),
            r is Ok <==> ops > 0 && window_secs > 0,
    {
        if ops == 0 {
            return Err(HubError::ZeroOperations);
        }
        if window_secs == 0 {
            return Err(HubError::ZeroWindow);
        }
        Ok(())
    }

    /// Succeeds when `caller` is the administrator.
    pub fn verify_admin(&self, caller: &Address) -> (r: Result<(), HubError>)
        ensures
            r is Ok <==> self.admin == Some(*caller),
            r is Err ==> r == Err::<(), HubError>(HubError::NotAdmin),
    {
        match crate::admin::verify_admin(&self.admin, caller) {
            Ok(()) => Ok(()),
            Err(_) => Err(HubError::NotAdmin),
        }
    }

    /// The agent NFT contract to ask for the owner of `agent_id`; every call
    /// that checks ownership needs that owner.
    pub fn owner_query_target(&self, agent_id: u64) -> (r: Result<Address, HubError>)
        ensures
            r == (if agent_id == 0 {
                Err(HubError::InvalidAgentId)
            } else {
                match self.agent_nft {
                    Some(a) => Ok(a),
                    None => Err(HubError::AgentNftNotSet),
                }
            }),
    {
        Self::validate_agent_id(agent_id)?;
        match self.agent_nft {
            Some(a) => Ok(a),
            None => Err(HubError::AgentNftNotSet),
        }
    }

    /// Stores rule `rule_name` of agent `agent_id`.
    ///
    /// Checked form of `register_rule`: a call the contract refuses is answered
    /// with the reason it aborts with, and storage is left as it was.
    pub fn try_register_rule(&mut self, agent_id: u64, owner: Address, rule_name: String, rule_data: Vec<u8>) -> (r: Result<(), HubError>)
        ensures
            r == (if agent_id == 0 {
                Err(HubError::InvalidAgentId)
            } else if text_len(rule_name) > MAX_STRING_LENGTH {
                Err(HubError::StringTooLong)
            } else if rule_data@.len() > MAX_DATA_SIZE {
                Err(HubError::DataTooLarge)
            } else {
                Ok(())
            }),
            r is Err ==> *final(self) == *old(self),
            r is Ok ==> final(self).rules_of(agent_id) == old(self).rules_of(agent_id).insert(rule_name@, rule_data)
                && final(self).rules@.dom() == old(self).rules@.dom().insert(agent_id)
                && (forall|a: u64| a != agent_id ==> #[trigger] final(self).rules_of(a) == old(self).rules_of(a))
                && final(self).operators@ == old(self).operators@
                && Self::same_controls(*old(self), *final(self))
                && Self::same_activity(*old(self), *final(self)),
    {
        let _ = owner;
        Self::validate_agent_id(agent_id)?;
        Self::validate_string_length(&rule_name)?;
        Self::validate_data_size(&rule_data)?;
        let mut inner = match self.rules.remove(&agent_id) {
            Some(m) => m,
            None => StringHashMap::new(),
        };
        inner.insert(rule_name, rule_data);
        self.rules.insert(agent_id, inner);
        Ok(())
    }

    /// Removes rule `rule_name` of agent `agent_id`.
    ///
    /// Checked form of `revoke_rule`: a call the contract refuses is answered
    /// with the reason it aborts with, and storage is left as it was.
    pub fn try_revoke_rule(&mut self, agent_id: u64, owner: Address, rule_name: String) -> (r: Result<(), HubError>)
        ensures
            r == (if agent_id == 0 { Err(HubError::InvalidAgentId) } else { Ok(()) }),
            r is Err ==> *final(self) == *old(self),
            r is Ok ==> final(self).rules_of(agent_id) == old(self).rules_of(agent_id).remove(rule_name@)
                && (forall|a: u64| a != agent_id ==> #[trigger] final(self).rules_of(a) == old(self).rules_of(a))
                && final(self).operators@ == old(self).operators@
                && Self::same_controls(*old(self), *final(self))
                && Self::same_activity(*old(self), *final(self)),
    {
        let _ = owner;
        Self::validate_agent_id(agent_id)?;
        match self.rules.remove(&agent_id) {
            Some(m) => {
                let mut inner = m;
                inner.remove(rule_name.as_str());
                self.rules.insert(agent_id, inner);
            },
            None => {
                assert(old(self).rules_of(agent_id) =~= old(self).rules_of(agent_id).remove(rule_name@));
            },
        }
        Ok(())
    }

    /// Owner only, as reported by the agent NFT contract: lets `operator`
    /// execute for the agent for `duration_seconds` from `now`.
    ///
    /// Checked form of `authorize_operator`: a call the contract refuses is answered
    /// with the reason it aborts with, and storage is left as it was.
    pub fn try_authorize_operator(
        &mut self,
        agent_id: u64,
        owner: Address,
        operator: Address,
        duration_seconds: u64,
        actual_owner: Address,
        now: u64,
    ) -> (r: Result<(), HubError>)
        ensures
            r == (if agent_id == 0 {
                Err(HubError::InvalidAgentId)
            } else if old(self).agent_nft is None {
                Err(HubError::AgentNftNotSet)
            } else if owner != actual_owner {
                Err(HubError::NotAgentOwner)
            } else if now + duration_seconds > u64::MAX {
                Err(HubError::ArithmeticOverflow)
            } else {
                Ok(())
            }),
            r is Err ==> *final(self) == *old(self),
            r is Ok ==> final(self).operators@ == old(self).operators@.insert(agent_id, OperatorData {
                    operator: operator,
                    expires_at: (now + duration_seconds) as u64,
                })
                && final(self).rules@ == old(self).rules@
                && Self::same_controls(*old(self), *final(self))
                && Self::same_activity(*old(self), *final(self)),
    {
        self.owner_query_target(agent_id)?;
        if owner != actual_owner {
            return Err(HubError::NotAgentOwner);
        }
        let expires_at = match now.checked_add(duration_seconds) {
            Some(e) => e,
            None => {
                return Err(HubError::ArithmeticOverflow);
            },
        };
        self.operators.insert(agent_id, OperatorData { operator, expires_at });
        Ok(())
    }

    /// Owner only, as reported by the agent NFT contract: withdraws the operator grant.
    ///
    /// Checked form of `revoke_operator`: a call the contract refuses is answered
    /// with the reason it aborts with, and storage is left as it was.
    pub fn try_revoke_operator(&mut self, agent_id: u64, owner: Address, actual_owner: Address) -> (r: Result<(), HubError>)
        ensures
            r == (if agent_id == 0 {
                Err(HubError::InvalidAgentId)
            } else if old(self).agent_nft is None {
                Err(HubError::AgentNftNotSet)
            } else if owner != actual_owner {
                Err(HubError::NotAgentOwner)
            } else {
                Ok(())
            }),
            r is Err ==> *final(self) == *old(self),
            r is Ok ==> final(self).operators@ == old(self).operators@.remove(agent_id)
                && final(self).rules@ == old(self).rules@
                && Self::same_controls(*old(self), *final(self))
                && Self::same_activity(*old(self), *final(self)),
    {
        self.owner_query_target(agent_id)?;
        if owner != actual_owner {
            return Err(HubError::NotAgentOwner);
        }
        self.operators.remove(&agent_id);
        Ok(())
    }

    /// Rate limiting of one more execution of agent `agent_id` at `now`: no
    /// limit applies while a bypass is in force (`None`); otherwise the limit
    /// in force must admit one more execution, and the agent's window after it
    /// is returned for storing.
    ///
    /// Checked form of `check_rate_limit`: a call the contract refuses is answered
    /// with the reason it aborts with, and storage is left as it was.
    pub fn try_check_rate_limit(&self, agent_id: u64, now: u64) -> (r: Result<Option<RateLimitData>, HubError>)
        ensures
            self.bypass_active(agent_id, now) ==> r == Ok::<Option<RateLimitData>, HubError>(None),
            !self.bypass_active(agent_id, now) ==> r == match self.effective_limit(agent_id) {
                None => Err(HubError::GlobalLimitNotSet),
                Some(c) => match spec_apply_rate_limit(now, self.rate_entry(agent_id), c.operations, c.window_seconds) {
                    Some(d) => Ok(Some(d)),
                    None => Err(HubError::RateLimitExceeded),
                },
            },
    {
        let bypass = match self.bypasses.get(&agent_id) {
            Some(b) => now < b.valid_until,
            None => false,
        };
        if bypass {
            return Ok(None);
        }
        let config = match self.agent_rate_limits.get(&agent_id) {
            Some(c) => *c,
            None => match self.global_rate_limit {
                Some(c) => c,
                None => {
                    return Err(HubError::GlobalLimitNotSet);
                },
            },
        };
        let current = match self.rate_data.get(&agent_id) {
            Some(d) => Some(*d),
            None => None,
        };
        match apply_rate_limit(now, current, config.operations, config.window_seconds) {
            Some(d) => Ok(Some(d)),
            None => Err(HubError::RateLimitExceeded),
        }
    }

    /// Executes an action for agent `agent_id`, given the owner the agent NFT
    /// contract reports for it.  The executor must be the owner or an
    /// unexpired operator, the nonce must exceed the stored one, and the rate
    /// limit in force must allow one more execution unless a bypass is active.
    /// The action is appended to the agent's history, a receipt is written
    /// under the new execution identifier, and that identifier is returned.
    ///
    /// Checked form of `execute_action`: a call the contract refuses is answered
    /// with the reason it aborts with, and storage is left as it was.
    pub fn try_execute_action(
        &mut self,
        agent_id: u64,
        executor: Address,
        action: String,
        parameters: Vec<u8>,
        nonce: u64,
        execution_hash: Vec<u8>,
        owner: Address,
        now: u64,
    ) -> (r: Result<u64, HubError>)
        ensures
            r == old(self).execute_result(agent_id, executor, action, parameters@, nonce, execution_hash@, owner, now),
            r is Err ==> *final(self) == *old(self),
            r is Ok ==> {
                let id = r->Ok_0;
                let lim = old(self).effective_limit(agent_id)->Some_0;
                &&& final(self).execution_counter == id
                &&& final(self).nonces@ == old(self).nonces@.insert(agent_id, nonce)
                &&& final(self).rate_data@ == if old(self).bypass_active(agent_id, now) {
                    old(self).rate_data@
                } else {
                    old(self).rate_data@.insert(agent_id,
                        spec_apply_rate_limit(now, old(self).rate_entry(agent_id), lim.operations, lim.window_seconds)->Some_0)
                }
                &&& final(self).history@.dom() == old(self).history@.dom().insert(agent_id)
                &&& final(self).history_of(agent_id).len() == old(self).history_of(agent_id).len() + 1
                &&& final(self).history_of(agent_id).drop_last() == old(self).history_of(agent_id)
                &&& record_is(final(self).history_of(agent_id).last(), id, agent_id, action@, executor, now, nonce, execution_hash@)
                &&& forall|a: u64| a != agent_id && old(self).history@.contains_key(a) ==> #[trigger] final(self).history@[a] == old(self).history@[a]
                &&& map_set_at(old(self).receipts@, final(self).receipts@, id)
                &&& receipt_is(final(self).receipts@[id], id, agent_id, action@, executor, now, execution_hash@, now)
                &&& final(self).execution_agents@ == old(self).execution_agents@.insert(id, agent_id)
                &&& Self::same_controls(*old(self), *final(self))
                &&& Self::same_delegation(*old(self), *final(self))
            },
            old(self).wf() ==> final(self).wf(),
            old(self).wf() && old(self).execution_counter < u64::MAX ==> forall|id: u64| #[trigger] old(self).receipts@.contains_key(id)
                ==> final(self).receipts@.contains_key(id) && final(self).receipts@[id] == old(self).receipts@[id],
            r is Ok && old(self).execution_counter < u64::MAX ==> r->Ok_0 > old(self).execution_counter,
            r is Ok ==> nonce > old(self).stored_nonce(agent_id) && final(self).stored_nonce(agent_id) == nonce,
            r is Ok ==> spec_is_authorized(executor, owner, old(self).operator_of(agent_id), now),
    {
        self.owner_query_target(agent_id)?;
        let op = match self.operators.get(&agent_id) {
            Some(o) => Some(*o),
            None => None,
        };
        if !is_authorized(executor, owner, op, now) {
            if let Some(o) = op {
                if o.operator == executor {
                    return Err(HubError::OperatorExpired);
                }
            }
            return Err(HubError::NotOwnerOrOperator);
        }
        Self::validate_string_length(&action)?;
        Self::validate_data_size(&parameters)?;
        Self::validate_data_size(&execution_hash)?;
        let stored = match self.nonces.get(&agent_id) {
            Some(n) => *n,
            None => 0,
        };
        if apply_nonce(stored, nonce).is_none() {
            return Err(HubError::InvalidNonce);
        }
        let new_window = self.try_check_rate_limit(agent_id, now)?;
        if self.execution_counter == u64::MAX {
            return Err(HubError::ArithmeticOverflow);
        }
        let history_len = match self.history.get(&agent_id) {
            Some(h) => h.len(),
            None => 0,
        };
        if history_len >= MAX_HISTORY_SIZE as usize {
            return Err(HubError::HistoryLimitExceeded);
        }
        let ghost pre = *self;
        if let Some(d) = new_window {
            self.rate_data.insert(agent_id, d);
        }
        let execution_id = next_execution_id(self.execution_counter);
        self.execution_counter = execution_id;
        self.nonces.insert(agent_id, nonce);
        let mut h = match self.history.remove(&agent_id) {
            Some(v) => v,
            None => Vec::new(),
        };
        let record = ActionRecord {
            execution_id,
            agent_id,
            action: action.clone(),
            executor,
            timestamp: now,
            nonce,
            execution_hash: copy_bytes(&execution_hash),
        };
        h.push(record);
        self.history.insert(agent_id, h);
        let receipt = ExecutionReceipt {
            execution_id,
            agent_id,
            action,
            executor,
            timestamp: now,
            execution_hash,
            created_at: now,
        };
        self.receipts.insert(execution_id, receipt);
        self.execution_agents.insert(execution_id, agent_id);
        assert(self.history_of(agent_id).drop_last() =~= pre.history_of(agent_id));
        Ok(execution_id)
    }

    /// The last `limit` (at most 500) actions of agent `agent_id`, oldest first.
    ///
    /// Checked form of `get_history`: a call the contract refuses is answered
    /// with the reason it aborts with, and storage is left as it was.
    pub fn try_get_history(&self, agent_id: u64, limit: u32) -> (r: Result<Vec<ActionRecord>, HubError>)
        ensures
            agent_id == 0 ==> r == Err::<Vec<ActionRecord>, HubError>(HubError::InvalidAgentId),
            agent_id != 0 && limit > MAX_HISTORY_QUERY_LIMIT ==> r == Err::<Vec<ActionRecord>, HubError>(HubError::LimitTooLarge),
            agent_id != 0 && limit <= MAX_HISTORY_QUERY_LIMIT ==> r is Ok && {
                let t = tail(self.history_of(agent_id), limit);
                &&& r->Ok_0@.len() == t.len()
                &&& forall|i: int| 0 <= i < t.len() ==> same_record(#[trigger] r->Ok_0@[i], t[i])
            },
    {
        Self::validate_agent_id(agent_id)?;
        if limit > MAX_HISTORY_QUERY_LIMIT {
            return Err(HubError::LimitTooLarge);
        }
        let mut result: Vec<ActionRecord> = Vec::new();
        match self.history.get(&agent_id) {
            Some(h) => {
                let n = h.len();
                let start = if n > limit as usize { n - limit as usize } else { 0 };
                let ghost t = tail(self.history_of(agent_id), limit);
                assert(t =~= h@.subrange(start as int, n as int));
                let mut i = start;
                while i < n
                    invariant
                        n == h.len(),
                        start <= i <= n,
                        t == h@.subrange(start as int, n as int),
                        result@.len() == i - start,
                        forall|k: int| 0 <= k < i - start ==> same_record(#[trigger] result@[k], t[k]),
                    decreases n - i,
                {
                    result.push(copy_record(&h[i]));
                    i = i + 1;
                }
            },
            None => {},
        }
        Ok(result)
    }

    /// Number of actions recorded for agent `agent_id`.
    ///
    /// Checked form of `get_action_count`: a call the contract refuses is answered
    /// with the reason it aborts with, and storage is left as it was.
    pub fn try_get_action_count(&self, agent_id: u64) -> (r: Result<u32, HubError>)
        ensures
            agent_id == 0 ==> r == Err::<u32, HubError>(HubError::InvalidAgentId),
            agent_id != 0 && self.history_of(agent_id).len() <= u32::MAX ==> r == Ok::<u32, HubError>(self.history_of(agent_id).len() as u32),
    {
        Self::validate_agent_id(agent_id)?;
        match self.history.get(&agent_id) {
            Some(h) => Ok(h.len() as u32),
            None => Ok(0),
        }
    }

    /// The receipt of execution `execution_id`, if one was written.
    pub fn get_execution_receipt(&self, execution_id: u64) -> (r: Option<ExecutionReceipt>)
        ensures
            match r {
                Some(rc) => self.receipts@.contains_key(execution_id) && same_receipt(rc, self.receipts@[execution_id]),
                None => !self.receipts@.contains_key(execution_id),
            },
    {
        match self.receipts.get(&execution_id) {
            Some(rc) => Some(copy_receipt(rc)),
            None => None,
        }
    }

    /// The agent that performed execution `execution_id`, if any.
    pub fn get_agent_for_execution(&self, execution_id: u64) -> (r: Option<u64>)
        ensures
            r == (if self.execution_agents@.contains_key(execution_id) {
                Some(self.execution_agents@[execution_id])
            } else {
                None
            }),
    {
        match self.execution_agents.get(&execution_id) {
            Some(a) => Some(*a),
            None => None,
        }
    }

    /// Execution identifiers of `records` that have a stored receipt, in order.
    pub open spec fn receipted_ids(self, records: Seq<ActionRecord>) -> Seq<u64>
        decreases records.len(),
    {
        if records.len() == 0 {
            Seq::empty()
        } else {
            let rest = self.receipted_ids(records.drop_last());
            let id = records.last().execution_id;
            if self.receipts@.contains_key(id) { rest.push(id) } else { rest }
        }
    }

    /// The receipts of the last `limit` (at most 500) actions of agent
    /// `agent_id`, oldest first; actions without a stored receipt are skipped.
    ///
    /// Checked form of `get_agent_receipts`: a call the contract refuses is answered
    /// with the reason it aborts with, and storage is left as it was.
    pub fn try_get_agent_receipts(&self, agent_id: u64, limit: u32) -> (r: Result<Vec<ExecutionReceipt>, HubError>)
        ensures
            agent_id == 0 ==> r == Err::<Vec<ExecutionReceipt>, HubError>(HubError::InvalidAgentId),
            agent_id != 0 && limit > MAX_HISTORY_QUERY_LIMIT ==> r == Err::<Vec<ExecutionReceipt>, HubError>(HubError::LimitTooLarge),
            agent_id != 0 && limit <= MAX_HISTORY_QUERY_LIMIT ==> r is Ok && {
                let ids = self.receipted_ids(tail(self.history_of(agent_id), limit));
                &&& r->Ok_0@.len() == ids.len()
                &&& forall|i: int| 0 <= i < ids.len() ==> same_receipt(#[trigger] r->Ok_0@[i], self.receipts@[ids[i]])
            },
    {
        Self::validate_agent_id(agent_id)?;
        if limit > MAX_HISTORY_QUERY_LIMIT {
            return Err(HubError::LimitTooLarge);
        }
        let mut result: Vec<ExecutionReceipt> = Vec::new();
        match self.history.get(&agent_id) {
            Some(h) => {
                let n = h.len();
                let start = if n > limit as usize { n - limit as usize } else { 0 };
                let ghost t = tail(self.history_of(agent_id), limit);
                assert(t =~= h@.subrange(start as int, n as int));
                let mut i = start;
                assert(t.take(0) =~= Seq::<ActionRecord>::empty());
                while i < n
                    invariant
                        n == h.len(),
                        start <= i <= n,
                        t == h@.subrange(start as int, n as int),
                        result@.len() == self.receipted_ids(t.take(i - start)).len(),
                        forall|k: int| 0 <= k < result@.len() ==> same_receipt(#[trigger] result@[k],
                            self.receipts@[self.receipted_ids(t.take(i - start))[k]]),
                    decreases n - i,
                {
                    let ghost before = t.take(i - start);
                    assert(t.take(i - start + 1).drop_last() =~= before);
                    assert(t.take(i - start + 1).last() == h@[i as int]);
                    match self.receipts.get(&h[i].execution_id) {
                        Some(rc) => {
                            result.push(copy_receipt(rc));
                        },
                        None => {},
                    }
                    i = i + 1;
                }
                assert(t.take(n - start) =~= t);
            },
            None => {
                assert(tail(self.history_of(agent_id), limit) =~= Seq::<ActionRecord>::empty());
            },
        }
        Ok(result)
    }

    /// The administrator.
    ///
    /// Checked form of `get_admin`: a call the contract refuses is answered
    /// with the reason it aborts with, and storage is left as it was.
    pub fn try_get_admin(&self) -> (r: Result<Address, HubError>)
        ensures
            r == match self.admin {
                Some(a) => Ok::<Address, HubError>(a),
                None => Err(HubError::AdminNotSet),
            },
    {
        match self.admin {
            Some(a) => Ok(a),
            None => Err(HubError::AdminNotSet),
        }
    }

    /// The rate limit in force for agent `agent_id`.
    ///
    /// Checked form of `get_rate_limit`: a call the contract refuses is answered
    /// with the reason it aborts with, and storage is left as it was.
    pub fn try_get_rate_limit(&self, agent_id: u64) -> (r: Result<RateLimitConfig, HubError>)
        ensures
            r == match self.effective_limit(agent_id) {
                Some(c) => Ok::<RateLimitConfig, HubError>(c),
                None => Err(HubError::GlobalLimitNotSet),
            },
    {
        self.try_get_effective_rate_limit(agent_id)
    }

    /// The per-agent override if there is one, else the global rate limit.
    ///
    /// Checked form of `get_effective_rate_limit`: a call the contract refuses is answered
    /// with the reason it aborts with, and storage is left as it was.
    pub fn try_get_effective_rate_limit(&self, agent_id: u64) -> (r: Result<RateLimitConfig, HubError>)
        ensures
            r == match self.effective_limit(agent_id) {
                Some(c) => Ok::<RateLimitConfig, HubError>(c),
                None => Err(HubError::GlobalLimitNotSet),
            },
    {
        match self.agent_rate_limits.get(&agent_id) {
            Some(c) => Ok(*c),
            None => match self.global_rate_limit {
                Some(c) => Ok(c),
                None => Err(HubError::GlobalLimitNotSet),
            },
        }
    }

    /// Whether agent `agent_id` has a bypass in force at `now`.
    pub fn has_active_bypass(&self, agent_id: u64, now: u64) -> (b: bool)
        ensures
            b == self.bypass_active(agent_id, now),
    {
        match self.bypasses.get(&agent_id) {
            Some(rec) => now < rec.valid_until,
            None => false,
        }
    }

    /// Administrator only: sets the global rate limit.
    ///
    /// Checked form of `set_global_rate_limit`: a call the contract refuses is answered
    /// with the reason it aborts with, and storage is left as it was.
    pub fn try_set_global_rate_limit(&mut self, admin: Address, ops: u32, window_secs: u64) -> (r: Result<(), HubError>)
        ensures
            r == (if old(self).admin != Some(admin) {
                Err(HubError::NotAdmin)
            } else if ops == 0 {
                Err(HubError::ZeroOperations)
            } else if window_secs == 0 {
                Err(HubError::ZeroWindow)
            } else {
                Ok(())
            }),
            r is Err ==> *final(self) == *old(self),
            r is Ok ==> final(self).global_rate_limit == Some(RateLimitConfig { operations: ops, window_seconds: window_secs })
                && final(self).admin == old(self).admin
                && final(self).agent_nft == old(self).agent_nft
                && final(self).agent_rate_limits@ == old(self).agent_rate_limits@
                && final(self).bypasses@ == old(self).bypasses@
                && Self::same_delegation(*old(self), *final(self))
                && Self::same_activity(*old(self), *final(self)),
            old(self).limits_positive() ==> final(self).limits_positive(),
    {
        self.verify_admin(&admin)?;
        Self::validate_rate_limit_config(ops, window_secs)?;
        self.global_rate_limit = Some(RateLimitConfig { operations: ops, window_seconds: window_secs });
        Ok(())
    }

    /// Administrator only: sets the rate limit override of agent `agent_id`.
    ///
    /// Checked form of `set_agent_rate_limit`: a call the contract refuses is answered
    /// with the reason it aborts with, and storage is left as it was.
    pub fn try_set_agent_rate_limit(&mut self, admin: Address, agent_id: u64, ops: u32, window_secs: u64) -> (r: Result<(), HubError>)
        ensures
            r == (if old(self).admin != Some(admin) {
                Err(HubError::NotAdmin)
            } else if agent_id == 0 {
                Err(HubError::InvalidAgentId)
            } else if ops == 0 {
                Err(HubError::ZeroOperations)
            } else if window_secs == 0 {
                Err(HubError::ZeroWindow)
            } else {
                Ok(())
            }),
            r is Err ==> *final(self) == *old(self),
            r is Ok ==> final(self).agent_rate_limits@ == old(self).agent_rate_limits@.insert(agent_id,
                    RateLimitConfig { operations: ops, window_seconds: window_secs })
                && final(self).admin == old(self).admin
                && final(self).agent_nft == old(self).agent_nft
                && final(self).global_rate_limit == old(self).global_rate_limit
                && final(self).bypasses@ == old(self).bypasses@
                && Self::same_delegation(*old(self), *final(self))
                && Self::same_activity(*old(self), *final(self)),
            old(self).limits_positive() ==> final(self).limits_positive(),
    {
        self.verify_admin(&admin)?;
        Self::validate_agent_id(agent_id)?;
        Self::validate_rate_limit_config(ops, window_secs)?;
        self.agent_rate_limits.insert(agent_id, RateLimitConfig { operations: ops, window_seconds: window_secs });
        Ok(())
    }

    /// Administrator only: removes the override of agent `agent_id`, which
    /// falls back to the global rate limit.
    ///
    /// Checked form of `reset_agent_rate_limit`: a call the contract refuses is answered
    /// with the reason it aborts with, and storage is left as it was.
    pub fn try_reset_agent_rate_limit(&mut self, admin: Address, agent_id: u64) -> (r: Result<(), HubError>)
        ensures
            r == (if old(self).admin != Some(admin) {
                Err(HubError::NotAdmin)
            } else if agent_id == 0 {
                Err(HubError::InvalidAgentId)
            } else {
                Ok(())
            }),
            r is Err ==> *final(self) == *old(self),
            r is Ok ==> final(self).agent_rate_limits@ == old(self).agent_rate_limits@.remove(agent_id)
                && final(self).admin == old(self).admin
                && final(self).agent_nft == old(self).agent_nft
                && final(self).global_rate_limit == old(self).global_rate_limit
                && final(self).bypasses@ == old(self).bypasses@
                && Self::same_delegation(*old(self), *final(self))
                && Self::same_activity(*old(self), *final(self)),
            old(self).limits_positive() ==> final(self).limits_positive(),
    {
        self.verify_admin(&admin)?;
        Self::validate_agent_id(agent_id)?;
        self.agent_rate_limits.remove(&agent_id);
        Ok(())
    }

    /// Administrator only: exempts agent `agent_id` from rate limiting until
    /// `valid_until`, which must lie after `now`.
    ///
    /// Checked form of `set_rate_limit_bypass`: a call the contract refuses is answered
    /// with the reason it aborts with, and storage is left as it was.
    pub fn try_set_rate_limit_bypass(&mut self, admin: Address, agent_id: u64, reason: String, valid_until: u64, now: u64) -> (r: Result<(), HubError>)
        ensures
            r == (if old(self).admin != Some(admin) {
                Err(HubError::NotAdmin)
            } else if agent_id == 0 {
                Err(HubError::InvalidAgentId)
            } else if valid_until <= now {
                Err(HubError::BypassNotInFuture)
            } else {
                Ok(())
            }),
            r is Err ==> *final(self) == *old(self),
            r is Ok ==> map_set_at(old(self).bypasses@, final(self).bypasses@, agent_id)
                && final(self).bypasses@[agent_id].valid_until == valid_until
                && final(self).bypasses@[agent_id].reason@ == reason@
                && final(self).admin == old(self).admin
                && final(self).agent_nft == old(self).agent_nft
                && final(self).global_rate_limit == old(self).global_rate_limit
                && final(self).agent_rate_limits@ == old(self).agent_rate_limits@
                && Self::same_delegation(*old(self), *final(self))
                && Self::same_activity(*old(self), *final(self)),
    {
        self.verify_admin(&admin)?;
        Self::validate_agent_id(agent_id)?;
        if valid_until <= now {
            return Err(HubError::BypassNotInFuture);
        }
        self.bypasses.insert(agent_id, BypassRecord { valid_until, reason });
        Ok(())
    }

    /// Administrator only: withdraws the bypass of agent `agent_id`.
    ///
    /// Checked form of `clear_rate_limit_bypass`: a call the contract refuses is answered
    /// with the reason it aborts with, and storage is left as it was.
    pub fn try_clear_rate_limit_bypass(&mut self, admin: Address, agent_id: u64) -> (r: Result<(), HubError>)
        ensures
            r == (if old(self).admin != Some(admin) {
                Err(HubError::NotAdmin)
            } else if agent_id == 0 {
                Err(HubError::InvalidAgentId)
            } else {
                Ok(())
            }),
            r is Err ==> *final(self) == *old(self),
            r is Ok ==> final(self).bypasses@ == old(self).bypasses@.remove(agent_id)
                && final(self).admin == old(self).admin
                && final(self).agent_nft == old(self).agent_nft
                && final(self).global_rate_limit == old(self).global_rate_limit
                && final(self).agent_rate_limits@ == old(self).agent_rate_limits@
                && Self::same_delegation(*old(self), *final(self))
                && Self::same_activity(*old(self), *final(self)),
    {
        self.verify_admin(&admin)?;
        Self::validate_agent_id(agent_id)?;
        self.bypasses.remove(&agent_id);
        Ok(())
    }

    /// Administrator only: hands the administrator role to `new_admin`.
    ///
    /// Checked form of `transfer_admin`: a call the contract refuses is answered
    /// with the reason it aborts with, and storage is left as it was.
    pub fn try_transfer_admin(&mut self, current_admin: Address, new_admin: Address) -> (r: Result<(), HubError>)
        ensures
            r is Ok <==> old(self).admin == Some(current_admin),
            r is Err ==> r == Err::<(), HubError>(HubError::NotAdmin) && *final(self) == *old(self),
            r is Ok ==> final(self).admin == Some(new_admin)
                && final(self).agent_nft == old(self).agent_nft
                && final(self).global_rate_limit == old(self).global_rate_limit
                && final(self).agent_rate_limits@ == old(self).agent_rate_limits@
                && final(self).bypasses@ == old(self).bypasses@
                && Self::same_delegation(*old(self), *final(self))
                && Self::same_activity(*old(self), *final(self)),
    {
        match crate::admin::transfer_admin(&mut self.admin, &current_admin, &new_admin) {
            Ok(()) => Ok(()),
            Err(_) => Err(HubError::NotAdmin),
        }
    }

    /// The data of rule `rule_name` of agent `agent_id`.
    ///
    /// Checked form of `get_rule`: a call the contract refuses is answered
    /// with the reason it aborts with, and storage is left as it was.
    pub fn try_get_rule(&self, agent_id: u64, rule_name: String) -> (r: Result<Option<Vec<u8>>, HubError>)
        ensures
            agent_id == 0 ==> r == Err::<Option<Vec<u8>>, HubError>(HubError::InvalidAgentId),
            agent_id != 0 ==> match r {
                Ok(Some(d)) => self.rules_of(agent_id).contains_key(rule_name@) && d@ == self.rules_of(agent_id)[rule_name@]@,
                Ok(None) => !self.rules_of(agent_id).contains_key(rule_name@),
                Err(_) => false,
            },
    {
        Self::validate_agent_id(agent_id)?;
        match self.rules.get(&agent_id) {
            Some(inner) => match inner.get(rule_name.as_str()) {
                Some(d) => Ok(Some(copy_bytes(d))),
                None => Ok(None),
            },
            None => Ok(None),
        }
    }
}

/// The contract's entry points.  Each accepts exactly the calls the contract
/// carries out; a call it would abort is excluded by `requires`, and the
/// `try_` form of the same entry point answers it with the reason instead.
impl ExecutionHub {
    /// One-time set-up: administrator, agent NFT contract, a zero counter and
    /// the default global rate limit.
    pub fn initialize(&mut self, admin: Address, agent_nft: Address)
        requires
            old(self).admin is None,
        ensures
            final(self).admin == Some(admin),
            final(self).agent_nft == Some(agent_nft),
            final(self).execution_counter == 0,
            final(self).global_rate_limit == Some(RateLimitConfig {
                operations: DEFAULT_RATE_LIMIT_OPERATIONS,
                window_seconds: DEFAULT_RATE_LIMIT_WINDOW_SECONDS,
            }),
            final(self).agent_rate_limits@ == old(self).agent_rate_limits@,
            final(self).bypasses@ == old(self).bypasses@,
            Self::same_delegation(*old(self), *final(self)),
            final(self).nonces@ == old(self).nonces@,
            final(self).rate_data@ == old(self).rate_data@,
            final(self).history@ == old(self).history@,
            final(self).receipts@ == old(self).receipts@,
            final(self).execution_agents@ == old(self).execution_agents@,
            old(self).limits_positive() ==> final(self).limits_positive(),
    {
        let _ = self.try_initialize(admin, agent_nft);
    }

    /// Stores rule `rule_name` of agent `agent_id`.
    pub fn register_rule(&mut self, agent_id: u64, owner: Address, rule_name: String, rule_data: Vec<u8>)
        requires
            agent_id != 0,
            text_len(rule_name) <= MAX_STRING_LENGTH,
            rule_data@.len() <= MAX_DATA_SIZE,
        ensures
            final(self).rules_of(agent_id) == old(self).rules_of(agent_id).insert(rule_name@, rule_data),
            final(self).rules@.dom() == old(self).rules@.dom().insert(agent_id),
            forall|a: u64| a != agent_id ==> #[trigger] final(self).rules_of(a) == old(self).rules_of(a),
            final(self).operators@ == old(self).operators@,
            Self::same_controls(*old(self), *final(self)),
            Self::same_activity(*old(self), *final(self)),
    {
        let _ = self.try_register_rule(agent_id, owner, rule_name, rule_data);
    }

    /// Removes rule `rule_name` of agent `agent_id`.
    pub fn revoke_rule(&mut self, agent_id: u64, owner: Address, rule_name: String)
        requires
            agent_id != 0,
        ensures
            final(self).rules_of(agent_id) == old(self).rules_of(agent_id).remove(rule_name@),
            forall|a: u64| a != agent_id ==> #[trigger] final(self).rules_of(a) == old(self).rules_of(a),
            final(self).operators@ == old(self).operators@,
            Self::same_controls(*old(self), *final(self)),
            Self::same_activity(*old(self), *final(self)),
    {
        let _ = self.try_revoke_rule(agent_id, owner, rule_name);
    }

    /// Owner only, as reported by the agent NFT contract: lets `operator`
    /// execute for the agent for `duration_seconds` from `now`.
    pub fn authorize_operator(
        &mut self,
        agent_id: u64,
        owner: Address,
        operator: Address,
        duration_seconds: u64,
        actual_owner: Address,
        now: u64,
    )
        requires
            agent_id != 0,
            old(self).agent_nft is Some,
            owner == actual_owner,
            now + duration_seconds <= u64::MAX,
        ensures
            final(self).operators@ == old(self).operators@.insert(agent_id, OperatorData {
                operator: operator,
                expires_at: (now + duration_seconds) as u64,
            }),
            final(self).rules@ == old(self).rules@,
            Self::same_controls(*old(self), *final(self)),
            Self::same_activity(*old(self), *final(self)),
    {
        let _ = self.try_authorize_operator(agent_id, owner, operator, duration_seconds, actual_owner, now);
    }

    /// Owner only, as reported by the agent NFT contract: withdraws the operator grant.
    pub fn revoke_operator(&mut self, agent_id: u64, owner: Address, actual_owner: Address)
        requires
            agent_id != 0,
            old(self).agent_nft is Some,
            owner == actual_owner,
        ensures
            final(self).operators@ == old(self).operators@.remove(agent_id),
            final(self).rules@ == old(self).rules@,
            Self::same_controls(*old(self), *final(self)),
            Self::same_activity(*old(self), *final(self)),
    {
        let _ = self.try_revoke_operator(agent_id, owner, actual_owner);
    }

    /// Rate limiting of one more execution of agent `agent_id` at `now`: no
    /// limit applies while a bypass is in force (`None`); otherwise the window
    /// after this execution is returned for storing.
    pub fn check_rate_limit(&self, agent_id: u64, now: u64) -> (r: Option<RateLimitData>)
        requires
            !self.bypass_active(agent_id, now) ==> self.effective_limit(agent_id) is Some
                && spec_apply_rate_limit(now, self.rate_entry(agent_id), self.effective_limit(agent_id)->Some_0.operations,
                    self.effective_limit(agent_id)->Some_0.window_seconds) is Some,
        ensures
            self.bypass_active(agent_id, now) ==> r is None,
            !self.bypass_active(agent_id, now) ==> r == spec_apply_rate_limit(now, self.rate_entry(agent_id),
                self.effective_limit(agent_id)->Some_0.operations, self.effective_limit(agent_id)->Some_0.window_seconds),
    {
        match self.try_check_rate_limit(agent_id, now) {
            Ok(w) => w,
            Err(_) => {
                proof {
                    assert(false);
                }
                None
            },
        }
    }

    /// Executes an action for agent `agent_id`, given the owner the agent NFT
    /// contract reports for it, and returns the new execution identifier: one
    /// more than the counter, which never wraps.  The action is appended to
    /// the agent's history and a receipt is written under the new identifier.
    pub fn execute_action(
        &mut self,
        agent_id: u64,
        executor: Address,
        action: String,
        parameters: Vec<u8>,
        nonce: u64,
        execution_hash: Vec<u8>,
        owner: Address,
        now: u64,
    ) -> (id: u64)
        requires
            old(self).execute_result(agent_id, executor, action, parameters@, nonce, execution_hash@, owner, now) is Ok,
        ensures
            id == old(self).execution_counter + 1,
            ({
                let lim = old(self).effective_limit(agent_id)->Some_0;
                &&& final(self).execution_counter == id
                &&& final(self).nonces@ == old(self).nonces@.insert(agent_id, nonce)
                &&& final(self).rate_data@ == if old(self).bypass_active(agent_id, now) {
                    old(self).rate_data@
                } else {
                    old(self).rate_data@.insert(agent_id,
                        spec_apply_rate_limit(now, old(self).rate_entry(agent_id), lim.operations, lim.window_seconds)->Some_0)
                }
                &&& final(self).history@.dom() == old(self).history@.dom().insert(agent_id)
                &&& final(self).history_of(agent_id).len() == old(self).history_of(agent_id).len() + 1
                &&& final(self).history_of(agent_id).drop_last() == old(self).history_of(agent_id)
                &&& record_is(final(self).history_of(agent_id).last(), id, agent_id, action@, executor, now, nonce, execution_hash@)
                &&& forall|a: u64| a != agent_id && old(self).history@.contains_key(a) ==> #[trigger] final(self).history@[a] == old(self).history@[a]
                &&& map_set_at(old(self).receipts@, final(self).receipts@, id)
                &&& receipt_is(final(self).receipts@[id], id, agent_id, action@, executor, now, execution_hash@, now)
                &&& final(self).execution_agents@ == old(self).execution_agents@.insert(id, agent_id)
                &&& Self::same_controls(*old(self), *final(self))
                &&& Self::same_delegation(*old(self), *final(self))
            }),
            old(self).wf() ==> final(self).wf(),
            old(self).wf() ==> forall|k: u64| #[trigger] old(self).receipts@.contains_key(k)
                ==> final(self).receipts@.contains_key(k) && final(self).receipts@[k] == old(self).receipts@[k],
            nonce > old(self).stored_nonce(agent_id) && final(self).stored_nonce(agent_id) == nonce,
            spec_is_authorized(executor, owner, old(self).operator_of(agent_id), now),
    {
        match self.try_execute_action(agent_id, executor, action, parameters, nonce, execution_hash, owner, now) {
            Ok(id) => id,
            Err(_) => {
                proof {
                    assert(false);
                }
                0
            },
        }
    }

    /// The last `limit` (at most 500) actions of agent `agent_id`, oldest first.
    pub fn get_history(&self, agent_id: u64, limit: u32) -> (r: Vec<ActionRecord>)
        requires
            agent_id != 0,
            limit <= MAX_HISTORY_QUERY_LIMIT,
        ensures
            ({
                let t = tail(self.history_of(agent_id), limit);
                &&& r@.len() == t.len()
                &&& forall|i: int| 0 <= i < t.len() ==> same_record(#[trigger] r@[i], t[i])
            }),
    {
        match self.try_get_history(agent_id, limit) {
            Ok(v) => v,
            Err(_) => {
                proof {
                    assert(false);
                }
                Vec::new()
            },
        }
    }

    /// Number of actions recorded for agent `agent_id`.
    pub fn get_action_count(&self, agent_id: u64) -> (n: u32)
        requires
            agent_id != 0,
            self.history_of(agent_id).len() <= u32::MAX,
        ensures
            n == self.history_of(agent_id).len(),
    {
        match self.try_get_action_count(agent_id) {
            Ok(n) => n,
            Err(_) => {
                proof {
                    assert(false);
                }
                0
            },
        }
    }

    /// The receipts of the last `limit` (at most 500) actions of agent
    /// `agent_id`, oldest first; actions without a stored receipt are skipped.
    pub fn get_agent_receipts(&self, agent_id: u64, limit: u32) -> (r: Vec<ExecutionReceipt>)
        requires
            agent_id != 0,
            limit <= MAX_HISTORY_QUERY_LIMIT,
        ensures
            ({
                let ids = self.receipted_ids(tail(self.history_of(agent_id), limit));
                &&& r@.len() == ids.len()
                &&& forall|i: int| 0 <= i < ids.len() ==> same_receipt(#[trigger] r@[i], self.receipts@[ids[i]])
            }),
    {
        match self.try_get_agent_receipts(agent_id, limit) {
            Ok(v) => v,
            Err(_) => {
                proof {
                    assert(false);
                }
                Vec::new()
            },
        }
    }

    /// The administrator.
    pub fn get_admin(&self) -> (a: Address)
        requires
            self.admin is Some,
        ensures
            self.admin == Some(a),
    {
        match self.try_get_admin() {
            Ok(a) => a,
            Err(_) => {
                proof {
                    assert(false);
                }
                Address(0)
            },
        }
    }

    /// The rate limit in force for agent `agent_id`.
    pub fn get_rate_limit(&self, agent_id: u64) -> (c: RateLimitConfig)
        requires
            self.effective_limit(agent_id) is Some,
        ensures
            self.effective_limit(agent_id) == Some(c),
    {
        self.get_effective_rate_limit(agent_id)
    }

    /// The per-agent override if there is one, else the global rate limit.
    pub fn get_effective_rate_limit(&self, agent_id: u64) -> (c: RateLimitConfig)
        requires
            self.effective_limit(agent_id) is Some,
        ensures
            self.effective_limit(agent_id) == Some(c),
    {
        match self.try_get_effective_rate_limit(agent_id) {
            Ok(c) => c,
            Err(_) => {
                proof {
                    assert(false);
                }
                RateLimitConfig { operations: 0, window_seconds: 0 }
            },
        }
    }

    /// Administrator only: sets the global rate limit, which must be positive.
    pub fn set_global_rate_limit(&mut self, admin: Address, ops: u32, window_secs: u64)
        requires
            old(self).admin == Some(admin),
            ops > 0,
            window_secs > 0,
        ensures
            final(self).global_rate_limit == Some(RateLimitConfig { operations: ops, window_seconds: window_secs }),
            final(self).admin == old(self).admin,
            final(self).agent_nft == old(self).agent_nft,
            final(self).agent_rate_limits@ == old(self).agent_rate_limits@,
            final(self).bypasses@ == old(self).bypasses@,
            Self::same_delegation(*old(self), *final(self)),
            Self::same_activity(*old(self), *final(self)),
            old(self).limits_positive() ==> final(self).limits_positive(),
    {
        let _ = self.try_set_global_rate_limit(admin, ops, window_secs);
    }

    /// Administrator only: sets the positive rate limit override of agent `agent_id`.
    pub fn set_agent_rate_limit(&mut self, admin: Address, agent_id: u64, ops: u32, window_secs: u64)
        requires
            old(self).admin == Some(admin),
            agent_id != 0,
            ops > 0,
            window_secs > 0,
        ensures
            final(self).agent_rate_limits@ == old(self).agent_rate_limits@.insert(agent_id,
                RateLimitConfig { operations: ops, window_seconds: window_secs }),
            final(self).admin == old(self).admin,
            final(self).agent_nft == old(self).agent_nft,
            final(self).global_rate_limit == old(self).global_rate_limit,
            final(self).bypasses@ == old(self).bypasses@,
            Self::same_delegation(*old(self), *final(self)),
            Self::same_activity(*old(self), *final(self)),
            old(self).limits_positive() ==> final(self).limits_positive(),
    {
        let _ = self.try_set_agent_rate_limit(admin, agent_id, ops, window_secs);
    }

    /// Administrator only: removes the override of agent `agent_id`, which
    /// falls back to the global rate limit.
    pub fn reset_agent_rate_limit(&mut self, admin: Address, agent_id: u64)
        requires
            old(self).admin == Some(admin),
            agent_id != 0,
        ensures
            final(self).agent_rate_limits@ == old(self).agent_rate_limits@.remove(agent_id),
            final(self).admin == old(self).admin,
            final(self).agent_nft == old(self).agent_nft,
            final(self).global_rate_limit == old(self).global_rate_limit,
            final(self).bypasses@ == old(self).bypasses@,
            Self::same_delegation(*old(self), *final(self)),
            Self::same_activity(*old(self), *final(self)),
            old(self).limits_positive() ==> final(self).limits_positive(),
    {
        let _ = self.try_reset_agent_rate_limit(admin, agent_id);
    }

    /// Administrator only: exempts agent `agent_id` from rate limiting until
    /// `valid_until`, which lies after `now`.
    pub fn set_rate_limit_bypass(&mut self, admin: Address, agent_id: u64, reason: String, valid_until: u64, now: u64)
        requires
            old(self).admin == Some(admin),
            agent_id != 0,
            valid_until > now,
        ensures
            map_set_at(old(self).bypasses@, final(self).bypasses@, agent_id),
            final(self).bypasses@[agent_id].valid_until == valid_until,
            final(self).bypasses@[agent_id].reason@ == reason@,
            final(self).admin == old(self).admin,
            final(self).agent_nft == old(self).agent_nft,
            final(self).global_rate_limit == old(self).global_rate_limit,
            final(self).agent_rate_limits@ == old(self).agent_rate_limits@,
            Self::same_delegation(*old(self), *final(self)),
            Self::same_activity(*old(self), *final(self)),
    {
        let _ = self.try_set_rate_limit_bypass(admin, agent_id, reason, valid_until, now);
    }

    /// Administrator only: withdraws the bypass of agent `agent_id`.
    pub fn clear_rate_limit_bypass(&mut self, admin: Address, agent_id: u64)
        requires
            old(self).admin == Some(admin),
            agent_id != 0,
        ensures
            final(self).bypasses@ == old(self).bypasses@.remove(agent_id),
            final(self).admin == old(self).admin,
            final(self).agent_nft == old(self).agent_nft,
            final(self).global_rate_limit == old(self).global_rate_limit,
            final(self).agent_rate_limits@ == old(self).agent_rate_limits@,
            Self::same_delegation(*old(self), *final(self)),
            Self::same_activity(*old(self), *final(self)),
    {
        let _ = self.try_clear_rate_limit_bypass(admin, agent_id);
    }

    /// Administrator only: hands the administrator role to `new_admin`.
    pub fn transfer_admin(&mut self, current_admin: Address, new_admin: Address)
        requires
            old(self).admin == Some(current_admin),
        ensures
            final(self).admin == Some(new_admin),
            final(self).agent_nft == old(self).agent_nft,
            final(self).global_rate_limit == old(self).global_rate_limit,
            final(self).agent_rate_limits@ == old(self).agent_rate_limits@,
            final(self).bypasses@ == old(self).bypasses@,
            Self::same_delegation(*old(self), *final(self)),
            Self::same_activity(*old(self), *final(self)),
    {
        let _ = self.try_transfer_admin(current_admin, new_admin);
    }

    /// The data of rule `rule_name` of agent `agent_id`, if it is stored.
    pub fn get_rule(&self, agent_id: u64, rule_name: String) -> (r: Option<Vec<u8>>)
        requires
            agent_id != 0,
        ensures
            match r {
                Some(d) => self.rules_of(agent_id).contains_key(rule_name@) && d@ == self.rules_of(agent_id)[rule_name@]@,
                None => !self.rules_of(agent_id).contains_key(rule_name@),
            },
    {
        match self.try_get_rule(agent_id, rule_name) {
            Ok(r) => r,
            Err(_) => {
                proof {
                    assert(false);
                }
                None
            },
        }
    }
}

/// What `execute_action` refuses, whatever the rest of the call:
/// - an executor that is neither the owner nor the registered operator is
///   refused as unauthorised;
/// - the registered operator is refused once its grant has expired, and is
///   accepted as an owner would be until then;
/// - an authorised call whose nonce is not above the stored one is refused
///   as a replay;
/// - a call that passes every other check but finds the agent's history full
///   is refused;
/// - an accepted call returns the identifier after the counter, which is below
///   its maximum, and its nonce is above the stored one.
pub proof fn execute_action_refusals(hub: ExecutionHub, agent_id: u64, executor: Address, action: String,
    parameters: Seq<u8>, nonce: u64, execution_hash: Seq<u8>, owner: Address, now: u64)
    requires
        agent_id != 0,
        hub.agent_nft is Some,
    ensures
        executor != owner && !(hub.operator_of(agent_id) matches Some(o) && o.operator == executor)
            ==> hub.execute_result(agent_id, executor, action, parameters, nonce, execution_hash, owner, now)
                == Err::<u64, HubError>(HubError::NotOwnerOrOperator),
        executor != owner && (hub.operator_of(agent_id) matches Some(o) && o.operator == executor && now > o.expires_at)
            ==> hub.execute_result(agent_id, executor, action, parameters, nonce, execution_hash, owner, now)
                == Err::<u64, HubError>(HubError::OperatorExpired),
        (hub.operator_of(agent_id) matches Some(o) && o.operator == executor && now <= o.expires_at)
            ==> spec_is_authorized(executor, owner, hub.operator_of(agent_id), now),
        spec_is_authorized(executor, owner, hub.operator_of(agent_id), now) && text_len(action) <= MAX_STRING_LENGTH
            && parameters.len() <= MAX_DATA_SIZE && execution_hash.len() <= MAX_DATA_SIZE
            && nonce <= hub.stored_nonce(agent_id)
            ==> hub.execute_result(agent_id, executor, action, parameters, nonce, execution_hash, owner, now)
                == Err::<u64, HubError>(HubError::InvalidNonce),
        spec_is_authorized(executor, owner, hub.operator_of(agent_id), now) && text_len(action) <= MAX_STRING_LENGTH
            && parameters.len() <= MAX_DATA_SIZE && execution_hash.len() <= MAX_DATA_SIZE
            && nonce > hub.stored_nonce(agent_id)
            && (hub.bypass_active(agent_id, now) || (hub.effective_limit(agent_id) is Some
                && spec_apply_rate_limit(now, hub.rate_entry(agent_id), hub.effective_limit(agent_id)->Some_0.operations,
                    hub.effective_limit(agent_id)->Some_0.window_seconds) is Some))
            && hub.execution_counter < u64::MAX
            && hub.history_of(agent_id).len() >= MAX_HISTORY_SIZE
            ==> hub.execute_result(agent_id, executor, action, parameters, nonce, execution_hash, owner, now)
                == Err::<u64, HubError>(HubError::HistoryLimitExceeded),
        hub.execute_result(agent_id, executor, action, parameters, nonce, execution_hash, owner, now) is Ok
            ==> hub.execution_counter < u64::MAX
            && hub.execute_result(agent_id, executor, action, parameters, nonce, execution_hash, owner, now)
                == Ok::<u64, HubError>((hub.execution_counter + 1) as u64)
            && nonce > hub.stored_nonce(agent_id)
            && hub.history_of(agent_id).len() < MAX_HISTORY_SIZE,
{
}

/// A bypass lets an agent's executions past rate limiting exactly while the
/// ledger time is before its expiry: then the rate-limit check admits the
/// execution without touching the window, and `execute_action` never
/// refuses it for the rate limit.
pub proof fn bypass_skips_rate_limiting(hub: ExecutionHub, agent_id: u64, valid_until: u64, executor: Address,
    action: String, parameters: Seq<u8>, nonce: u64, execution_hash: Seq<u8>, owner: Address, now: u64)
    requires
        hub.bypasses@.contains_key(agent_id),
        hub.bypasses@[agent_id].valid_until == valid_until,
    ensures
        hub.bypass_active(agent_id, now) <==> now < valid_until,
        now < valid_until ==> hub.execute_result(agent_id, executor, action, parameters, nonce, execution_hash, owner, now)
            != Err::<u64, HubError>(HubError::RateLimitExceeded)
            && hub.execute_result(agent_id, executor, action, parameters, nonce, execution_hash, owner, now)
            != Err::<u64, HubError>(HubError::GlobalLimitNotSet),
{
}

/// Under a positive limit, a window that admits an execution counts it: the
/// count after an admitted execution is at least one, and never above the
/// limit when it was within the limit before.
pub proof fn admitted_window_stays_within_limit(data: Option<RateLimitData>, now: u64, ops: u32, win: u64)
    requires
        ops > 0,
        window_used(data) <= ops,
        spec_apply_rate_limit(now, data, ops, win) is Some,
    ensures
        1 <= spec_apply_rate_limit(now, data, ops, win)->Some_0.count <= ops,
{
}

/// An admitted execution lies in the window it is counted in, and windows
/// move on: whenever the rate limit admits an execution at `now`, the stored
/// window ends no earlier than `now`; a window older than `win` seconds is
/// replaced by one opening at `now` holding just this execution; inside the
/// current window the execution is admitted exactly while fewer than `ops`
/// are counted, and is added to them; a first execution opens a window at
/// `now`.
pub proof fn admitted_execution_is_in_its_window(now: u64, data: Option<RateLimitData>, ops: u32, win: u64)
    ensures
        spec_apply_rate_limit(now, data, ops, win) matches Some(d) ==> now <= d.last_reset + win && d.count >= 1,
        data is Some && now > data->Some_0.last_reset + win
            ==> spec_apply_rate_limit(now, data, ops, win) == Some(RateLimitData { last_reset: now, count: 1 }),
        data is Some && now <= data->Some_0.last_reset + win
            ==> (spec_apply_rate_limit(now, data, ops, win) is Some <==> data->Some_0.count < ops),
        data is Some && now <= data->Some_0.last_reset + win && data->Some_0.count < ops
            ==> spec_apply_rate_limit(now, data, ops, win) == Some(RateLimitData {
                last_reset: data->Some_0.last_reset,
                count: (data->Some_0.count + 1) as u32,
            }),
        data is None ==> (spec_apply_rate_limit(now, data, ops, win) is Some <==> ops > 0)
            && (ops > 0 ==> spec_apply_rate_limit(now, data, ops, win) == Some(RateLimitData { last_reset: now, count: 1 })),
{
}

/// A history query returns the most recent actions, oldest first: the last
/// `limit` entries of the history (all of them when there are fewer), each
/// at its place counted from the end, so the last one returned is the most
/// recent action.
pub proof fn history_query_is_a_suffix(s: Seq<ActionRecord>, limit: u32)
    ensures
        tail(s, limit).len() == if s.len() < limit { s.len() } else { limit as nat },
        forall|i: int| 0 <= i < tail(s, limit).len()
            ==> #[trigger] tail(s, limit)[i] == s[s.len() - tail(s, limit).len() + i],
        s.len() > 0 && limit > 0 ==> tail(s, limit).last() == s.last(),
{
}

} // verus!
