use vstd::prelude::*;
use vstd::hash_map::HashMapWithView;
use crate::types::{Address, Agent, ContractError, RoyaltyInfo, map_set_at};
use crate::validation::{
    capabilities_result, metadata_result, validate_capabilities, validate_metadata,
};

verus! {

broadcast use vstd::std_specs::hash::group_hash_axioms;

/// Highest royalty fee an agent may carry, in basis points (25%).
pub const MAX_AGENT_ROYALTY_BPS: u32 = 2500;

/// Largest number of agents one batch may mint.
pub const MAX_BATCH_MINT: usize = 50;

/// Kinds of events the agent NFT contract publishes.
#[derive(Clone, Copy, Debug, PartialEq, Eq, Structural)]
pub enum AgentEvent {
    AgentMinted,
    AgentUpdated,
    AgentTransferred,
    LeaseStarted,
    LeaseEnded,
    BatchMintCompleted,
}

/// One agent of a batch mint.
#[derive(Debug)]
pub struct AgentMintData {
    pub owner: Address,
    pub name: String,
    pub model_hash: String,
    pub metadata_cid: String,
    pub capabilities: Vec<String>,
    pub royalty: Option<RoyaltyInfo>,
}

/// Storage of the agent NFT contract.
pub struct AgentNFT {
    pub admin: Option<Address>,
    pub agent_counter: u64,
    pub approved_minters: Vec<Address>,
    pub agents: HashMapWithView<u64, Agent>,
    pub leases: HashMapWithView<u64, bool>,
    pub royalties: HashMapWithView<u64, RoyaltyInfo>,
}

/// Outcome of checking a royalty fee against the 25% cap.
pub open spec fn royalty_fee_result(fee: u32) -> Result<(), ContractError> {
    if fee > MAX_AGENT_ROYALTY_BPS {
        Err(ContractError::InvalidRoyaltyFee)
    } else {
        Ok(())
    }
}

/// Outcome of the optional royalty arguments of a mint: both or neither must be given.
pub open spec fn royalty_args_result(recipient: Option<Address>, fee: Option<u32>) -> Result<Option<RoyaltyInfo>, ContractError> {
    match (recipient, fee) {
        (Some(r), Some(f)) => if f > MAX_AGENT_ROYALTY_BPS {
            Err(ContractError::InvalidRoyaltyFee)
        } else {
            Ok(Some(RoyaltyInfo { recipient: r, fee: f }))
        },
        (None, None) => Ok(None),
        _ => Err(ContractError::InvalidInput),
    }
}

/// `a` is the agent record with exactly these fields.
pub open spec fn agent_is(
    a: Agent,
    id: u64,
    owner: Address,
    name: Seq<char>,
    model_hash: Seq<char>,
    metadata_cid: Seq<char>,
    capabilities: Seq<String>,
    evolution_level: u32,
    now: u64,
) -> bool {
    &&& a.id == id
    &&& a.owner == owner
    &&& a.name@ == name
    &&& a.model_hash@ == model_hash
    &&& a.metadata_cid@ == metadata_cid
    &&& a.capabilities@ == capabilities
    &&& a.evolution_level == evolution_level
    &&& a.created_at == now
    &&& a.updated_at == now
    &&& a.nonce == 0
    &&& !a.escrow_locked
    &&& a.escrow_holder is None
}

/// Key `k` lies among the identifiers a batch minted on top of `counter`.
pub open spec fn in_batch(counter: u64, n: int, k: u64) -> bool {
    counter < k && k <= counter + n
}

/// The error, if any, item `i` of a batch raises while it is minted.
pub open spec fn batch_item_error(counter: u64, items: Seq<AgentMintData>, i: int) -> Option<ContractError> {
    if counter + i + 1 > u64::MAX {
        Some(ContractError::OverflowError)
    } else {
        match items[i].royalty {
            Some(r) => if r.fee > MAX_AGENT_ROYALTY_BPS {
                Some(ContractError::InvalidRoyaltyFee)
            } else {
                None
            },
            None => None,
        }
    }
}

/// Outcome of minting the items of a batch from item `i` on: the error of the first failing item.
pub open spec fn batch_scan(counter: u64, items: Seq<AgentMintData>, i: int) -> Result<(), ContractError>
    decreases items.len() - i,
{
    if i < 0 || i >= items.len() {
        Ok(())
    } else {
        match batch_item_error(counter, items, i) {
            Some(e) => Err(e),
            None => batch_scan(counter, items, i + 1),
        }
    }
}

/// No two items of a batch share a metadata CID.
pub open spec fn cids_distinct(items: Seq<AgentMintData>) -> bool {
    forall|i: int, j: int| 0 <= i < j < items.len() ==> items[i].metadata_cid@ != items[j].metadata_cid@
}

impl AgentNFT {
    /// `caller` is the administrator or an approved minter.
    pub open spec fn is_minter(self, caller: Address) -> bool {
        self.admin == Some(caller) || self.approved_minters@.contains(caller)
    }

    /// Agent `id` is currently leased.
    pub open spec fn leased(self, id: u64) -> bool {
        self.leases@.contains_key(id) && self.leases@[id]
    }

    /// Every stored royalty is within the 25% cap.
    pub open spec fn royalties_bounded(self) -> bool {
        forall|id: u64| #[trigger] self.royalties@.contains_key(id) ==> self.royalties@[id].fee <= MAX_AGENT_ROYALTY_BPS
    }

    /// Every stored agent identifier is at most the agent counter.
    pub open spec fn ids_bounded(self) -> bool {
        forall|id: u64| #[trigger] self.agents@.contains_key(id) ==> id <= self.agent_counter
    }

    /// Outcome of `mint_agent`.
    pub open spec fn mint_agent_result(
        self,
        agent_id: u128,
        owner: Address,
        metadata_cid: String,
        royalty_recipient: Option<Address>,
        royalty_fee: Option<u32>,
    ) -> Result<(), ContractError> {
        if !self.is_minter(owner) {
            Err(ContractError::Unauthorized)
        } else if agent_id > u64::MAX {
            Err(ContractError::InvalidInput)
        } else if self.agents@.contains_key(agent_id as u64) {
            Err(ContractError::DuplicateAgentId)
        } else if metadata_result(metadata_cid) is Err {
            metadata_result(metadata_cid)
        } else {
            match royalty_args_result(royalty_recipient, royalty_fee) {
                Err(e) => Err(e),
                Ok(_) => Ok(()),
            }
        }
    }

    /// Outcome of `mint_agent_legacy`.
    pub open spec fn mint_legacy_result(
        self,
        owner: Address,
        name: String,
        model_hash: String,
        capabilities: Seq<String>,
        royalty_recipient: Option<Address>,
        royalty_fee: Option<u32>,
    ) -> Result<u64, ContractError> {
        if !self.is_minter(owner) {
            Err(ContractError::Unauthorized)
        } else if metadata_result(name) is Err {
            Err(metadata_result(name)->Err_0)
        } else if metadata_result(model_hash) is Err {
            Err(metadata_result(model_hash)->Err_0)
        } else if capabilities_result(capabilities) is Err {
            Err(capabilities_result(capabilities)->Err_0)
        } else if royalty_args_result(royalty_recipient, royalty_fee) is Err {
            Err(royalty_args_result(royalty_recipient, royalty_fee)->Err_0)
        } else if self.agent_counter == u64::MAX {
            Err(ContractError::OverflowError)
        } else {
            Ok((self.agent_counter + 1) as u64)
        }
    }

    /// Outcome of `batch_mint`.
    pub open spec fn batch_mint_result(self, admin: Address, items: Seq<AgentMintData>) -> Result<(), ContractError> {
        if !self.is_minter(admin) {
            Err(ContractError::Unauthorized)
        } else if items.len() == 0 || items.len() > MAX_BATCH_MINT {
            Err(ContractError::InvalidInput)
        } else if !cids_distinct(items) {
            Err(ContractError::InvalidInput)
        } else {
            batch_scan(self.agent_counter, items, 0)
        }
    }

    /// Outcome of `update_agent`.
    pub open spec fn update_agent_result(
        self,
        agent_id: u64,
        owner: Address,
        name: Option<String>,
        capabilities: Option<Vec<String>>,
    ) -> Result<(), ContractError> {
        if agent_id == 0 {
            Err(ContractError::InvalidAgentId)
        } else if !self.agents@.contains_key(agent_id) {
            Err(ContractError::AgentNotFound)
        } else if self.agents@[agent_id].owner != owner {
            Err(ContractError::NotOwner)
        } else if self.leased(agent_id) {
            Err(ContractError::AgentLeased)
        } else if name is Some && metadata_result(name->Some_0) is Err {
            metadata_result(name->Some_0)
        } else if capabilities is Some && capabilities_result(capabilities->Some_0@) is Err {
            capabilities_result(capabilities->Some_0@)
        } else if self.agents@[agent_id].nonce == u64::MAX {
            Err(ContractError::OverflowError)
        } else {
            Ok(())
        }
    }

    /// Outcome of `transfer_agent`.
    pub open spec fn transfer_result(self, agent_id: u64, from: Address, to: Address) -> Result<(), ContractError> {
        if agent_id == 0 {
            Err(ContractError::InvalidAgentId)
        } else if from == to {
            Err(ContractError::SameAddressTransfer)
        } else if !self.agents@.contains_key(agent_id) {
            Err(ContractError::AgentNotFound)
        } else if self.agents@[agent_id].owner != from {
            Err(ContractError::NotOwner)
        } else if self.leased(agent_id) {
            Err(ContractError::AgentLeased)
        } else if self.agents@[agent_id].nonce == u64::MAX {
            Err(ContractError::OverflowError)
        } else {
            Ok(())
        }
    }

    /// Outcome of a query for agent `agent_id`.
    pub open spec fn lookup_result(self, agent_id: u64) -> Result<Agent, ContractError> {
        if agent_id == 0 {
            Err(ContractError::InvalidAgentId)
        } else if !self.agents@.contains_key(agent_id) {
            Err(ContractError::AgentNotFound)
        } else {
            Ok(self.agents@[agent_id])
        }
    }

    /// Empty storage of a contract that has not been initialised.
    pub fn new() -> (s: Self)
        ensures
            s.admin is None,
            s.agent_counter == 0,
            s.approved_minters@ == Seq::<Address>::empty(),
            s.agents@ == Map::<u64, Agent>::empty(),
            s.leases@ == Map::<u64, bool>::empty(),
            s.royalties@ == Map::<u64, RoyaltyInfo>::empty(),
    {
        AgentNFT {
            admin: None,
            agent_counter: 0,
            approved_minters: Vec::new(),
            agents: HashMapWithView::new(),
            leases: HashMapWithView::new(),
            royalties: HashMapWithView::new(),
        }
    }

    /// One-time set-up: records the administrator, zeroes the counter and
    /// empties the approved minters.
    pub fn init_contract(&mut self, admin: Address) -> (r: Result<(), ContractError>)
        ensures
            old(self).admin is Some ==> r == Err::<(), ContractError>(ContractError::AlreadyInitialized)
                && *final(self) == *old(self),
            old(self).admin is None ==> r is Ok && final(self).admin == Some(admin)
                && final(self).agent_counter == 0
                && final(self).approved_minters@ == Seq::<Address>::empty()
                && final(self).agents@ == old(self).agents@
                && final(self).leases@ == old(self).leases@
                && final(self).royalties@ == old(self).royalties@,
    {
        if self.admin.is_some() {
            return Err(ContractError::AlreadyInitialized);
        }
        self.admin = Some(admin);
        self.agent_counter = 0;
        self.approved_minters = Vec::new();
        Ok(())
    }

    /// Administrator only: appends `minter` to the approved minters.
    pub fn add_approved_minter(&mut self, admin: Address, minter: Address) -> (r: Result<(), ContractError>)
        ensures
            r is Ok <==> old(self).admin == Some(admin),
            r is Err ==> r == Err::<(), ContractError>(ContractError::Unauthorized) && *final(self) == *old(self),
            r is Ok ==> final(self).approved_minters@ == old(self).approved_minters@.push(minter)
                && final(self).admin == old(self).admin
                && final(self).agent_counter == old(self).agent_counter
                && final(self).agents@ == old(self).agents@
                && final(self).leases@ == old(self).leases@
                && final(self).royalties@ == old(self).royalties@,
    {
        crate::admin::verify_admin(&self.admin, &admin)?;
        self.approved_minters.push(minter);
        Ok(())
    }

    /// Succeeds when `caller` is the administrator or an approved minter.
    pub fn verify_minter(&self, caller: &Address) -> (r: Result<(), ContractError>)
        ensures
            r is Ok <==> self.is_minter(*caller),
            r is Err ==> r == Err::<(), ContractError>(ContractError::Unauthorized),
    {
        if let Some(a) = &self.admin {
            if *a == *caller {
                return Ok(());
            }
        }
        let mut i: usize = 0;
        while i < self.approved_minters.len()
            invariant
                i <= self.approved_minters.len(),
                forall|j: int| 0 <= j < i ==> self.approved_minters@[j] != *caller,
            decreases self.approved_minters.len() - i,
        {
            if self.approved_minters[i] == *caller {
                return Ok(());
            }
            i = i + 1;
        }
        Err(ContractError::Unauthorized)
    }

    /// Fee check of the royalties this contract stores.
    pub fn validate_royalty_fee(fee: u32) -> (r: Result<(), ContractError>)
        ensures
            r == royalty_fee_result(fee),
    {
        if fee > MAX_AGENT_ROYALTY_BPS {
            return Err(ContractError::InvalidRoyaltyFee);
        }
        Ok(())
    }

    /// Checks the optional royalty arguments of a mint.
    fn check_royalty_args(recipient: Option<Address>, fee: Option<u32>) -> (r: Result<Option<RoyaltyInfo>, ContractError>)
        ensures
            r == royalty_args_result(recipient, fee),
    {
        match (recipient, fee) {
            (Some(rc), Some(f)) => {
                Self::validate_royalty_fee(f)?;
                Ok(Some(RoyaltyInfo { recipient: rc, fee: f }))
            },
            (None, None) => Ok(None),
            _ => Err(ContractError::InvalidInput),
        }
    }

    /// Checks an agent's name, metadata CID and capabilities, in that order.
    pub fn validate_agent_data(name: &String, metadata_cid: &String, capabilities: &Vec<String>) -> (r: Result<(), ContractError>)
        ensures
            r == (if metadata_result(*name) is Err {
                metadata_result(*name)
            } else if metadata_result(*metadata_cid) is Err {
                metadata_result(*metadata_cid)
            } else {
                capabilities_result(capabilities@)
            }),
    {
        validate_metadata(name)?;
        validate_metadata(metadata_cid)?;
        validate_capabilities(capabilities)
    }

    /// Addition that reports overflow as an error.
    pub fn safe_add(a: u64, b: u64) -> (r: Result<u64, ContractError>)
        ensures
            a + b <= u64::MAX ==> r == Ok::<u64, ContractError>((a + b) as u64),
            a + b > u64::MAX ==> r == Err::<u64, ContractError>(ContractError::OverflowError),
    {
        match a.checked_add(b) {
            Some(v) => Ok(v),
            None => Err(ContractError::OverflowError),
        }
    }

    /// Whether agent `agent_id` is leased; an agent with no lease record is not.
    pub fn is_agent_leased(&self, agent_id: u64) -> (b: bool)
        ensures
            b == self.leased(agent_id),
    {
        match self.leases.get(&agent_id) {
            Some(v) => *v,
            None => false,
        }
    }

    /// Whether an agent is stored under `agent_id`.
    pub fn agent_exists(&self, agent_id: u64) -> (b: bool)
        ensures
            b == self.agents@.contains_key(agent_id),
    {
        self.agents.contains_key(&agent_id)
    }

    /// Mints agent `agent_id` for `owner`, who must be the administrator or an
    /// approved minter.  The agent gets the metadata CID and evolution level
    /// given, empty name, model hash and capabilities, and is not leased.  The
    /// agent counter is raised to `agent_id` when it was below, so that every
    /// stored identifier stays within it and counter-based mints never reuse one.
    pub fn mint_agent(
        &mut self,
        agent_id: u128,
        owner: Address,
        metadata_cid: String,
        initial_evolution_level: u32,
        royalty_recipient: Option<Address>,
        royalty_fee: Option<u32>,
        now: u64,
    ) -> (r: Result<(), ContractError>)
        ensures
            r == old(self).mint_agent_result(agent_id, owner, metadata_cid, royalty_recipient, royalty_fee),
            r is Err ==> *final(self) == *old(self),
            old(self).agents@.contains_key(agent_id as u64) && agent_id <= u64::MAX ==> r is Err,
            r is Ok ==> {
                let id = agent_id as u64;
                &&& map_set_at(old(self).agents@, final(self).agents@, id)
                &&& agent_is(final(self).agents@[id], id, owner, Seq::empty(), Seq::empty(),
                    metadata_cid@, Seq::empty(), initial_evolution_level, now)
                &&& final(self).leases@ == old(self).leases@.insert(id, false)
                &&& final(self).royalties@ == match royalty_args_result(royalty_recipient, royalty_fee) {
                    Ok(Some(info)) => old(self).royalties@.insert(id, info),
                    _ => old(self).royalties@,
                }
                &&& final(self).admin == old(self).admin
                &&& final(self).agent_counter == if id > old(self).agent_counter { id } else { old(self).agent_counter }
                &&& final(self).approved_minters@ == old(self).approved_minters@
            },
            final(self).agent_counter >= old(self).agent_counter,
            old(self).royalties_bounded() ==> final(self).royalties_bounded(),
            old(self).ids_bounded() ==> final(self).ids_bounded(),
    {
        self.verify_minter(&owner)?;
        if agent_id > u64::MAX as u128 {
            return Err(ContractError::InvalidInput);
        }
        let id = agent_id as u64;
        if self.agent_exists(id) {
            return Err(ContractError::DuplicateAgentId);
        }
        validate_metadata(&metadata_cid)?;
        let royalty = Self::check_royalty_args(royalty_recipient, royalty_fee)?;
        if let Some(info) = royalty {
            self.royalties.insert(id, info);
        }
        let agent = Agent {
            id,
            owner,
            name: String::new(),
            model_hash: String::new(),
            metadata_cid,
            capabilities: Vec::new(),
            evolution_level: initial_evolution_level,
            created_at: now,
            updated_at: now,
            nonce: 0,
            escrow_locked: false,
            escrow_holder: None,
        };
        self.agents.insert(id, agent);
        self.leases.insert(id, false);
        if id > self.agent_counter {
            self.agent_counter = id;
        }
        Ok(())
    }

    /// Mints the next agent (identifier `agent_counter + 1`) with a name, model
    /// hash and capabilities, and returns its identifier.
    pub fn mint_agent_legacy(
        &mut self,
        owner: Address,
        name: String,
        model_hash: String,
        capabilities: Vec<String>,
        royalty_recipient: Option<Address>,
        royalty_fee: Option<u32>,
        now: u64,
    ) -> (r: Result<u64, ContractError>)
        ensures
            r == old(self).mint_legacy_result(owner, name, model_hash, capabilities@, royalty_recipient, royalty_fee),
            r is Err ==> *final(self) == *old(self),
            r is Ok ==> {
                let id = r->Ok_0;
                &&& id == old(self).agent_counter + 1
                &&& final(self).agent_counter == id
                &&& map_set_at(old(self).agents@, final(self).agents@, id)
                &&& agent_is(final(self).agents@[id], id, owner, name@, model_hash@,
                    Seq::empty(), capabilities@, 0, now)
                &&& final(self).leases@ == old(self).leases@.insert(id, false)
                &&& final(self).royalties@ == match royalty_args_result(royalty_recipient, royalty_fee) {
                    Ok(Some(info)) => old(self).royalties@.insert(id, info),
                    _ => old(self).royalties@,
                }
                &&& final(self).admin == old(self).admin
                &&& final(self).approved_minters@ == old(self).approved_minters@
            },
            final(self).agent_counter >= old(self).agent_counter,
            old(self).royalties_bounded() ==> final(self).royalties_bounded(),
            old(self).ids_bounded() ==> final(self).ids_bounded(),
    {
        self.verify_minter(&owner)?;
        validate_metadata(&name)?;
        validate_metadata(&model_hash)?;
        validate_capabilities(&capabilities)?;
        let royalty = Self::check_royalty_args(royalty_recipient, royalty_fee)?;
        let agent_id = Self::safe_add(self.agent_counter, 1)?;
        let agent = Agent {
            id: agent_id,
            owner,
            name,
            model_hash,
            metadata_cid: String::new(),
            capabilities,
            evolution_level: 0,
            created_at: now,
            updated_at: now,
            nonce: 0,
            escrow_locked: false,
            escrow_holder: None,
        };
        self.agents.insert(agent_id, agent);
        self.leases.insert(agent_id, false);
        if let Some(info) = royalty {
            self.royalties.insert(agent_id, info);
        }
        self.agent_counter = agent_id;
        Ok(agent_id)
    }

    /// Mints a batch of 1 to 50 agents with distinct metadata CIDs, giving
    /// them the identifiers following `agent_counter` in order, and returns
    /// those identifiers.
    pub fn batch_mint(&mut self, admin: Address, agents: Vec<AgentMintData>, now: u64) -> (r: Result<Vec<u64>, ContractError>)
        ensures
            match r {
                Ok(_) => old(self).batch_mint_result(admin, agents@) is Ok,
                Err(e) => old(self).batch_mint_result(admin, agents@) == Err::<(), ContractError>(e),
            },
            r is Err ==> *final(self) == *old(self),
            r is Ok ==> {
                let c = old(self).agent_counter;
                let n = agents@.len();
                &&& r->Ok_0@ == Seq::new(n, |j: int| (c + j + 1) as u64)
                &&& final(self).agent_counter == c + n
                &&& forall|k: u64| #[trigger] final(self).agents@.contains_key(k)
                    <==> (old(self).agents@.contains_key(k) || in_batch(c, n as int, k))
                &&& forall|j: int| 0 <= j < n ==> {
                    let d = #[trigger] agents@[j];
                    agent_is(final(self).agents@[(c + j + 1) as u64], (c + j + 1) as u64, d.owner,
                        d.name@, d.model_hash@, d.metadata_cid@, d.capabilities@, 0, now)
                }
                &&& forall|k: u64| #[trigger] old(self).agents@.contains_key(k) && !in_batch(c, n as int, k)
                    ==> final(self).agents@[k] == old(self).agents@[k]
                &&& forall|k: u64| #[trigger] final(self).leases@.contains_key(k)
                    <==> (old(self).leases@.contains_key(k) || in_batch(c, n as int, k))
                &&& forall|k: u64| #[trigger] final(self).leases@.contains_key(k) ==> final(self).leases@[k]
                    == if in_batch(c, n as int, k) { false } else { old(self).leases@[k] }
                &&& forall|j: int| 0 <= j < n ==> match (#[trigger] agents@[j]).royalty {
                    Some(info) => final(self).royalties@.contains_key((c + j + 1) as u64)
                        && final(self).royalties@[(c + j + 1) as u64] == info,
                    None => final(self).royalties@.contains_key((c + j + 1) as u64)
                        == old(self).royalties@.contains_key((c + j + 1) as u64)
                        && final(self).royalties@[(c + j + 1) as u64] == old(self).royalties@[(c + j + 1) as u64],
                }
                &&& forall|k: u64| !in_batch(c, n as int, k) ==>
                    (#[trigger] final(self).royalties@.contains_key(k) == old(self).royalties@.contains_key(k)
                    && final(self).royalties@[k] == old(self).royalties@[k])
                &&& final(self).admin == old(self).admin
                &&& final(self).approved_minters@ == old(self).approved_minters@
            },
            final(self).agent_counter >= old(self).agent_counter,
            old(self).royalties_bounded() ==> final(self).royalties_bounded(),
            old(self).ids_bounded() ==> final(self).ids_bounded(),
    {
        self.verify_minter(&admin)?;
        let n = agents.len();
        if n == 0 || n > MAX_BATCH_MINT {
            return Err(ContractError::InvalidInput);
        }
        // No metadata CID may repeat within the batch.
        let mut i: usize = 0;
        while i < n
            invariant
                n == agents.len(),
                0 < n <= MAX_BATCH_MINT,
                old(self).is_minter(admin),
                *self == *old(self),
                i <= n,
                forall|a: int, b: int| 0 <= a < i && a < b < n ==> agents@[a].metadata_cid@ != agents@[b].metadata_cid@,
            decreases n - i,
        {
            let mut j: usize = i + 1;
            while j < n
                invariant
                    n == agents.len(),
                    0 < n <= MAX_BATCH_MINT,
                    old(self).is_minter(admin),
                    *self == *old(self),
                    i < n,
                    i < j <= n,
                    forall|b: int| i < b < j ==> agents@[i as int].metadata_cid@ != agents@[b].metadata_cid@,
                decreases n - j,
            {
                if agents[i].metadata_cid == agents[j].metadata_cid {
                    assert(!cids_distinct(agents@));
                    return Err(ContractError::InvalidInput);
                }
                j = j + 1;
            }
            i = i + 1;
        }
        // Every item must get an identifier without overflow and carry a valid royalty.
        assert(cids_distinct(agents@));
        let c = self.agent_counter;
        let mut k: usize = 0;
        while k < n
            invariant
                n == agents.len(),
                0 < n <= MAX_BATCH_MINT,
                old(self).is_minter(admin),
                *self == *old(self),
                cids_distinct(agents@),
                c == self.agent_counter,
                k <= n,
                batch_scan(c, agents@, 0) == batch_scan(c, agents@, k as int),
                forall|j: int| 0 <= j < k ==> batch_item_error(c, agents@, j) is None,
            decreases n - k,
        {
            assert(n <= MAX_BATCH_MINT);
            if c.checked_add((k + 1) as u64).is_none() {
                assert(batch_item_error(c, agents@, k as int) == Some(ContractError::OverflowError));
                return Err(ContractError::OverflowError);
            }
            if let Some(info) = agents[k].royalty {
                if info.fee > MAX_AGENT_ROYALTY_BPS {
                    assert(batch_item_error(c, agents@, k as int) == Some(ContractError::InvalidRoyaltyFee));
                    return Err(ContractError::InvalidRoyaltyFee);
                }
            }
            assert(batch_item_error(c, agents@, k as int) is None);
            k = k + 1;
        }
        let ghost items = agents@;
        let ghost old_self = *self;
        assert forall|j: int| 0 <= j < n implies match (#[trigger] items[j]).royalty {
            Some(info) => info.fee <= MAX_AGENT_ROYALTY_BPS,
            None => true,
        } by {
            assert(batch_item_error(c, items, j) is None);
        }
        let mut rest = agents;
        let mut ids: Vec<u64> = Vec::new();
        let mut counter = c;
        let mut m: usize = 0;
        while m < n
            invariant
                n == items.len(),
                n <= MAX_BATCH_MINT,
                m <= n,
                rest@ == items.skip(m as int),
                counter == c + m,
                c == old_self.agent_counter,
                forall|j: int| 0 <= j < n ==> batch_item_error(c, items, j) is None,
                ids@ == Seq::new(m as nat, |j: int| (c + j + 1) as u64),
                self.admin == old_self.admin,
                self.agent_counter == c,
                self.approved_minters@ == old_self.approved_minters@,
                forall|k2: u64| #[trigger] self.agents@.contains_key(k2)
                    <==> (old_self.agents@.contains_key(k2) || in_batch(c, m as int, k2)),
                forall|j: int| 0 <= j < m ==> {
                    let d = #[trigger] items[j];
                    agent_is(self.agents@[(c + j + 1) as u64], (c + j + 1) as u64, d.owner,
                        d.name@, d.model_hash@, d.metadata_cid@, d.capabilities@, 0, now)
                },
                forall|k2: u64| #[trigger] old_self.agents@.contains_key(k2) && !in_batch(c, m as int, k2)
                    ==> self.agents@[k2] == old_self.agents@[k2],
                forall|k2: u64| #[trigger] self.leases@.contains_key(k2)
                    <==> (old_self.leases@.contains_key(k2) || in_batch(c, m as int, k2)),
                forall|k2: u64| #[trigger] self.leases@.contains_key(k2) ==> self.leases@[k2]
                    == if in_batch(c, m as int, k2) { false } else { old_self.leases@[k2] },
                forall|j: int| 0 <= j < m ==> match (#[trigger] items[j]).royalty {
                    Some(info) => self.royalties@.contains_key((c + j + 1) as u64)
                        && self.royalties@[(c + j + 1) as u64] == info,
                    None => self.royalties@.contains_key((c + j + 1) as u64)
                        == old_self.royalties@.contains_key((c + j + 1) as u64)
                        && self.royalties@[(c + j + 1) as u64] == old_self.royalties@[(c + j + 1) as u64],
                },
                forall|k2: u64| !in_batch(c, m as int, k2) ==>
                    (#[trigger] self.royalties@.contains_key(k2) == old_self.royalties@.contains_key(k2)
                    && self.royalties@[k2] == old_self.royalties@[k2]),
                forall|j: int| 0 <= j < n ==> match (#[trigger] items[j]).royalty {
                    Some(info) => info.fee <= MAX_AGENT_ROYALTY_BPS,
                    None => true,
                },
            decreases n - m,
        {
            assert(batch_item_error(c, items, m as int) is None);
            assert(items.skip(m as int)[0] == items[m as int]);
            let data = rest.remove(0);
            assert(rest@ =~= items.skip(m as int + 1));
            counter = counter + 1;
            let id = counter;
            let agent = Agent {
                id,
                owner: data.owner,
                name: data.name,
                model_hash: data.model_hash,
                metadata_cid: data.metadata_cid,
                capabilities: data.capabilities,
                evolution_level: 0,
                created_at: now,
                updated_at: now,
                nonce: 0,
                escrow_locked: false,
                escrow_holder: None,
            };
            self.agents.insert(id, agent);
            self.leases.insert(id, false);
            if let Some(info) = data.royalty {
                self.royalties.insert(id, info);
            }
            ids.push(id);
            assert forall|k2: u64| !in_batch(c, m as int + 1, k2) implies
                (#[trigger] self.royalties@.contains_key(k2) == old_self.royalties@.contains_key(k2)
                && self.royalties@[k2] == old_self.royalties@[k2]) by {
                assert(k2 != id);
                assert(!in_batch(c, m as int, k2));
            }
            m = m + 1;
            assert(ids@ =~= Seq::new(m as nat, |j: int| (c + j + 1) as u64));
        }
        self.agent_counter = counter;
        proof {
        if old_self.royalties_bounded() {
        assert forall|id2: u64| #[trigger] self.royalties@.contains_key(id2) implies self.royalties@[id2].fee <= MAX_AGENT_ROYALTY_BPS by {
            if in_batch(c, n as int, id2) {
                let j = id2 - c - 1;
                assert((c + j + 1) as u64 == id2);
                if items[j].royalty is None {
                    assert(old_self.royalties@.contains_key(id2));
                }
            } else {
                assert(old_self.royalties@.contains_key(id2));
            }
        }
        }
        }
        Ok(ids)
    }

    /// The agent stored under `agent_id`.
    pub fn get_agent(&self, agent_id: u64) -> (r: Result<&Agent, ContractError>)
        ensures
            match r {
                Ok(a) => self.lookup_result(agent_id) == Ok::<Agent, ContractError>(*a),
                Err(e) => self.lookup_result(agent_id) == Err::<Agent, ContractError>(e),
            },
    {
        if agent_id == 0 {
            return Err(ContractError::InvalidAgentId);
        }
        match self.agents.get(&agent_id) {
            Some(a) => Ok(a),
            None => Err(ContractError::AgentNotFound),
        }
    }

    /// Owner only: renames the agent and/or replaces its capabilities, bumps
    /// its nonce and stamps the update time.  A leased agent cannot be updated.
    pub fn update_agent(
        &mut self,
        agent_id: u64,
        owner: Address,
        name: Option<String>,
        capabilities: Option<Vec<String>>,
        now: u64,
    ) -> (r: Result<(), ContractError>)
        ensures
            r == old(self).update_agent_result(agent_id, owner, name, capabilities),
            r is Err ==> *final(self) == *old(self),
            agent_id != 0 && old(self).agents@.contains_key(agent_id)
                && old(self).agents@[agent_id].owner != owner ==> r == Err::<(), ContractError>(ContractError::NotOwner),
            r is Ok ==> {
                let a = old(self).agents@[agent_id];
                let b = final(self).agents@[agent_id];
                &&& final(self).agents@.dom() == old(self).agents@.dom()
                &&& forall|j: u64| j != agent_id && old(self).agents@.contains_key(j)
                    ==> final(self).agents@[j] == old(self).agents@[j]
                &&& b.id == a.id && b.owner == a.owner
                &&& b.name@ == (match name { Some(n) => n@, None => a.name@ })
                &&& b.capabilities@ == (match capabilities { Some(c) => c@, None => a.capabilities@ })
                &&& b.model_hash@ == a.model_hash@ && b.metadata_cid@ == a.metadata_cid@
                &&& b.evolution_level == a.evolution_level && b.created_at == a.created_at
                &&& b.nonce == a.nonce + 1 && b.updated_at == now
                &&& b.escrow_locked == a.escrow_locked && b.escrow_holder == a.escrow_holder
                &&& final(self).leases@ == old(self).leases@
                &&& final(self).royalties@ == old(self).royalties@
                &&& final(self).admin == old(self).admin
                &&& final(self).agent_counter == old(self).agent_counter
                &&& final(self).approved_minters@ == old(self).approved_minters@
            },
    {
        if agent_id == 0 {
            return Err(ContractError::InvalidAgentId);
        }
        let (cur_owner, cur_nonce) = match self.agents.get(&agent_id) {
            Some(a) => (a.owner, a.nonce),
            None => {
                return Err(ContractError::AgentNotFound);
            },
        };
        if cur_owner != owner {
            return Err(ContractError::NotOwner);
        }
        if self.is_agent_leased(agent_id) {
            return Err(ContractError::AgentLeased);
        }
        if let Some(n) = &name {
            validate_metadata(n)?;
        }
        if let Some(c) = &capabilities {
            validate_capabilities(c)?;
        }
        if cur_nonce == u64::MAX {
            return Err(ContractError::OverflowError);
        }
        let mut agent = self.agents.remove(&agent_id).unwrap();
        if let Some(n) = name {
            agent.name = n;
        }
        if let Some(c) = capabilities {
            agent.capabilities = c;
        }
        agent.nonce = agent.nonce + 1;
        agent.updated_at = now;
        self.agents.insert(agent_id, agent);
        Ok(())
    }

    /// Number of agents minted through the counter.
    pub fn total_agents(&self) -> (r: Result<u64, ContractError>)
        ensures
            r == Ok::<u64, ContractError>(self.agent_counter),
    {
        Ok(self.agent_counter)
    }

    /// The replay-protection nonce of agent `agent_id`.
    pub fn get_nonce(&self, agent_id: u64) -> (r: Result<u64, ContractError>)
        ensures
            r == match self.lookup_result(agent_id) {
                Ok(a) => Ok::<u64, ContractError>(a.nonce),
                Err(e) => Err(e),
            },
    {
        let a = self.get_agent(agent_id)?;
        Ok(a.nonce)
    }

    /// Owner only: hands agent `agent_id` from `from` to `to`, bumping its
    /// nonce.  A leased agent cannot be transferred.
    pub fn transfer_agent(&mut self, agent_id: u64, from: Address, to: Address, now: u64) -> (r: Result<(), ContractError>)
        ensures
            r == old(self).transfer_result(agent_id, from, to),
            r is Err ==> *final(self) == *old(self),
            agent_id != 0 && from != to && old(self).agents@.contains_key(agent_id)
                && old(self).agents@[agent_id].owner != from ==> r == Err::<(), ContractError>(ContractError::NotOwner),
            agent_id != 0 && from != to && old(self).agents@.contains_key(agent_id)
                && old(self).agents@[agent_id].owner == from && old(self).leased(agent_id)
                ==> r == Err::<(), ContractError>(ContractError::AgentLeased),
            r is Ok ==> {
                let a = old(self).agents@[agent_id];
                let b = final(self).agents@[agent_id];
                &&& final(self).agents@.dom() == old(self).agents@.dom()
                &&& forall|j: u64| j != agent_id && old(self).agents@.contains_key(j)
                    ==> final(self).agents@[j] == old(self).agents@[j]
                &&& b.owner == to && b.nonce == a.nonce + 1 && b.updated_at == now
                &&& b.id == a.id && b.name@ == a.name@ && b.model_hash@ == a.model_hash@
                &&& b.metadata_cid@ == a.metadata_cid@ && b.capabilities@ == a.capabilities@
                &&& b.evolution_level == a.evolution_level && b.created_at == a.created_at
                &&& b.escrow_locked == a.escrow_locked && b.escrow_holder == a.escrow_holder
                &&& final(self).leases@ == old(self).leases@
                &&& final(self).royalties@ == old(self).royalties@
                &&& final(self).admin == old(self).admin
                &&& final(self).agent_counter == old(self).agent_counter
                &&& final(self).approved_minters@ == old(self).approved_minters@
            },
    {
        if agent_id == 0 {
            return Err(ContractError::InvalidAgentId);
        }
        if from == to {
            return Err(ContractError::SameAddressTransfer);
        }
        let (cur_owner, cur_nonce) = match self.agents.get(&agent_id) {
            Some(a) => (a.owner, a.nonce),
            None => {
                return Err(ContractError::AgentNotFound);
            },
        };
        if cur_owner != from {
            return Err(ContractError::NotOwner);
        }
        if self.is_agent_leased(agent_id) {
            return Err(ContractError::AgentLeased);
        }
        if cur_nonce == u64::MAX {
            return Err(ContractError::OverflowError);
        }
        let mut agent = self.agents.remove(&agent_id).unwrap();
        agent.owner = to;
        agent.nonce = agent.nonce + 1;
        agent.updated_at = now;
        self.agents.insert(agent_id, agent);
        Ok(())
    }

    /// The owner of agent `agent_id`.
    pub fn get_agent_owner(&self, agent_id: u64) -> (r: Result<Address, ContractError>)
        ensures
            r == match self.lookup_result(agent_id) {
                Ok(a) => Ok::<Address, ContractError>(a.owner),
                Err(e) => Err(e),
            },
    {
        let a = self.get_agent(agent_id)?;
        Ok(a.owner)
    }

    /// The metadata CID of agent `agent_id`.
    pub fn get_agent_metadata(&self, agent_id: u64) -> (r: Result<String, ContractError>)
        ensures
            match r {
                Ok(s) => self.lookup_result(agent_id) is Ok && s@ == self.agents@[agent_id].metadata_cid@,
                Err(e) => self.lookup_result(agent_id) == Err::<Agent, ContractError>(e),
            },
    {
        let a = self.get_agent(agent_id)?;
        Ok(a.metadata_cid.clone())
    }

    /// The evolution level of agent `agent_id`.
    pub fn get_agent_evolution_level(&self, agent_id: u64) -> (r: Result<u32, ContractError>)
        ensures
            r == match self.lookup_result(agent_id) {
                Ok(a) => Ok::<u32, ContractError>(a.evolution_level),
                Err(e) => Err(e),
            },
    {
        let a = self.get_agent(agent_id)?;
        Ok(a.evolution_level)
    }

    /// Whether `caller` could transfer agent `agent_id` now: it exists, is
    /// owned by `caller`, and is not leased.
    pub fn can_transfer_agent(&self, agent_id: u64, caller: Address) -> (r: Result<bool, ContractError>)
        ensures
            r == Ok::<bool, ContractError>(agent_id != 0 && self.agents@.contains_key(agent_id)
                && self.agents@[agent_id].owner == caller && !self.leased(agent_id)),
    {
        if agent_id == 0 {
            return Ok(false);
        }
        let o = match self.agents.get(&agent_id) {
            Some(a) => a.owner,
            None => {
                return Ok(false);
            },
        };
        if o != caller {
            return Ok(false);
        }
        Ok(!self.is_agent_leased(agent_id))
    }

    /// Marks agent `agent_id` as leased.
    pub fn start_lease(&mut self, agent_id: u64) -> (r: Result<(), ContractError>)
        ensures
            agent_id == 0 ==> r == Err::<(), ContractError>(ContractError::InvalidAgentId) && *final(self) == *old(self),
            agent_id != 0 ==> r is Ok && final(self).leases@ == old(self).leases@.insert(agent_id, true)
                && final(self).agents@ == old(self).agents@
                && final(self).royalties@ == old(self).royalties@
                && final(self).admin == old(self).admin
                && final(self).agent_counter == old(self).agent_counter
                && final(self).approved_minters@ == old(self).approved_minters@,
    {
        if agent_id == 0 {
            return Err(ContractError::InvalidAgentId);
        }
        self.leases.insert(agent_id, true);
        Ok(())
    }

    /// Marks agent `agent_id` as not leased.
    pub fn end_lease(&mut self, agent_id: u64) -> (r: Result<(), ContractError>)
        ensures
            agent_id == 0 ==> r == Err::<(), ContractError>(ContractError::InvalidAgentId) && *final(self) == *old(self),
            agent_id != 0 ==> r is Ok && final(self).leases@ == old(self).leases@.insert(agent_id, false)
                && final(self).agents@ == old(self).agents@
                && final(self).royalties@ == old(self).royalties@
                && final(self).admin == old(self).admin
                && final(self).agent_counter == old(self).agent_counter
                && final(self).approved_minters@ == old(self).approved_minters@,
    {
        if agent_id == 0 {
            return Err(ContractError::InvalidAgentId);
        }
        self.leases.insert(agent_id, false);
        Ok(())
    }

    /// Whether agent `agent_id` is leased.
    pub fn is_leased(&self, agent_id: u64) -> (r: Result<bool, ContractError>)
        ensures
            r == (if agent_id == 0 {
                Err::<bool, ContractError>(ContractError::InvalidAgentId)
            } else {
                Ok(self.leased(agent_id))
            }),
    {
        if agent_id == 0 {
            return Err(ContractError::InvalidAgentId);
        }
        Ok(self.is_agent_leased(agent_id))
    }

    /// The royalty of agent `agent_id`, if one is set.
    pub fn get_royalty(&self, agent_id: u64) -> (r: Result<Option<RoyaltyInfo>, ContractError>)
        ensures
            r == (if agent_id == 0 {
                Err::<Option<RoyaltyInfo>, ContractError>(ContractError::InvalidAgentId)
            } else if self.royalties@.contains_key(agent_id) {
                Ok(Some(self.royalties@[agent_id]))
            } else {
                Ok(None)
            }),
    {
        if agent_id == 0 {
            return Err(ContractError::InvalidAgentId);
        }
        match self.royalties.get(&agent_id) {
            Some(info) => Ok(Some(*info)),
            None => Ok(None),
        }
    }
}

} // verus!
