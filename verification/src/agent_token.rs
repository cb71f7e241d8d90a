use vstd::prelude::*;
use vstd::hash_map::HashMapWithView;
use crate::types::{Address, Agent, ContractError, RoyaltyInfo, map_set_at};
use crate::validation::{capabilities_result, metadata_result, validate_capabilities, validate_metadata};

verus! {

broadcast use vstd::std_specs::hash::group_hash_axioms;

/// Highest royalty fee a token may carry, in basis points (25%).
pub const MAX_TOKEN_ROYALTY_BPS: u32 = 2500;

/// Kinds of events the agent token contract publishes.
#[derive(Clone, Copy, Debug, PartialEq, Eq, Structural)]
pub enum AgentTokenEvent {
    TokenMinted,
    TokenTransferred,
    TokenBurned,
}

/// Storage of the agent token contract.
pub struct AgentToken {
    pub admin: Option<Address>,
    pub agent_counter: u64,
    pub approved_minters: Vec<Address>,
    pub agents: HashMapWithView<u64, Agent>,
    pub royalties: HashMapWithView<u64, RoyaltyInfo>,
}

impl AgentToken {
    /// `caller` is the administrator or an approved minter.
    pub open spec fn is_minter(self, caller: Address) -> bool {
        self.admin == Some(caller) || self.approved_minters@.contains(caller)
    }

    /// Every stored token identifier is at most the counter.
    pub open spec fn ids_bounded(self) -> bool {
        forall|id: u64| #[trigger] self.agents@.contains_key(id) ==> id <= self.agent_counter
    }

    /// Outcome of `mint`.
    pub open spec fn mint_result(self, minter: Address, name: String, metadata_cid: String,
        capabilities: Seq<String>, royalty: Option<RoyaltyInfo>) -> Result<(), ContractError> {
        if !self.is_minter(minter) {
            Err(ContractError::Unauthorized)
        } else if metadata_result(name) is Err {
            metadata_result(name)
        } else if metadata_result(metadata_cid) is Err {
            metadata_result(metadata_cid)
        } else if capabilities_result(capabilities) is Err {
            capabilities_result(capabilities)
        } else if royalty is Some && royalty->0.fee > MAX_TOKEN_ROYALTY_BPS {
            Err(ContractError::InvalidRoyaltyFee)
        } else if self.agent_counter == u64::MAX {
            Err(ContractError::OverflowError)
        } else {
            Ok(())
        }
    }

    /// Outcome of a lookup or an owner's action on token `agent_id`.
    pub open spec fn owned_result(self, agent_id: u64, owner: Address) -> Result<(), ContractError> {
        if agent_id == 0 {
            Err(ContractError::InvalidAgentId)
        } else if !self.agents@.contains_key(agent_id) {
            Err(ContractError::AgentNotFound)
        } else if self.agents@[agent_id].owner != owner {
            Err(ContractError::NotOwner)
        } else {
            Ok(())
        }
    }

    /// Empty storage of a contract that has not been initialised.
    pub fn new() -> (s: Self)
        ensures
            s.admin is None,
            s.agent_counter == 0,
            s.approved_minters@ == Seq::<Address>::empty(),
            s.agents@ == Map::<u64, Agent>::empty(),
            s.royalties@ == Map::<u64, RoyaltyInfo>::empty(),
    {
        AgentToken {
            admin: None,
            agent_counter: 0,
            approved_minters: Vec::new(),
            agents: HashMapWithView::new(),
            royalties: HashMapWithView::new(),
        }
    }

    /// One-time set-up: records the administrator, zeroes the counter and
    /// empties the approved minters.
    pub fn init_contract(&mut self, admin_addr: Address) -> (r: Result<(), ContractError>)
        ensures
            old(self).admin is Some ==> r == Err::<(), ContractError>(ContractError::AlreadyInitialized)
                && *final(self) == *old(self),
            old(self).admin is None ==> r is Ok && final(self).admin == Some(admin_addr)
                && final(self).agent_counter == 0
                && final(self).approved_minters@ == Seq::<Address>::empty()
                && final(self).agents@ == old(self).agents@
                && final(self).royalties@ == old(self).royalties@,
    {
        if self.admin.is_some() {
            return Err(ContractError::AlreadyInitialized);
        }
        self.admin = Some(admin_addr);
        self.agent_counter = 0;
        self.approved_minters = Vec::new();
        Ok(())
    }

    /// Administrator only: appends `minter` to the approved minters.
    pub fn add_approved_minter(&mut self, admin_addr: Address, minter: Address) -> (r: Result<(), ContractError>)
        ensures
            r is Ok <==> old(self).admin == Some(admin_addr),
            r is Err ==> r == Err::<(), ContractError>(ContractError::Unauthorized) && *final(self) == *old(self),
            r is Ok ==> final(self).approved_minters@ == old(self).approved_minters@.push(minter)
                && final(self).admin == old(self).admin
                && final(self).agent_counter == old(self).agent_counter
                && final(self).agents@ == old(self).agents@
                && final(self).royalties@ == old(self).royalties@,
    {
        crate::admin::verify_admin(&self.admin, &admin_addr)?;
        self.approved_minters.push(minter);
        Ok(())
    }

    /// Succeeds when `caller` is the administrator or an approved minter.
    pub fn verify_minter(&self, caller: &Address) -> (r: Result<(), ContractError>)
        ensures
            r is Ok <==> self.is_minter(*caller),
            r is Err ==> r == Err::<(), ContractError>(ContractError::Unauthorized),
    {
        if crate::admin::verify_admin(&self.admin, caller).is_ok() {
            return Ok(());
        }
        let mut i: usize = 0;
        while i < self.approved_minters.len()
            invariant
                i <= self.approved_minters.len(),
                forall|j: int| 0 <= j < i ==> self.approved_minters@[j] != *caller,
            decreases self.approved_minters.len() - i,
        {
            if self.approved_minters[i] == *caller {
                return Ok(());
            }
            i = i + 1;
        }
        Err(ContractError::Unauthorized)
    }

    /// Mints the next token (identifier `agent_counter + 1`) for `owner` on
    /// an approved minter's request and returns its identifier.  Name and
    /// metadata CID must be valid metadata strings, the capabilities valid,
    /// and a royalty at most 25%.
    pub fn mint(&mut self, minter: Address, owner: Address, name: String, model_hash: String, metadata_cid: String,
        capabilities: Vec<String>, royalty: Option<RoyaltyInfo>, now: u64) -> (r: Result<u64, ContractError>)
        ensures
            ({
                let out = old(self).mint_result(minter, name, metadata_cid, capabilities@, royalty);
                &&& (r is Ok <==> out is Ok)
                &&& (r is Err ==> r == Err::<u64, ContractError>(out->Err_0) && *final(self) == *old(self))
            }),
            r is Ok ==> {
                let id = r->Ok_0;
                &&& id == old(self).agent_counter + 1
                &&& final(self).agent_counter == id
                &&& final(self).agents@ == old(self).agents@.insert(id, Agent {
                    id,
                    owner,
                    name,
                    model_hash,
                    metadata_cid,
                    capabilities,
                    evolution_level: 0,
                    created_at: now,
                    updated_at: now,
                    nonce: 0,
                    escrow_locked: false,
                    escrow_holder: None,
                })
                &&& final(self).royalties@ == (match royalty {
                    Some(info) => old(self).royalties@.insert(id, info),
                    None => old(self).royalties@,
                })
                &&& final(self).admin == old(self).admin
                &&& final(self).approved_minters@ == old(self).approved_minters@
            },
            old(self).ids_bounded() ==> final(self).ids_bounded(),
    {
        self.verify_minter(&minter)?;
        validate_metadata(&name)?;
        validate_metadata(&metadata_cid)?;
        validate_capabilities(&capabilities)?;
        if let Some(info) = &royalty {
            if info.fee > MAX_TOKEN_ROYALTY_BPS {
                return Err(ContractError::InvalidRoyaltyFee);
            }
        }
        let counter = match self.agent_counter.checked_add(1) {
            Some(c) => c,
            None => {
                return Err(ContractError::OverflowError);
            },
        };
        let agent = Agent {
            id: counter,
            owner,
            name,
            model_hash,
            metadata_cid,
            capabilities,
            evolution_level: 0,
            created_at: now,
            updated_at: now,
            nonce: 0,
            escrow_locked: false,
            escrow_holder: None,
        };
        self.agents.insert(counter, agent);
        self.agent_counter = counter;
        if let Some(info) = royalty {
            self.royalties.insert(counter, info);
        }
        Ok(counter)
    }

    /// Hands token `agent_id` from its owner `from` to `to`, stamping it with `now`.
    pub fn transfer(&mut self, agent_id: u64, from: Address, to: Address, now: u64) -> (r: Result<(), ContractError>)
        ensures
            ({
                let out = if agent_id == 0 {
                    Err(ContractError::InvalidAgentId)
                } else if from == to {
                    Err(ContractError::SameAddressTransfer)
                } else {
                    old(self).owned_result(agent_id, from)
                };
                &&& (r is Ok <==> out is Ok)
                &&& (r is Err ==> r == out && *final(self) == *old(self))
            }),
            r is Ok ==> {
                &&& map_set_at(old(self).agents@, final(self).agents@, agent_id)
                &&& final(self).agents@[agent_id] == (Agent {
                    owner: to,
                    updated_at: now,
                    ..old(self).agents@[agent_id]
                })
                &&& final(self).agent_counter == old(self).agent_counter
                &&& final(self).royalties@ == old(self).royalties@
                &&& final(self).admin == old(self).admin
                &&& final(self).approved_minters@ == old(self).approved_minters@
            },
    {
        if agent_id == 0 {
            return Err(ContractError::InvalidAgentId);
        }
        if from == to {
            return Err(ContractError::SameAddressTransfer);
        }
        match self.agents.get(&agent_id) {
            Some(a) => {
                if a.owner != from {
                    return Err(ContractError::NotOwner);
                }
            },
            None => {
                return Err(ContractError::AgentNotFound);
            },
        }
        let mut agent = self.agents.remove(&agent_id).unwrap();
        agent.owner = to;
        agent.updated_at = now;
        self.agents.insert(agent_id, agent);
        assert(self.agents@.dom() =~= old(self).agents@.dom().insert(agent_id));
        Ok(())
    }

    /// Destroys token `agent_id` on its owner's request.
    pub fn burn(&mut self, agent_id: u64, owner: Address) -> (r: Result<(), ContractError>)
        ensures
            r == old(self).owned_result(agent_id, owner),
            r is Err ==> *final(self) == *old(self),
            r is Ok ==> final(self).agents@ == old(self).agents@.remove(agent_id)
                && final(self).agent_counter == old(self).agent_counter
                && final(self).royalties@ == old(self).royalties@
                && final(self).admin == old(self).admin
                && final(self).approved_minters@ == old(self).approved_minters@,
    {
        if agent_id == 0 {
            return Err(ContractError::InvalidAgentId);
        }
        match self.agents.get(&agent_id) {
            Some(a) => {
                if a.owner != owner {
                    return Err(ContractError::NotOwner);
                }
            },
            None => {
                return Err(ContractError::AgentNotFound);
            },
        }
        self.agents.remove(&agent_id);
        Ok(())
    }

    /// The owner of token `agent_id`.
    pub fn get_owner(&self, agent_id: u64) -> (r: Result<Address, ContractError>)
        ensures
            agent_id == 0 ==> r == Err::<Address, ContractError>(ContractError::InvalidAgentId),
            agent_id != 0 && !self.agents@.contains_key(agent_id) ==> r == Err::<Address, ContractError>(ContractError::AgentNotFound),
            agent_id != 0 && self.agents@.contains_key(agent_id) ==> r == Ok::<Address, ContractError>(self.agents@[agent_id].owner),
    {
        if agent_id == 0 {
            return Err(ContractError::InvalidAgentId);
        }
        match self.agents.get(&agent_id) {
            Some(a) => Ok(a.owner),
            None => Err(ContractError::AgentNotFound),
        }
    }

    /// Number of tokens ever minted; burns do not lower it.
    pub fn total_supply(&self) -> (n: u64)
        ensures
            n == self.agent_counter,
    {
        self.agent_counter
    }

    /// Hands the administrator role from `current` to `next`.
    pub fn transfer_admin(&mut self, current: Address, next: Address) -> (r: Result<(), ContractError>)
        ensures
            r is Ok <==> old(self).admin == Some(current),
            r is Err ==> r == Err::<(), ContractError>(ContractError::Unauthorized) && *final(self) == *old(self),
            r is Ok ==> final(self).admin == Some(next) && final(self).agent_counter == old(self).agent_counter
                && final(self).agents@ == old(self).agents@ && final(self).royalties@ == old(self).royalties@
                && final(self).approved_minters@ == old(self).approved_minters@,
    {
        crate::admin::transfer_admin(&mut self.admin, &current, &next)
    }
}

} // verus!
