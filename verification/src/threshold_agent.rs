use vstd::prelude::*;
use vstd::hash_map::HashMapWithView;
use crate::types::{make_pair_key, pair_key, Address, PAIR_SHIFT};

verus! {

broadcast use vstd::std_specs::hash::group_hash_axioms;

/// Signatures a proposal needs before it executes.
pub const PROPOSAL_THRESHOLD: u32 = 2;

/// One owner's share of a threshold agent's key.
#[derive(Debug)]
pub struct ThresholdKeyShare {
    pub agent_id: u64,
    pub share_holder: Address,
    pub share_index: u32,
    pub x_coordinate: u32,
    pub y_coordinate_encrypted: Vec<u8>,
    pub commitment: Vec<u8>,
    pub created_at: u64,
}

/// State of a threshold proposal.
#[derive(Clone, Copy, Debug, PartialEq, Eq, Structural)]
pub enum ProposalStatus {
    Pending,
    Executed,
    Revoked,
}

/// An action proposed for a threshold agent, with the owners who signed it.
#[derive(Debug)]
pub struct ThresholdProposal {
    pub proposal_id: u64,
    pub agent_id: u64,
    pub action_data: Vec<u8>,
    pub proposer: Address,
    pub threshold_m: u32,
    pub signatures: Vec<Address>,
    pub status: ProposalStatus,
}

/// No address occurs twice.
pub open spec fn no_duplicates(s: Seq<Address>) -> bool {
    forall|i: int, j: int| 0 <= i < j < s.len() ==> s[i] != s[j]
}

/// Storage of the threshold agent contract: key shares by agent and share
/// index, proposals by agent and proposal number.
pub struct ThresholdAgentContract {
    pub shares: HashMapWithView<u128, ThresholdKeyShare>,
    pub proposals: HashMapWithView<u128, ThresholdProposal>,
}

impl ThresholdAgentContract {
    /// Empty storage.
    pub fn new() -> (s: Self)
        ensures
            s.shares@ == Map::<u128, ThresholdKeyShare>::empty(),
            s.proposals@ == Map::<u128, ThresholdProposal>::empty(),
    {
        ThresholdAgentContract { shares: HashMapWithView::new(), proposals: HashMapWithView::new() }
    }

    /// Stores one key share per owner of agent `agent_id`, numbered by the
    /// owner's position, with empty encrypted share and commitment.
    pub fn create_threshold_agent(&mut self, agent_id: u64, owners: Vec<Address>, threshold_m: u32, now: u64)
        requires
            threshold_m <= owners@.len(),
            owners@.len() <= u32::MAX,
        ensures
            final(self).proposals@ == old(self).proposals@,
            final(self).shares@.dom() == old(self).shares@.dom().union(
                Set::new(|k: u128| exists|i: u64| i < owners@.len() && k == #[trigger] pair_key(agent_id, i))),
            forall|i: u64| i < owners@.len() ==> {
                let s = #[trigger] final(self).shares@[pair_key(agent_id, i)];
                &&& s.agent_id == agent_id && s.share_holder == owners@[i as int]
                &&& s.share_index == i && s.x_coordinate == i
                &&& s.y_coordinate_encrypted@.len() == 0 && s.commitment@.len() == 0
                &&& s.created_at == now
            },
            forall|k: u128| old(self).shares@.contains_key(k)
                && !(exists|i: u64| i < owners@.len() && k == #[trigger] pair_key(agent_id, i))
                ==> #[trigger] final(self).shares@[k] == old(self).shares@[k],
    {
        let ghost old_shares = self.shares@;
        let mut i: usize = 0;
        while i < owners.len()
            invariant
                i <= owners@.len() <= u32::MAX,
                self.proposals@ == old(self).proposals@,
                old_shares == old(self).shares@,
                self.shares@.dom() == old_shares.dom().union(
                    Set::new(|k: u128| exists|j: u64| j < i && k == #[trigger] pair_key(agent_id, j))),
                forall|j: u64| j < i ==> {
                    let s = #[trigger] self.shares@[pair_key(agent_id, j)];
                    &&& s.agent_id == agent_id && s.share_holder == owners@[j as int]
                    &&& s.share_index == j && s.x_coordinate == j
                    &&& s.y_coordinate_encrypted@.len() == 0 && s.commitment@.len() == 0
                    &&& s.created_at == now
                },
                forall|k: u128| old_shares.contains_key(k)
                    && !(exists|j: u64| j < i && k == #[trigger] pair_key(agent_id, j))
                    ==> #[trigger] self.shares@[k] == old_shares[k],
            decreases owners@.len() - i,
        {
            let share = ThresholdKeyShare {
                agent_id,
                share_holder: owners[i],
                share_index: i as u32,
                x_coordinate: i as u32,
                y_coordinate_encrypted: Vec::new(),
                commitment: Vec::new(),
                created_at: now,
            };
            let k = make_pair_key(agent_id, i as u64);
            self.shares.insert(k, share);
            proof {
                assert forall|j: u64| j < i implies #[trigger] pair_key(agent_id, j) != k by {
                    assert(agent_id * PAIR_SHIFT + j != agent_id * PAIR_SHIFT + i);
                }
                assert(k == pair_key(agent_id, i as u64));
                assert(self.shares@.dom() =~= old_shares.dom().union(
                    Set::new(|k2: u128| exists|j: u64| j < i + 1 && k2 == #[trigger] pair_key(agent_id, j))));
            }
            i = i + 1;
        }
    }

    /// Records a pending proposal of `action_data` for agent `agent_id`,
    /// numbered by the ledger sequence, needing two signatures, and returns
    /// its number.  A proposal already stored under that number is replaced.
    pub fn propose_action(&mut self, agent_id: u64, action_data: Vec<u8>, proposer: Address, sequence: u32) -> (id: u64)
        ensures
            id == sequence,
            final(self).shares@ == old(self).shares@,
            final(self).proposals@ == old(self).proposals@.insert(pair_key(agent_id, id), ThresholdProposal {
                proposal_id: id,
                agent_id,
                action_data,
                proposer,
                threshold_m: PROPOSAL_THRESHOLD,
                signatures: final(self).proposals@[pair_key(agent_id, id)].signatures,
                status: ProposalStatus::Pending,
            }),
            final(self).proposals@[pair_key(agent_id, id)].signatures@.len() == 0,
    {
        let proposal_id = sequence as u64;
        let proposal = ThresholdProposal {
            proposal_id,
            agent_id,
            action_data,
            proposer,
            threshold_m: PROPOSAL_THRESHOLD,
            signatures: Vec::new(),
            status: ProposalStatus::Pending,
        };
        self.proposals.insert(make_pair_key(agent_id, proposal_id), proposal);
        proposal_id
    }

    /// Adds `signer` to a proposal's signatures unless it already signed, and
    /// marks the proposal executed once it has at least its threshold of
    /// signatures.
    pub fn sign_proposal(&mut self, agent_id: u64, proposal_id: u64, signer: Address)
        requires
            old(self).proposals@.contains_key(pair_key(agent_id, proposal_id)),
            old(self).proposals@[pair_key(agent_id, proposal_id)].signatures@.len() < u32::MAX,
        ensures
            ({
                let k = pair_key(agent_id, proposal_id);
                let o = old(self).proposals@[k];
                let n = final(self).proposals@[k];
                let sigs = if o.signatures@.contains(signer) { o.signatures@ } else { o.signatures@.push(signer) };
                &&& final(self).proposals@.dom() == old(self).proposals@.dom()
                &&& forall|j: u128| j != k && old(self).proposals@.contains_key(j)
                    ==> #[trigger] final(self).proposals@[j] == old(self).proposals@[j]
                &&& n.signatures@ == sigs
                &&& n == (ThresholdProposal {
                    signatures: n.signatures,
                    status: if sigs.len() >= o.threshold_m { ProposalStatus::Executed } else { o.status },
                    ..o
                })
            }),
            final(self).shares@ == old(self).shares@,
    {
        let k = make_pair_key(agent_id, proposal_id);
        let mut proposal = self.proposals.remove(&k).unwrap();
        let mut signed = false;
        let mut i: usize = 0;
        while i < proposal.signatures.len()
            invariant
                i <= proposal.signatures@.len(),
                signed <==> exists|j: int| 0 <= j < i && proposal.signatures@[j] == signer,
            decreases proposal.signatures@.len() - i,
        {
            if proposal.signatures[i] == signer {
                signed = true;
            }
            i = i + 1;
        }
        assert(signed <==> proposal.signatures@.contains(signer));
        if !signed {
            proposal.signatures.push(signer);
        }
        if proposal.signatures.len() >= proposal.threshold_m as usize {
            proposal.status = ProposalStatus::Executed;
        }
        self.proposals.insert(k, proposal);
        assert(self.proposals@.dom() =~= old(self).proposals@.dom());
    }

    /// The proposal stored under `(agent_id, proposal_id)`.
    pub fn get_threshold_status(&self, agent_id: u64, proposal_id: u64) -> (p: &ThresholdProposal)
        requires
            self.proposals@.contains_key(pair_key(agent_id, proposal_id)),
        ensures
            *p == self.proposals@[pair_key(agent_id, proposal_id)],
    {
        self.proposals.get(&make_pair_key(agent_id, proposal_id)).unwrap()
    }
}

/// Signing keeps a proposal's signatures free of duplicates, and the
/// signer is among them afterwards.
pub proof fn signing_adds_each_signer_once(sigs: Seq<Address>, signer: Address)
    requires
        no_duplicates(sigs),
    ensures
        ({
            let after = if sigs.contains(signer) { sigs } else { sigs.push(signer) };
            no_duplicates(after) && after.contains(signer)
        }),
{
    if !sigs.contains(signer) {
        let after = sigs.push(signer);
        assert(after[sigs.len() as int] == signer);
        assert forall|i: int, j: int| 0 <= i < j < after.len() implies after[i] != after[j] by {
            if j == sigs.len() {
                assert(after[i] == sigs[i]);
            }
        }
    }
}

} // verus!
