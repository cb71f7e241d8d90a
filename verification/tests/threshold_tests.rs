use stellai::threshold_agent::{ProposalStatus, ThresholdAgentContract};
use stellai::types::Address;

#[test]
fn test_threshold_flow() {
    let mut c = ThresholdAgentContract::new();
    let owner1 = Address(1);
    let owner2 = Address(2);
    let owner3 = Address(3);

    c.create_threshold_agent(1, vec![owner1, owner2, owner3], 2, 100);

    let proposal_id = c.propose_action(1, vec![1, 2, 3], owner1, 42);

    c.sign_proposal(1, proposal_id, owner1);
    c.sign_proposal(1, proposal_id, owner2);

    let status = c.get_threshold_status(1, proposal_id);
    assert_eq!(status.status, ProposalStatus::Executed);
}

#[test]
fn repeated_signature_counts_once() {
    let mut c = ThresholdAgentContract::new();
    c.create_threshold_agent(7, vec![Address(1), Address(2)], 2, 0);
    let id = c.propose_action(7, vec![9], Address(1), 5);
    assert_eq!(id, 5);
    c.sign_proposal(7, id, Address(1));
    c.sign_proposal(7, id, Address(1));
    let p = c.get_threshold_status(7, id);
    assert_eq!(p.signatures.len(), 1);
    assert_eq!(p.status, ProposalStatus::Pending);
    c.sign_proposal(7, id, Address(2));
    assert_eq!(c.get_threshold_status(7, id).status, ProposalStatus::Executed);
}
