use stellai::agent_nft::{AgentMintData, AgentNFT};
use stellai::types::{Address, ContractError, RoyaltyInfo};

const NOW: u64 = 1_700_000_000;

fn setup_contract() -> (AgentNFT, Address) {
    let mut nft = AgentNFT::new();
    let admin = Address(1);
    nft.init_contract(admin).unwrap();
    (nft, admin)
}

fn mint_test_agent(nft: &mut AgentNFT, owner: Address, agent_id: u128, metadata_cid: &str, evolution_level: u32) {
    nft.mint_agent(agent_id, owner, metadata_cid.to_string(), evolution_level, None, None, NOW).unwrap();
}

fn make_mint_data(owner: u64, cid_suffix: &str) -> AgentMintData {
    AgentMintData {
        owner: Address(owner),
        name: "BatchAgent".to_string(),
        model_hash: "hash".to_string(),
        metadata_cid: format!("QmBatchCid{}", cid_suffix),
        capabilities: Vec::new(),
        royalty: None,
    }
}

#[test]
fn test_get_agent_owner() {
    let (mut nft, admin) = setup_contract();
    let owner = Address(2);
    nft.add_approved_minter(admin, owner).unwrap();
    mint_test_agent(&mut nft, owner, 1, "QmTestCID123", 1);
    assert_eq!(nft.get_agent_owner(1).unwrap(), owner);
}

#[test]
fn test_total_agents_returns_result() {
    let (nft, _admin) = setup_contract();
    assert_eq!(nft.total_agents().unwrap(), 0);
}

#[test]
fn test_metadata_error_variants() {
    let (mut nft, admin) = setup_contract();
    let owner = Address(2);
    nft.add_approved_minter(admin, owner).unwrap();
    let long_str: String = std::iter::repeat('a').take(300).collect();
    let result = nft.mint_agent(5, owner, long_str, 1, None, None, NOW);
    assert_eq!(result, Err(ContractError::MetadataTooLong));
}

#[test]
fn test_get_agent_metadata() {
    let (mut nft, admin) = setup_contract();
    let owner = Address(2);
    nft.add_approved_minter(admin, owner).unwrap();
    let metadata_cid = "QmTestMetadataCID456";
    mint_test_agent(&mut nft, owner, 2, metadata_cid, 5);
    assert_eq!(nft.get_agent_metadata(2).unwrap(), metadata_cid.to_string());
}

#[test]
fn test_get_agent_evolution_level() {
    let (mut nft, admin) = setup_contract();
    let owner = Address(2);
    nft.add_approved_minter(admin, owner).unwrap();
    let evolution_level = 7u32;
    mint_test_agent(&mut nft, owner, 3, "QmEvolutionTest", evolution_level);
    assert_eq!(nft.get_agent_evolution_level(3).unwrap(), evolution_level);
}

#[test]
fn test_query_non_existent_agent() {
    let (nft, _admin) = setup_contract();
    assert!(nft.get_agent_owner(999).is_err());
    assert!(nft.get_agent_metadata(999).is_err());
    assert!(nft.get_agent_evolution_level(999).is_err());
}

#[test]
fn test_query_zero_agent_id() {
    let (nft, _admin) = setup_contract();
    assert!(nft.get_agent_owner(0).is_err());
    assert!(nft.get_agent_metadata(0).is_err());
    assert!(nft.get_agent_evolution_level(0).is_err());
}

#[test]
fn test_capabilities_limit_error() {
    let (mut nft, admin) = setup_contract();
    let owner = Address(2);
    nft.add_approved_minter(admin, owner).unwrap();
    let caps: Vec<String> = (0..33).map(|_| "cap".to_string()).collect();
    let result = nft.mint_agent_legacy(owner, "Name".to_string(), "Hash".to_string(), caps, None, None, NOW);
    assert_eq!(result, Err(ContractError::CapabilitiesExceeded));
}

#[test]
fn test_batch_mint_single_item() {
    let (mut nft, admin) = setup_contract();
    nft.add_approved_minter(admin, admin).unwrap();
    let agents = vec![make_mint_data(10, "0")];
    let ids = nft.batch_mint(admin, agents, NOW).unwrap();
    assert_eq!(ids.len(), 1);
    assert_eq!(ids[0], 1u64);
    assert_eq!(nft.total_agents().unwrap(), 1u64);
}

#[test]
fn test_batch_mint_ten_agents() {
    let (mut nft, admin) = setup_contract();
    nft.add_approved_minter(admin, admin).unwrap();
    let suffixes = ["0", "1", "2", "3", "4", "5", "6", "7", "8", "9"];
    let agents: Vec<AgentMintData> = suffixes.iter().enumerate().map(|(i, s)| make_mint_data(10 + i as u64, s)).collect();
    let ids = nft.batch_mint(admin, agents, NOW).unwrap();
    assert_eq!(ids.len(), 10);
    for (i, id) in ids.iter().enumerate() {
        assert_eq!(*id, (i as u64) + 1);
    }
    assert_eq!(nft.total_agents().unwrap(), 10u64);
}

#[test]
fn test_batch_mint_fifty_agents() {
    let (mut nft, admin) = setup_contract();
    nft.add_approved_minter(admin, admin).unwrap();
    let agents: Vec<AgentMintData> = (0u32..50).map(|n| make_mint_data(100 + n as u64, &n.to_string())).collect();
    let ids = nft.batch_mint(admin, agents, NOW).unwrap();
    assert_eq!(ids.len(), 50);
    assert_eq!(nft.total_agents().unwrap(), 50u64);
}

#[test]
fn test_batch_mint_empty_fails() {
    let (mut nft, admin) = setup_contract();
    nft.add_approved_minter(admin, admin).unwrap();
    let result = nft.batch_mint(admin, Vec::new(), NOW);
    assert_eq!(result, Err(ContractError::InvalidInput));
}

#[test]
fn test_batch_mint_exceeds_limit_fails() {
    let (mut nft, admin) = setup_contract();
    nft.add_approved_minter(admin, admin).unwrap();
    let agents: Vec<AgentMintData> = (0u32..51).map(|n| make_mint_data(100 + n as u64, &n.to_string())).collect();
    let result = nft.batch_mint(admin, agents, NOW);
    assert_eq!(result, Err(ContractError::InvalidInput));
}

#[test]
fn test_batch_mint_duplicate_cid_within_batch_fails() {
    let (mut nft, admin) = setup_contract();
    nft.add_approved_minter(admin, admin).unwrap();
    let a1 = make_mint_data(10, "dup");
    let mut a2 = make_mint_data(11, "other");
    a2.metadata_cid = a1.metadata_cid.clone();
    let result = nft.batch_mint(admin, vec![a1, a2], NOW);
    assert_eq!(result, Err(ContractError::InvalidInput));
}

#[test]
fn test_batch_mint_counter_continues_after_previous_mints() {
    let (mut nft, admin) = setup_contract();
    nft.add_approved_minter(admin, admin).unwrap();
    let owner = Address(2);
    nft.add_approved_minter(admin, owner).unwrap();
    nft.batch_mint(admin, vec![make_mint_data(10, "individual")], NOW).unwrap();
    assert_eq!(nft.total_agents().unwrap(), 1u64);
    let agents: Vec<AgentMintData> = ["10", "11", "12"].iter().enumerate().map(|(i, s)| make_mint_data(20 + i as u64, s)).collect();
    let ids = nft.batch_mint(admin, agents, NOW).unwrap();
    assert_eq!(ids[0], 2u64);
    assert_eq!(ids[2], 4u64);
    assert_eq!(nft.total_agents().unwrap(), 4u64);
}

#[test]
fn test_batch_mint_non_admin_fails() {
    let (mut nft, _admin) = setup_contract();
    let stranger = Address(99);
    let result = nft.batch_mint(stranger, vec![make_mint_data(10, "stranger_cid")], NOW);
    assert!(result.is_err());
}

#[test]
fn royalty_above_cap_is_refused() {
    let (mut nft, admin) = setup_contract();
    let owner = Address(2);
    nft.add_approved_minter(admin, owner).unwrap();
    let result = nft.mint_agent(1, owner, "cid".to_string(), 1, Some(Address(3)), Some(2501), NOW);
    assert_eq!(result, Err(ContractError::InvalidRoyaltyFee));
    nft.mint_agent(1, owner, "cid".to_string(), 1, Some(Address(3)), Some(2500), NOW).unwrap();
    assert_eq!(nft.get_royalty(1).unwrap(), Some(RoyaltyInfo { recipient: Address(3), fee: 2500 }));
}

#[test]
fn only_owner_transfers_and_leases_block_transfer() {
    let (mut nft, admin) = setup_contract();
    let owner = Address(2);
    let stranger = Address(3);
    nft.add_approved_minter(admin, owner).unwrap();
    mint_test_agent(&mut nft, owner, 1, "cid", 1);
    assert_eq!(nft.transfer_agent(1, stranger, Address(4), NOW), Err(ContractError::NotOwner));
    assert_eq!(nft.transfer_agent(1, owner, owner, NOW), Err(ContractError::SameAddressTransfer));
    nft.start_lease(1).unwrap();
    assert_eq!(nft.transfer_agent(1, owner, Address(4), NOW), Err(ContractError::AgentLeased));
    nft.end_lease(1).unwrap();
    nft.transfer_agent(1, owner, Address(4), NOW + 1).unwrap();
    assert_eq!(nft.get_agent_owner(1).unwrap(), Address(4));
}

#[test]
fn duplicate_agent_id_is_refused() {
    let (mut nft, admin) = setup_contract();
    let owner = Address(2);
    nft.add_approved_minter(admin, owner).unwrap();
    mint_test_agent(&mut nft, owner, 1, "cid", 1);
    let again = nft.mint_agent(1, owner, "cid2".to_string(), 1, None, None, NOW);
    assert_eq!(again, Err(ContractError::DuplicateAgentId));
}

#[test]
fn double_init_is_refused() {
    let (mut nft, admin) = setup_contract();
    assert_eq!(nft.init_contract(admin), Err(ContractError::AlreadyInitialized));
}

#[test]
fn agent_data_checks_name_then_cid_then_capabilities() {
    let caps = vec!["trade".to_string()];
    assert_eq!(AgentNFT::validate_agent_data(&"".to_string(), &"".to_string(), &caps), Err(ContractError::InvalidMetadata));
    assert_eq!(AgentNFT::validate_agent_data(&"bot".to_string(), &"".to_string(), &caps), Err(ContractError::InvalidMetadata));
    let long = "x".repeat(300);
    assert_eq!(AgentNFT::validate_agent_data(&long, &"cid".to_string(), &caps), Err(ContractError::MetadataTooLong));
    let many: Vec<String> = (0..33).map(|i| format!("c{}", i)).collect();
    assert_eq!(AgentNFT::validate_agent_data(&"bot".to_string(), &"cid".to_string(), &many), Err(ContractError::CapabilitiesExceeded));
    assert_eq!(AgentNFT::validate_agent_data(&"bot".to_string(), &"cid".to_string(), &caps), Ok(()));
}

#[test]
fn chosen_id_raises_the_counter_so_batches_never_reuse_it() {
    let (mut nft, admin) = setup_contract();
    nft.mint_agent(5, admin, "cid5".to_string(), 1, None, None, NOW).unwrap();
    assert_eq!(nft.total_agents().unwrap(), 5);
    let ids = nft.batch_mint(admin, vec![make_mint_data(2, "a")], NOW).unwrap();
    assert_eq!(ids, vec![6]);
    assert_eq!(nft.get_agent_metadata(5).unwrap(), "cid5");
    nft.mint_agent(3, admin, "cid3".to_string(), 1, None, None, NOW).unwrap();
    assert_eq!(nft.total_agents().unwrap(), 6);
}
