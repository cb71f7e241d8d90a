use stellai::agent_token::AgentToken;
use stellai::types::{Address, ContractError, RoyaltyInfo};

const NOW: u64 = 1000;

fn setup() -> (AgentToken, Address) {
    let mut token = AgentToken::new();
    let admin = Address(1);
    token.init_contract(admin).unwrap();
    (token, admin)
}

#[test]
fn test_mint_and_total_supply() {
    let (mut token, admin) = setup();
    let owner = Address(2);
    let id = token
        .mint(admin, owner, "TestAgent".to_string(), "hash".to_string(), "QmCid".to_string(), Vec::new(), None, NOW)
        .unwrap();
    assert_eq!(id, 1u64);
    assert_eq!(token.total_supply(), 1u64);
    assert_eq!(token.get_owner(1).unwrap(), owner);
}

#[test]
fn test_transfer_changes_owner() {
    let (mut token, admin) = setup();
    let owner = Address(2);
    let next = Address(3);
    token.mint(admin, owner, "A".to_string(), "h".to_string(), "QmT".to_string(), Vec::new(), None, NOW).unwrap();
    token.transfer(1, owner, next, NOW).unwrap();
    assert_eq!(token.get_owner(1).unwrap(), next);
}

#[test]
fn test_burn_removes_token() {
    let (mut token, admin) = setup();
    let owner = Address(2);
    token.mint(admin, owner, "B".to_string(), "h".to_string(), "QmB".to_string(), Vec::new(), None, NOW).unwrap();
    token.burn(1, owner).unwrap();
    assert!(token.get_owner(1).is_err());
}

#[test]
fn test_non_minter_cannot_mint() {
    let (mut token, _admin) = setup();
    let stranger = Address(9);
    let result = token.mint(stranger, stranger, "C".to_string(), "h".to_string(), "QmC".to_string(), Vec::new(), None, NOW);
    assert!(result.is_err());
}

#[test]
fn test_double_init_fails() {
    let (mut token, admin) = setup();
    assert_eq!(token.init_contract(admin), Err(ContractError::AlreadyInitialized));
}

#[test]
fn token_errors_and_royalty() {
    let (mut token, admin) = setup();
    let owner = Address(2);
    let r = token.mint(admin, owner, "N".to_string(), "h".to_string(), "Qm".to_string(), Vec::new(),
        Some(RoyaltyInfo { recipient: Address(5), fee: 2501 }), NOW);
    assert_eq!(r, Err(ContractError::InvalidRoyaltyFee));
    let r = token.mint(admin, owner, String::new(), "h".to_string(), "Qm".to_string(), Vec::new(), None, NOW);
    assert_eq!(r, Err(ContractError::InvalidMetadata));
    token.mint(admin, owner, "N".to_string(), "h".to_string(), "Qm".to_string(), Vec::new(),
        Some(RoyaltyInfo { recipient: Address(5), fee: 2500 }), NOW).unwrap();
    assert_eq!(token.get_owner(0), Err(ContractError::InvalidAgentId));
    assert_eq!(token.get_owner(7), Err(ContractError::AgentNotFound));
    assert_eq!(token.transfer(1, owner, owner, NOW), Err(ContractError::SameAddressTransfer));
    assert_eq!(token.transfer(1, Address(3), Address(4), NOW), Err(ContractError::NotOwner));
    assert_eq!(token.burn(1, Address(3)), Err(ContractError::NotOwner));
    token.burn(1, owner).unwrap();
    // Burning does not lower the supply count.
    assert_eq!(token.total_supply(), 1);
}

#[test]
fn approved_minter_and_admin_transfer() {
    let (mut token, admin) = setup();
    let minter = Address(4);
    assert_eq!(token.add_approved_minter(minter, minter), Err(ContractError::Unauthorized));
    token.add_approved_minter(admin, minter).unwrap();
    assert_eq!(token.mint(minter, Address(2), "M".to_string(), "h".to_string(), "Qm".to_string(), Vec::new(), None, NOW), Ok(1));
    token.transfer_admin(admin, Address(8)).unwrap();
    assert_eq!(token.transfer_admin(admin, Address(9)), Err(ContractError::Unauthorized));
}
