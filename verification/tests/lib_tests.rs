use stellai::admin::{get_admin, transfer_admin, verify_admin};
use stellai::types::{Address, ContractError};
use stellai::validation::{validate_address, validate_capabilities, validate_metadata, validate_nonzero_id};

#[test]
fn verify_admin_success_and_transfer() {
    let admin = Address(1);
    let next = Address(2);
    let mut slot = Some(admin);
    assert!(verify_admin(&slot, &admin).is_ok());
    assert!(transfer_admin(&mut slot, &admin, &next).is_ok());
    assert_eq!(get_admin(&slot).unwrap(), next);
}

#[test]
fn metadata_validation_works() {
    let ok = "ipfs://cid".to_string();
    assert!(validate_metadata(&ok).is_ok());
    let empty = String::new();
    assert!(validate_metadata(&empty).is_err());
}

#[test]
fn capabilities_validation_works() {
    let caps = vec!["exec".to_string()];
    assert!(validate_capabilities(&caps).is_ok());
    let bad = vec![String::new()];
    assert!(validate_capabilities(&bad).is_err());
}

#[test]
fn metadata_length_is_counted_in_bytes() {
    let s256: String = std::iter::repeat('a').take(256).collect();
    assert_eq!(validate_metadata(&s256), Ok(()));
    let s257: String = std::iter::repeat('a').take(257).collect();
    assert_eq!(validate_metadata(&s257), Err(ContractError::MetadataTooLong));
    // 128 two-byte characters are 256 bytes; 129 are too many.
    let wide: String = std::iter::repeat('é').take(129).collect();
    assert_eq!(validate_metadata(&wide), Err(ContractError::MetadataTooLong));
}

#[test]
fn capability_count_limit_and_ids() {
    let caps: Vec<String> = (0..33).map(|_| "c".to_string()).collect();
    assert_eq!(validate_capabilities(&caps), Err(ContractError::CapabilitiesExceeded));
    assert_eq!(validate_nonzero_id(0), Err(ContractError::InvalidInput));
    assert_eq!(validate_nonzero_id(5), Ok(()));
    assert_eq!(validate_address(&Address(3)), Ok(()));
    let missing: Option<Address> = None;
    assert_eq!(get_admin(&missing), Err(ContractError::Unauthorized));
    assert_eq!(verify_admin(&Some(Address(1)), &Address(2)), Err(ContractError::Unauthorized));
}
