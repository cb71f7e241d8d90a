use stellai::credentials::{
    CredentialRegistryStatus, Error, OfferStatus, SchemaField, VerifiableCredentialsContract,
};
use stellai::types::Address;

fn field(name: &str) -> SchemaField {
    SchemaField { name: name.to_string(), type_: "string".to_string(), required: true, description: None, validation: None }
}

fn setup() -> (VerifiableCredentialsContract, String) {
    let mut c = VerifiableCredentialsContract::new();
    let id = c
        .register_schema(Address(1), "KYC".to_string(), "1.0".to_string(), vec![field("name"), field("country")],
            vec!["name".to_string()], 10)
        .unwrap();
    (c, id)
}

fn claims(pairs: &[(&str, &str)]) -> Vec<(String, String)> {
    pairs.iter().map(|(k, v)| (k.to_string(), v.to_string())).collect()
}

#[test]
fn register_schema_checks_required_fields() {
    let mut c = VerifiableCredentialsContract::new();
    assert_eq!(
        c.register_schema(Address(1), "S".to_string(), "1".to_string(), vec![field("a")], vec!["b".to_string()], 0).err(),
        Some(Error::InvalidSchema)
    );
    let many: Vec<SchemaField> = (0..51).map(|i| field(&format!("f{}", i))).collect();
    assert_eq!(c.register_schema(Address(1), "S".to_string(), "1".to_string(), many, Vec::new(), 0).err(),
        Some(Error::MaxFieldsExceeded));
    let (c, id) = setup();
    assert_eq!(id, "schema");
    assert_eq!(c.get_schema(&id).unwrap().name, "KYC");
}

#[test]
fn issue_and_revoke_credential() {
    let (mut c, schema) = setup();
    let issuer = Address(2);
    let id = c
        .issue_credential(issuer, "did:stellar:subject".to_string(), vec!["KYC".to_string()], schema.clone(),
            claims(&[("name", "Ada"), ("country", "UK")]), Some(100), vec![7; 64], 1000)
        .unwrap();
    assert_eq!(id, 1);
    let cred = c.get_credential(id).unwrap();
    assert_eq!(cred.expiration_date, Some(1100));
    assert!(cred.non_revoked);
    assert_eq!(cred.credential_status.status, "valid");
    assert_eq!(c.get_credential_registry(id).unwrap().status, CredentialRegistryStatus::Issued);

    assert_eq!(c.revoke_credential(id, Address(3), "x".to_string(), 1001), Err(Error::UnauthorizedIssuer));
    c.revoke_credential(id, issuer, "fraud".to_string(), 1002).unwrap();
    let entry = c.get_credential_registry(id).unwrap();
    assert_eq!(entry.status, CredentialRegistryStatus::Revoked);
    assert!(entry.credential.credential_status.revoked);
    assert_eq!(entry.credential.credential_status.revocation_reason, Some("fraud".to_string()));
    assert_eq!(entry.audit_trail.len(), 1);
    assert_eq!(entry.audit_trail[0].action, "revoked");
    assert_eq!(c.revoke_credential(id, issuer, "again".to_string(), 1003), Err(Error::CredentialRevoked));
    assert_eq!(c.revoke_credential(99, issuer, "x".to_string(), 1003), Err(Error::CredentialNotFound));
}

#[test]
fn issue_credential_errors() {
    let (mut c, schema) = setup();
    let issuer = Address(2);
    assert_eq!(c.issue_credential(issuer, String::new(), vec![], schema.clone(), claims(&[("name", "A")]), None, vec![], 0),
        Err(Error::InvalidDID));
    assert_eq!(c.issue_credential(issuer, "did:x".to_string(), vec![], "other".to_string(), claims(&[("name", "A")]), None, vec![], 0),
        Err(Error::InvalidSchema));
    assert_eq!(c.issue_credential(issuer, "did:x".to_string(), vec![], schema.clone(), claims(&[("country", "UK")]), None, vec![], 0),
        Err(Error::InvalidSchema));
    assert_eq!(c.issue_credential(issuer, "did:x".to_string(), vec![], schema.clone(), claims(&[("name", "A"), ("age", "3")]), None, vec![], 0),
        Err(Error::InvalidSchema));
    let many: Vec<(String, String)> = (0..51).map(|i| (format!("k{}", i), "v".to_string())).collect();
    assert_eq!(c.issue_credential(issuer, "did:x".to_string(), vec![], schema.clone(), many, None, vec![], 0),
        Err(Error::MaxFieldsExceeded));
    assert_eq!(c.credential_counter, 0);
}

#[test]
fn offers_expire_after_seven_days() {
    let (mut c, schema) = setup();
    let issuer = Address(2);
    let o1 = c.create_offer(issuer, "did:x".to_string(), vec![], schema.clone(), 30, None, 100).unwrap();
    let o2 = c.create_offer(issuer, "did:y".to_string(), vec![], schema.clone(), 30, Some("terms".to_string()), 100).unwrap();
    assert_eq!((o1, o2), (1, 2));
    assert_eq!(c.get_offer(o1).unwrap().expires_at, 100 + 604800);
    c.accept_offer(o1, Address(5), 100 + 604800).unwrap();
    assert_eq!(c.get_offer(o1).unwrap().status, OfferStatus::Accepted);
    assert_eq!(c.accept_offer(o1, Address(5), 200), Err(Error::InvalidOffer));
    assert_eq!(c.accept_offer(o2, Address(5), 100 + 604801), Err(Error::OfferExpired));
    assert_eq!(c.accept_offer(77, Address(5), 0), Err(Error::InvalidOffer));
    assert_eq!(c.create_offer(issuer, String::new(), vec![], schema, 30, None, 0).err(), Some(Error::InvalidDID));
    assert_eq!(c.create_offer(issuer, "did:x".to_string(), vec![], "none".to_string(), 30, None, 0).err(), Some(Error::InvalidSchema));
}

#[test]
fn selective_disclosure_and_verification() {
    let (mut c, schema) = setup();
    let issuer = Address(2);
    let verifier = Address(9);
    let id = c
        .issue_credential(issuer, "did:stellar:s".to_string(), vec![], schema, claims(&[("name", "Ada"), ("country", "UK")]),
            Some(100), vec![], 1000)
        .unwrap();
    let d = c.create_selective_disclosure(id, verifier, vec!["country".to_string()], "n1".to_string(), 1050).unwrap();
    let disclosure = c.get_selective_disclosure(d).unwrap();
    assert_eq!(disclosure.subject, "did:stellar:s");
    assert_eq!(disclosure.expires_at, 1050 + 86400);
    assert_eq!(disclosure.presentation_hash, "presentation");
    assert_eq!(c.create_selective_disclosure(id, verifier, vec!["age".to_string()], "n2".to_string(), 1050),
        Err(Error::SelectiveDisclosureFailed));
    assert_eq!(c.create_selective_disclosure(id, verifier, vec![], "n3".to_string(), 1101), Err(Error::CredentialExpired));
    assert_eq!(c.get_selective_disclosure(55).err(), Some(Error::SelectiveDisclosureFailed));

    assert_eq!(c.verify_credential(id, verifier, None, 1100), Ok(true));
    assert_eq!(c.verify_credential(id, verifier, Some(vec!["name".to_string()]), 1101), Ok(false));
    let record = c.verifications.get(&2).unwrap();
    assert_eq!(record.reason, Some("Credential expired".to_string()));
    assert_eq!(record.disclosed_fields, vec!["name".to_string()]);
    c.revoke_credential(id, issuer, "r".to_string(), 1102).unwrap();
    assert_eq!(c.verify_credential(id, verifier, None, 1000), Ok(false));
    assert_eq!(c.create_selective_disclosure(id, verifier, vec![], "n4".to_string(), 1000), Err(Error::CredentialRevoked));
    assert_eq!(c.verify_credential(404, verifier, None, 0), Err(Error::CredentialNotFound));
    assert_eq!(c.get_verification_records(id, 10).unwrap().len(), 0);
}

#[test]
fn credential_and_offer_input_checks() {
    let (c, schema) = setup();
    let ok_claims = claims(&[("name", "Ada")]);
    assert_eq!(c.validate_credential_inputs(&"".to_string(), &schema, &ok_claims), Err(Error::InvalidDID));
    let too_many: Vec<(String, String)> = (0..51).map(|i| (format!("f{}", i), "v".to_string())).collect();
    assert_eq!(c.validate_credential_inputs(&"did:x".to_string(), &schema, &too_many), Err(Error::MaxFieldsExceeded));
    assert_eq!(c.validate_credential_inputs(&"did:x".to_string(), &"nope".to_string(), &ok_claims), Err(Error::InvalidSchema));
    assert_eq!(c.validate_credential_inputs(&"did:x".to_string(), &schema, &ok_claims), Ok(()));
    assert_eq!(c.validate_offer_inputs(&"".to_string(), &schema), Err(Error::InvalidDID));
    assert_eq!(c.validate_offer_inputs(&"did:x".to_string(), &"nope".to_string()), Err(Error::InvalidSchema));
    assert_eq!(c.validate_offer_inputs(&"did:x".to_string(), &schema), Ok(()));
}
