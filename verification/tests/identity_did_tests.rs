use stellai::identity_did::{DIDContract, DIDStatus, Error, Service, VerificationMethod};
use stellai::types::Address;
use soroban_sdk::Env;

fn vm(id: &str, key_byte: u8) -> VerificationMethod {
    VerificationMethod {
        id: id.to_string(),
        type_: "Ed25519VerificationKey2018".to_string(),
        controller: "did:stellar:test".to_string(),
        public_key: vec![key_byte; 32],
        created: 0,
    }
}

fn setup() -> (DIDContract, Address) {
    let mut c = DIDContract::new();
    let admin = Address(100);
    c.admin = Some(admin);
    (c, admin)
}

fn controller_text(a: Address) -> String {
    format!("GCONTROLLER{}", a.0)
}

fn create(c: &mut DIDContract, controller: Address, vms: Vec<VerificationMethod>, services: Vec<Service>) -> Result<String, Error> {
    let env = Env::default();
    c.create_did(&env, controller, &controller_text(controller), vms, services, 0)
}

#[test]
fn test_create_did_success() {
    let (mut c, _admin) = setup();
    let controller = Address(1);
    let service1 = Service {
        id: "service-1".to_string(),
        type_: "AgentRegistry".to_string(),
        service_endpoint: "https://api.stellai.verse/agents".to_string(),
        created: 0,
    };
    let did = create(&mut c, controller, vec![vm("key-1", 1)], vec![service1]).unwrap();
    assert!(did.len() > 0);

    let document = c.get_did_document(&did).unwrap();
    assert!(document.controller == controller);
    assert!(document.verification_methods.len() == 1);
    assert!(document.service.len() == 1);
    assert!(document.version_id == 1);

    let record = c.get_did_record(&did).unwrap();
    assert!(record.status == DIDStatus::Active);
    assert!(record.document.controller == controller);
}

#[test]
fn test_create_did_already_exists() {
    let (mut c, _admin) = setup();
    let controller = Address(1);
    let _did1 = create(&mut c, controller, vec![vm("key-1", 1)], Vec::new()).unwrap();
    let result = create(&mut c, controller, vec![vm("key-1", 1)], Vec::new());
    assert!(result.is_err());
    assert_eq!(result.unwrap_err(), Error::DIDAlreadyExists);
}

#[test]
fn test_update_did_success() {
    let (mut c, _admin) = setup();
    let controller = Address(1);
    let did = create(&mut c, controller, vec![vm("key-1", 1)], Vec::new()).unwrap();
    let new_version = c.update_did(&did, controller, Some(vec![vm("key-2", 2)]), None, 0).unwrap();
    assert!(new_version == 2);
    let document = c.get_did_document(&did).unwrap();
    assert!(document.version_id == 2);
    assert!(document.verification_methods.len() == 1);
    assert!(document.verification_methods[0].id == "key-2".to_string());
}

#[test]
fn test_update_did_unauthorized() {
    let (mut c, _admin) = setup();
    let controller = Address(1);
    let unauthorized = Address(2);
    let did = create(&mut c, controller, vec![vm("key-1", 1)], Vec::new()).unwrap();
    let result = c.update_did(&did, unauthorized, None, None, 0);
    assert!(result.is_err());
    assert_eq!(result.unwrap_err(), Error::Unauthorized);
}

#[test]
fn test_suspend_did_success() {
    let (mut c, admin) = setup();
    let controller = Address(1);
    let did = create(&mut c, controller, vec![vm("key-1", 1)], Vec::new()).unwrap();
    c.suspend_did(&did, admin, "Suspension for investigation".to_string(), 0).unwrap();
    let record = c.get_did_record(&did).unwrap();
    assert!(record.status == DIDStatus::Suspended);
}

#[test]
fn test_revoke_did_success() {
    let (mut c, admin) = setup();
    let controller = Address(1);
    let did = create(&mut c, controller, vec![vm("key-1", 1)], Vec::new()).unwrap();
    c.revoke_did(&did, admin, "Revocation for policy violation".to_string(), 0).unwrap();
    let record = c.get_did_record(&did).unwrap();
    assert!(record.status == DIDStatus::Revoked);
}

#[test]
fn test_reactivate_did_success() {
    let (mut c, admin) = setup();
    let controller = Address(1);
    let did = create(&mut c, controller, vec![vm("key-1", 1)], Vec::new()).unwrap();
    c.suspend_did(&did, admin, "Suspension for investigation".to_string(), 0).unwrap();
    c.reactivate_did(&did, admin, 0).unwrap();
    let record = c.get_did_record(&did).unwrap();
    assert!(record.status == DIDStatus::Active);
}

#[test]
fn test_get_did_by_controller() {
    let (mut c, _admin) = setup();
    let controller = Address(1);
    let did = create(&mut c, controller, vec![vm("key-1", 1)], Vec::new()).unwrap();
    let retrieved_did = c.get_did_by_controller(controller).unwrap();
    assert!(retrieved_did == did);
}

#[test]
fn test_is_valid_did() {
    let (mut c, admin) = setup();
    let controller = Address(1);
    let did = create(&mut c, controller, vec![vm("key-1", 1)], Vec::new()).unwrap();
    assert!(c.is_valid_did(&did).unwrap());
    c.suspend_did(&did, admin, "Test suspension".to_string(), 0).unwrap();
    assert!(!c.is_valid_did(&did).unwrap());
}

#[test]
fn test_get_did_history() {
    let (mut c, _admin) = setup();
    let controller = Address(1);
    let did = create(&mut c, controller, vec![vm("key-1", 1)], Vec::new()).unwrap();
    let history = c.get_did_history(&did, 10).unwrap();
    assert!(history.len() == 1);
    assert!(history[0].action == "created".to_string());
}

#[test]
fn generated_did_text() {
    let digest: Vec<u8> = (0u32..32).map(|i| ((i * 17) % 256) as u8).collect();
    let did = DIDContract::did_from_digest(&"GABC".to_string(), &digest);
    assert_eq!(did, "did:stellar:GABC:0011223344556677");
    let digest2: Vec<u8> = vec![0xfe, 0xdc, 0xba, 0x98, 0x0a, 0x0b, 0x0c, 0x0d, 0, 0, 0, 0, 0, 0, 0, 0,
        0, 0, 0, 0, 0, 0, 0, 0, 0, 0, 0, 0, 0, 0, 0, 0];
    assert_eq!(DIDContract::did_from_digest(&"G".to_string(), &digest2), "did:stellar:G:fedcba980a0b0c0d");
    // The digest is SHA-256 of the account text.
    let env = Env::default();
    assert_eq!(DIDContract::generate_did(&env, &"GABC".to_string()), "did:stellar:GABC:bfe4774718c72c7b");
    let (mut c, _admin) = setup();
    let did = create(&mut c, Address(1), Vec::new(), Vec::new()).unwrap();
    assert_eq!(did, "did:stellar:GCONTROLLER1:2f5341a05de85e22");
}

#[test]
fn validation_errors() {
    let (mut c, _admin) = setup();
    let mut bad_type = vm("k", 1);
    bad_type.type_ = "RsaKey".to_string();
    assert_eq!(create(&mut c, Address(1), vec![bad_type], Vec::new()), Err(Error::UnsupportedKeyType));
    assert_eq!(create(&mut c, Address(1), vec![vm("k", 1)].into_iter().map(|mut v| { v.public_key = Vec::new(); v }).collect(), Vec::new()),
        Err(Error::InvalidPublicKey));
    let mut long_key = vm("k", 1);
    long_key.public_key = vec![1; 65];
    assert_eq!(create(&mut c, Address(1), vec![long_key], Vec::new()), Err(Error::InvalidPublicKey));
    let too_many: Vec<VerificationMethod> = (0..11).map(|i| vm("k", i)).collect();
    assert_eq!(create(&mut c, Address(1), too_many, Vec::new()), Err(Error::MaxVerificationMethodsExceeded));
    let empty_service = Service { id: String::new(), type_: "t".to_string(), service_endpoint: "e".to_string(), created: 0 };
    assert_eq!(create(&mut c, Address(1), Vec::new(), vec![empty_service]), Err(Error::InvalidService));
    let services: Vec<Service> = (0..21).map(|_| Service { id: "s".to_string(), type_: "t".to_string(), service_endpoint: "e".to_string(), created: 0 }).collect();
    assert_eq!(create(&mut c, Address(1), Vec::new(), services), Err(Error::MaxServicesExceeded));
    assert!(DIDContract::is_supported_key_type(&"X25519KeyAgreementKey2019".to_string()));
    assert!(!DIDContract::is_supported_key_type(&"x25519KeyAgreementKey2019".to_string()));
}

#[test]
fn status_transitions() {
    let (mut c, admin) = setup();
    let did = create(&mut c, Address(1), vec![vm("key-1", 1)], Vec::new()).unwrap();
    let stranger = Address(5);
    assert_eq!(c.suspend_did(&did, stranger, "x".to_string(), 0), Err(Error::Unauthorized));
    assert_eq!(c.reactivate_did(&did, admin, 0), Err(Error::DIDSuspended));
    c.suspend_did(&did, admin, "x".to_string(), 1).unwrap();
    assert_eq!(c.suspend_did(&did, admin, "x".to_string(), 2), Err(Error::DIDSuspended));
    assert_eq!(c.update_did(&did, Address(1), None, None, 3), Err(Error::DIDSuspended));
    c.revoke_did(&did, admin, "y".to_string(), 4).unwrap();
    assert_eq!(c.revoke_did(&did, admin, "y".to_string(), 5), Err(Error::DIDRevoked));
    assert_eq!(c.suspend_did(&did, admin, "y".to_string(), 5), Err(Error::DIDRevoked));
    assert_eq!(c.reactivate_did(&did, admin, 5), Err(Error::DIDSuspended));
    assert_eq!(c.get_did_record(&"did:stellar:nobody".to_string()).err(), Some(Error::DIDNotFound));
    let history = c.get_did_history(&did, 100).unwrap();
    let actions: Vec<String> = history.iter().map(|h| h.action.clone()).collect();
    assert_eq!(actions, vec!["revoked".to_string(), "suspended".to_string(), "created".to_string()]);
    assert_eq!(history[0].reason, Some("y".to_string()));
    assert_eq!(c.get_did_history(&did, 2).unwrap().len(), 2);
}
