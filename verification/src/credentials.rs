use vstd::prelude::*;
use vstd::hash_map::{HashMapWithView, StringHashMap};
use vstd::string::{StrSliceExecFns, StringExecFns};
use crate::types::{Address, map_set_at};
use crate::identity_did::text_opt;

verus! {

broadcast use vstd::std_specs::hash::group_hash_axioms;

/// Most fields a schema, or claims a credential subject, may hold.
pub const MAX_CREDENTIAL_FIELDS: usize = 50;
/// How long an offer stays open, in seconds (7 days).
pub const OFFER_VALIDITY_PERIOD: u64 = 604800;
/// How long a selective disclosure stays valid, in seconds (24 hours).
pub const DISCLOSURE_VALIDITY_PERIOD: u64 = 86400;

/// Revocation and suspension state of a credential.
#[derive(Debug)]
pub struct CredentialStatus {
    pub id: String,
    pub type_: String,
    pub status: String,
    pub revoked: bool,
    pub suspended: bool,
    pub revocation_reason: Option<String>,
    pub suspension_reason: Option<String>,
    pub effective_date: u64,
}

/// A cryptographic proof attached to a credential.
#[derive(Debug)]
pub struct Proof {
    pub type_: String,
    pub created: u64,
    pub proof_purpose: String,
    pub verification_method: String,
    pub challenge: Option<String>,
    pub domain: Option<String>,
    pub jws: Option<String>,
}

/// A proof, or none.
#[derive(Debug)]
pub enum OptionalProof {
    Absent,
    Present(Proof),
}

/// A W3C verifiable credential.  Its subject's claims are name/value pairs
/// with distinct names.
#[derive(Debug)]
pub struct VerifiableCredential {
    pub id: String,
    pub credential_id: u64,
    pub issuer: Address,
    pub subject: String,
    pub credential_type: Vec<String>,
    pub credential_schema: String,
    pub credential_status: CredentialStatus,
    pub issuance_date: u64,
    pub expiration_date: Option<u64>,
    pub credential_subject: Vec<(String, String)>,
    pub proof: OptionalProof,
    pub non_revoked: bool,
    pub created_at: u64,
    pub updated_at: u64,
}

/// The fields a credential of a schema may carry.
#[derive(Debug)]
pub struct CredentialSchema {
    pub id: String,
    pub name: String,
    pub version: String,
    pub author: Address,
    pub fields: Vec<SchemaField>,
    pub created_at: u64,
    pub required_fields: Vec<String>,
}

/// One field of a schema.
#[derive(Debug)]
pub struct SchemaField {
    pub name: String,
    pub type_: String,
    pub required: bool,
    pub description: Option<String>,
    pub validation: Option<String>,
}

/// An issuer's offer of a credential to a subject.
#[derive(Debug)]
pub struct CredentialOffer {
    pub offer_id: u64,
    pub issuer: Address,
    pub subject_did: String,
    pub credential_type: Vec<String>,
    pub credential_schema: String,
    pub validity_period: u64,
    pub terms: Option<String>,
    pub created_at: u64,
    pub expires_at: u64,
    pub status: OfferStatus,
}

/// State of a credential offer.
#[derive(Clone, Copy, Debug, PartialEq, Eq, Structural)]
pub enum OfferStatus {
    Pending,
    Accepted,
    Rejected,
    Expired,
}

/// A disclosure of some of a credential's claims to a verifier.
#[derive(Debug)]
pub struct SelectiveDisclosure {
    pub disclosure_id: u64,
    pub credential_id: u64,
    pub verifier: Address,
    pub subject: String,
    pub disclosed_fields: Vec<String>,
    pub nonce: String,
    pub created_at: u64,
    pub expires_at: u64,
    pub presentation_hash: String,
    pub verified: bool,
}

/// A presentation of credentials by their holder.
#[derive(Debug)]
pub struct Presentation {
    pub id: String,
    pub presentation_id: u64,
    pub holder: String,
    pub verifiable_credential: Vec<VerifiableCredential>,
    pub proof: OptionalProof,
    pub created_at: u64,
    pub expires_at: Option<u64>,
}

/// The record of one verification of a credential.
#[derive(Debug)]
pub struct CredentialVerification {
    pub verification_id: u64,
    pub credential_id: u64,
    pub verifier: Address,
    pub verification_date: u64,
    pub result: bool,
    pub reason: Option<String>,
    pub disclosed_fields: Vec<String>,
}

/// Kinds of credential.
#[derive(Clone, Copy, Debug, PartialEq, Eq, Structural)]
pub enum CredentialType {
    KYC,
    AML,
    Accreditation,
    Reputation,
    License,
    Education,
    Employment,
    Certification,
    AgeVerification,
    AddressVerification,
    IdentityVerification,
}

/// A stored credential with its signatures and audit trail.
#[derive(Debug)]
pub struct CredentialRegistry {
    pub credential_id: u64,
    pub credential: VerifiableCredential,
    pub status: CredentialRegistryStatus,
    pub issuer_signature: Vec<u8>,
    pub subject_signature: Option<Vec<u8>>,
    pub audit_trail: Vec<AuditEntry>,
}

/// Registry state of a credential.
#[derive(Clone, Copy, Debug, PartialEq, Eq, Structural)]
pub enum CredentialRegistryStatus {
    Issued,
    Active,
    Suspended,
    Revoked,
    Expired,
}

/// One entry of a credential's audit trail.
#[derive(Debug)]
pub struct AuditEntry {
    pub action: String,
    pub actor: Address,
    pub timestamp: u64,
    pub details: Option<String>,
}

/// Errors of the credential registry.
#[derive(Clone, Copy, Debug, PartialEq, Eq, Structural)]
pub enum Error {
    InvalidCredentialFormat,
    CredentialNotFound,
    UnauthorizedIssuer,
    UnauthorizedSubject,
    CredentialExpired,
    CredentialRevoked,
    CredentialSuspended,
    InvalidSchema,
    InvalidSignature,
    SelectiveDisclosureFailed,
    PresentationExpired,
    InvalidDID,
    MaxFieldsExceeded,
    UnsupportedCredentialType,
    DuplicateCredential,
    InvalidOffer,
    OfferExpired,
    RateLimitExceeded,
    AuditRequired,
    InvalidVerificationMethod,
}

/// The claim names are distinct.
pub open spec fn distinct_names(claims: Seq<(String, String)>) -> bool {
    forall|i: int, j: int| 0 <= i < j < claims.len() ==> (#[trigger] claims[i]).0@ != (#[trigger] claims[j]).0@
}

/// A schema defines a field of this name.
pub open spec fn has_field(fields: Seq<SchemaField>, name: Seq<char>) -> bool {
    exists|j: int| 0 <= j < fields.len() && (#[trigger] fields[j]).name@ == name
}

/// The claims hold one of this name.
pub open spec fn has_claim(claims: Seq<(String, String)>, name: Seq<char>) -> bool {
    exists|j: int| 0 <= j < claims.len() && (#[trigger] claims[j]).0@ == name
}

/// Outcome of checking a schema's definition.
pub open spec fn schema_inputs_result(fields: Seq<SchemaField>, required: Seq<String>) -> Result<(), Error> {
    if fields.len() > MAX_CREDENTIAL_FIELDS {
        Err(Error::MaxFieldsExceeded)
    } else if exists|i: int| 0 <= i < required.len() && !has_field(fields, (#[trigger] required[i])@) {
        Err(Error::InvalidSchema)
    } else {
        Ok(())
    }
}

/// Claims fit a schema: every required field is claimed and every claim is
/// a field of the schema.
pub open spec fn fits_schema(claims: Seq<(String, String)>, schema: CredentialSchema) -> bool {
    &&& forall|i: int| 0 <= i < schema.required_fields@.len() ==> has_claim(claims, (#[trigger] schema.required_fields@[i])@)
    &&& forall|i: int| 0 <= i < claims.len() ==> has_field(schema.fields@, (#[trigger] claims[i]).0@)
}

/// Every disclosed field is among the credential's claims.
pub open spec fn all_disclosable(claims: Seq<(String, String)>, fields: Seq<String>) -> bool {
    forall|i: int| 0 <= i < fields.len() ==> has_claim(claims, (#[trigger] fields[i])@)
}

/// A credential is valid at `now`: neither revoked nor suspended nor expired.
pub open spec fn credential_valid(c: VerifiableCredential, now: u64) -> bool {
    &&& !c.credential_status.revoked
    &&& !c.credential_status.suspended
    &&& match c.expiration_date {
        Some(e) => now <= e,
        None => true,
    }
}

/// Why a verification fails: the last of revocation, suspension and
/// expiry that applies.
pub open spec fn verification_reason(c: VerifiableCredential, now: u64) -> Option<Seq<char>> {
    if c.expiration_date is Some && now > c.expiration_date->0 {
        Some("Credential expired"@)
    } else if c.credential_status.suspended {
        Some("Credential suspended"@)
    } else if c.credential_status.revoked {
        Some("Credential revoked"@)
    } else {
        None
    }
}

/// Whether the schema defines a field of this name.
pub fn schema_has_field(fields: &Vec<SchemaField>, name: &String) -> (r: bool)
    ensures
        r == has_field(fields@, name@),
{
    let mut i: usize = 0;
    while i < fields.len()
        invariant
            i <= fields.len(),
            forall|j: int| 0 <= j < i ==> (#[trigger] fields@[j]).name@ != name@,
        decreases fields.len() - i,
    {
        if fields[i].name == *name {
            return true;
        }
        i = i + 1;
    }
    false
}

/// Whether the claims hold one of this name.
pub fn claims_contain(claims: &Vec<(String, String)>, name: &String) -> (r: bool)
    ensures
        r == has_claim(claims@, name@),
{
    let mut i: usize = 0;
    while i < claims.len()
        invariant
            i <= claims.len(),
            forall|j: int| 0 <= j < i ==> (#[trigger] claims@[j]).0@ != name@,
        decreases claims.len() - i,
    {
        if claims[i].0 == *name {
            return true;
        }
        i = i + 1;
    }
    false
}

/// Checks that a schema has at most `MAX_CREDENTIAL_FIELDS` fields and
/// defines every required field.
pub fn validate_schema_inputs(fields: &Vec<SchemaField>, required_fields: &Vec<String>) -> (r: Result<(), Error>)
    ensures
        r == schema_inputs_result(fields@, required_fields@),
{
    if fields.len() > MAX_CREDENTIAL_FIELDS {
        return Err(Error::MaxFieldsExceeded);
    }
    let mut i: usize = 0;
    while i < required_fields.len()
        invariant
            i <= required_fields.len(),
            fields.len() <= MAX_CREDENTIAL_FIELDS,
            forall|j: int| 0 <= j < i ==> has_field(fields@, (#[trigger] required_fields@[j])@),
        decreases required_fields.len() - i,
    {
        if !schema_has_field(fields, &required_fields[i]) {
            return Err(Error::InvalidSchema);
        }
        i = i + 1;
    }
    Ok(())
}

/// Checks that claims fit a schema.
pub fn validate_credential_against_schema(credential_subject: &Vec<(String, String)>, schema: &CredentialSchema) -> (r: Result<(), Error>)
    ensures
        r == (if fits_schema(credential_subject@, *schema) { Ok::<(), Error>(()) } else { Err(Error::InvalidSchema) }),
{
    let mut i: usize = 0;
    while i < schema.required_fields.len()
        invariant
            i <= schema.required_fields.len(),
            forall|j: int| 0 <= j < i ==> has_claim(credential_subject@, (#[trigger] schema.required_fields@[j])@),
        decreases schema.required_fields.len() - i,
    {
        if !claims_contain(credential_subject, &schema.required_fields[i]) {
            return Err(Error::InvalidSchema);
        }
        i = i + 1;
    }
    let mut k: usize = 0;
    while k < credential_subject.len()
        invariant
            k <= credential_subject.len(),
            forall|j: int| 0 <= j < schema.required_fields@.len() ==> has_claim(credential_subject@, (#[trigger] schema.required_fields@[j])@),
            forall|j: int| 0 <= j < k ==> has_field(schema.fields@, (#[trigger] credential_subject@[j]).0@),
        decreases credential_subject.len() - k,
    {
        if !schema_has_field(&schema.fields, &credential_subject[k].0) {
            return Err(Error::InvalidSchema);
        }
        k = k + 1;
    }
    Ok(())
}

/// Checks that every disclosed field is among the claims.
pub fn validate_disclosed_fields(credential_subject: &Vec<(String, String)>, disclosed_fields: &Vec<String>) -> (r: Result<(), Error>)
    ensures
        r == (if all_disclosable(credential_subject@, disclosed_fields@) {
            Ok::<(), Error>(())
        } else {
            Err(Error::SelectiveDisclosureFailed)
        }),
{
    let mut i: usize = 0;
    while i < disclosed_fields.len()
        invariant
            i <= disclosed_fields.len(),
            forall|j: int| 0 <= j < i ==> has_claim(credential_subject@, (#[trigger] disclosed_fields@[j])@),
        decreases disclosed_fields.len() - i,
    {
        if !claims_contain(credential_subject, &disclosed_fields[i]) {
            return Err(Error::SelectiveDisclosureFailed);
        }
        i = i + 1;
    }
    Ok(())
}

/// The identifier under which a schema is stored: always `schema`.
pub fn generate_schema_id(author: &Address, name: &String, version: &String) -> (id: String)
    ensures
        id@ == "schema"@,
{
    let _ = (author, name, version);
    String::from_str("schema")
}

/// The hash recorded with a selective disclosure: always `presentation`.
pub fn generate_presentation_hash(credential_id: u64, disclosed_fields: &Vec<String>, nonce: &String) -> (h: String)
    ensures
        h@ == "presentation"@,
{
    let _ = (credential_id, disclosed_fields, nonce);
    String::from_str("presentation")
}

/// The credential registry: credentials, schemas, offers, selective
/// disclosures and verification records, each numbered by its own counter.
pub struct VerifiableCredentialsContract {
    pub credentials: HashMapWithView<u64, CredentialRegistry>,
    pub schemas: StringHashMap<CredentialSchema>,
    pub offers: HashMapWithView<u64, CredentialOffer>,
    pub disclosures: HashMapWithView<u64, SelectiveDisclosure>,
    pub verifications: HashMapWithView<u64, CredentialVerification>,
    pub credential_counter: u64,
    pub offer_counter: u64,
    pub disclosure_counter: u64,
    pub verification_counter: u64,
}

impl VerifiableCredentialsContract {
    /// Outcome of the checks made before a credential is issued.
    pub open spec fn issue_result(self, subject_did: Seq<char>, schema_id: Seq<char>, claims: Seq<(String, String)>) -> Result<(), Error> {
        if subject_did.len() == 0 {
            Err(Error::InvalidDID)
        } else if claims.len() > MAX_CREDENTIAL_FIELDS {
            Err(Error::MaxFieldsExceeded)
        } else if !self.schemas@.contains_key(schema_id) {
            Err(Error::InvalidSchema)
        } else if !fits_schema(claims, self.schemas@[schema_id]) {
            Err(Error::InvalidSchema)
        } else {
            Ok(())
        }
    }

    /// Outcome of the checks made before a selective disclosure is created.
    pub open spec fn disclosure_result(self, credential_id: u64, fields: Seq<String>, now: u64) -> Result<(), Error> {
        if !self.credentials@.contains_key(credential_id) {
            Err(Error::CredentialNotFound)
        } else {
            let c = self.credentials@[credential_id].credential;
            if c.credential_status.revoked {
                Err(Error::CredentialRevoked)
            } else if c.credential_status.suspended {
                Err(Error::CredentialSuspended)
            } else if c.expiration_date is Some && now > c.expiration_date->0 {
                Err(Error::CredentialExpired)
            } else if !all_disclosable(c.credential_subject@, fields) {
                Err(Error::SelectiveDisclosureFailed)
            } else {
                Ok(())
            }
        }
    }

    /// An empty registry with all counters at zero.
    pub fn new() -> (c: Self)
        ensures
            c.credentials@ == Map::<u64, CredentialRegistry>::empty(),
            c.schemas@ == Map::<Seq<char>, CredentialSchema>::empty(),
            c.offers@ == Map::<u64, CredentialOffer>::empty(),
            c.disclosures@ == Map::<u64, SelectiveDisclosure>::empty(),
            c.verifications@ == Map::<u64, CredentialVerification>::empty(),
            c.credential_counter == 0 && c.offer_counter == 0,
            c.disclosure_counter == 0 && c.verification_counter == 0,
    {
        VerifiableCredentialsContract {
            credentials: HashMapWithView::new(),
            schemas: StringHashMap::new(),
            offers: HashMapWithView::new(),
            disclosures: HashMapWithView::new(),
            verifications: HashMapWithView::new(),
            credential_counter: 0,
            offer_counter: 0,
            disclosure_counter: 0,
            verification_counter: 0,
        }
    }

    /// Registers a schema under the identifier `schema`, replacing any
    /// schema stored there, and returns that identifier.
    pub fn register_schema(&mut self, author: Address, name: String, version: String, fields: Vec<SchemaField>,
        required_fields: Vec<String>, now: u64) -> (r: Result<String, Error>)
        ensures
            r is Err ==> r == Err::<String, Error>(schema_inputs_result(fields@, required_fields@)->Err_0)
                && *final(self) == *old(self),
            r is Ok <==> schema_inputs_result(fields@, required_fields@) is Ok,
            r is Ok ==> {
                let id = r->Ok_0;
                let s = final(self).schemas@[id@];
                &&& id@ == "schema"@
                &&& final(self).schemas@ == old(self).schemas@.insert(id@, s)
                &&& s.id@ == id@ && s.name == name && s.version == version && s.author == author
                &&& s.fields == fields && s.created_at == now && s.required_fields == required_fields
                &&& final(self).credentials@ == old(self).credentials@
                &&& final(self).offers@ == old(self).offers@
                &&& final(self).disclosures@ == old(self).disclosures@
                &&& final(self).verifications@ == old(self).verifications@
                &&& final(self).credential_counter == old(self).credential_counter
                &&& final(self).offer_counter == old(self).offer_counter
                &&& final(self).disclosure_counter == old(self).disclosure_counter
                &&& final(self).verification_counter == old(self).verification_counter
            },
    {
        validate_schema_inputs(&fields, &required_fields)?;
        let schema_id = generate_schema_id(&author, &name, &version);
        let schema = CredentialSchema {
            id: schema_id.clone(),
            name,
            version,
            author,
            fields,
            created_at: now,
            required_fields,
        };
        self.schemas.insert(schema_id.clone(), schema);
        Ok(schema_id)
    }

    /// Checks made on a credential before its claims are held against the
    /// schema: a non-empty subject DID, at most the allowed number of claims,
    /// and a registered schema.
    pub fn validate_credential_inputs(&self, subject_did: &String, credential_schema: &String,
        credential_subject: &Vec<(String, String)>) -> (r: Result<(), Error>)
        ensures
            r == (if subject_did@.len() == 0 {
                Err(Error::InvalidDID)
            } else if credential_subject@.len() > MAX_CREDENTIAL_FIELDS {
                Err(Error::MaxFieldsExceeded)
            } else if !self.schemas@.contains_key(credential_schema@) {
                Err(Error::InvalidSchema)
            } else {
                Ok(())
            }),
    {
        if subject_did.as_str().unicode_len() == 0 {
            return Err(Error::InvalidDID);
        }
        if credential_subject.len() > MAX_CREDENTIAL_FIELDS {
            return Err(Error::MaxFieldsExceeded);
        }
        if !self.schemas.contains_key(credential_schema.as_str()) {
            return Err(Error::InvalidSchema);
        }
        Ok(())
    }

    /// Checks made on a credential offer: a non-empty subject DID and a
    /// registered schema.
    pub fn validate_offer_inputs(&self, subject_did: &String, credential_schema: &String) -> (r: Result<(), Error>)
        ensures
            r == (if subject_did@.len() == 0 {
                Err(Error::InvalidDID)
            } else if !self.schemas@.contains_key(credential_schema@) {
                Err(Error::InvalidSchema)
            } else {
                Ok(())
            }),
    {
        if subject_did.as_str().unicode_len() == 0 {
            return Err(Error::InvalidDID);
        }
        if !self.schemas.contains_key(credential_schema.as_str()) {
            return Err(Error::InvalidSchema);
        }
        Ok(())
    }

    /// Issues a credential of a registered schema to `subject_did` under the
    /// next credential number and returns that number.  The credential is
    /// valid from `now`, expires `validity_period` seconds later if one is
    /// given, and is stored with the issuer's signature as `Issued`.
    pub fn issue_credential(&mut self, issuer: Address, subject_did: String, credential_type: Vec<String>,
        credential_schema: String, credential_subject: Vec<(String, String)>, validity_period: Option<u64>,
        issuer_signature: Vec<u8>, now: u64) -> (r: Result<u64, Error>)
        requires
            distinct_names(credential_subject@),
            old(self).issue_result(subject_did@, credential_schema@, credential_subject@) is Ok
                ==> old(self).credential_counter < u64::MAX
                && (validity_period is Some ==> now + validity_period->0 <= u64::MAX),
        ensures
            ({
                let out = old(self).issue_result(subject_did@, credential_schema@, credential_subject@);
                &&& (r is Ok <==> out is Ok)
                &&& (r is Err ==> r == Err::<u64, Error>(out->Err_0) && *final(self) == *old(self))
            }),
            r is Ok ==> {
                let id = r->Ok_0;
                let e = final(self).credentials@[id];
                let c = e.credential;
                &&& id == old(self).credential_counter + 1
                &&& final(self).credential_counter == id
                &&& map_set_at(old(self).credentials@, final(self).credentials@, id)
                &&& e.credential_id == id && e.status == CredentialRegistryStatus::Issued
                &&& e.issuer_signature == issuer_signature && e.subject_signature is None
                &&& e.audit_trail@.len() == 0
                &&& c.id@ == "credential"@ && c.credential_id == id && c.issuer == issuer
                &&& c.subject == subject_did && c.credential_type == credential_type
                &&& c.credential_schema == credential_schema && c.credential_subject == credential_subject
                &&& c.credential_status.id@ == "status"@ && c.credential_status.type_@ == "StatusList2021"@
                &&& c.credential_status.status@ == "valid"@
                &&& !c.credential_status.revoked && !c.credential_status.suspended
                &&& c.credential_status.revocation_reason is None && c.credential_status.suspension_reason is None
                &&& c.credential_status.effective_date == now
                &&& c.issuance_date == now
                &&& c.expiration_date == (match validity_period {
                    Some(p) => Some((now + p) as u64),
                    None => None,
                })
                &&& c.proof is Absent && c.non_revoked && c.created_at == now && c.updated_at == now
                &&& final(self).schemas@ == old(self).schemas@
                &&& final(self).offers@ == old(self).offers@
                &&& final(self).disclosures@ == old(self).disclosures@
                &&& final(self).verifications@ == old(self).verifications@
                &&& final(self).offer_counter == old(self).offer_counter
                &&& final(self).disclosure_counter == old(self).disclosure_counter
                &&& final(self).verification_counter == old(self).verification_counter
            },
    {
        self.validate_credential_inputs(&subject_did, &credential_schema, &credential_subject)?;
        match self.schemas.get(credential_schema.as_str()) {
            Some(schema) => {
                validate_credential_against_schema(&credential_subject, schema)?;
            },
            None => {
                return Err(Error::InvalidSchema);
            },
        }
        let credential_id = self.credential_counter + 1;
        self.credential_counter = credential_id;
        let expiration_date = match validity_period {
            Some(p) => Some(now + p),
            None => None,
        };
        let status = CredentialStatus {
            id: String::from_str("status"),
            type_: String::from_str("StatusList2021"),
            status: String::from_str("valid"),
            revoked: false,
            suspended: false,
            revocation_reason: None,
            suspension_reason: None,
            effective_date: now,
        };
        let credential = VerifiableCredential {
            id: String::from_str("credential"),
            credential_id,
            issuer,
            subject: subject_did,
            credential_type,
            credential_schema,
            credential_status: status,
            issuance_date: now,
            expiration_date,
            credential_subject,
            proof: OptionalProof::Absent,
            non_revoked: true,
            created_at: now,
            updated_at: now,
        };
        let entry = CredentialRegistry {
            credential_id,
            credential,
            status: CredentialRegistryStatus::Issued,
            issuer_signature,
            subject_signature: None,
            audit_trail: Vec::new(),
        };
        self.credentials.insert(credential_id, entry);
        assert(self.credentials@.dom() =~= old(self).credentials@.dom().insert(credential_id));
        Ok(credential_id)
    }

    /// Revokes a credential on its issuer's request: marks its status
    /// revoked with the reason and date, and appends a `revoked` entry to its
    /// audit trail.  A credential is revoked once only.
    pub fn revoke_credential(&mut self, credential_id: u64, issuer: Address, reason: String, now: u64) -> (r: Result<(), Error>)
        ensures
            !old(self).credentials@.contains_key(credential_id) ==> r == Err::<(), Error>(Error::CredentialNotFound),
            old(self).credentials@.contains_key(credential_id) ==> {
                let o = old(self).credentials@[credential_id];
                &&& o.credential.issuer != issuer ==> r == Err::<(), Error>(Error::UnauthorizedIssuer)
                &&& o.credential.issuer == issuer && o.credential.credential_status.revoked
                    ==> r == Err::<(), Error>(Error::CredentialRevoked)
                &&& o.credential.issuer == issuer && !o.credential.credential_status.revoked ==> r is Ok
            },
            r is Err ==> *final(self) == *old(self),
            r is Ok ==> {
                let o = old(self).credentials@[credential_id];
                let n = final(self).credentials@[credential_id];
                let a = n.audit_trail@.last();
                &&& map_set_at(old(self).credentials@, final(self).credentials@, credential_id)
                &&& n == (CredentialRegistry {
                    credential: VerifiableCredential {
                        credential_status: CredentialStatus {
                            revoked: true,
                            revocation_reason: Some(reason),
                            effective_date: now,
                            ..o.credential.credential_status
                        },
                        non_revoked: false,
                        ..o.credential
                    },
                    status: CredentialRegistryStatus::Revoked,
                    audit_trail: n.audit_trail,
                    ..o
                })
                &&& n.audit_trail@.drop_last() == o.audit_trail@
                &&& n.audit_trail@.len() == o.audit_trail@.len() + 1
                &&& a.action@ == "revoked"@ && a.actor == issuer && a.timestamp == now && a.details == Some(reason)
                &&& final(self).schemas@ == old(self).schemas@
                &&& final(self).offers@ == old(self).offers@
                &&& final(self).disclosures@ == old(self).disclosures@
                &&& final(self).verifications@ == old(self).verifications@
                &&& final(self).credential_counter == old(self).credential_counter
                &&& final(self).offer_counter == old(self).offer_counter
                &&& final(self).disclosure_counter == old(self).disclosure_counter
                &&& final(self).verification_counter == old(self).verification_counter
            },
    {
        match self.credentials.get(&credential_id) {
            Some(e) => {
                if e.credential.issuer != issuer {
                    return Err(Error::UnauthorizedIssuer);
                }
                if e.credential.credential_status.revoked {
                    return Err(Error::CredentialRevoked);
                }
            },
            None => {
                return Err(Error::CredentialNotFound);
            },
        }
        let mut e = self.credentials.remove(&credential_id).unwrap();
        e.credential.credential_status.revoked = true;
        e.credential.credential_status.revocation_reason = Some(reason.clone());
        e.credential.credential_status.effective_date = now;
        e.credential.non_revoked = false;
        e.status = CredentialRegistryStatus::Revoked;
        let entry = AuditEntry { action: String::from_str("revoked"), actor: issuer, timestamp: now, details: Some(reason) };
        let ghost before = e.audit_trail@;
        e.audit_trail.push(entry);
        assert(e.audit_trail@.drop_last() =~= before);
        self.credentials.insert(credential_id, e);
        assert(self.credentials@.dom() =~= old(self).credentials@.dom().insert(credential_id));
        Ok(())
    }

    /// Offers a credential of a registered schema to `subject_did` under the
    /// next offer number, open for seven days from `now`, and returns that number.
    pub fn create_offer(&mut self, issuer: Address, subject_did: String, credential_type: Vec<String>,
        credential_schema: String, validity_period: u64, terms: Option<String>, now: u64) -> (r: Result<u64, Error>)
        requires
            subject_did@.len() > 0 && old(self).schemas@.contains_key(credential_schema@)
                ==> old(self).offer_counter < u64::MAX && now + OFFER_VALIDITY_PERIOD <= u64::MAX,
        ensures
            subject_did@.len() == 0 ==> r == Err::<u64, Error>(Error::InvalidDID),
            subject_did@.len() > 0 && !old(self).schemas@.contains_key(credential_schema@)
                ==> r == Err::<u64, Error>(Error::InvalidSchema),
            subject_did@.len() > 0 && old(self).schemas@.contains_key(credential_schema@) ==> r is Ok,
            r is Err ==> *final(self) == *old(self),
            r is Ok ==> {
                let id = r->Ok_0;
                let o = final(self).offers@[id];
                &&& id == old(self).offer_counter + 1 && final(self).offer_counter == id
                &&& map_set_at(old(self).offers@, final(self).offers@, id)
                &&& o == (CredentialOffer {
                    offer_id: id,
                    issuer,
                    subject_did,
                    credential_type,
                    credential_schema,
                    validity_period,
                    terms,
                    created_at: now,
                    expires_at: (now + OFFER_VALIDITY_PERIOD) as u64,
                    status: OfferStatus::Pending,
                })
                &&& final(self).credentials@ == old(self).credentials@
                &&& final(self).schemas@ == old(self).schemas@
                &&& final(self).disclosures@ == old(self).disclosures@
                &&& final(self).verifications@ == old(self).verifications@
                &&& final(self).credential_counter == old(self).credential_counter
                &&& final(self).disclosure_counter == old(self).disclosure_counter
                &&& final(self).verification_counter == old(self).verification_counter
            },
    {
        self.validate_offer_inputs(&subject_did, &credential_schema)?;
        let offer_id = self.offer_counter + 1;
        self.offer_counter = offer_id;
        let offer = CredentialOffer {
            offer_id,
            issuer,
            subject_did,
            credential_type,
            credential_schema,
            validity_period,
            terms,
            created_at: now,
            expires_at: now + OFFER_VALIDITY_PERIOD,
            status: OfferStatus::Pending,
        };
        self.offers.insert(offer_id, offer);
        assert(self.offers@.dom() =~= old(self).offers@.dom().insert(offer_id));
        Ok(offer_id)
    }

    /// Accepts a pending offer that has not expired at `now`.
    pub fn accept_offer(&mut self, offer_id: u64, subject: Address, now: u64) -> (r: Result<(), Error>)
        ensures
            !old(self).offers@.contains_key(offer_id) ==> r == Err::<(), Error>(Error::InvalidOffer),
            old(self).offers@.contains_key(offer_id) ==> {
                let o = old(self).offers@[offer_id];
                &&& o.status != OfferStatus::Pending ==> r == Err::<(), Error>(Error::InvalidOffer)
                &&& o.status == OfferStatus::Pending && now > o.expires_at ==> r == Err::<(), Error>(Error::OfferExpired)
                &&& o.status == OfferStatus::Pending && now <= o.expires_at ==> r is Ok
            },
            r is Err ==> *final(self) == *old(self),
            r is Ok ==> {
                &&& map_set_at(old(self).offers@, final(self).offers@, offer_id)
                &&& final(self).offers@[offer_id] == (CredentialOffer {
                    status: OfferStatus::Accepted,
                    ..old(self).offers@[offer_id]
                })
                &&& final(self).credentials@ == old(self).credentials@
                &&& final(self).schemas@ == old(self).schemas@
                &&& final(self).disclosures@ == old(self).disclosures@
                &&& final(self).verifications@ == old(self).verifications@
                &&& final(self).credential_counter == old(self).credential_counter
                &&& final(self).offer_counter == old(self).offer_counter
                &&& final(self).disclosure_counter == old(self).disclosure_counter
                &&& final(self).verification_counter == old(self).verification_counter
            },
    {
        let _ = subject;
        match self.offers.get(&offer_id) {
            Some(o) => {
                if o.status != OfferStatus::Pending {
                    return Err(Error::InvalidOffer);
                }
                if now > o.expires_at {
                    return Err(Error::OfferExpired);
                }
            },
            None => {
                return Err(Error::InvalidOffer);
            },
        }
        let mut o = self.offers.remove(&offer_id).unwrap();
        o.status = OfferStatus::Accepted;
        self.offers.insert(offer_id, o);
        assert(self.offers@.dom() =~= old(self).offers@.dom().insert(offer_id));
        Ok(())
    }

    /// Discloses some of a credential's claims to a verifier, under the next
    /// disclosure number, valid for 24 hours from `now`, and returns that
    /// number.  The credential must be neither revoked, suspended nor expired,
    /// and every disclosed field must be one of its claims.
    pub fn create_selective_disclosure(&mut self, credential_id: u64, verifier: Address, disclosed_fields: Vec<String>,
        nonce: String, now: u64) -> (r: Result<u64, Error>)
        requires
            old(self).disclosure_result(credential_id, disclosed_fields@, now) is Ok
                ==> old(self).disclosure_counter < u64::MAX && now + DISCLOSURE_VALIDITY_PERIOD <= u64::MAX,
        ensures
            ({
                let out = old(self).disclosure_result(credential_id, disclosed_fields@, now);
                &&& (r is Ok <==> out is Ok)
                &&& (r is Err ==> r == Err::<u64, Error>(out->Err_0) && *final(self) == *old(self))
            }),
            r is Ok ==> {
                let id = r->Ok_0;
                let d = final(self).disclosures@[id];
                &&& id == old(self).disclosure_counter + 1 && final(self).disclosure_counter == id
                &&& map_set_at(old(self).disclosures@, final(self).disclosures@, id)
                &&& d.disclosure_id == id && d.credential_id == credential_id && d.verifier == verifier
                &&& d.subject == old(self).credentials@[credential_id].credential.subject
                &&& d.disclosed_fields == disclosed_fields && d.nonce == nonce
                &&& d.created_at == now && d.expires_at == now + DISCLOSURE_VALIDITY_PERIOD
                &&& d.presentation_hash@ == "presentation"@ && !d.verified
                &&& final(self).credentials@ == old(self).credentials@
                &&& final(self).schemas@ == old(self).schemas@
                &&& final(self).offers@ == old(self).offers@
                &&& final(self).verifications@ == old(self).verifications@
                &&& final(self).credential_counter == old(self).credential_counter
                &&& final(self).offer_counter == old(self).offer_counter
                &&& final(self).verification_counter == old(self).verification_counter
            },
    {
        let subject = match self.credentials.get(&credential_id) {
            Some(e) => {
                if e.credential.credential_status.revoked {
                    return Err(Error::CredentialRevoked);
                }
                if e.credential.credential_status.suspended {
                    return Err(Error::CredentialSuspended);
                }
                match e.credential.expiration_date {
                    Some(expiration) => {
                        if now > expiration {
                            return Err(Error::CredentialExpired);
                        }
                    },
                    None => {},
                }
                validate_disclosed_fields(&e.credential.credential_subject, &disclosed_fields)?;
                e.credential.subject.clone()
            },
            None => {
                return Err(Error::CredentialNotFound);
            },
        };
        let disclosure_id = self.disclosure_counter + 1;
        self.disclosure_counter = disclosure_id;
        let presentation_hash = generate_presentation_hash(credential_id, &disclosed_fields, &nonce);
        let disclosure = SelectiveDisclosure {
            disclosure_id,
            credential_id,
            verifier,
            subject,
            disclosed_fields,
            nonce,
            created_at: now,
            expires_at: now + DISCLOSURE_VALIDITY_PERIOD,
            presentation_hash,
            verified: false,
        };
        self.disclosures.insert(disclosure_id, disclosure);
        assert(self.disclosures@.dom() =~= old(self).disclosures@.dom().insert(disclosure_id));
        Ok(disclosure_id)
    }

    /// Checks a credential at `now` on a verifier's behalf, records the
    /// verification under the next verification number, and returns whether
    /// the credential is valid: neither revoked, suspended nor expired.
    pub fn verify_credential(&mut self, credential_id: u64, verifier: Address, disclosed_fields: Option<Vec<String>>,
        now: u64) -> (r: Result<bool, Error>)
        requires
            old(self).credentials@.contains_key(credential_id) ==> old(self).verification_counter < u64::MAX,
        ensures
            !old(self).credentials@.contains_key(credential_id) ==> r == Err::<bool, Error>(Error::CredentialNotFound)
                && *final(self) == *old(self),
            old(self).credentials@.contains_key(credential_id) ==> {
                let c = old(self).credentials@[credential_id].credential;
                let id = final(self).verification_counter;
                let v = final(self).verifications@[id];
                &&& r == Ok::<bool, Error>(credential_valid(c, now))
                &&& id == old(self).verification_counter + 1
                &&& map_set_at(old(self).verifications@, final(self).verifications@, id)
                &&& v.verification_id == id && v.credential_id == credential_id && v.verifier == verifier
                &&& v.verification_date == now && v.result == credential_valid(c, now)
                &&& text_opt(v.reason) == verification_reason(c, now)
                &&& v.disclosed_fields@ == (match disclosed_fields {
                    Some(f) => f@,
                    None => Seq::<String>::empty(),
                })
                &&& final(self).credentials@ == old(self).credentials@
                &&& final(self).schemas@ == old(self).schemas@
                &&& final(self).offers@ == old(self).offers@
                &&& final(self).disclosures@ == old(self).disclosures@
                &&& final(self).credential_counter == old(self).credential_counter
                &&& final(self).offer_counter == old(self).offer_counter
                &&& final(self).disclosure_counter == old(self).disclosure_counter
            },
    {
        let (result, reason) = match self.credentials.get(&credential_id) {
            Some(e) => {
                let c = &e.credential;
                let mut result = true;
                let mut reason: Option<String> = None;
                if c.credential_status.revoked {
                    result = false;
                    reason = Some(String::from_str("Credential revoked"));
                }
                if c.credential_status.suspended {
                    result = false;
                    reason = Some(String::from_str("Credential suspended"));
                }
                match c.expiration_date {
                    Some(expiration) => {
                        if now > expiration {
                            result = false;
                            reason = Some(String::from_str("Credential expired"));
                        }
                    },
                    None => {},
                }
                (result, reason)
            },
            None => {
                return Err(Error::CredentialNotFound);
            },
        };
        let verification_id = self.verification_counter + 1;
        self.verification_counter = verification_id;
        let fields = match disclosed_fields {
            Some(f) => f,
            None => Vec::new(),
        };
        let record = CredentialVerification {
            verification_id,
            credential_id,
            verifier,
            verification_date: now,
            result,
            reason,
            disclosed_fields: fields,
        };
        self.verifications.insert(verification_id, record);
        assert(self.verifications@.dom() =~= old(self).verifications@.dom().insert(verification_id));
        Ok(result)
    }

    /// The stored entry of a credential.
    pub fn get_credential_registry(&self, credential_id: u64) -> (r: Result<&CredentialRegistry, Error>)
        ensures
            self.credentials@.contains_key(credential_id) ==> r is Ok && *r->Ok_0 == self.credentials@[credential_id],
            !self.credentials@.contains_key(credential_id) ==> r == Err::<&CredentialRegistry, Error>(Error::CredentialNotFound),
    {
        match self.credentials.get(&credential_id) {
            Some(e) => Ok(e),
            None => Err(Error::CredentialNotFound),
        }
    }

    /// A credential.
    pub fn get_credential(&self, credential_id: u64) -> (r: Result<&VerifiableCredential, Error>)
        ensures
            self.credentials@.contains_key(credential_id) ==> r is Ok
                && *r->Ok_0 == self.credentials@[credential_id].credential,
            !self.credentials@.contains_key(credential_id) ==> r == Err::<&VerifiableCredential, Error>(Error::CredentialNotFound),
    {
        let e = self.get_credential_registry(credential_id)?;
        Ok(&e.credential)
    }

    /// A schema.
    pub fn get_schema(&self, schema_id: &String) -> (r: Result<&CredentialSchema, Error>)
        ensures
            self.schemas@.contains_key(schema_id@) ==> r is Ok && *r->Ok_0 == self.schemas@[schema_id@],
            !self.schemas@.contains_key(schema_id@) ==> r == Err::<&CredentialSchema, Error>(Error::InvalidSchema),
    {
        match self.schemas.get(schema_id.as_str()) {
            Some(s) => Ok(s),
            None => Err(Error::InvalidSchema),
        }
    }

    /// An offer.
    pub fn get_offer(&self, offer_id: u64) -> (r: Result<&CredentialOffer, Error>)
        ensures
            self.offers@.contains_key(offer_id) ==> r is Ok && *r->Ok_0 == self.offers@[offer_id],
            !self.offers@.contains_key(offer_id) ==> r == Err::<&CredentialOffer, Error>(Error::InvalidOffer),
    {
        match self.offers.get(&offer_id) {
            Some(o) => Ok(o),
            None => Err(Error::InvalidOffer),
        }
    }

    /// A selective disclosure.
    pub fn get_selective_disclosure(&self, disclosure_id: u64) -> (r: Result<&SelectiveDisclosure, Error>)
        ensures
            self.disclosures@.contains_key(disclosure_id) ==> r is Ok && *r->Ok_0 == self.disclosures@[disclosure_id],
            !self.disclosures@.contains_key(disclosure_id)
                ==> r == Err::<&SelectiveDisclosure, Error>(Error::SelectiveDisclosureFailed),
    {
        match self.disclosures.get(&disclosure_id) {
            Some(d) => Ok(d),
            None => Err(Error::SelectiveDisclosureFailed),
        }
    }

    /// The verification records of a credential: verifications are not
    /// indexed by credential, so the list is always empty.
    pub fn get_verification_records(&self, credential_id: u64, limit: u32) -> (r: Result<Vec<CredentialVerification>, Error>)
        ensures
            r is Ok && r->Ok_0@.len() == 0,
    {
        let _ = (credential_id, limit);
        Ok(Vec::new())
    }

} // impl

} // verus!
