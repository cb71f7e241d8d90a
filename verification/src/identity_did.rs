use vstd::prelude::*;
use vstd::hash_map::{HashMapWithView, StringHashMap};
use vstd::string::{StrSliceExecFns, StringExecFns};
use crate::types::{Address, map_set_at};
use crate::encoding::{hex_text, hex_encode, host_sha256, lemma_hex_text_len, sha256_digest};

verus! {

broadcast use vstd::std_specs::hash::group_hash_axioms;

/// Most verification methods a DID document may hold.
pub const MAX_VERIFICATION_METHODS: usize = 10;
/// Most services a DID document may hold.
pub const MAX_SERVICES: usize = 20;
/// Most history entries kept for one DID.
pub const MAX_DID_HISTORY: usize = 1000;
/// Longest public key of a verification method, in bytes.
pub const MAX_PUBLIC_KEY_LEN: usize = 64;

/// A key by which the controller of a DID proves control.
#[derive(Debug)]
pub struct VerificationMethod {
    pub id: String,
    pub type_: String,
    pub controller: String,
    pub public_key: Vec<u8>,
    pub created: u64,
}

/// An endpoint advertised by a DID.
#[derive(Debug)]
pub struct Service {
    pub id: String,
    pub type_: String,
    pub service_endpoint: String,
    pub created: u64,
}

/// A W3C DID document.
#[derive(Debug)]
pub struct DIDDocument {
    pub did: String,
    pub controller: Address,
    pub verification_methods: Vec<VerificationMethod>,
    pub authentication: Vec<String>,
    pub assertion_method: Vec<String>,
    pub key_agreement: Vec<String>,
    pub capability_invocation: Vec<String>,
    pub capability_delegation: Vec<String>,
    pub service: Vec<Service>,
    pub created: u64,
    pub updated: u64,
    pub version_id: u64,
}

/// Lifecycle state of a DID.
#[derive(Clone, Copy, Debug, PartialEq, Eq, Structural)]
pub enum DIDStatus {
    Active,
    Suspended,
    Revoked,
}

/// A DID document with its status and activity counters.
#[derive(Debug)]
pub struct DIDRecord {
    pub document: DIDDocument,
    pub status: DIDStatus,
    pub nonce: u64,
    pub last_activity: u64,
}

/// One entry of a DID's history.
#[derive(Debug)]
pub struct DIDHistory {
    pub did: String,
    pub action: String,
    pub actor: Address,
    pub timestamp: u64,
    pub previous_version: Option<u64>,
    pub new_version: u64,
    pub reason: Option<String>,
}

/// Key types a verification method may declare.
#[derive(Clone, Copy, Debug, PartialEq, Eq, Structural)]
pub enum VerificationMethodType {
    Ed25519VerificationKey2018,
    EcdsaSecp256k1VerificationKey2019,
    X25519KeyAgreementKey2019,
}

/// Kinds of service a DID may advertise.
#[derive(Clone, Copy, Debug, PartialEq, Eq, Structural)]
pub enum ServiceType {
    AgentRegistry,
    CredentialRepository,
    ComplianceService,
    ReputationService,
    Messaging,
    Storage,
}

/// Errors of the DID registry.
#[derive(Clone, Copy, Debug, PartialEq, Eq, Structural)]
pub enum Error {
    InvalidDIDFormat,
    DIDAlreadyExists,
    DIDNotFound,
    Unauthorized,
    InvalidVerificationMethod,
    InvalidService,
    MaxVerificationMethodsExceeded,
    MaxServicesExceeded,
    InvalidSignature,
    DIDRevoked,
    DIDSuspended,
    InvalidController,
    InvalidPublicKey,
    UnsupportedKeyType,
    RateLimitExceeded,
    AuditRequired,
}

impl DIDHistory {
    /// A copy of the entry.
    pub fn duplicate(&self) -> (r: DIDHistory)
        ensures
            r == *self,
    {
        DIDHistory {
            did: self.did.clone(),
            action: self.action.clone(),
            actor: self.actor,
            timestamp: self.timestamp,
            previous_version: self.previous_version,
            new_version: self.new_version,
            reason: match &self.reason {
                Some(s) => Some(s.clone()),
                None => None,
            },
        }
    }
}

/// The key types a verification method may use.
pub open spec fn supported_key_type(t: Seq<char>) -> bool {
    t == "Ed25519VerificationKey2018"@ || t == "EcdsaSecp256k1VerificationKey2019"@
        || t == "X25519KeyAgreementKey2019"@
}

/// The error a verification method raises, if any.
pub open spec fn vm_error(vm: VerificationMethod) -> Option<Error> {
    if !supported_key_type(vm.type_@) {
        Some(Error::UnsupportedKeyType)
    } else if vm.public_key@.len() == 0 || vm.public_key@.len() > MAX_PUBLIC_KEY_LEN {
        Some(Error::InvalidPublicKey)
    } else {
        None
    }
}

/// The error a service raises, if any.
pub open spec fn service_error(s: Service) -> Option<Error> {
    if s.id@.len() == 0 || s.type_@.len() == 0 || s.service_endpoint@.len() == 0 {
        Some(Error::InvalidService)
    } else {
        None
    }
}

/// The error of the first invalid verification method, if any.
pub open spec fn first_vm_error(vms: Seq<VerificationMethod>) -> Option<Error>
    decreases vms.len(),
{
    if vms.len() == 0 {
        None
    } else {
        match vm_error(vms[0]) {
            Some(e) => Some(e),
            None => first_vm_error(vms.drop_first()),
        }
    }
}

/// The error of the first invalid service, if any.
pub open spec fn first_service_error(services: Seq<Service>) -> Option<Error>
    decreases services.len(),
{
    if services.len() == 0 {
        None
    } else {
        match service_error(services[0]) {
            Some(e) => Some(e),
            None => first_service_error(services.drop_first()),
        }
    }
}

/// The DID of a controller: the prefix `did:stellar:`, the controller's
/// account text, a colon, and the first sixteen hexadecimal digits of the
/// SHA-256 digest of that text.
pub open spec fn did_text(controller_text: Seq<char>, digest: Seq<u8>) -> Seq<char> {
    "did:stellar:"@ + controller_text + ":"@ + hex_text(digest).take(16)
}

/// The identifiers of a list of verification methods, in order.
pub open spec fn method_ids(vms: Seq<VerificationMethod>) -> Seq<String> {
    vms.map_values(|vm: VerificationMethod| vm.id)
}

/// `list` with `entry` put in front, the oldest entry dropped beyond the cap.
pub open spec fn history_push_front(list: Seq<DIDHistory>, entry: DIDHistory) -> Seq<DIDHistory> {
    let l = seq![entry] + list;
    if l.len() > MAX_DID_HISTORY { l.drop_last() } else { l }
}

/// A history entry with the given fields.
pub open spec fn history_entry_is(h: DIDHistory, did: Seq<char>, action: Seq<char>, actor: Address, now: u64,
    previous: Option<u64>, new_version: u64, reason: Option<Seq<char>>) -> bool {
    &&& h.did@ == did
    &&& h.action@ == action
    &&& h.actor == actor
    &&& h.timestamp == now
    &&& h.previous_version == previous
    &&& h.new_version == new_version
    &&& match reason {
        Some(r) => h.reason is Some && h.reason->0@ == r,
        None => h.reason is None,
    }
}

/// Outcome of suspending a DID in status `s`.
pub open spec fn suspend_outcome(s: DIDStatus) -> Result<DIDStatus, Error> {
    match s {
        DIDStatus::Revoked => Err(Error::DIDRevoked),
        DIDStatus::Suspended => Err(Error::DIDSuspended),
        DIDStatus::Active => Ok(DIDStatus::Suspended),
    }
}

/// Outcome of revoking a DID in status `s`.
pub open spec fn revoke_outcome(s: DIDStatus) -> Result<DIDStatus, Error> {
    match s {
        DIDStatus::Revoked => Err(Error::DIDRevoked),
        _ => Ok(DIDStatus::Revoked),
    }
}

/// Outcome of reactivating a DID in status `s`.
pub open spec fn reactivate_outcome(s: DIDStatus) -> Result<DIDStatus, Error> {
    match s {
        DIDStatus::Suspended => Ok(DIDStatus::Active),
        _ => Err(Error::DIDSuspended),
    }
}

/// A revoked DID stays revoked: suspending, revoking and reactivating it all
/// fail, and only an active DID can be updated.
pub proof fn revocation_is_final(s: DIDStatus)
    ensures
        s == DIDStatus::Revoked ==> suspend_outcome(s) is Err && revoke_outcome(s) is Err
            && reactivate_outcome(s) is Err,
        forall|t: DIDStatus| #[trigger] suspend_outcome(t) == Ok::<DIDStatus, Error>(s)
            || #[trigger] revoke_outcome(t) == Ok::<DIDStatus, Error>(s)
            || #[trigger] reactivate_outcome(t) == Ok::<DIDStatus, Error>(s)
            ==> t != DIDStatus::Revoked,
{
}

/// A request that may change a DID's status: the administrator's suspend,
/// revoke and reactivate, and the controller's update.
#[derive(Clone, Copy, Debug, PartialEq, Eq, Structural)]
pub enum DIDOperation {
    Suspend,
    Revoke,
    Reactivate,
    Update,
}

/// How a request fares on a DID in status `s`: the new status, or the
/// refusal (an update needs an active DID and keeps its status).
pub open spec fn operation_outcome(s: DIDStatus, op: DIDOperation) -> Result<DIDStatus, Error> {
    match op {
        DIDOperation::Suspend => suspend_outcome(s),
        DIDOperation::Revoke => revoke_outcome(s),
        DIDOperation::Reactivate => reactivate_outcome(s),
        DIDOperation::Update => match s {
            DIDStatus::Active => Ok(s),
            DIDStatus::Suspended => Err(Error::DIDSuspended),
            DIDStatus::Revoked => Err(Error::DIDRevoked),
        },
    }
}

/// The status after the requests `ops`, in order, on a DID in status `s`;
/// a refused request leaves the status as it was.
pub open spec fn status_after(s: DIDStatus, ops: Seq<DIDOperation>) -> DIDStatus
    decreases ops.len(),
{
    if ops.len() == 0 {
        s
    } else {
        match operation_outcome(s, ops[0]) {
            Ok(t) => status_after(t, ops.drop_first()),
            Err(_) => status_after(s, ops.drop_first()),
        }
    }
}

/// Revocation is terminal: whatever requests follow, in whatever order,
/// each of them is refused and the DID stays revoked.
pub proof fn revoked_stays_revoked(ops: Seq<DIDOperation>)
    ensures
        status_after(DIDStatus::Revoked, ops) == DIDStatus::Revoked,
        forall|i: int| 0 <= i < ops.len() ==> #[trigger] operation_outcome(DIDStatus::Revoked, ops[i]) is Err,
    decreases ops.len(),
{
    if ops.len() > 0 {
        revoked_stays_revoked(ops.drop_first());
    }
}

/// `new_list` is `old_list` with an entry with the given fields put in front,
/// the oldest entry dropped when the list was full.
pub open spec fn history_pushed(old_list: Seq<DIDHistory>, new_list: Seq<DIDHistory>, did: Seq<char>,
    action: Seq<char>, actor: Address, now: u64, previous: Option<u64>, new_version: u64,
    reason: Option<Seq<char>>) -> bool {
    &&& new_list.len() > 0
    &&& history_entry_is(new_list[0], did, action, actor, now, previous, new_version, reason)
    &&& new_list.drop_first() == (if old_list.len() >= MAX_DID_HISTORY { old_list.drop_last() } else { old_list })
}

/// A DID's history never holds more than `MAX_DID_HISTORY` entries: putting
/// an entry in front of a list within the cap gives a list within the cap,
/// whose newest entry is the one added.
pub proof fn history_stays_bounded(old_list: Seq<DIDHistory>, new_list: Seq<DIDHistory>, did: Seq<char>,
    action: Seq<char>, actor: Address, now: u64, previous: Option<u64>, new_version: u64, reason: Option<Seq<char>>)
    requires
        old_list.len() <= MAX_DID_HISTORY,
        history_pushed(old_list, new_list, did, action, actor, now, previous, new_version, reason),
    ensures
        new_list.len() <= MAX_DID_HISTORY,
        new_list.len() == (if old_list.len() == MAX_DID_HISTORY { old_list.len() } else { old_list.len() + 1 }),
        history_entry_is(new_list[0], did, action, actor, now, previous, new_version, reason),
{
    assert(new_list.len() == new_list.drop_first().len() + 1);
}

/// The view of an optional string.
pub open spec fn text_opt(s: Option<String>) -> Option<Seq<char>> {
    match s {
        Some(t) => Some(t@),
        None => None,
    }
}

/// Whether `status` allows the transition an operation makes.
pub fn suspend_transition(status: DIDStatus) -> (r: Result<DIDStatus, Error>)
    ensures
        r == suspend_outcome(status),
{
    match status {
        DIDStatus::Revoked => Err(Error::DIDRevoked),
        DIDStatus::Suspended => Err(Error::DIDSuspended),
        DIDStatus::Active => Ok(DIDStatus::Suspended),
    }
}

/// The status a revocation leads to, or why it is refused.
pub fn revoke_transition(status: DIDStatus) -> (r: Result<DIDStatus, Error>)
    ensures
        r == revoke_outcome(status),
{
    match status {
        DIDStatus::Revoked => Err(Error::DIDRevoked),
        _ => Ok(DIDStatus::Revoked),
    }
}

/// The status a reactivation leads to, or why it is refused.
pub fn reactivate_transition(status: DIDStatus) -> (r: Result<DIDStatus, Error>)
    ensures
        r == reactivate_outcome(status),
{
    match status {
        DIDStatus::Suspended => Ok(DIDStatus::Active),
        _ => Err(Error::DIDSuspended),
    }
}

/// The identifiers of a list of verification methods.
fn collect_method_ids(vms: &Vec<VerificationMethod>) -> (ids: Vec<String>)
    ensures
        ids@ == method_ids(vms@),
{
    let mut ids: Vec<String> = Vec::new();
    let mut i: usize = 0;
    while i < vms.len()
        invariant
            i <= vms.len(),
            ids@ == method_ids(vms@).take(i as int),
        decreases vms.len() - i,
    {
        ids.push(vms[i].id.clone());
        i = i + 1;
        assert(ids@ =~= method_ids(vms@).take(i as int));
    }
    assert(method_ids(vms@).take(vms.len() as int) =~= method_ids(vms@));
    ids
}

/// The DID registry: records and histories are kept by controller, with an
/// index from each DID to its controller.
pub struct DIDContract {
    pub admin: Option<Address>,
    pub registry: HashMapWithView<u64, DIDRecord>,
    pub did_index: StringHashMap<u64>,
    pub history: HashMapWithView<u64, Vec<DIDHistory>>,
}

impl DIDContract {
    /// Whether a key type is one a verification method may use.
    pub fn is_supported_key_type(key_type: &String) -> (r: bool)
        ensures
            r == supported_key_type(key_type@),
    {
        let a = String::from_str("Ed25519VerificationKey2018");
        let b = String::from_str("EcdsaSecp256k1VerificationKey2019");
        let c = String::from_str("X25519KeyAgreementKey2019");
        *key_type == a || *key_type == b || *key_type == c
    }

    /// Checks a verification method's key type and public key length.
    pub fn validate_verification_method(vm: &VerificationMethod) -> (r: Result<(), Error>)
        ensures
            r == (match vm_error(*vm) {
                Some(e) => Err(e),
                None => Ok(()),
            }),
    {
        if !Self::is_supported_key_type(&vm.type_) {
            return Err(Error::UnsupportedKeyType);
        }
        if vm.public_key.len() == 0 || vm.public_key.len() > MAX_PUBLIC_KEY_LEN {
            return Err(Error::InvalidPublicKey);
        }
        Ok(())
    }

    /// Checks that a service has an identifier, a type and an endpoint.
    pub fn validate_service(service: &Service) -> (r: Result<(), Error>)
        ensures
            r == (match service_error(*service) {
                Some(e) => Err(e),
                None => Ok(()),
            }),
    {
        if service.id.as_str().unicode_len() == 0 || service.type_.as_str().unicode_len() == 0
            || service.service_endpoint.as_str().unicode_len() == 0 {
            return Err(Error::InvalidService);
        }
        Ok(())
    }

    /// The DID of a controller, built from its account text and the SHA-256
    /// digest of that text.
    pub fn did_from_digest(controller_text: &String, digest: &Vec<u8>) -> (did: String)
        requires
            digest@.len() == 32,
        ensures
            did@ == did_text(controller_text@, digest@),
    {
        let hash_hex = hex_encode(digest.as_slice());
        proof {
            lemma_hex_text_len(digest@);
        }
        let short_hash = hash_hex.as_str().substring_char(0, 16);
        let mut did = String::from_str("did:stellar:");
        did.append(controller_text.as_str());
        did.append(":");
        did.append(short_hash);
        did
    }

    /// Builds the DID of a controller from its account text, hashing the text
    /// with SHA-256 on the host.
    pub fn generate_did(env: &soroban_sdk::Env, controller_text: &String) -> (did: String)
        ensures
            did@ == did_text(controller_text@, sha256_digest(vstd::utf8::encode_utf8(controller_text@))),
    {
        let digest = host_sha256(env, controller_text.as_str().as_bytes());
        Self::did_from_digest(controller_text, &digest)
    }

    /// The controller under which a DID's record is kept.
    pub open spec fn slot_of(self, did: Seq<char>) -> Option<u64> {
        if self.did_index@.contains_key(did) && self.registry@.contains_key(self.did_index@[did]) {
            Some(self.did_index@[did])
        } else {
            None
        }
    }

    /// The record of a DID.
    pub open spec fn record_of(self, did: Seq<char>) -> Option<DIDRecord> {
        match self.slot_of(did) {
            Some(c) => Some(self.registry@[c]),
            None => None,
        }
    }

    /// The history kept under a controller, newest first.
    pub open spec fn history_at(self, c: u64) -> Seq<DIDHistory> {
        if self.history@.contains_key(c) { self.history@[c]@ } else { Seq::empty() }
    }

    /// The history of a DID, newest first.
    pub open spec fn history_of(self, did: Seq<char>) -> Seq<DIDHistory> {
        if self.did_index@.contains_key(did) { self.history_at(self.did_index@[did]) } else { Seq::empty() }
    }

    /// Outcome of the checks made before a DID is created.
    pub open spec fn create_result(self, controller: Address, vms: Seq<VerificationMethod>, services: Seq<Service>) -> Result<(), Error> {
        if self.registry@.contains_key(controller.0) {
            Err(Error::DIDAlreadyExists)
        } else if vms.len() > MAX_VERIFICATION_METHODS {
            Err(Error::MaxVerificationMethodsExceeded)
        } else if first_vm_error(vms) is Some {
            Err(first_vm_error(vms)->0)
        } else if services.len() > MAX_SERVICES {
            Err(Error::MaxServicesExceeded)
        } else if first_service_error(services) is Some {
            Err(first_service_error(services)->0)
        } else {
            Ok(())
        }
    }

    /// Outcome of the checks made before a DID is updated.
    pub open spec fn update_result(self, did: Seq<char>, controller: Address, vms: Option<Vec<VerificationMethod>>,
        services: Option<Vec<Service>>) -> Result<(), Error> {
        match self.record_of(did) {
            None => Err(Error::DIDNotFound),
            Some(r) => if r.document.controller != controller {
                Err(Error::Unauthorized)
            } else if r.status == DIDStatus::Suspended {
                Err(Error::DIDSuspended)
            } else if r.status == DIDStatus::Revoked {
                Err(Error::DIDRevoked)
            } else if vms is Some && vms->0@.len() > MAX_VERIFICATION_METHODS {
                Err(Error::MaxVerificationMethodsExceeded)
            } else if services is Some && services->0@.len() > MAX_SERVICES {
                Err(Error::MaxServicesExceeded)
            } else {
                Ok(())
            },
        }
    }

    /// Outcome of an administrator's status change of a DID.
    pub open spec fn admin_change_result(self, did: Seq<char>, caller: Address,
        outcome: spec_fn(DIDStatus) -> Result<DIDStatus, Error>) -> Result<DIDStatus, Error> {
        if self.admin != Some(caller) {
            Err(Error::Unauthorized)
        } else {
            match self.record_of(did) {
                None => Err(Error::DIDNotFound),
                Some(r) => outcome(r.status),
            }
        }
    }

    /// An empty registry without administrator.
    pub fn new() -> (c: Self)
        ensures
            c.admin is None,
            c.registry@ == Map::<u64, DIDRecord>::empty(),
            c.did_index@ == Map::<Seq<char>, u64>::empty(),
            c.history@ == Map::<u64, Vec<DIDHistory>>::empty(),
    {
        DIDContract {
            admin: None,
            registry: HashMapWithView::new(),
            did_index: StringHashMap::new(),
            history: HashMapWithView::new(),
        }
    }

    fn validate_create_did_inputs(&self, controller: &Address, verification_methods: &Vec<VerificationMethod>,
        services: &Vec<Service>) -> (r: Result<(), Error>)
        ensures
            r == self.create_result(*controller, verification_methods@, services@),
    {
        if self.registry.contains_key(&controller.0) {
            return Err(Error::DIDAlreadyExists);
        }
        if verification_methods.len() > MAX_VERIFICATION_METHODS {
            return Err(Error::MaxVerificationMethodsExceeded);
        }
        let mut i: usize = 0;
        assert(verification_methods@.skip(0) =~= verification_methods@);
        while i < verification_methods.len()
            invariant
                i <= verification_methods.len(),
                !self.registry@.contains_key(controller.0),
                verification_methods.len() <= MAX_VERIFICATION_METHODS,
                first_vm_error(verification_methods@) == first_vm_error(verification_methods@.skip(i as int)),
            decreases verification_methods.len() - i,
        {
            let ghost rest = verification_methods@.skip(i as int);
            assert(rest[0] == verification_methods@[i as int]);
            assert(rest.drop_first() =~= verification_methods@.skip(i as int + 1));
            Self::validate_verification_method(&verification_methods[i])?;
            i = i + 1;
        }
        assert(verification_methods@.skip(i as int).len() == 0);
        if services.len() > MAX_SERVICES {
            return Err(Error::MaxServicesExceeded);
        }
        let mut j: usize = 0;
        assert(services@.skip(0) =~= services@);
        while j < services.len()
            invariant
                j <= services.len(),
                !self.registry@.contains_key(controller.0),
                verification_methods.len() <= MAX_VERIFICATION_METHODS,
                first_vm_error(verification_methods@) is None,
                services.len() <= MAX_SERVICES,
                first_service_error(services@) == first_service_error(services@.skip(j as int)),
            decreases services.len() - j,
        {
            let ghost rest = services@.skip(j as int);
            assert(rest[0] == services@[j as int]);
            assert(rest.drop_first() =~= services@.skip(j as int + 1));
            Self::validate_service(&services[j])?;
            j = j + 1;
        }
        assert(services@.skip(j as int).len() == 0);
        Ok(())
    }

    /// Puts a history entry in front of the list kept under controller `c`.
    fn add_to_history(&mut self, c: u64, entry: DIDHistory)
        ensures
            final(self).admin == old(self).admin,
            final(self).registry@ == old(self).registry@,
            final(self).did_index@ == old(self).did_index@,
            map_set_at(old(self).history@, final(self).history@, c),
            final(self).history_at(c).len() > 0,
            final(self).history_at(c)[0] == entry,
            final(self).history_at(c).drop_first() == (if old(self).history_at(c).len() >= MAX_DID_HISTORY {
                old(self).history_at(c).drop_last()
            } else {
                old(self).history_at(c)
            }),
    {
        let mut list = match self.history.remove(&c) {
            Some(v) => v,
            None => Vec::new(),
        };
        let ghost before = list@;
        assert(before == old(self).history_at(c));
        list.insert(0, entry);
        assert(list@.drop_first() =~= before);
        if list.len() > MAX_DID_HISTORY {
            list.pop();
            assert(list@.drop_first() =~= before.drop_last());
        }
        self.history.insert(c, list);
        assert(self.history@.dom() =~= old(self).history@.dom().insert(c));
    }

    /// Registers a DID for `controller`, whose account text the host
    /// supplies; the DID is built from that text and its SHA-256 digest.  The document lists the verification methods, which also
    /// serve for authentication, and the services; it starts at version 1,
    /// active, and a `created` entry opens its history.
    pub fn create_did(&mut self, env: &soroban_sdk::Env, controller: Address, controller_text: &String,
        verification_methods: Vec<VerificationMethod>, services: Vec<Service>, now: u64) -> (r: Result<String, Error>)
        ensures
            r is Ok <==> old(self).create_result(controller, verification_methods@, services@) is Ok,
            r is Err ==> r == Err::<String, Error>(old(self).create_result(controller, verification_methods@, services@)->Err_0)
                && *final(self) == *old(self),
            r is Ok ==> {
                let did = r->Ok_0;
                let c = controller.0;
                let rec = final(self).registry@[c];
                let doc = rec.document;
                &&& did@ == did_text(controller_text@, sha256_digest(vstd::utf8::encode_utf8(controller_text@)))
                &&& final(self).admin == old(self).admin
                &&& map_set_at(old(self).registry@, final(self).registry@, c)
                &&& doc.did@ == did@ && doc.controller == controller
                &&& doc.verification_methods == verification_methods
                &&& doc.authentication@ == method_ids(verification_methods@)
                &&& doc.assertion_method@.len() == 0 && doc.key_agreement@.len() == 0
                &&& doc.capability_invocation@.len() == 0 && doc.capability_delegation@.len() == 0
                &&& doc.service == services
                &&& doc.created == now && doc.updated == now && doc.version_id == 1
                &&& rec.status == DIDStatus::Active && rec.nonce == 1 && rec.last_activity == now
                &&& final(self).did_index@ == old(self).did_index@.insert(did@, c)
                &&& map_set_at(old(self).history@, final(self).history@, c)
                &&& history_pushed(old(self).history_at(c), final(self).history_at(c), did@, "created"@, controller,
                    now, None, 1, None)
            },
    {
        self.validate_create_did_inputs(&controller, &verification_methods, &services)?;
        let did = Self::generate_did(env, controller_text);
        let authentication = collect_method_ids(&verification_methods);
        let document = DIDDocument {
            did: did.clone(),
            controller,
            verification_methods,
            authentication,
            assertion_method: Vec::new(),
            key_agreement: Vec::new(),
            capability_invocation: Vec::new(),
            capability_delegation: Vec::new(),
            service: services,
            created: now,
            updated: now,
            version_id: 1,
        };
        let record = DIDRecord { document, status: DIDStatus::Active, nonce: 1, last_activity: now };
        self.registry.insert(controller.0, record);
        assert(self.registry@.dom() =~= old(self).registry@.dom().insert(controller.0));
        self.did_index.insert(did.clone(), controller.0);
        let entry = DIDHistory {
            did: did.clone(),
            action: String::from_str("created"),
            actor: controller,
            timestamp: now,
            previous_version: None,
            new_version: 1,
            reason: None,
        };
        self.add_to_history(controller.0, entry);
        Ok(did)
    }

    /// The controller under which a DID's record is kept.
    fn find_slot(&self, did: &String) -> (r: Result<u64, Error>)
        ensures
            match self.slot_of(did@) {
                Some(c) => r == Ok::<u64, Error>(c),
                None => r == Err::<u64, Error>(Error::DIDNotFound),
            },
    {
        match self.did_index.get(did.as_str()) {
            Some(c) => {
                if self.registry.contains_key(c) {
                    Ok(*c)
                } else {
                    Err(Error::DIDNotFound)
                }
            },
            None => Err(Error::DIDNotFound),
        }
    }

    /// The record of a DID, with its status.
    pub fn get_did_record(&self, did: &String) -> (r: Result<&DIDRecord, Error>)
        ensures
            match self.record_of(did@) {
                Some(rec) => r is Ok && *r->Ok_0 == rec,
                None => r == Err::<&DIDRecord, Error>(Error::DIDNotFound),
            },
    {
        let c = self.find_slot(did)?;
        match self.registry.get(&c) {
            Some(rec) => Ok(rec),
            None => Err(Error::DIDNotFound),
        }
    }

    /// The document of a DID.
    pub fn get_did_document(&self, did: &String) -> (r: Result<&DIDDocument, Error>)
        ensures
            match self.record_of(did@) {
                Some(rec) => r is Ok && *r->Ok_0 == rec.document,
                None => r == Err::<&DIDDocument, Error>(Error::DIDNotFound),
            },
    {
        let rec = self.get_did_record(did)?;
        Ok(&rec.document)
    }

    /// The DID registered by a controller.
    pub fn get_did_by_controller(&self, controller: Address) -> (r: Result<String, Error>)
        ensures
            self.registry@.contains_key(controller.0) ==> r is Ok
                && r->Ok_0 == self.registry@[controller.0].document.did,
            !self.registry@.contains_key(controller.0) ==> r == Err::<String, Error>(Error::DIDNotFound),
    {
        match self.registry.get(&controller.0) {
            Some(rec) => Ok(rec.document.did.clone()),
            None => Err(Error::DIDNotFound),
        }
    }

    /// Whether a DID exists and is active.
    pub fn is_valid_did(&self, did: &String) -> (r: Result<bool, Error>)
        ensures
            match self.record_of(did@) {
                Some(rec) => r == Ok::<bool, Error>(rec.status == DIDStatus::Active),
                None => r == Err::<bool, Error>(Error::DIDNotFound),
            },
    {
        let rec = self.get_did_record(did)?;
        Ok(rec.status == DIDStatus::Active)
    }

    /// The newest `limit` entries of a DID's history (at most
    /// `MAX_DID_HISTORY`), newest first; none for an unknown DID.
    pub fn get_did_history(&self, did: &String, limit: u32) -> (r: Result<Vec<DIDHistory>, Error>)
        ensures
            r is Ok,
            ({
                let h = self.history_of(did@);
                let lim: int = if limit > MAX_DID_HISTORY { MAX_DID_HISTORY as int } else { limit as int };
                let end: int = if h.len() > lim { lim } else { h.len() as int };
                r->Ok_0@ == h.take(end)
            }),
    {
        let mut out: Vec<DIDHistory> = Vec::new();
        let c = match self.did_index.get(did.as_str()) {
            Some(c) => *c,
            None => {
                return Ok(out);
            },
        };
        let h = match self.history.get(&c) {
            Some(h) => h,
            None => {
                return Ok(out);
            },
        };
        let effective_limit: usize = if limit as usize > MAX_DID_HISTORY { MAX_DID_HISTORY } else { limit as usize };
        let end: usize = if h.len() > effective_limit { effective_limit } else { h.len() };
        let mut i: usize = 0;
        while i < end
            invariant
                i <= end <= h@.len(),
                out@ == h@.take(i as int),
            decreases end - i,
        {
            out.push(h[i].duplicate());
            i = i + 1;
            assert(out@ =~= h@.take(i as int));
        }
        Ok(out)
    }

    /// Succeeds when `controller` controls the DID.
    pub fn validate_did_ownership(&self, did: &String, controller: &Address) -> (r: Result<(), Error>)
        ensures
            match self.record_of(did@) {
                None => r == Err::<(), Error>(Error::DIDNotFound),
                Some(rec) => r == (if rec.document.controller == *controller {
                    Ok::<(), Error>(())
                } else {
                    Err(Error::Unauthorized)
                }),
            },
    {
        let rec = self.get_did_record(did)?;
        if rec.document.controller != *controller {
            return Err(Error::Unauthorized);
        }
        Ok(())
    }


    /// The checks made before a DID is updated, in order: the DID exists,
    /// `controller` controls it, it is active (a suspended one answers
    /// `DIDSuspended`, a revoked one `DIDRevoked`), and the new lists are within
    /// their caps.  Gives the slot the record is kept under.
    pub fn check_update_did(&self, did: &String, controller: Address, verification_methods: &Option<Vec<VerificationMethod>>,
        services: &Option<Vec<Service>>) -> (r: Result<u64, Error>)
        ensures
            match self.update_result(did@, controller, *verification_methods, *services) {
                Ok(_) => r == Ok::<u64, Error>(self.slot_of(did@)->0),
                Err(e) => r == Err::<u64, Error>(e),
            },
    {
        let c = self.find_slot(did)?;
        match self.registry.get(&c) {
            Some(rec) => {
                if rec.document.controller != controller {
                    return Err(Error::Unauthorized);
                }
                match rec.status {
                    DIDStatus::Suspended => {
                        return Err(Error::DIDSuspended);
                    },
                    DIDStatus::Revoked => {
                        return Err(Error::DIDRevoked);
                    },
                    DIDStatus::Active => {},
                }
            },
            None => {
                return Err(Error::DIDNotFound);
            },
        }
        match verification_methods {
            Some(v) => {
                if v.len() > MAX_VERIFICATION_METHODS {
                    return Err(Error::MaxVerificationMethodsExceeded);
                }
            },
            None => {},
        }
        match services {
            Some(v) => {
                if v.len() > MAX_SERVICES {
                    return Err(Error::MaxServicesExceeded);
                }
            },
            None => {},
        }
        Ok(c)
    }

    /// Replaces a DID's verification methods (which also become its
    /// authentication keys) and/or services, bumps its version and nonce,
    /// stamps it with `now`, records an `updated` history entry and returns
    /// the new version.  Only the controller may update, and only an active DID.
    pub fn update_did(&mut self, did: &String, controller: Address, verification_methods: Option<Vec<VerificationMethod>>,
        services: Option<Vec<Service>>, now: u64) -> (r: Result<u64, Error>)
        requires
            old(self).update_result(did@, controller, verification_methods, services) is Ok
                ==> old(self).record_of(did@)->0.document.version_id < u64::MAX
                && old(self).record_of(did@)->0.nonce < u64::MAX,
        ensures
            r is Ok <==> old(self).update_result(did@, controller, verification_methods, services) is Ok,
            r is Err ==> r == Err::<u64, Error>(old(self).update_result(did@, controller, verification_methods, services)->Err_0)
                && *final(self) == *old(self),
            r is Ok ==> {
                let c = old(self).slot_of(did@)->0;
                let o = old(self).registry@[c];
                let n = final(self).registry@[c];
                &&& r->Ok_0 == o.document.version_id + 1
                &&& final(self).admin == old(self).admin
                &&& final(self).did_index@ == old(self).did_index@
                &&& map_set_at(old(self).registry@, final(self).registry@, c)
                &&& n.document.did == o.document.did && n.document.controller == o.document.controller
                &&& n.document.verification_methods == (match verification_methods {
                    Some(v) => v,
                    None => o.document.verification_methods,
                })
                &&& n.document.authentication@ == (match verification_methods {
                    Some(v) => method_ids(v@),
                    None => o.document.authentication@,
                })
                &&& n.document.assertion_method == o.document.assertion_method
                &&& n.document.key_agreement == o.document.key_agreement
                &&& n.document.capability_invocation == o.document.capability_invocation
                &&& n.document.capability_delegation == o.document.capability_delegation
                &&& n.document.service == (match services {
                    Some(v) => v,
                    None => o.document.service,
                })
                &&& n.document.created == o.document.created && n.document.updated == now
                &&& n.document.version_id == r->Ok_0
                &&& n.status == o.status && n.nonce == o.nonce + 1 && n.last_activity == now
                &&& map_set_at(old(self).history@, final(self).history@, c)
                &&& history_pushed(old(self).history_at(c), final(self).history_at(c), did@, "updated"@, controller,
                    now, Some(o.document.version_id), r->Ok_0, None)
            },
    {
        let c = self.check_update_did(did, controller, &verification_methods, &services)?;
        let mut rec = self.registry.remove(&c).unwrap();
        let old_version = rec.document.version_id;
        match verification_methods {
            Some(new_vms) => {
                let ids = collect_method_ids(&new_vms);
                rec.document.verification_methods = new_vms;
                rec.document.authentication = ids;
            },
            None => {},
        }
        match services {
            Some(new_services) => {
                rec.document.service = new_services;
            },
            None => {},
        }
        rec.document.updated = now;
        rec.document.version_id = old_version + 1;
        rec.last_activity = now;
        rec.nonce = rec.nonce + 1;
        let new_version = rec.document.version_id;
        self.registry.insert(c, rec);
        assert(self.registry@.dom() =~= old(self).registry@.dom().insert(c));
        let entry = DIDHistory {
            did: did.clone(),
            action: String::from_str("updated"),
            actor: controller,
            timestamp: now,
            previous_version: Some(old_version),
            new_version,
            reason: None,
        };
        self.add_to_history(c, entry);
        Ok(new_version)
    }

    /// The slot of a DID, once `caller` is known to be the administrator.
    fn admin_slot(&self, did: &String, caller: Address) -> (r: Result<u64, Error>)
        ensures
            self.admin != Some(caller) ==> r == Err::<u64, Error>(Error::Unauthorized),
            self.admin == Some(caller) ==> match self.slot_of(did@) {
                Some(c) => r == Ok::<u64, Error>(c),
                None => r == Err::<u64, Error>(Error::DIDNotFound),
            },
    {
        match self.admin {
            Some(a) => {
                if a != caller {
                    return Err(Error::Unauthorized);
                }
            },
            None => {
                return Err(Error::Unauthorized);
            },
        }
        self.find_slot(did)
    }

    /// Sets the status of the record under `c`, stamps it with `now` and
    /// records the change in the history.
    fn commit_status(&mut self, c: u64, status: DIDStatus, did: &String, actor: Address, action: String,
        reason: Option<String>, now: u64)
        requires
            old(self).registry@.contains_key(c),
        ensures
            final(self).admin == old(self).admin,
            final(self).did_index@ == old(self).did_index@,
            map_set_at(old(self).registry@, final(self).registry@, c),
            final(self).registry@[c] == (DIDRecord {
                status,
                last_activity: now,
                ..old(self).registry@[c]
            }),
            map_set_at(old(self).history@, final(self).history@, c),
            history_pushed(old(self).history_at(c), final(self).history_at(c), did@, action@, actor, now,
                Some(old(self).registry@[c].document.version_id), old(self).registry@[c].document.version_id,
                text_opt(reason)),
    {
        let mut rec = self.registry.remove(&c).unwrap();
        rec.status = status;
        rec.last_activity = now;
        let version = rec.document.version_id;
        self.registry.insert(c, rec);
        assert(self.registry@.dom() =~= old(self).registry@.dom().insert(c));
        let entry = DIDHistory {
            did: did.clone(),
            action,
            actor,
            timestamp: now,
            previous_version: Some(version),
            new_version: version,
            reason,
        };
        self.add_to_history(c, entry);
    }

    /// Suspends an active DID (administrator only), with a reason kept in its history.
    pub fn suspend_did(&mut self, did: &String, admin: Address, reason: String, now: u64) -> (r: Result<(), Error>)
        ensures
            ({
                let out = old(self).admin_change_result(did@, admin, |s: DIDStatus| suspend_outcome(s));
                &&& (r is Ok <==> out is Ok)
                &&& (r is Err ==> r == Err::<(), Error>(out->Err_0) && *final(self) == *old(self))
                &&& (r is Ok ==> {
                    let c = old(self).slot_of(did@)->0;
                    &&& final(self).admin == old(self).admin
                    &&& final(self).did_index@ == old(self).did_index@
                    &&& map_set_at(old(self).registry@, final(self).registry@, c)
                    &&& final(self).registry@[c] == (DIDRecord {
                        status: DIDStatus::Suspended,
                        last_activity: now,
                        ..old(self).registry@[c]
                    })
                    &&& map_set_at(old(self).history@, final(self).history@, c)
                    &&& history_pushed(old(self).history_at(c), final(self).history_at(c), did@, "suspended"@, admin,
                        now, Some(old(self).registry@[c].document.version_id),
                        old(self).registry@[c].document.version_id, Some(reason@))
                })
            }),
    {
        let c = self.admin_slot(did, admin)?;
        let status = match self.registry.get(&c) {
            Some(rec) => rec.status,
            None => {
                return Err(Error::DIDNotFound);
            },
        };
        let next = suspend_transition(status)?;
        self.commit_status(c, next, did, admin, String::from_str("suspended"), Some(reason), now);
        Ok(())
    }

    /// Revokes a DID that is not yet revoked (administrator only), with a
    /// reason kept in its history.
    pub fn revoke_did(&mut self, did: &String, admin: Address, reason: String, now: u64) -> (r: Result<(), Error>)
        ensures
            ({
                let out = old(self).admin_change_result(did@, admin, |s: DIDStatus| revoke_outcome(s));
                &&& (r is Ok <==> out is Ok)
                &&& (r is Err ==> r == Err::<(), Error>(out->Err_0) && *final(self) == *old(self))
                &&& (r is Ok ==> {
                    let c = old(self).slot_of(did@)->0;
                    &&& final(self).admin == old(self).admin
                    &&& final(self).did_index@ == old(self).did_index@
                    &&& map_set_at(old(self).registry@, final(self).registry@, c)
                    &&& final(self).registry@[c] == (DIDRecord {
                        status: DIDStatus::Revoked,
                        last_activity: now,
                        ..old(self).registry@[c]
                    })
                    &&& map_set_at(old(self).history@, final(self).history@, c)
                    &&& history_pushed(old(self).history_at(c), final(self).history_at(c), did@, "revoked"@, admin,
                        now, Some(old(self).registry@[c].document.version_id),
                        old(self).registry@[c].document.version_id, Some(reason@))
                })
            }),
    {
        let c = self.admin_slot(did, admin)?;
        let status = match self.registry.get(&c) {
            Some(rec) => rec.status,
            None => {
                return Err(Error::DIDNotFound);
            },
        };
        let next = revoke_transition(status)?;
        self.commit_status(c, next, did, admin, String::from_str("revoked"), Some(reason), now);
        Ok(())
    }

    /// Reactivates a suspended DID (administrator only).
    pub fn reactivate_did(&mut self, did: &String, admin: Address, now: u64) -> (r: Result<(), Error>)
        ensures
            ({
                let out = old(self).admin_change_result(did@, admin, |s: DIDStatus| reactivate_outcome(s));
                &&& (r is Ok <==> out is Ok)
                &&& (r is Err ==> r == Err::<(), Error>(out->Err_0) && *final(self) == *old(self))
                &&& (r is Ok ==> {
                    let c = old(self).slot_of(did@)->0;
                    &&& final(self).admin == old(self).admin
                    &&& final(self).did_index@ == old(self).did_index@
                    &&& map_set_at(old(self).registry@, final(self).registry@, c)
                    &&& final(self).registry@[c] == (DIDRecord {
                        status: DIDStatus::Active,
                        last_activity: now,
                        ..old(self).registry@[c]
                    })
                    &&& map_set_at(old(self).history@, final(self).history@, c)
                    &&& history_pushed(old(self).history_at(c), final(self).history_at(c), did@, "reactivated"@,
                        admin, now, Some(old(self).registry@[c].document.version_id),
                        old(self).registry@[c].document.version_id, None)
                })
            }),
    {
        let c = self.admin_slot(did, admin)?;
        let status = match self.registry.get(&c) {
            Some(rec) => rec.status,
            None => {
                return Err(Error::DIDNotFound);
            },
        };
        let next = reactivate_transition(status)?;
        self.commit_status(c, next, did, admin, String::from_str("reactivated"), None, now);
        Ok(())
    }

} // impl

/// The key types a DID accepts: a verification method passes its checks
/// exactly when its type is `Ed25519VerificationKey2018`,
/// `EcdsaSecp256k1VerificationKey2019` or `X25519KeyAgreementKey2019` and its
/// public key has 1 to 64 bytes; a method of any other type is refused as
/// unsupported.
pub proof fn accepted_key_types(vm: VerificationMethod)
    ensures
        vm_error(vm) is None <==> ((vm.type_@ == "Ed25519VerificationKey2018"@
            || vm.type_@ == "EcdsaSecp256k1VerificationKey2019"@
            || vm.type_@ == "X25519KeyAgreementKey2019"@)
            && 1 <= vm.public_key@.len() <= 64),
        !(vm.type_@ == "Ed25519VerificationKey2018"@ || vm.type_@ == "EcdsaSecp256k1VerificationKey2019"@
            || vm.type_@ == "X25519KeyAgreementKey2019"@) ==> vm_error(vm) == Some(Error::UnsupportedKeyType),
{
}

proof fn lemma_no_vm_error(vms: Seq<VerificationMethod>)
    requires
        forall|i: int| 0 <= i < vms.len() ==> #[trigger] vm_error(vms[i]) is None,
    ensures
        first_vm_error(vms) is None,
    decreases vms.len(),
{
    if vms.len() > 0 {
        assert(vm_error(vms[0]) is None);
        assert forall|i: int| 0 <= i < vms.drop_first().len() implies #[trigger] vm_error(vms.drop_first()[i]) is None by {
            assert(vms.drop_first()[i] == vms[i + 1]);
        }
        lemma_no_vm_error(vms.drop_first());
    }
}

proof fn lemma_no_service_error(services: Seq<Service>)
    requires
        forall|i: int| 0 <= i < services.len() ==> #[trigger] service_error(services[i]) is None,
    ensures
        first_service_error(services) is None,
    decreases services.len(),
{
    if services.len() > 0 {
        assert(service_error(services[0]) is None);
        assert forall|i: int| 0 <= i < services.drop_first().len() implies #[trigger] service_error(services.drop_first()[i]) is None by {
            assert(services.drop_first()[i] == services[i + 1]);
        }
        lemma_no_service_error(services.drop_first());
    }
}

/// A controller without a DID can always create one whose verification
/// methods (at most ten) all have a supported key type and a 1- to 64-byte
/// key, and whose services (at most twenty) all have an identifier, a type
/// and an endpoint.
pub proof fn create_succeeds_with_supported_methods(c: DIDContract, controller: Address,
    vms: Seq<VerificationMethod>, services: Seq<Service>)
    requires
        !c.registry@.contains_key(controller.0),
        vms.len() <= MAX_VERIFICATION_METHODS,
        services.len() <= MAX_SERVICES,
        forall|i: int| 0 <= i < vms.len() ==> ((#[trigger] vms[i]).type_@ == "Ed25519VerificationKey2018"@
            || vms[i].type_@ == "EcdsaSecp256k1VerificationKey2019"@
            || vms[i].type_@ == "X25519KeyAgreementKey2019"@)
            && 1 <= vms[i].public_key@.len() <= 64,
        forall|i: int| 0 <= i < services.len() ==> (#[trigger] services[i]).id@.len() > 0
            && services[i].type_@.len() > 0 && services[i].service_endpoint@.len() > 0,
    ensures
        c.create_result(controller, vms, services) is Ok,
{
    assert forall|i: int| 0 <= i < vms.len() implies #[trigger] vm_error(vms[i]) is None by {
        accepted_key_types(vms[i]);
    }
    assert forall|i: int| 0 <= i < services.len() implies #[trigger] service_error(services[i]) is None by {
        assert(services[i].id@.len() > 0);
    }
    lemma_no_vm_error(vms);
    lemma_no_service_error(services);
}

} // verus!
