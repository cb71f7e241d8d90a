use vstd::prelude::*;
use vstd::hash_map::StringHashMap;
use crate::types::Address;

verus! {

/// Default TTL of active entries, in ledgers (about a year).
pub const DEFAULT_ACTIVE_TTL: u32 = 52560;
/// Default TTL of historical entries, in ledgers (about six months).
pub const DEFAULT_HISTORICAL_TTL: u32 = 26280;
/// Default TTL of archived entries, in ledgers (about a month).
pub const DEFAULT_ARCHIVED_TTL: u32 = 5256;
/// An entry's TTL is extended once it is at most the target divided by this.
pub const TTL_THRESHOLD_DIVISOR: u32 = 2;
/// Minimum TTL of a new persistent entry on the Soroban test ledger, in
/// ledgers counting the current one.
pub const DEFAULT_MIN_PERSISTENT_ENTRY_TTL: u32 = 4096;
/// Maximum TTL of an entry on the Soroban test ledger, in ledgers counting
/// the current one.
pub const DEFAULT_MAX_ENTRY_TTL: u32 = 6_312_000;

/// Lifecycle states of ledger entries.
#[derive(Clone, Copy, Debug, PartialEq, Eq, Structural)]
pub enum DataLifecycle {
    Active,
    Historical,
    Archived,
}

/// TTL targets of the lifecycle states, in ledgers.
#[derive(Clone, Copy, Debug, PartialEq, Eq, Structural)]
pub struct TtlConfig {
    pub active_ttl: u32,
    pub historical_ttl: u32,
    pub archived_ttl: u32,
}

/// Errors of the lifecycle manager.
#[derive(Clone, Copy, Debug, PartialEq, Eq, Structural)]
pub enum LifecycleError {
    NotInitialized,
    Unauthorized,
    EntryNotFound,
    InvalidConfig,
    AlreadyInState,
}

/// The configuration a new manager starts with.
pub open spec fn default_config() -> TtlConfig {
    TtlConfig { active_ttl: DEFAULT_ACTIVE_TTL, historical_ttl: DEFAULT_HISTORICAL_TTL, archived_ttl: DEFAULT_ARCHIVED_TTL }
}

/// The TTL target of a lifecycle state.
pub open spec fn target_ttl(config: TtlConfig, lifecycle: DataLifecycle) -> u32 {
    match lifecycle {
        DataLifecycle::Active => config.active_ttl,
        DataLifecycle::Historical => config.historical_ttl,
        DataLifecycle::Archived => config.archived_ttl,
    }
}

/// An entry's TTL after the host extends it to `ttl` with half of `ttl` as
/// threshold, where the ledger grants at most `cap`: when the TTL is at most
/// the threshold it is raised to `ttl` (no further than `cap`), and it never
/// shrinks.
pub open spec fn extended_ttl(current: u32, ttl: u32, cap: u32) -> u32 {
    if current <= ttl / TTL_THRESHOLD_DIVISOR {
        let target = if ttl < cap { ttl } else { cap };
        if target > current { target } else { current }
    } else {
        current
    }
}

/// The remaining TTL the ledger gives an entry that lives `n` ledgers
/// counting the current one.
pub open spec fn remaining_of(n: u32) -> u32 {
    if n == 0 { 0 } else { (n - 1) as u32 }
}

/// A configuration is valid: all TTLs positive, active above historical
/// above archived.
pub open spec fn valid_config(c: TtlConfig) -> bool {
    &&& c.active_ttl > 0 && c.historical_ttl > 0 && c.archived_ttl > 0
    &&& c.active_ttl > c.historical_ttl && c.historical_ttl > c.archived_ttl
}

/// Storage of the lifecycle manager: its administrator and configuration,
/// the persistent entries it manages with their remaining TTLs, and their
/// tracked lifecycle states.
pub struct LifecycleManager {
    pub admin: Option<Address>,
    /// The ledger's minimum TTL of a new persistent entry.
    pub min_persistent_entry_ttl: u32,
    /// The ledger's maximum TTL of an entry.
    pub max_entry_ttl: u32,
    pub ttl_config: Option<TtlConfig>,
    pub entries: StringHashMap<Vec<u8>>,
    pub ttls: StringHashMap<u32>,
    pub entry_states: StringHashMap<DataLifecycle>,
}

impl LifecycleManager {
    /// The remaining TTL recorded for a key (zero when none is).
    pub open spec fn ttl_of(self, key: Seq<char>) -> u32 {
        if self.ttls@.contains_key(key) { self.ttls@[key] } else { 0 }
    }

    /// The largest remaining TTL the ledger grants.
    pub open spec fn ttl_cap(self) -> u32 {
        remaining_of(self.max_entry_ttl)
    }

    /// The remaining TTL of a persistent entry just created.
    pub open spec fn fresh_ttl(self) -> u32 {
        remaining_of(self.min_persistent_entry_ttl)
    }

    /// The remaining TTL of `key` once it has been written: an existing
    /// entry keeps its TTL, a new one starts at the ledger's minimum.
    pub open spec fn written_ttl(self, key: Seq<char>) -> u32 {
        if self.entries@.contains_key(key) { self.ttl_of(key) } else { self.fresh_ttl() }
    }

    /// The ledger limits are the same in both storages.
    pub open spec fn same_limits(self, other: Self) -> bool {
        self.min_persistent_entry_ttl == other.min_persistent_entry_ttl && self.max_entry_ttl == other.max_entry_ttl
    }

    /// TTLs after an extension of `key` to `ttl`, when the entry exists.
    pub open spec fn ttls_extended(self, key: Seq<char>, ttl: u32) -> Map<Seq<char>, u32> {
        if self.entries@.contains_key(key) {
            self.ttls@.insert(key, extended_ttl(self.ttl_of(key), ttl, self.ttl_cap()))
        } else {
            self.ttls@
        }
    }

    /// The lifecycle state tracked for a key (active when none is).
    pub open spec fn state_of(self, key: Seq<char>) -> DataLifecycle {
        if self.entry_states@.contains_key(key) { self.entry_states@[key] } else { DataLifecycle::Active }
    }

    /// Empty storage of a manager that has not been initialised, on a ledger
    /// with the Soroban test ledger's TTL limits.
    pub fn new() -> (s: Self)
        ensures
            s.admin is None && s.ttl_config is None,
            s.min_persistent_entry_ttl == DEFAULT_MIN_PERSISTENT_ENTRY_TTL,
            s.max_entry_ttl == DEFAULT_MAX_ENTRY_TTL,
            s.entries@ == Map::<Seq<char>, Vec<u8>>::empty(),
            s.ttls@ == Map::<Seq<char>, u32>::empty(),
            s.entry_states@ == Map::<Seq<char>, DataLifecycle>::empty(),
    {
        Self::with_ledger_limits(DEFAULT_MIN_PERSISTENT_ENTRY_TTL, DEFAULT_MAX_ENTRY_TTL)
    }

    /// Empty storage of a manager that has not been initialised, on a ledger
    /// with the given minimum TTL of new persistent entries and maximum TTL.
    pub fn with_ledger_limits(min_persistent_entry_ttl: u32, max_entry_ttl: u32) -> (s: Self)
        ensures
            s.admin is None && s.ttl_config is None,
            s.min_persistent_entry_ttl == min_persistent_entry_ttl,
            s.max_entry_ttl == max_entry_ttl,
            s.entries@ == Map::<Seq<char>, Vec<u8>>::empty(),
            s.ttls@ == Map::<Seq<char>, u32>::empty(),
            s.entry_states@ == Map::<Seq<char>, DataLifecycle>::empty(),
    {
        LifecycleManager {
            admin: None,
            min_persistent_entry_ttl,
            max_entry_ttl,
            ttl_config: None,
            entries: StringHashMap::new(),
            ttls: StringHashMap::new(),
            entry_states: StringHashMap::new(),
        }
    }

    /// Writes a persistent entry; an existing entry keeps its TTL, a new one
    /// starts at the ledger's minimum.
    pub fn set_entry(&mut self, key: String, data: Vec<u8>)
        ensures
            final(self).entries@ == old(self).entries@.insert(key@, data),
            final(self).ttls@ == (if old(self).entries@.contains_key(key@) {
                old(self).ttls@
            } else {
                old(self).ttls@.insert(key@, old(self).fresh_ttl())
            }),
            final(self).entry_states@ == old(self).entry_states@,
            final(self).admin == old(self).admin && final(self).ttl_config == old(self).ttl_config && final(self).same_limits(*old(self)),
    {
        if !self.entries.contains_key(key.as_str()) {
            let fresh = if self.min_persistent_entry_ttl == 0 { 0 } else { self.min_persistent_entry_ttl - 1 };
            self.ttls.insert(key.clone(), fresh);
        }
        self.entries.insert(key, data);
    }

    /// Deletes a persistent entry and its TTL.
    pub fn remove_entry(&mut self, key: &String)
        ensures
            final(self).entries@ == old(self).entries@.remove(key@),
            final(self).ttls@ == old(self).ttls@.remove(key@),
            final(self).entry_states@ == old(self).entry_states@,
            final(self).admin == old(self).admin && final(self).ttl_config == old(self).ttl_config && final(self).same_limits(*old(self)),
    {
        self.entries.remove(key.as_str());
        self.ttls.remove(key.as_str());
    }

    /// Whether a persistent entry exists.
    pub fn has_entry(&self, key: &String) -> (b: bool)
        ensures
            b == self.entries@.contains_key(key@),
    {
        self.entries.contains_key(key.as_str())
    }

    /// The remaining TTL of an entry, if it exists.
    pub fn entry_ttl(&self, key: &String) -> (r: Option<u32>)
        ensures
            r == (if self.entries@.contains_key(key@) { Some(self.ttl_of(key@)) } else { None::<u32> }),
    {
        if !self.entries.contains_key(key.as_str()) {
            return None;
        }
        match self.ttls.get(key.as_str()) {
            Some(t) => Some(*t),
            None => Some(0),
        }
    }

    /// One-time set-up: records the administrator and the default TTLs.
    pub fn init_contract(&mut self, admin: Address)
        requires
            old(self).admin is None,
        ensures
            final(self).admin == Some(admin),
            final(self).ttl_config == Some(default_config()),
            final(self).same_limits(*old(self)),
            final(self).entries@ == old(self).entries@,
            final(self).ttls@ == old(self).ttls@,
            final(self).entry_states@ == old(self).entry_states@,
    {
        self.admin = Some(admin);
        self.ttl_config = Some(TtlConfig {
            active_ttl: DEFAULT_ACTIVE_TTL,
            historical_ttl: DEFAULT_HISTORICAL_TTL,
            archived_ttl: DEFAULT_ARCHIVED_TTL,
        });
    }

    /// Whether `caller` is the administrator.
    pub fn require_admin(&self, caller: &Address) -> (b: bool)
        ensures
            b == (self.admin == Some(*caller)),
    {
        match &self.admin {
            Some(a) => *a == *caller,
            None => false,
        }
    }

    /// The TTL configuration.
    pub fn get_ttl_config(&self) -> (c: TtlConfig)
        requires
            self.ttl_config is Some,
        ensures
            c == self.ttl_config->0,
    {
        self.ttl_config.unwrap()
    }

    fn extend_entry(&mut self, key: &String, ttl: u32)
        ensures
            final(self).ttls@ == old(self).ttls_extended(key@, ttl),
            final(self).entries@ == old(self).entries@,
            final(self).entry_states@ == old(self).entry_states@,
            final(self).admin == old(self).admin && final(self).ttl_config == old(self).ttl_config && final(self).same_limits(*old(self)),
    {
        if !self.entries.contains_key(key.as_str()) {
            return;
        }
        let current = match self.ttls.get(key.as_str()) {
            Some(t) => *t,
            None => 0,
        };
        let cap = if self.max_entry_ttl == 0 { 0 } else { self.max_entry_ttl - 1 };
        let mut next = current;
        if current <= ttl / TTL_THRESHOLD_DIVISOR {
            let target = if ttl < cap { ttl } else { cap };
            if target > current {
                next = target;
            }
        }
        self.ttls.insert(key.clone(), next);
    }

    /// Extends an entry's TTL to the target of its lifecycle state when it has
    /// fallen to half of it or less; a missing entry is left alone.
    pub fn extend_ttl(&mut self, key: &String, lifecycle_type: DataLifecycle)
        requires
            old(self).ttl_config is Some,
        ensures
            final(self).ttls@ == old(self).ttls_extended(key@, target_ttl(old(self).ttl_config->0, lifecycle_type)),
            final(self).entries@ == old(self).entries@,
            final(self).entry_states@ == old(self).entry_states@,
            final(self).admin == old(self).admin && final(self).ttl_config == old(self).ttl_config && final(self).same_limits(*old(self)),
    {
        let config = self.get_ttl_config();
        let ttl = match lifecycle_type {
            DataLifecycle::Active => config.active_ttl,
            DataLifecycle::Historical => config.historical_ttl,
            DataLifecycle::Archived => config.archived_ttl,
        };
        self.extend_entry(key, ttl);
    }

    /// Forgets the tracked state of `key` if its entry no longer exists;
    /// returns whether it had expired.
    pub fn cleanup_expired_evolution(&mut self, key: &String) -> (expired: bool)
        ensures
            expired == !old(self).entries@.contains_key(key@),
            final(self).entry_states@ == (if expired { old(self).entry_states@.remove(key@) } else { old(self).entry_states@ }),
            final(self).entries@ == old(self).entries@,
            final(self).ttls@ == old(self).ttls@,
            final(self).admin == old(self).admin && final(self).ttl_config == old(self).ttl_config && final(self).same_limits(*old(self)),
    {
        if self.entries.contains_key(key.as_str()) {
            return false;
        }
        self.entry_states.remove(key.as_str());
        true
    }

    /// Administrator only: forgets the tracked state of every listed key
    /// whose entry has expired and returns how many listed keys had expired.
    pub fn cleanup_expired(&mut self, admin: Address, keys: &Vec<String>) -> (removed: u32)
        requires
            old(self).admin == Some(admin),
            keys@.len() <= u32::MAX,
        ensures
            removed == Set::new(|i: int| 0 <= i < keys@.len() && !old(self).entries@.contains_key(keys@[i]@)).len(),
            final(self).entry_states@ == old(self).entry_states@.remove_keys(
                Set::new(|k: Seq<char>| !old(self).entries@.contains_key(k)
                    && exists|i: int| 0 <= i < keys@.len() && #[trigger] keys@[i]@ == k)),
            final(self).entries@ == old(self).entries@,
            final(self).ttls@ == old(self).ttls@,
            final(self).admin == old(self).admin && final(self).ttl_config == old(self).ttl_config && final(self).same_limits(*old(self)),
    {
        let mut removed: u32 = 0;
        let mut i: usize = 0;
        let ghost mut done: Set<int> = Set::empty();
        while i < keys.len()
            invariant
                i <= keys@.len() <= u32::MAX,
                done.finite(),
                removed == done.len(),
                done.len() <= i,
                forall|j: int| #[trigger] done.contains(j) <==> 0 <= j < i && !old(self).entries@.contains_key(keys@[j]@),
                self.entry_states@ == old(self).entry_states@.remove_keys(
                    Set::new(|k: Seq<char>| !old(self).entries@.contains_key(k)
                        && exists|j: int| 0 <= j < i && #[trigger] keys@[j]@ == k)),
                self.entries@ == old(self).entries@,
                self.ttls@ == old(self).ttls@,
                self.admin == old(self).admin && self.ttl_config == old(self).ttl_config && self.same_limits(*old(self)),
            decreases keys@.len() - i,
        {
            if self.cleanup_expired_evolution(&keys[i]) {
                proof {
                    assert(!done.contains(i as int));
                    done = done.insert(i as int);
                }
                removed = removed + 1;
            }
            proof {
                assert(self.entry_states@ =~= old(self).entry_states@.remove_keys(
                    Set::new(|k: Seq<char>| !old(self).entries@.contains_key(k)
                        && exists|j: int| 0 <= j < i + 1 && #[trigger] keys@[j]@ == k)));
            }
            i = i + 1;
        }
        assert(done =~= Set::new(|j: int| 0 <= j < keys@.len() && !old(self).entries@.contains_key(keys@[j]@)));
        removed
    }

    /// Moves the data of `key` to `archived_key` with the archived TTL
    /// target of `config`, tracks `archived_key` as archived and forgets the
    /// state of `key`.
    fn move_to_archive(&mut self, key: &String, archived_key: &String, config: TtlConfig)
        requires
            old(self).entries@.contains_key(key@),
            key@ != archived_key@,
        ensures
            final(self).entries@.dom() == old(self).entries@.dom().remove(key@).insert(archived_key@),
            final(self).entries@[archived_key@]@ == old(self).entries@[key@]@,
            forall|k: Seq<char>| k != key@ && k != archived_key@ && old(self).entries@.contains_key(k)
                ==> #[trigger] final(self).entries@[k] == old(self).entries@[k],
            final(self).ttls@ == old(self).ttls@.remove(key@).insert(archived_key@,
                extended_ttl(old(self).written_ttl(archived_key@), config.archived_ttl, old(self).ttl_cap())),
            final(self).entry_states@ == old(self).entry_states@.insert(archived_key@, DataLifecycle::Archived).remove(key@),
            final(self).admin == old(self).admin && final(self).ttl_config == old(self).ttl_config && final(self).same_limits(*old(self)),
    {
        let data = match self.entries.get(key.as_str()) {
            Some(d) => crate::types::copy_bytes(d),
            None => Vec::new(),
        };
        if !self.entries.contains_key(archived_key.as_str()) {
            let fresh = if self.min_persistent_entry_ttl == 0 { 0 } else { self.min_persistent_entry_ttl - 1 };
            self.ttls.insert(archived_key.clone(), fresh);
        }
        self.entries.insert(archived_key.clone(), data);
        self.entries.remove(key.as_str());
        self.ttls.remove(key.as_str());
        self.extend_entry(archived_key, config.archived_ttl);
        self.entry_states.insert(archived_key.clone(), DataLifecycle::Archived);
        self.entry_states.remove(key.as_str());
        assert(self.entries@.dom() =~= old(self).entries@.dom().remove(key@).insert(archived_key@));
        assert(self.ttls@ =~= old(self).ttls@.remove(key@).insert(archived_key@,
            extended_ttl(old(self).written_ttl(archived_key@), config.archived_ttl, old(self).ttl_cap())));
    }

    /// Administrator only: moves an entry's data to its archive key with the
    /// archived TTL, tracks the archive key as archived and forgets the
    /// state of the old key.  The archive key must differ from the key: with
    /// the same key the entry is removed before its TTL is extended, and the
    /// host aborts the extension of an entry that no longer exists.
    pub fn archive_entry(&mut self, admin: Address, key: &String, archived_key: &String)
        requires
            old(self).admin == Some(admin),
            old(self).ttl_config is Some,
            old(self).entries@.contains_key(key@),
            key@ != archived_key@,
        ensures
            final(self).entries@.dom() == old(self).entries@.dom().remove(key@).insert(archived_key@),
            final(self).entries@[archived_key@]@ == old(self).entries@[key@]@,
            forall|k: Seq<char>| k != key@ && k != archived_key@ && old(self).entries@.contains_key(k)
                ==> #[trigger] final(self).entries@[k] == old(self).entries@[k],
            final(self).ttls@ == old(self).ttls@.remove(key@).insert(archived_key@,
                extended_ttl(old(self).written_ttl(archived_key@), old(self).ttl_config->0.archived_ttl, old(self).ttl_cap())),
            final(self).entry_states@ == old(self).entry_states@.insert(archived_key@, DataLifecycle::Archived).remove(key@),
            final(self).admin == old(self).admin && final(self).ttl_config == old(self).ttl_config && final(self).same_limits(*old(self)),
    {
        let config = self.get_ttl_config();
        self.move_to_archive(key, archived_key, config);
    }

    /// Archives a listing without administrator: like `archive_entry`, with
    /// the configured archived TTL, or the default one before initialisation.
    /// As there, the archive key must differ from the key.
    pub fn archive_listing(&mut self, key: &String, archived_key: &String) -> (r: Result<(), LifecycleError>)
        requires
            key@ != archived_key@,
        ensures
            !old(self).entries@.contains_key(key@) ==> r == Err::<(), LifecycleError>(LifecycleError::EntryNotFound)
                && *final(self) == *old(self),
            old(self).entries@.contains_key(key@) ==> {
                let archived_ttl = match old(self).ttl_config {
                    Some(c) => c.archived_ttl,
                    None => DEFAULT_ARCHIVED_TTL,
                };
                &&& r is Ok
                &&& final(self).entries@.dom() == old(self).entries@.dom().remove(key@).insert(archived_key@)
                &&& final(self).entries@[archived_key@]@ == old(self).entries@[key@]@
                &&& forall|k: Seq<char>| k != key@ && k != archived_key@ && old(self).entries@.contains_key(k)
                    ==> #[trigger] final(self).entries@[k] == old(self).entries@[k]
                &&& final(self).ttls@ == old(self).ttls@.remove(key@).insert(archived_key@,
                    extended_ttl(old(self).written_ttl(archived_key@), archived_ttl, old(self).ttl_cap()))
                &&& final(self).entry_states@ == old(self).entry_states@.insert(archived_key@, DataLifecycle::Archived).remove(key@)
                &&& final(self).admin == old(self).admin && final(self).ttl_config == old(self).ttl_config && final(self).same_limits(*old(self))
            },
    {
        if !self.entries.contains_key(key.as_str()) {
            return Err(LifecycleError::EntryNotFound);
        }
        let config = match self.ttl_config {
            Some(c) => c,
            None => TtlConfig {
                active_ttl: DEFAULT_ACTIVE_TTL,
                historical_ttl: DEFAULT_HISTORICAL_TTL,
                archived_ttl: DEFAULT_ARCHIVED_TTL,
            },
        };
        self.move_to_archive(key, archived_key, config);
        Ok(())
    }

    /// Administrator only: replaces the TTL configuration with a valid one.
    pub fn set_ttl_config(&mut self, admin: Address, config: TtlConfig)
        requires
            old(self).admin == Some(admin),
            valid_config(config),
        ensures
            final(self).ttl_config == Some(config),
            final(self).admin == old(self).admin,
            final(self).same_limits(*old(self)),
            final(self).entries@ == old(self).entries@,
            final(self).ttls@ == old(self).ttls@,
            final(self).entry_states@ == old(self).entry_states@,
    {
        self.ttl_config = Some(config);
    }

    /// Extends the TTL of every listed key to the target of one lifecycle state.
    pub fn batch_extend(&mut self, keys: &Vec<String>, lifecycle_type: DataLifecycle)
        requires
            old(self).ttl_config is Some,
        ensures
            forall|k: Seq<char>| #[trigger] final(self).ttl_of(k) == (if old(self).entries@.contains_key(k)
                && exists|i: int| 0 <= i < keys@.len() && #[trigger] keys@[i]@ == k {
                extended_ttl(old(self).ttl_of(k), target_ttl(old(self).ttl_config->0, lifecycle_type), old(self).ttl_cap())
            } else {
                old(self).ttl_of(k)
            }),
            final(self).entries@ == old(self).entries@,
            final(self).entry_states@ == old(self).entry_states@,
            final(self).admin == old(self).admin && final(self).ttl_config == old(self).ttl_config && final(self).same_limits(*old(self)),
    {
        let ghost t = target_ttl(old(self).ttl_config->0, lifecycle_type);
        let mut i: usize = 0;
        while i < keys.len()
            invariant
                i <= keys@.len(),
                t == target_ttl(old(self).ttl_config->0, lifecycle_type),
                self.ttl_config == old(self).ttl_config,
                self.same_limits(*old(self)),
                self.ttl_config is Some,
                self.entries@ == old(self).entries@,
                self.entry_states@ == old(self).entry_states@,
                self.admin == old(self).admin,
                forall|k: Seq<char>| #[trigger] self.ttl_of(k) == (if old(self).entries@.contains_key(k)
                    && exists|j: int| 0 <= j < i && #[trigger] keys@[j]@ == k {
                    extended_ttl(old(self).ttl_of(k), t, old(self).ttl_cap())
                } else {
                    old(self).ttl_of(k)
                }),
            decreases keys@.len() - i,
        {
            let ghost before = *self;
            self.extend_ttl(&keys[i], lifecycle_type);
            proof {
                assert forall|k: Seq<char>| #[trigger] self.ttl_of(k) == (if old(self).entries@.contains_key(k)
                    && exists|j: int| 0 <= j < i + 1 && #[trigger] keys@[j]@ == k {
                    extended_ttl(old(self).ttl_of(k), t, old(self).ttl_cap())
                } else {
                    old(self).ttl_of(k)
                }) by {
                    let b = before.ttl_of(k);
                    if k == keys@[i as int]@ {
                        assert(keys@[i as int]@ == k);
                        if old(self).entries@.contains_key(k) {
                            assert(self.ttls@ == before.ttls@.insert(k, extended_ttl(b, t, old(self).ttl_cap())));
                            assert(self.ttl_of(k) == extended_ttl(b, t, old(self).ttl_cap()));
                        } else {
                            assert(self.ttls@ == before.ttls@);
                        }
                    } else {
                        assert(self.ttl_of(k) == b);
                        if exists|j: int| 0 <= j < i + 1 && #[trigger] keys@[j]@ == k {
                            let j = choose|j: int| 0 <= j < i + 1 && #[trigger] keys@[j]@ == k;
                            assert(j < i);
                        }
                    }
                }
            }
            i = i + 1;
        }
    }

    /// The tracked lifecycle state of a key (active when none is tracked).
    pub fn get_entry_state(&self, key: &String) -> (s: DataLifecycle)
        ensures
            s == self.state_of(key@),
    {
        match self.entry_states.get(key.as_str()) {
            Some(s) => *s,
            None => DataLifecycle::Active,
        }
    }
}

/// Extending an entry to the target of its lifecycle state uses that state's
/// own field of the configuration: the TTL never shrinks; an entry above half
/// that field keeps its TTL; otherwise it ends at that field (as far as the
/// ledger's cap allows) or at its previous TTL if that was larger, so it never
/// exceeds the larger of its previous TTL and that field.
pub proof fn extension_uses_the_state_target(c: TtlConfig, l: DataLifecycle, current: u32, cap: u32)
    ensures
        extended_ttl(current, target_ttl(c, l), cap) >= current,
        ({
            let own = match l {
                DataLifecycle::Active => c.active_ttl,
                DataLifecycle::Historical => c.historical_ttl,
                DataLifecycle::Archived => c.archived_ttl,
            };
            let reach = if own < cap { own } else { cap };
            let r = extended_ttl(current, target_ttl(c, l), cap);
            &&& (current > own / 2 ==> r == current)
            &&& (current <= own / 2 ==> r == if reach > current { reach } else { current })
            &&& r <= if own > current { own } else { current }
        }),
{
}

} // verus!
