use stellai::lifecycle::{
    DataLifecycle, LifecycleError, LifecycleManager, TtlConfig, DEFAULT_ACTIVE_TTL, DEFAULT_ARCHIVED_TTL,
    DEFAULT_MAX_ENTRY_TTL, DEFAULT_MIN_PERSISTENT_ENTRY_TTL,
};
use stellai::types::Address;

#[test]
fn test_cleanup_expired() {
    let mut m = LifecycleManager::new();
    let key = "evolution_1".to_string();
    m.set_entry(key.clone(), 1u32.to_le_bytes().to_vec());
    m.remove_entry(&key);

    m.cleanup_expired_evolution(&key);
    assert!(!m.has_entry(&key));
}

#[test]
fn test_archive_listing() {
    let mut m = LifecycleManager::new();
    let active_key = "listing_1".to_string();
    let archived_key = "listing_1_archived".to_string();
    m.set_entry(active_key.clone(), vec![1, 2, 3]);

    m.archive_listing(&active_key, &archived_key).unwrap();
    assert!(!m.has_entry(&active_key));
    assert!(m.has_entry(&archived_key));
}

#[test]
fn test_extend_ttl_active() {
    let mut m = LifecycleManager::new();
    m.init_contract(Address(1));
    let key = "agent_1".to_string();
    m.set_entry(key.clone(), vec![1]);
    m.extend_ttl(&key, DataLifecycle::Active);
    assert_eq!(m.entry_ttl(&key), Some(DEFAULT_ACTIVE_TTL));
    // Above half the target: no change.
    m.extend_ttl(&key, DataLifecycle::Historical);
    assert_eq!(m.entry_ttl(&key), Some(DEFAULT_ACTIVE_TTL));
}

#[test]
fn archive_entry_moves_data_and_tracks_state() {
    let mut m = LifecycleManager::new();
    let admin = Address(1);
    m.init_contract(admin);
    let key = "listing_7".to_string();
    let archived = "listing_7_archived".to_string();
    m.set_entry(key.clone(), vec![9, 8]);
    m.archive_entry(admin, &key, &archived);
    assert!(!m.has_entry(&key));
    // A new persistent entry lives the ledger's minimum, above half the archived target.
    assert_eq!(m.entry_ttl(&archived), Some(DEFAULT_MIN_PERSISTENT_ENTRY_TTL - 1));
    assert_eq!(m.get_entry_state(&archived), DataLifecycle::Archived);
    assert_eq!(m.get_entry_state(&key), DataLifecycle::Active);
}

#[test]
fn archive_listing_of_missing_entry_fails() {
    let mut m = LifecycleManager::new();
    let r = m.archive_listing(&"nothing".to_string(), &"nothing_archived".to_string());
    assert_eq!(r, Err(LifecycleError::EntryNotFound));
}

#[test]
fn cleanup_expired_counts_only_missing_entries() {
    let mut m = LifecycleManager::new();
    let admin = Address(1);
    m.init_contract(admin);
    m.set_entry("live".to_string(), vec![1]);
    let keys = vec!["live".to_string(), "gone_a".to_string(), "gone_b".to_string()];
    assert_eq!(m.cleanup_expired(admin, &keys), 2);
}

#[test]
fn set_ttl_config_and_batch_extend() {
    let mut m = LifecycleManager::with_ledger_limits(100, DEFAULT_MAX_ENTRY_TTL);
    let admin = Address(1);
    m.init_contract(admin);
    let config = TtlConfig { active_ttl: 1000, historical_ttl: 500, archived_ttl: 100 };
    m.set_ttl_config(admin, config);
    assert_eq!(m.get_ttl_config(), config);
    m.set_entry("a".to_string(), vec![1]);
    m.set_entry("b".to_string(), vec![2]);
    m.batch_extend(&vec!["a".to_string(), "b".to_string(), "c".to_string()], DataLifecycle::Historical);
    assert_eq!(m.entry_ttl(&"a".to_string()), Some(500));
    assert_eq!(m.entry_ttl(&"b".to_string()), Some(500));
    assert_eq!(m.entry_ttl(&"c".to_string()), None);
}

#[test]
fn archiving_extends_only_entries_at_or_below_half_the_target() {
    let mut m = LifecycleManager::with_ledger_limits(16, DEFAULT_MAX_ENTRY_TTL);
    let admin = Address(1);
    m.init_contract(admin);
    m.set_entry("l".to_string(), vec![1]);
    assert_eq!(m.entry_ttl(&"l".to_string()), Some(15));
    m.archive_entry(admin, &"l".to_string(), &"l_arch".to_string());
    assert_eq!(m.entry_ttl(&"l_arch".to_string()), Some(DEFAULT_ARCHIVED_TTL));
}

#[test]
fn extension_is_capped_by_the_ledger_maximum() {
    let mut m = LifecycleManager::with_ledger_limits(16, 1000);
    m.init_contract(Address(1));
    m.set_entry("k".to_string(), vec![1]);
    m.extend_ttl(&"k".to_string(), DataLifecycle::Active);
    assert_eq!(m.entry_ttl(&"k".to_string()), Some(999));
}
