use stellai::execution_hub::{ExecutionHub, HubError};
use stellai::types::Address;

fn setup_test() -> (ExecutionHub, Address, Address) {
    let mut hub = ExecutionHub::new();
    let admin = Address(1);
    let agent_nft_id = Address(500);
    hub.try_initialize(admin, agent_nft_id).unwrap();
    (hub, admin, agent_nft_id)
}

fn exec(hub: &mut ExecutionHub, agent_id: u64, executor: Address, action: &str, nonce: u64, hash: &[u8], owner: Address, now: u64) -> Result<u64, HubError> {
    hub.try_execute_action(agent_id, executor, action.to_string(), vec![1], nonce, hash.to_vec(), owner, now)
}

#[test]
fn test_initialization() {
    let (hub, admin, _) = setup_test();
    assert_eq!(hub.try_get_admin().unwrap(), admin);
    assert_eq!(hub.get_execution_counter(), 0);
}

#[test]
fn test_execution_counter_increment() {
    let (mut hub, _admin, _) = setup_test();
    let executor = Address(2);
    let exec_id_1 = hub.try_execute_action(1, executor, "test_action".to_string(), vec![1, 2, 3], 1, vec![0xab, 0xcd, 0xef], executor, 0).unwrap();
    assert_eq!(exec_id_1, 1);
    assert_eq!(hub.get_execution_counter(), 1);
    let exec_id_2 = hub.try_execute_action(1, executor, "test_action".to_string(), vec![1, 2, 3], 2, vec![0x12, 0x34, 0x56], executor, 0).unwrap();
    assert_eq!(exec_id_2, 2);
    assert_eq!(hub.get_execution_counter(), 2);
}

#[test]
fn test_permission_checks() {
    let (mut hub, _admin, _) = setup_test();
    let owner = Address(2);
    exec(&mut hub, 1, owner, "test", 1, &[0xaa], owner, 0).unwrap();
}

#[test]
fn test_operator_delegation() {
    let (mut hub, _admin, _) = setup_test();
    let owner = Address(2);
    let operator = Address(3);
    hub.try_authorize_operator(1, owner, operator, 100, owner, 0).unwrap();
    exec(&mut hub, 1, operator, "test", 1, &[0xaa], owner, 0).unwrap();
    hub.try_revoke_operator(1, owner, owner).unwrap();
}

#[test]
fn test_register_and_get_rule() {
    let (mut hub, _admin, _) = setup_test();
    let owner = Address(2);
    hub.try_register_rule(1, owner, "my_rule".to_string(), vec![10, 20, 30]).unwrap();
    let retrieved = hub.try_get_rule(1, "my_rule".to_string()).unwrap();
    assert!(retrieved.is_some());
    assert_eq!(retrieved.unwrap(), vec![10, 20, 30]);
}

#[test]
fn test_get_history() {
    let (mut hub, _admin, _) = setup_test();
    let executor = Address(2);
    exec(&mut hub, 1, executor, "test_action", 1, &[0x11, 0x22], executor, 0).unwrap();
    exec(&mut hub, 1, executor, "test_action", 2, &[0x33, 0x44], executor, 0).unwrap();
    let history = hub.try_get_history(1, 10).unwrap();
    assert_eq!(history.len(), 2);
    assert_eq!(hub.try_get_action_count(1).unwrap(), 2);
}

#[test]
fn test_admin_transfer() {
    let (mut hub, admin1, _) = setup_test();
    let admin2 = Address(9);
    hub.try_transfer_admin(admin1, admin2).unwrap();
    assert_eq!(hub.try_get_admin().unwrap(), admin2);
}

#[test]
fn test_rate_limiting() {
    let (mut hub, _admin, _) = setup_test();
    let executor = Address(2);
    for i in 1..=10u64 {
        exec(&mut hub, 1, executor, "test", i, &[i as u8, (i * 2) as u8], executor, 0).unwrap();
    }
    let result = exec(&mut hub, 1, executor, "test", 11, &[11, 22], executor, 0).unwrap();
    assert!(result > 0);
}

#[test]
fn test_execution_receipt_storage() {
    let (mut hub, _admin, _) = setup_test();
    let executor = Address(2);
    let exec_hash = vec![0xde, 0xad, 0xbe, 0xef];
    let exec_id = hub.try_execute_action(1, executor, "transfer".to_string(), vec![1, 2, 3], 1, exec_hash.clone(), executor, 0).unwrap();
    let receipt = hub.get_execution_receipt(exec_id);
    assert!(receipt.is_some());
    let receipt = receipt.unwrap();
    assert_eq!(receipt.execution_id, exec_id);
    assert_eq!(receipt.agent_id, 1);
    assert_eq!(receipt.action, "transfer".to_string());
    assert_eq!(receipt.executor, executor);
    assert_eq!(receipt.execution_hash, exec_hash);
}

#[test]
fn test_get_agent_for_execution() {
    let (mut hub, _admin, _) = setup_test();
    let executor = Address(2);
    let exec_id = exec(&mut hub, 42, executor, "action", 1, &[0xca, 0xfe], executor, 0).unwrap();
    let agent_id = hub.get_agent_for_execution(exec_id);
    assert!(agent_id.is_some());
    assert_eq!(agent_id.unwrap(), 42);
}

#[test]
fn test_get_agent_receipts() {
    let (mut hub, _admin, _) = setup_test();
    let executor = Address(2);
    for i in 1..=5u64 {
        exec(&mut hub, 1, executor, "batch_action", i, &[i as u8, (i * 10) as u8], executor, 0).unwrap();
    }
    let receipts = hub.try_get_agent_receipts(1, 10).unwrap();
    assert_eq!(receipts.len(), 5);
}

#[test]
fn test_receipt_immutability() {
    let (mut hub, _admin, _) = setup_test();
    let executor = Address(2);
    let exec_id = exec(&mut hub, 1, executor, "immutable_test", 1, &[0x11, 0x22, 0x33], executor, 5).unwrap();
    let receipt_1 = hub.get_execution_receipt(exec_id).unwrap();
    exec(&mut hub, 1, executor, "immutable_test", 2, &[0x44, 0x55, 0x66], executor, 6).unwrap();
    let receipt_2 = hub.get_execution_receipt(exec_id).unwrap();
    assert_eq!(receipt_1.execution_hash, receipt_2.execution_hash);
    assert_eq!(receipt_1.timestamp, receipt_2.timestamp);
}

#[test]
fn test_rate_limit_config_storage_and_retrieval() {
    let (mut hub, admin, _) = setup_test();
    let config = hub.try_get_rate_limit(1).unwrap();
    assert_eq!(config.operations, 100);
    assert_eq!(config.window_seconds, 60);
    hub.try_set_agent_rate_limit(admin, 1, 200, 120).unwrap();
    let config = hub.try_get_rate_limit(1).unwrap();
    assert_eq!(config.operations, 200);
    assert_eq!(config.window_seconds, 120);
    let config2 = hub.try_get_rate_limit(2).unwrap();
    assert_eq!(config2.operations, 100);
    assert_eq!(config2.window_seconds, 60);
}

#[test]
fn test_global_rate_limit_change() {
    let (mut hub, admin, _) = setup_test();
    hub.try_set_global_rate_limit(admin, 50, 300).unwrap();
    let config = hub.try_get_rate_limit(1).unwrap();
    assert_eq!(config.operations, 50);
    assert_eq!(config.window_seconds, 300);
}

#[test]
fn test_agent_override_and_reset() {
    let (mut hub, admin, _) = setup_test();
    hub.try_set_agent_rate_limit(admin, 1, 500, 3600).unwrap();
    let config = hub.try_get_rate_limit(1).unwrap();
    assert_eq!(config.operations, 500);
    assert_eq!(config.window_seconds, 3600);
    hub.try_reset_agent_rate_limit(admin, 1).unwrap();
    let config = hub.try_get_rate_limit(1).unwrap();
    assert_eq!(config.operations, 100);
    assert_eq!(config.window_seconds, 60);
}

#[test]
fn test_multiple_rate_limit_levels() {
    let (mut hub, admin, _) = setup_test();
    hub.try_set_global_rate_limit(admin, 10, 60).unwrap();
    hub.try_set_agent_rate_limit(admin, 1, 1000, 3600).unwrap();
    assert_eq!(hub.try_get_rate_limit(1).unwrap().operations, 1000);
    assert_eq!(hub.try_get_rate_limit(2).unwrap().operations, 10);
}

#[test]
fn test_rate_limit_max_window_values() {
    let (mut hub, admin, _) = setup_test();
    hub.try_set_global_rate_limit(admin, 1, u64::MAX).unwrap();
    let config = hub.try_get_rate_limit(1).unwrap();
    assert_eq!(config.operations, 1);
    assert_eq!(config.window_seconds, u64::MAX);
}

#[test]
fn test_bypass_allows_over_limit() {
    let (mut hub, admin, _) = setup_test();
    let executor = Address(2);
    hub.try_set_global_rate_limit(admin, 2, 60).unwrap();
    let now = 0;
    hub.try_set_rate_limit_bypass(admin, 1, "emergency maintenance".to_string(), now + 3600, now).unwrap();
    for i in 1..=5u64 {
        let id = exec(&mut hub, 1, executor, "test", i, &[i as u8], executor, now).unwrap();
        assert!(id > 0);
    }
}

#[test]
fn hub_refusals_match_their_errors() {
    let (mut hub, admin, agent_nft) = setup_test();
    let owner = Address(2);
    let other = Address(3);
    let operator = Address(4);
    assert_eq!(hub.try_initialize(admin, agent_nft), Err(HubError::AlreadyInitialized));
    assert_eq!(exec(&mut hub, 1, other, "test", 1, &[0xaa], owner, 0), Err(HubError::NotOwnerOrOperator));
    assert_eq!(exec(&mut hub, 0, owner, "test", 1, &[0xaa], owner, 0), Err(HubError::InvalidAgentId));
    exec(&mut hub, 1, owner, "test", 1, &[0xaa], owner, 0).unwrap();
    assert_eq!(exec(&mut hub, 1, owner, "test", 1, &[0xaa], owner, 0), Err(HubError::InvalidNonce));
    hub.try_authorize_operator(1, owner, operator, 10, owner, 0).unwrap();
    assert_eq!(exec(&mut hub, 1, operator, "test", 2, &[0xaa], owner, 20), Err(HubError::OperatorExpired));
    hub.try_revoke_operator(1, owner, owner).unwrap();
    assert_eq!(exec(&mut hub, 1, operator, "test", 2, &[0xaa], owner, 5), Err(HubError::NotOwnerOrOperator));
    assert_eq!(hub.try_set_global_rate_limit(admin, 0, 60), Err(HubError::ZeroOperations));
    assert_eq!(hub.try_set_global_rate_limit(admin, 100, 0), Err(HubError::ZeroWindow));
    assert_eq!(hub.try_set_global_rate_limit(other, 50, 60), Err(HubError::NotAdmin));
    assert_eq!(hub.try_set_rate_limit_bypass(admin, 1, "r".to_string(), 7, 7), Err(HubError::BypassNotInFuture));
    let long_action: String = std::iter::repeat('x').take(257).collect();
    assert_eq!(hub.try_execute_action(1, owner, long_action, vec![], 3, vec![], owner, 0), Err(HubError::StringTooLong));
    assert_eq!(hub.try_execute_action(1, owner, "a".to_string(), vec![0; 65537], 3, vec![], owner, 0), Err(HubError::DataTooLarge));
    assert_eq!(hub.try_get_history(1, 501).err(), Some(HubError::LimitTooLarge));
}

#[test]
fn rate_limit_applies_after_bypass_is_cleared() {
    let (mut hub, admin, _) = setup_test();
    let executor = Address(2);
    hub.try_set_global_rate_limit(admin, 1, 60).unwrap();
    hub.try_set_rate_limit_bypass(admin, 1, "brief bypass".to_string(), 3600, 0).unwrap();
    exec(&mut hub, 1, executor, "test", 1, &[1], executor, 0).unwrap();
    hub.try_clear_rate_limit_bypass(admin, 1).unwrap();
    exec(&mut hub, 1, executor, "test", 2, &[2], executor, 0).unwrap();
    assert_eq!(exec(&mut hub, 1, executor, "test", 3, &[3], executor, 0), Err(HubError::RateLimitExceeded));
    // A new window starts once the old one has passed.
    exec(&mut hub, 1, executor, "test", 3, &[3], executor, 61).unwrap();
}

/// Aborts with the hub's refusal text, as a contract call does.
fn ok<T>(r: Result<T, HubError>) -> T {
    match r {
        Ok(v) => v,
        Err(e) => panic!("{}", e.message()),
    }
}

#[test]
#[should_panic(expected = "Contract already initialized")]
fn test_double_initialization() {
    let (mut hub, admin, agent_nft_id) = setup_test();
    ok(hub.try_initialize(admin, agent_nft_id));
}

#[test]
#[should_panic(expected = "Unauthorized: executor is not owner or operator")]
fn test_unauthorized_execution() {
    let (mut hub, _admin, _) = setup_test();
    let owner = Address(2);
    let other = Address(3);
    ok(exec(&mut hub, 1, other, "test", 1, &[0xaa], owner, 0));
}

#[test]
#[should_panic(expected = "Unauthorized: executor is not owner or operator")]
fn test_revoked_operator() {
    let (mut hub, _admin, _) = setup_test();
    let owner = Address(2);
    let operator = Address(3);
    ok(hub.try_authorize_operator(1, owner, operator, 100, owner, 0));
    ok(hub.try_revoke_operator(1, owner, owner));
    ok(exec(&mut hub, 1, operator, "test", 1, &[0xaa], owner, 0));
}

#[test]
#[should_panic(expected = "Unauthorized: operator authorization expired")]
fn test_expired_operator() {
    let (mut hub, _admin, _) = setup_test();
    let owner = Address(2);
    let operator = Address(3);
    ok(hub.try_authorize_operator(1, owner, operator, 10, owner, 0));
    ok(exec(&mut hub, 1, operator, "test", 1, &[0xaa], owner, 20));
}

#[test]
#[should_panic(expected = "Invalid nonce")]
fn test_replay_protection() {
    let (mut hub, _admin, _) = setup_test();
    let executor = Address(2);
    ok(exec(&mut hub, 1, executor, "test", 1, &[0xaa, 0xbb], executor, 0));
    ok(exec(&mut hub, 1, executor, "test", 1, &[0xaa, 0xbb], executor, 0));
}

#[test]
#[should_panic(expected = "Rate limit exceeded")]
fn test_rate_limit_integration_with_execution() {
    let (mut hub, admin, _) = setup_test();
    let executor = Address(2);
    ok(hub.try_set_global_rate_limit(admin, 3, 60));
    for i in 1..=3u64 {
        let h = [i as u8, (i * 2) as u8];
        ok(exec(&mut hub, 1, executor, "test", i, &h, executor, 0));
    }
    ok(exec(&mut hub, 1, executor, "test", 4, &[4, 8], executor, 0));
}

#[test]
#[should_panic(expected = "operations must be greater than 0")]
fn test_rate_limit_zero_ops_panics() {
    let (mut hub, admin, _) = setup_test();
    ok(hub.try_set_global_rate_limit(admin, 0, 60));
}

#[test]
#[should_panic(expected = "window_seconds must be greater than 0")]
fn test_rate_limit_zero_window_panics() {
    let (mut hub, admin, _) = setup_test();
    ok(hub.try_set_global_rate_limit(admin, 100, 0));
}

#[test]
#[should_panic(expected = "Rate limit exceeded")]
fn test_bypass_cleared_then_limit_applies() {
    let (mut hub, admin, _) = setup_test();
    let executor = Address(2);
    ok(hub.try_set_global_rate_limit(admin, 1, 60));
    let now = 0u64;
    ok(hub.try_set_rate_limit_bypass(admin, 1, "brief bypass".to_string(), now + 3600, now));
    ok(exec(&mut hub, 1, executor, "test", 1, &[1], executor, now));
    ok(hub.try_clear_rate_limit_bypass(admin, 1));
    ok(exec(&mut hub, 1, executor, "test", 2, &[2], executor, now));
    ok(exec(&mut hub, 1, executor, "test", 3, &[3], executor, now));
}

#[test]
#[should_panic(expected = "valid_until must be in the future")]
fn test_bypass_valid_until_must_be_future() {
    let (mut hub, admin, _) = setup_test();
    let now = 0u64;
    ok(hub.try_set_rate_limit_bypass(admin, 1, "reason".to_string(), now, now));
}

#[test]
#[should_panic(expected = "Unauthorized: caller is not admin")]
fn test_set_global_rate_limit_non_admin_panics() {
    let (mut hub, _admin, _) = setup_test();
    let other = Address(9);
    ok(hub.try_set_global_rate_limit(other, 50, 60));
}

#[test]
fn hub_refusals_before_initialisation() {
    let hub = ExecutionHub::new();
    assert_eq!(hub.try_get_admin(), Err(HubError::AdminNotSet));
    assert_eq!(hub.try_get_rate_limit(1), Err(HubError::GlobalLimitNotSet));
    assert_eq!(hub.owner_query_target(1), Err(HubError::AgentNftNotSet));
    assert_eq!(hub.owner_query_target(0), Err(HubError::InvalidAgentId));
    assert_eq!(HubError::AgentNftNotSet.message(), "AgentNFT contract not set");
}

#[test]
fn default_limit_blocks_the_hundred_and_first_execution() {
    let (mut hub, _admin, _) = setup_test();
    let executor = Address(2);
    for i in 1..=100u64 {
        exec(&mut hub, 1, executor, "test", i, &[i as u8], executor, 30).unwrap();
    }
    assert_eq!(exec(&mut hub, 1, executor, "test", 101, &[1], executor, 90), Err(HubError::RateLimitExceeded));
    assert_eq!(hub.try_get_action_count(1).unwrap(), 100);
    assert_eq!(exec(&mut hub, 1, executor, "test", 101, &[1], executor, 91), Ok(101));
}

#[test]
fn window_admits_at_most_its_limit() {
    let (mut hub, admin, _) = setup_test();
    let executor = Address(2);
    hub.try_set_global_rate_limit(admin, 2, 60).unwrap();
    assert!(exec(&mut hub, 1, executor, "a", 1, &[1], executor, 0).is_ok());
    assert!(exec(&mut hub, 1, executor, "a", 2, &[2], executor, 10).is_ok());
    assert_eq!(exec(&mut hub, 1, executor, "a", 3, &[3], executor, 60), Err(HubError::RateLimitExceeded));
    assert!(exec(&mut hub, 1, executor, "a", 3, &[3], executor, 61).is_ok());
}

#[test]
fn entry_points_carry_out_accepted_calls() {
    let mut hub = ExecutionHub::new();
    let admin = Address(1);
    hub.initialize(admin, Address(500));
    let owner = Address(2);
    let operator = Address(3);
    hub.authorize_operator(1, owner, operator, 100, owner, 0);
    assert_eq!(hub.execute_action(1, operator, "a".to_string(), vec![1], 1, vec![9], owner, 50), 1);
    assert_eq!(hub.execute_action(1, owner, "b".to_string(), vec![1], 2, vec![8], owner, 60), 2);
    assert_eq!(hub.get_history(1, 10).len(), 2);
    assert_eq!(hub.get_action_count(1), 2);
    assert_eq!(hub.get_agent_receipts(1, 1).len(), 1);
    hub.set_global_rate_limit(admin, 5, 30);
    hub.set_agent_rate_limit(admin, 1, 7, 40);
    assert_eq!(hub.get_rate_limit(1).operations, 7);
    hub.reset_agent_rate_limit(admin, 1);
    assert_eq!(hub.get_effective_rate_limit(1).operations, 5);
    hub.set_rate_limit_bypass(admin, 1, "r".to_string(), 100, 60);
    assert_eq!(hub.check_rate_limit(1, 70), None);
    hub.clear_rate_limit_bypass(admin, 1);
    assert!(hub.check_rate_limit(1, 70).is_some());
    hub.register_rule(1, owner, "x".to_string(), vec![4]);
    assert_eq!(hub.get_rule(1, "x".to_string()), Some(vec![4]));
    hub.revoke_rule(1, owner, "x".to_string());
    assert_eq!(hub.get_rule(1, "x".to_string()), None);
    hub.revoke_operator(1, owner, owner);
    hub.transfer_admin(admin, Address(9));
    assert_eq!(hub.get_admin(), Address(9));
}

#[test]
fn full_counter_refuses_instead_of_reusing_an_id() {
    let (mut hub, _admin, _) = setup_test();
    hub.execution_counter = u64::MAX;
    let executor = Address(2);
    assert_eq!(exec(&mut hub, 1, executor, "a", 1, &[1], executor, 0), Err(HubError::ArithmeticOverflow));
    assert_eq!(hub.get_execution_counter(), u64::MAX);
}

#[test]
fn full_history_refuses_without_effect() {
    let (mut hub, admin, _) = setup_test();
    let executor = Address(2);
    hub.try_set_global_rate_limit(admin, 5000, 60).unwrap();
    for i in 1..=1000u64 {
        exec(&mut hub, 1, executor, "a", i, &[1], executor, 0).unwrap();
    }
    assert_eq!(exec(&mut hub, 1, executor, "a", 1001, &[1], executor, 0), Err(HubError::HistoryLimitExceeded));
    assert_eq!(hub.get_execution_counter(), 1000);
    assert_eq!(hub.get_action_count(1), 1000);
}
