use stellai::proxy::{Receiver, StellAIverseProxy};
use stellai::types::Address;

fn deploy_proxy() -> (StellAIverseProxy, Address, Address) {
    let mut proxy = StellAIverseProxy::new();
    let admin = Address(1);
    let impl_id = Address(2);
    proxy.init_proxy(admin, impl_id);
    (proxy, admin, impl_id)
}

#[test]
fn test_init_proxy_sets_implementation_and_unpaused() {
    let (proxy, _admin, impl_id) = deploy_proxy();
    assert_eq!(proxy.implementation(), impl_id);
    assert!(!proxy.is_paused());
}

#[test]
fn test_upgrade_history_empty_after_init() {
    let (proxy, _admin, _impl_id) = deploy_proxy();
    assert_eq!(proxy.upgrade_history().len(), 0);
}

#[test]
fn test_pause_sets_paused_flag() {
    let (mut proxy, _admin, _impl_id) = deploy_proxy();
    proxy.pause();
    assert!(proxy.is_paused());
}

#[test]
fn test_resume_clears_paused_flag() {
    let (mut proxy, _admin, _impl_id) = deploy_proxy();
    proxy.pause();
    proxy.resume();
    assert!(!proxy.is_paused());
}

#[test]
fn upgrade_pauses_until_completed_and_records_history() {
    let (mut proxy, admin, _impl_id) = deploy_proxy();
    assert_eq!(proxy.admin(), admin);
    let next = Address(3);
    proxy.upgrade(next, 500);
    assert!(proxy.is_paused());
    assert_eq!(proxy.implementation(), next);
    proxy.complete_upgrade();
    assert!(!proxy.is_paused());
    assert_eq!(proxy.dispatch(), next);
    assert_eq!(proxy.upgrade_history().clone(), vec![(500u64, next)]);
}

#[test]
fn receiver_ping_remembers_input() {
    let mut r = Receiver::new();
    assert_eq!(r.last(), None);
    assert_eq!(r.ping(123), 124);
    assert_eq!(r.last(), Some(123));
}
