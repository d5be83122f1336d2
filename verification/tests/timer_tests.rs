use sip_transaction::key::TransactionKey;
use sip_transaction::method::Method;
use sip_transaction::timer::{calculate_backoff_interval, TimerConfig, TimerManager, TimerSettings};

fn dummy_tm_tx_key(name: &str) -> TransactionKey {
    TransactionKey::new(format!("branch-manager-{}", name), Method::Options, false)
}

#[test]
fn timer_config_default() {
    let config = TimerConfig::default();
    assert_eq!(config.t1, 500);
    assert_eq!(config.t2, 4000);
    assert_eq!(config.t4, 5000);
}

#[test]
fn timer_config_clonable_and_copyable() {
    let config1 = TimerConfig::default();
    let config2 = config1;
    let config3 = config1.clone();

    assert_eq!(config1.t1, config2.t1);
    assert_eq!(config1.t1, config3.t1);
}

#[test]
fn timer_manager_new_and_default() {
    let settings = TimerSettings { t1: 100, ..Default::default() };
    let manager = TimerManager::new(Some(settings.clone()));
    assert_eq!(manager.settings(), &settings);
    assert!(!manager.is_registered(&dummy_tm_tx_key("any")));

    let default_manager = TimerManager::default();
    assert_eq!(*default_manager.settings(), TimerSettings::default());
}

#[test]
fn timer_manager_register_unregister_transaction() {
    let mut manager = TimerManager::new(None);
    let tx_key = dummy_tm_tx_key("reg_unreg");

    manager.register_transaction(tx_key.clone());
    assert!(manager.is_registered(&tx_key));

    manager.unregister_transaction(&tx_key);
    assert!(!manager.is_registered(&tx_key));

    manager.unregister_transaction(&dummy_tm_tx_key("non_existent"));
}

#[test]
fn timer_manager_settings_accessor() {
    let settings = TimerSettings { t1: 10, ..Default::default() };
    let manager = TimerManager::new(Some(settings));
    assert_eq!(manager.settings().t1, 10);
}

#[test]
fn timer_settings_defaults_follow_rfc3261() {
    let s = TimerSettings::default();
    assert_eq!(s.t1, 500);
    assert_eq!(s.t2, 4000);
    assert_eq!(s.t4, 5000);
    assert_eq!(s.transaction_timeout, 32000);
    assert_eq!(s.wait_time_d, 32000);
    assert_eq!(s.wait_time_k, 5000);
    assert_eq!(s.wait_time_j, 32000);
}

#[test]
fn backoff_doubles_up_to_t2() {
    let s = TimerSettings::default();
    assert_eq!(calculate_backoff_interval(500, &s), 1000);
    assert_eq!(calculate_backoff_interval(1000, &s), 2000);
    assert_eq!(calculate_backoff_interval(2000, &s), 4000);
    assert_eq!(calculate_backoff_interval(4000, &s), 4000);
    assert_eq!(calculate_backoff_interval(3000, &s), 4000);
}

#[test]
fn registering_twice_keeps_one_registration() {
    let mut manager = TimerManager::new(None);
    let k = dummy_tm_tx_key("twice");
    manager.register_transaction(k.clone());
    manager.register_transaction(k.clone());
    manager.unregister_transaction(&k);
    assert!(!manager.is_registered(&k));
}

#[test]
fn unregistering_one_keeps_others() {
    let mut manager = TimerManager::new(None);
    let a = dummy_tm_tx_key("a");
    let b = dummy_tm_tx_key("b");
    manager.register_transaction(a.clone());
    manager.register_transaction(b.clone());
    manager.unregister_transaction(&a);
    assert!(!manager.is_registered(&a));
    assert!(manager.is_registered(&b));
}
