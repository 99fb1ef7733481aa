//! Factory lifecycle: configuration acceptance, rejection safety, and the
//! drain terminal state.

use envoy_sdk::config::{ConfigStatus, ExtensionConfig, CONFIG_VERSION};
use envoy_sdk::factory::{DrainState, FactoryCore};
use envoy_sdk::host::ExtensionError;
use envoy_sdk::instance::StatsHandles;

fn stats() -> StatsHandles {
    StatsHandles { requests_total: 10, requests_active: 11 }
}

#[test]
fn accepted_status_reads_true() {
    assert!(ConfigStatus::Accepted.as_bool());
    assert!(!ConfigStatus::Rejected.as_bool());
}

#[test]
fn decode_then_encode_round_trips() {
    let buffer = vec![CONFIG_VERSION, 7, 8, 9];
    let config = ExtensionConfig::decode(&buffer).unwrap();
    assert_eq!(config.value, vec![7, 8, 9]);
    let encoded = config.encode();
    assert_eq!(encoded, buffer);
    let again = ExtensionConfig::decode(&encoded).unwrap();
    assert_eq!(again, config);
}

#[test]
fn decode_rejects_wrong_version() {
    assert!(ExtensionConfig::decode(&vec![2, 5]).is_none());
    assert!(ExtensionConfig::decode(&Vec::new()).is_none());
}

#[test]
fn default_config_is_empty() {
    let config = ExtensionConfig::default();
    assert!(config.value.is_empty());
    assert_eq!(config.encode(), vec![CONFIG_VERSION]);
}

#[test]
fn fresh_factory_starts_unconfigured() {
    let mut factory = FactoryCore::new(stats());
    assert!(!factory.configured());
    assert_eq!(factory.drain_state(), DrainState::Active);
    assert!(factory.config_value().is_empty());
    let instance = factory.create_extension(1).unwrap();
    assert!(instance.config_value().is_empty());
}

#[test]
fn factory_accepts_valid_configuration() {
    let mut factory = FactoryCore::new(stats());
    let status = factory.apply_configuration(Some(vec![CONFIG_VERSION, 42]));
    assert_eq!(status, ConfigStatus::Accepted);
    assert!(factory.configured());
    assert_eq!(factory.config_value(), &vec![42]);
}

#[test]
fn missing_configuration_restores_default() {
    let mut factory = FactoryCore::new(stats());
    factory.apply_configuration(Some(vec![CONFIG_VERSION, 9]));
    let status = factory.apply_configuration(None);
    assert_eq!(status, ConfigStatus::Accepted);
    assert!(factory.config_value().is_empty());
}

#[test]
fn rejected_configuration_keeps_prior_snapshot() {
    let mut factory = FactoryCore::new(stats());
    let accepted = factory.apply_configuration(Some(vec![CONFIG_VERSION, 1, 2]));
    assert_eq!(accepted, ConfigStatus::Accepted);
    let instance_one = factory.create_extension(1).unwrap();
    assert_eq!(instance_one.config_value(), &vec![1, 2]);

    let rejected = factory.apply_configuration(Some(vec![99, 99]));
    assert_eq!(rejected, ConfigStatus::Rejected);
    assert!(factory.configured());
    assert_eq!(factory.config_value(), &vec![1, 2]);

    let instance_two = factory.create_extension(2).unwrap();
    assert_eq!(instance_two.config_value(), &vec![1, 2]);
    assert_eq!(instance_one.config_value(), instance_two.config_value());
}

#[test]
fn drain_refuses_new_instances() {
    let mut factory = FactoryCore::new(stats());
    factory.apply_configuration(Some(vec![CONFIG_VERSION, 5]));
    assert!(factory.create_extension(1).is_ok());
    let accepted = factory.request_drain(true);
    assert!(accepted);
    assert_eq!(factory.drain_state(), DrainState::Drained);
    assert!(matches!(factory.create_extension(2), Err(ExtensionError::Drained)));
}

#[test]
fn deferred_drain_completes_later() {
    let mut factory = FactoryCore::new(stats());
    let accepted = factory.request_drain(false);
    assert!(!accepted);
    assert_eq!(factory.drain_state(), DrainState::Draining);
    assert!(factory.create_extension(1).is_ok());
    factory.drain_done();
    assert_eq!(factory.drain_state(), DrainState::Drained);
    assert!(matches!(factory.create_extension(2), Err(ExtensionError::Drained)));
}

#[test]
fn drain_is_terminal_under_reconfiguration() {
    let mut factory = FactoryCore::new(stats());
    factory.request_drain(true);
    factory.apply_configuration(Some(vec![CONFIG_VERSION, 3]));
    assert_eq!(factory.drain_state(), DrainState::Drained);
    assert!(matches!(factory.create_extension(7), Err(ExtensionError::Drained)));
}

#[test]
fn factory_shares_stats_handles() {
    let mut factory = FactoryCore::new(stats());
    let instance = factory.create_extension(4).unwrap();
    assert_eq!(factory.stats(), stats());
    assert_eq!(instance.stats(), stats());
}
