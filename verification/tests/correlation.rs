//! The outbound-call correlation protocol and the dispatch registry.

use envoy_sdk::config::CONFIG_VERSION;
use envoy_sdk::dispatch::Registry;
use envoy_sdk::factory::FactoryCore;
use envoy_sdk::host::ExtensionError;
use envoy_sdk::instance::{ExtensionInstance, RequestHandle, StatsHandles};

fn configured_factory() -> FactoryCore {
    let mut factory = FactoryCore::new(StatsHandles { requests_total: 1, requests_active: 2 });
    factory.apply_configuration(Some(vec![CONFIG_VERSION, 8]));
    factory
}

fn instance(factory: &mut FactoryCore, id: u32) -> ExtensionInstance {
    factory.create_extension(id).unwrap()
}

#[test]
fn request_cycle_balances_counters() {
    let mut factory = configured_factory();
    let mut inst = instance(&mut factory, 1);
    assert!(inst.active_request().is_none());
    assert_eq!(inst.issued_count(), 0);
    assert_eq!(inst.completed_count(), 0);

    inst.record_issued(RequestHandle(7));
    assert_eq!(inst.active_request(), Some(RequestHandle(7)));
    assert_eq!(inst.issued_count(), 1);
    assert_eq!(inst.completed_count(), 0);

    assert!(inst.on_http_call_response(RequestHandle(7)).is_ok());
    assert!(inst.active_request().is_none());
    assert_eq!(inst.issued_count(), 1);
    assert_eq!(inst.completed_count(), 1);
}

#[test]
fn repeated_cycles_stay_balanced() {
    let mut factory = configured_factory();
    let mut inst = instance(&mut factory, 1);
    for token in 0..5u32 {
        inst.record_issued(RequestHandle(token));
        assert!(inst.on_http_call_response(RequestHandle(token)).is_ok());
        assert_eq!(inst.issued_count(), inst.completed_count());
        assert!(inst.active_request().is_none());
    }
    assert_eq!(inst.issued_count(), 5);
}

#[test]
fn mismatched_handle_is_detected() {
    let mut factory = configured_factory();
    let mut inst = instance(&mut factory, 1);
    inst.record_issued(RequestHandle(3));

    let result = inst.on_http_call_response(RequestHandle(4));
    assert!(matches!(result, Err(ExtensionError::CorrelationMismatch)));
    assert_eq!(inst.active_request(), Some(RequestHandle(3)));
    assert_eq!(inst.issued_count(), 1);
    assert_eq!(inst.completed_count(), 0);

    assert!(inst.on_http_call_response(RequestHandle(3)).is_ok());
    assert_eq!(inst.completed_count(), 1);
}

#[test]
fn response_without_active_request_is_mismatch() {
    let mut factory = configured_factory();
    let mut inst = instance(&mut factory, 1);
    let result = inst.on_http_call_response(RequestHandle(9));
    assert!(matches!(result, Err(ExtensionError::CorrelationMismatch)));
    assert_eq!(inst.completed_count(), 0);
}

#[test]
fn instances_are_isolated() {
    let mut factory = configured_factory();
    let mut first = instance(&mut factory, 1);
    let second = instance(&mut factory, 2);

    first.record_issued(RequestHandle(12));

    assert_eq!(second.config_value(), &vec![8]);
    assert_eq!(second.config_value(), factory.config_value());
    assert!(second.active_request().is_none());
    assert_eq!(second.issued_count(), 0);
    assert_eq!(first.config_value(), factory.config_value());
    assert_eq!(first.stats(), second.stats());
}

#[test]
fn registry_routes_by_identity() {
    let mut factory = configured_factory();
    let mut first = instance(&mut factory, 1);
    let mut second = instance(&mut factory, 2);
    first.record_issued(RequestHandle(5));
    second.record_issued(RequestHandle(6));

    let mut registry = Registry::new();
    assert!(registry.register(first).is_ok());
    assert!(registry.register(second).is_ok());
    assert_eq!(registry.len(), 2);

    assert!(registry.deliver_response(1, RequestHandle(5)).is_ok());
    let crossed = registry.deliver_response(2, RequestHandle(5));
    assert!(matches!(crossed, Err(ExtensionError::CorrelationMismatch)));
    assert!(registry.deliver_response(2, RequestHandle(6)).is_ok());
}

#[test]
fn unknown_identity_is_refused() {
    let mut factory = configured_factory();
    let mut registry = Registry::new();
    assert!(registry.register(instance(&mut factory, 1)).is_ok());
    let result = registry.deliver_response(3, RequestHandle(5));
    assert!(matches!(result, Err(ExtensionError::UnknownContext)));
    assert!(registry.contains(1));
    assert!(!registry.contains(3));
}

#[test]
fn duplicate_identity_is_refused() {
    let mut factory = configured_factory();
    let mut registry = Registry::new();
    assert!(registry.register(instance(&mut factory, 1)).is_ok());
    let result = registry.register(instance(&mut factory, 1));
    assert!(matches!(result, Err(ExtensionError::DuplicateContext)));
    assert_eq!(registry.len(), 1);
}

#[test]
fn deregister_removes_instance() {
    let mut factory = configured_factory();
    let mut registry = Registry::new();
    assert!(registry.register(instance(&mut factory, 1)).is_ok());
    let removed = registry.deregister(1).unwrap();
    assert_eq!(removed.context_id(), 1);
    assert_eq!(registry.len(), 0);
    let missing = registry.deregister(1);
    assert!(matches!(missing, Err(ExtensionError::UnknownContext)));
}
