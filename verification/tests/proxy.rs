use vexar::errors::ProxyError;
use vexar::proxy::{conclude_enable, disable, enable, validate_port};
use vexar::store::{ProxyStore, WriteRequest};
use vexar::text::proxy_address;

#[test]
fn invalid_port_is_rejected_without_writes() {
    let mut store = ProxyStore::new_healthy();
    for port in [0u16, 1, 80, 443, 1023] {
        let r = enable(&mut store, port);
        assert_eq!(r, Err(ProxyError::InvalidPort));
    }
    assert!(store.log.is_empty());
    assert_eq!(store.notify_count, 0);
    assert_eq!(store.enable_value, 0);
}

#[test]
fn lowest_and_highest_allowed_ports_are_accepted() {
    let mut store = ProxyStore::new_healthy();
    assert_eq!(enable(&mut store, 1024), Ok(()));
    assert_eq!(store.server_value, "127.0.0.1:1024");
    assert_eq!(enable(&mut store, 65535), Ok(()));
    assert_eq!(store.server_value, "127.0.0.1:65535");
}

#[test]
fn permission_denied_when_store_is_inaccessible() {
    let mut store = ProxyStore::new_healthy();
    store.accessible = false;
    let r = enable(&mut store, 8080);
    assert_eq!(r, Err(ProxyError::PermissionDenied));
    assert!(store.log.is_empty());
    assert_eq!(store.notify_count, 0);
}

#[test]
fn enable_then_disable_restores_disabled_mark() {
    for port in [1024u16, 8080, 40000, 65535] {
        let mut store = ProxyStore::new_healthy();
        let before = store.enable_value;
        assert_eq!(enable(&mut store, port), Ok(()));
        assert_eq!(disable(&mut store), Ok(()));
        assert_eq!(store.enable_value, before);
    }
}

#[test]
fn enable_write_failure_reports_apply_failed_and_rolls_back() {
    let mut store = ProxyStore::new_healthy();
    store.fail_enable_once = true;
    let r = enable(&mut store, 8080);
    assert_eq!(r, Err(ProxyError::ApplyFailed));
    assert_eq!(store.enable_value, 0);
    assert_eq!(store.notify_count, 0);
    // Bypass, server address, refused enable mark, rollback.
    assert_eq!(store.log.len(), 4);
    assert!(matches!(store.log[2], WriteRequest::SetEnable(1)));
    assert!(matches!(store.log[3], WriteRequest::SetEnable(0)));
}

#[test]
fn server_write_failure_reports_apply_failed_and_rolls_back() {
    let mut store = ProxyStore::new_healthy();
    store.fail_server_once = true;
    let r = enable(&mut store, 8080);
    assert_eq!(r, Err(ProxyError::ApplyFailed));
    assert_eq!(store.enable_value, 0);
    assert_eq!(store.server_value, "");
}

#[test]
fn bypass_write_failure_is_ignored() {
    let mut store = ProxyStore::new_healthy();
    store.fail_override_once = true;
    assert_eq!(enable(&mut store, 8080), Ok(()));
    assert_eq!(store.enable_value, 1);
    assert_eq!(store.override_value, "");
    assert_eq!(store.server_value, "127.0.0.1:8080");
}

#[test]
fn disable_when_already_disabled_succeeds_with_consistent_write() {
    let mut store = ProxyStore::new_healthy();
    assert_eq!(store.enable_value, 0);
    let r = disable(&mut store);
    assert_eq!(r, Ok(()));
    assert_eq!(store.enable_value, 0);
    assert_eq!(store.log.len(), 1);
    assert!(matches!(store.log[0], WriteRequest::SetEnable(0)));
    assert_eq!(store.notify_count, 1);
}

#[test]
fn disable_write_failure_reports_apply_failed() {
    let mut store = ProxyStore::new_healthy();
    store.enable_value = 1;
    store.fail_enable_once = true;
    let r = disable(&mut store);
    assert_eq!(r, Err(ProxyError::ApplyFailed));
    assert_eq!(store.enable_value, 1);
    assert_eq!(store.notify_count, 0);
}

#[test]
fn end_to_end_enable_then_disable_on_healthy_store() {
    let mut store = ProxyStore::new_healthy();

    assert_eq!(enable(&mut store, 8080), Ok(()));
    assert_eq!(store.notify_count, 1);
    assert_eq!(store.enable_value, 1);
    assert_eq!(store.server_value, "127.0.0.1:8080");
    assert_eq!(store.override_value, "<local>");

    assert_eq!(disable(&mut store), Ok(()));
    assert_eq!(store.notify_count, 2);
    assert_eq!(store.enable_value, 0);
}

#[test]
fn enabling_twice_repeats_the_full_write_sequence() {
    let mut store = ProxyStore::new_healthy();
    assert_eq!(enable(&mut store, 9000), Ok(()));
    let values_once = (
        store.enable_value,
        store.server_value.clone(),
        store.override_value.clone(),
    );
    let log_once = store.log.len();
    assert_eq!(enable(&mut store, 9000), Ok(()));
    let values_twice = (
        store.enable_value,
        store.server_value.clone(),
        store.override_value.clone(),
    );
    assert_eq!(values_once, values_twice);
    assert_eq!(store.log.len(), 2 * log_once);
    assert_eq!(store.notify_count, 2);
}

#[test]
fn proxy_address_formats_the_loopback_endpoint() {
    assert_eq!(proxy_address(1024), "127.0.0.1:1024");
    assert_eq!(proxy_address(8080), "127.0.0.1:8080");
    assert_eq!(proxy_address(65535), "127.0.0.1:65535");
}

#[test]
fn validation_and_conclusion_helpers_decide_as_the_controller_does() {
    assert_eq!(validate_port(1023), Err(ProxyError::InvalidPort));
    assert_eq!(validate_port(1024), Ok(()));
    assert_eq!(conclude_enable(true, true), Ok(()));
    assert_eq!(conclude_enable(true, false), Err(ProxyError::ApplyFailed));
    assert_eq!(conclude_enable(false, true), Err(ProxyError::ApplyFailed));
}

#[test]
fn error_messages_are_distinct_and_actionable() {
    let invalid = ProxyError::InvalidPort.message();
    let denied = ProxyError::PermissionDenied.message();
    let failed = ProxyError::ApplyFailed.message();
    assert!(invalid.contains("1024"));
    assert!(denied.contains("elevated"));
    assert!(failed.contains("rolled back"));
    assert_ne!(invalid, denied);
    assert_ne!(denied, failed);
    assert_ne!(invalid, failed);
}
