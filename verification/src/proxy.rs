use vstd::prelude::*;

use crate::errors::ProxyError;
use crate::store::{
    spec_notify, spec_write_enable, spec_write_override, spec_write_server, ProxyStore, StoreState,
    WriteImage,
};
use crate::text::{address_text, proxy_address};
use crate::{port_valid, MIN_PROXY_PORT};

verus! {

/// `ProxyEnable` value for an enabled proxy.
pub const PROXY_ON: u32 = 1;

/// `ProxyEnable` value for a disabled proxy.
pub const PROXY_OFF: u32 = 0;

/// The bypass rule written to `ProxyOverride`, excluding local-loopback
/// traffic from proxying.
pub open spec fn bypass_rule() -> Seq<char> {
    "<local>"@
}

/// The complete effect of `enable(port)` on a configuration store, together
/// with the reported outcome:
///
/// 1. a port below the allowed range is rejected before the store is touched;
/// 2. an unreachable store means permission is missing, and nothing is written;
/// 3. the bypass rule is written first, and its failure is ignored;
/// 4. then the `127.0.0.1:{port}` address, then the enable mark;
/// 5. if either of those two writes failed, a best-effort rollback re-writes
///    the disable mark (its own failure is not surfaced) and the operation
///    reports `ApplyFailed`;
/// 6. on success the settings-change notification is broadcast.
pub open spec fn spec_enable(s: StoreState, port: u16) -> (StoreState, Result<(), ProxyError>) {
    if !port_valid(port) {
        (s, Err(ProxyError::InvalidPort))
    } else if !s.accessible {
        (s, Err(ProxyError::PermissionDenied))
    } else {
        let s1 = spec_write_override(s, bypass_rule()).0;
        let (s2, server_ok) = spec_write_server(s1, address_text(port));
        let (s3, enable_ok) = spec_write_enable(s2, PROXY_ON);
        if server_ok && enable_ok {
            (spec_notify(s3), Ok(()))
        } else {
            (spec_write_enable(s3, PROXY_OFF).0, Err(ProxyError::ApplyFailed))
        }
    }
}

/// The complete effect of `disable()` on a configuration store: the disable
/// mark is written whatever the current state; on success the
/// settings-change notification is broadcast, on failure `ApplyFailed` is
/// reported and nothing further is attempted (the target state is "off",
/// so there is nothing to roll back).
pub open spec fn spec_disable(s: StoreState) -> (StoreState, Result<(), ProxyError>) {
    let (s1, ok) = spec_write_enable(s, PROXY_OFF);
    if ok {
        (spec_notify(s1), Ok(()))
    } else {
        (s1, Err(ProxyError::ApplyFailed))
    }
}

/// Points the system proxy at `127.0.0.1:{port}`.
///
/// The store is left, and the outcome reported, exactly as `spec_enable`
/// describes. In particular a rejected port or an unreachable store leaves
/// the store untouched, and a failed critical write is rolled back.
pub fn enable(store: &mut ProxyStore, port: u16) -> (r: Result<(), ProxyError>)
    requires
        old(store)@.notify_count < u64::MAX,
    ensures
        final(store)@ == spec_enable(old(store)@, port).0,
        r == spec_enable(old(store)@, port).1,
{
    if port < MIN_PROXY_PORT {
        return Err(ProxyError::InvalidPort);
    }
    if !store.check_access() {
        return Err(ProxyError::PermissionDenied);
    }
    let _ = store.write_override("<local>".to_owned());
    let server_ok = store.write_server(proxy_address(port));
    let enable_ok = store.write_enable(PROXY_ON);
    if server_ok && enable_ok {
        store.notify_settings_changed();
        Ok(())
    } else {
        let _ = store.write_enable(PROXY_OFF);
        Err(ProxyError::ApplyFailed)
    }
}

/// Marks the system proxy as disabled.
///
/// The store is left, and the outcome reported, exactly as `spec_disable`
/// describes. Calling it when the proxy is already disabled is an ordinary
/// success that performs the same write.
pub fn disable(store: &mut ProxyStore) -> (r: Result<(), ProxyError>)
    requires
        old(store)@.notify_count < u64::MAX,
    ensures
        final(store)@ == spec_disable(old(store)@).0,
        r == spec_disable(old(store)@).1,
{
    let ok = store.write_enable(PROXY_OFF);
    if ok {
        store.notify_settings_changed();
        Ok(())
    } else {
        Err(ProxyError::ApplyFailed)
    }
}

/// Validation step taken before any store access, for an executor that
/// drives a real configuration store through the same sequence.
pub fn validate_port(port: u16) -> (r: Result<(), ProxyError>)
    ensures
        r == Ok::<(), ProxyError>(()) <==> port_valid(port),
        !port_valid(port) ==> r == Err::<(), ProxyError>(ProxyError::InvalidPort),
{
    if port < MIN_PROXY_PORT {
        Err(ProxyError::InvalidPort)
    } else {
        Ok(())
    }
}

/// Decision taken after the two critical writes (`ProxyServer`, then
/// `ProxyEnable`): commit and notify only when both succeeded, otherwise
/// roll the enable mark back and report `ApplyFailed`.
pub fn conclude_enable(server_ok: bool, enable_ok: bool) -> (r: Result<(), ProxyError>)
    ensures
        r == Ok::<(), ProxyError>(()) <==> (server_ok && enable_ok),
        !(server_ok && enable_ok) ==> r == Err::<(), ProxyError>(ProxyError::ApplyFailed),
{
    if server_ok && enable_ok {
        Ok(())
    } else {
        Err(ProxyError::ApplyFailed)
    }
}

/// A port below the allowed range is rejected with `InvalidPort` before the
/// store is touched: no write is recorded and the store is unchanged.
pub proof fn lemma_invalid_port_rejected(s: StoreState, port: u16)
    requires
        port < 1024,
    ensures
        spec_enable(s, port).1 == Err::<(), ProxyError>(ProxyError::InvalidPort),
        spec_enable(s, port).0 == s,
{
}

/// An unreachable store is reported as `PermissionDenied`, again with no
/// write recorded and the store unchanged.
pub proof fn lemma_inaccessible_store_rejected(s: StoreState, port: u16)
    requires
        port >= 1024,
        !s.accessible,
    ensures
        spec_enable(s, port).1 == Err::<(), ProxyError>(ProxyError::PermissionDenied),
        spec_enable(s, port).0 == s,
{
}

/// Round trip: on a healthy store that starts disabled, `enable(port)`
/// followed by `disable()` succeeds and leaves the `ProxyEnable` value at
/// its starting value.
pub proof fn lemma_enable_disable_round_trip(s: StoreState, port: u16)
    requires
        port >= 1024,
        s.healthy(),
        s.enable_value == PROXY_OFF,
    ensures
        ({
            let s1 = spec_enable(s, port).0;
            let s2 = spec_disable(s1).0;
            spec_enable(s, port).1 == Ok::<(), ProxyError>(())
                && spec_disable(s1).1 == Ok::<(), ProxyError>(())
                && s2.enable_value == s.enable_value
        }),
{
}

/// Rollback: if the store takes the server-address write but refuses the
/// enable write, `enable(port)` reports `ApplyFailed` and the rollback
/// leaves `ProxyEnable` at the disabled value.
pub proof fn lemma_enable_write_failure_rolls_back(s: StoreState, port: u16)
    requires
        port >= 1024,
        s.accessible,
        !s.fail_server_once,
        s.fail_enable_once,
    ensures
        spec_enable(s, port).1 == Err::<(), ProxyError>(ProxyError::ApplyFailed),
        spec_enable(s, port).0.enable_value == PROXY_OFF,
{
}

/// A failure of the bypass write alone is ignored: the operation still
/// succeeds and ends with the proxy enabled at the requested address.
pub proof fn lemma_bypass_failure_ignored(s: StoreState, port: u16)
    requires
        port >= 1024,
        s.accessible,
        s.fail_override_once,
        !s.fail_server_once,
        !s.fail_enable_once,
    ensures
        spec_enable(s, port).1 == Ok::<(), ProxyError>(()),
        spec_enable(s, port).0.enable_value == PROXY_ON,
        spec_enable(s, port).0.server_value == address_text(port),
{
}

/// Disabling an already-disabled proxy is an ordinary success: it performs
/// the same disable write (recorded as such) and leaves the proxy off.
pub proof fn lemma_disable_when_disabled(s: StoreState)
    requires
        s.enable_value == PROXY_OFF,
        !s.fail_enable_once,
    ensures
        spec_disable(s).1 == Ok::<(), ProxyError>(()),
        spec_disable(s).0.enable_value == PROXY_OFF,
        spec_disable(s).0.log == s.log.push(WriteImage::SetEnable(PROXY_OFF)),
        spec_disable(s).0.notify_count == s.notify_count + 1,
{
}

/// Enabling twice with the same port leaves the same stored values as
/// enabling once (each call still performs the full write sequence: only
/// the record of attempts and the notification count grow).
pub proof fn lemma_enable_idempotent_values(s: StoreState, port: u16)
    requires
        port >= 1024,
        s.healthy(),
    ensures
        ({
            let once = spec_enable(s, port).0;
            let twice = spec_enable(once, port).0;
            once.values() == twice.values() && spec_enable(once, port).1 == Ok::<(), ProxyError>(())
        }),
{
}

} // verus!

