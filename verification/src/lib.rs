//! Native backend of a desktop application that toggles the operating
//! system's HTTP proxy towards a local port, debounces tray-icon
//! activation, and collects a best-effort hardware inventory for display.
//!
//! The proxy state controller ([`proxy`]) is verified against an
//! in-memory model of the OS configuration store ([`store`]) that records
//! every write request and can be told to refuse writes, so the
//! validation, ordering, rollback and notification rules are proved, and
//! the same decisions drive an executor over the platform's real store.
//! The tray debouncer ([`debounce`]) is a single-step decision whose
//! suppression window is proved to admit at most one activation. The
//! inventory ([`inventory`]) pins the cleaning and fallback rules around
//! the platform queries it cannot promise anything about.

use vstd::prelude::*;
use vstd::string::StringExecFns;

pub mod debounce;
pub mod errors;
pub mod events;
pub mod inventory;
pub mod proxy;
pub mod store;
pub mod text;

verus! {

/// Lowest TCP port a user may select for the local proxy.
pub const MIN_PROXY_PORT: u16 = 1024;

/// A port is acceptable when it lies in `[1024, 65535]`.
pub open spec fn port_valid(port: u16) -> bool {
    port >= 1024
}

/// Validation rule for user-selected proxy ports.
pub fn is_valid_port(port: u16) -> (r: bool)
    ensures
        r == port_valid(port),
{
    port >= MIN_PROXY_PORT
}

/// Greeting shown by the UI shell's demo call into the backend.
pub fn greet(name: &str) -> (r: String)
    ensures
        r@ == "Hello, "@ + name@ + "! You've been greeted from Rust!"@,
{
    let mut s: String = "Hello, ".to_owned();
    s.append(name);
    s.append("! You've been greeted from Rust!");
    s
}

} // verus!
