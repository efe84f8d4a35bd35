use vstd::prelude::*;

verus! {

/// Failures of the proxy state controller.
///
/// `InvalidPort` and `PermissionDenied` are reported before any write is
/// attempted against the configuration store; `ApplyFailed` means a write
/// reached the store and the store refused it (after a best-effort rollback
/// where one is called for). A failed change notification is never surfaced:
/// by that point the proxy state itself is already applied.
#[derive(Clone, Copy, PartialEq, Eq, Structural, Debug)]
pub enum ProxyError {
    /// The caller asked for a port below the allowed range.
    InvalidPort,
    /// The configuration store is not accessible; elevation is needed.
    PermissionDenied,
    /// The store rejected a write; the controller rolled back where needed.
    ApplyFailed,
}

impl ProxyError {
    /// User-facing message for this error, actionable per failure kind.
    pub fn message(&self) -> (r: &'static str)
        ensures
            *self == ProxyError::InvalidPort ==> r@ == "Invalid port number (must be between 1024 and 65535)"@,
            *self == ProxyError::PermissionDenied ==> r@ == "No write access to the proxy configuration. Run the application with elevated privileges."@,
            *self == ProxyError::ApplyFailed ==> r@ == "The proxy settings could not be applied; the change was rolled back."@,
    {
        match self {
            ProxyError::InvalidPort => "Invalid port number (must be between 1024 and 65535)",
            ProxyError::PermissionDenied => "No write access to the proxy configuration. Run the application with elevated privileges.",
            ProxyError::ApplyFailed => "The proxy settings could not be applied; the change was rolled back.",
        }
    }
}

} // verus!
