//! Error types shared by every host-facing capability.
//!
//! Every failure that crosses the host boundary is tagged with the name of
//! the host operation that failed and the host's raw status code, so that a
//! rejected configuration or a failed capability call can be diagnosed
//! without a debugger attached to the sandbox.

use vstd::prelude::*;

verus! {

/// A failure reported by a host capability call: which operation failed,
/// and the host's raw status code.
#[derive(Copy, Clone, Debug, PartialEq, Eq)]
pub struct HostError {
    /// Name of the host ABI operation that failed.
    pub operation: &'static str,
    /// Raw status code the host returned.
    pub status: u32,
}

/// Result of a host capability call.
pub type HostResult<T> = Result<T, HostError>;

/// Errors surfaced by the extension framework itself.
#[derive(Debug, PartialEq, Eq)]
pub enum ExtensionError {
    /// A host capability call failed.
    HostCall(HostError),
    /// The factory has completed draining and may no longer create
    /// extension instances.
    Drained,
    /// A completion callback carried a correlation handle other than the
    /// instance's active one: host and guest bookkeeping are out of step.
    CorrelationMismatch,
    /// A callback was routed to a context identity with no live instance.
    UnknownContext,
    /// An instance was registered under a context identity that is already
    /// mapped to a live instance.
    DuplicateContext,
}

/// Result of a framework operation.
pub type ExtensionResult<T> = Result<T, ExtensionError>;

} // verus!
