//! Module-level lifecycle events and the capability implementation bound
//! to the real host ABI.

use vstd::prelude::*;

use crate::abi;
use crate::host::{ExtensionError, ExtensionResult, HostResult};

verus! {

/// Capability handed to the module start callback: read access to the
/// module-wide configuration buffer, nothing more.
pub trait StartOps {
    /// Returns the configuration buffer the host holds for the module,
    /// if any.
    fn get_configuration(&self) -> HostResult<Option<Vec<u8>>>;
}

/// Module-level lifecycle driven by the host.
pub trait Lifecycle {
    /// Called once when the host starts the module.  Returns `Ok(true)` to
    /// let the module run; the default accepts without reading the
    /// configuration.
    fn on_start<O: StartOps>(&mut self, _vm_configuration_size: usize, _ops: &O) -> (r:
        ExtensionResult<bool>)
        default_ensures
            r == Ok::<bool, ExtensionError>(true),
    {
        Ok(true)
    }
}

/// The capability implementation bound to the actual host ABI.
pub struct Host;

impl StartOps for Host {
    /// Under this host binding a failed configuration fetch aborts the
    /// callback rather than returning, so the call only ever succeeds.
    fn get_configuration(&self) -> (r: HostResult<Option<Vec<u8>>>)
        ensures
            r is Ok,
    {
        abi::fetch_configuration()
    }
}

} // verus!
