//! Guest-side framework for building proxy extensions that are driven by
//! asynchronous callbacks from a host runtime.
//!
//! The library models the extension lifecycle: a factory that accepts or
//! rejects configuration updates, hands out per-connection extension
//! instances sharing an immutable configuration snapshot, a dispatch
//! registry that routes host callbacks to the instance owning a context
//! identity, and a correlation protocol pairing outbound calls with their
//! completion callbacks.

mod abi;
pub mod config;
pub mod dispatch;
pub mod factory;
pub mod host;
pub mod instance;
pub mod vm;

pub use config::ConfigStatus;
