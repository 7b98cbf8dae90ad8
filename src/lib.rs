//! Deferred, optionally repeating, named callback invocations for a host
//! script runtime: timer bookkeeping, callback dispatch and argument
//! marshalling, each stated and proved with Verus.

pub mod error;
pub mod callback;
pub mod amx_manager;
pub mod timer;
pub mod plugin;

