//! Lifecycle rules for versioned database instances: version constraints,
//! uninstall selection, remote operation polling and status aggregation.

pub mod async_util;
pub mod context;
pub mod grammar;
pub mod ops;
pub mod status;
pub mod text_laws;
pub mod uninstall;
pub mod ver;

