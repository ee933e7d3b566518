//! The operations on environments and the processes they run.

pub mod activate;
pub mod create;
pub mod delete;
pub mod drain;
pub mod error;
pub mod registry;
pub mod utils;
pub mod venvmgr;
