//! Verified decision logic of the Podway daemon.

pub mod civil_time;
pub mod digest;
pub mod dispatch;
pub mod execution;
pub mod json;
pub mod observability;
pub mod production;
pub mod protocol;
pub mod read_service;
pub mod registry;
pub mod registry_store;
pub mod runtime;
pub mod runtime_workspace;
pub mod scheduler;
pub mod server;
pub mod store;
pub mod text;
pub mod worker;
pub mod workspace;
