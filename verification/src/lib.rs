//! Offchain indexing configuration for a node and its reconciliation, at
//! start-up, with the flag that an earlier run committed to the metadata store.

pub mod config;
pub mod error;
pub mod offchain_indexing;
pub mod offchain_worker_params;
pub mod record;
