//! Utilities for syncing LDK via the transaction-based `Confirm` interface: the bookkeeping of
//! registered transactions and outputs, and the decisions of a sync against an Esplora server.

pub mod error;

pub use error::TxSyncError;
pub mod sync;
