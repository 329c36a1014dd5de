//! Lightning service-provider building blocks: swap-in-potentiam addresses and messages, a
//! filesystem key-value store, persistence keys, and transaction-sync bookkeeping.

pub mod btc;
pub mod encoding;
pub mod keyed;
pub mod sip;
pub mod persist;
pub mod fs_store;
pub mod tx_sync;
