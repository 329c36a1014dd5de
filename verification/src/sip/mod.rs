//! Implementation of the swap-in-potentiam protocol.
//!
//! Swap-in-potentiam (SIP) enables mobile wallet users to receive on-chain Bitcoin to a special
//! 2-of-2 address shared with their LSP. Once funds are confirmed at that address, they can be
//! moved into a Lightning channel because the LSP already co-owns the UTXO.

pub mod address;
pub mod msgs;
pub mod event;
pub mod client;
pub mod service;
