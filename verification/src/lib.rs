//! Core of an IBC (Inter-Blockchain Communication) relayer.
//!
//! The crate models the on-ledger IBC data (heights, identifiers, channels,
//! connections, packets, client states), decodes raw ledger events into typed
//! IBC events and encodes them back, and implements the pure handler engine
//! that decides packet timeouts, receives and acknowledgements against a
//! read-only view of the ledger store.

pub mod channel;
pub mod connection;
pub mod decimal;
pub mod events;
pub mod handler;
pub mod height;
pub mod ics02_client;
pub mod ics03_connection;
pub mod ics04_channel;
pub mod ident;
pub mod mock;
pub mod packet;
pub mod proofs;
pub mod relayer;
pub mod wire;
