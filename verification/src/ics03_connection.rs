//! Connection semantics (ICS-03): the connection handshake events.

pub mod events;
