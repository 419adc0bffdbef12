//! Client semantics (ICS-02): client kinds, polymorphic client and consensus
//! states, the `(type_url, bytes)` envelope they cross the wire in, and the
//! client events.

pub mod client_state;
pub mod client_type;
pub mod consensus_state;
pub mod error;
pub mod events;
