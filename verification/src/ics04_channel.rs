//! Channel semantics (ICS-04): channel and packet events, handler errors,
//! the reader interface handlers consume, and the packet handlers.

pub mod context;
pub mod error;
pub mod events;
pub mod handler;
pub mod msgs;
