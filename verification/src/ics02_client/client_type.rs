//! The kinds of light client the core knows how to carry.

use vstd::prelude::*;

verus! {

/// Type of client associated with a client state. The `Mock` variant backs
/// the test reader.
#[derive(Clone, Copy, Debug, PartialEq, Eq, Hash, Structural)]
pub enum ClientType {
    Tendermint,
    Mock,
}

impl ClientType {
    /// The canonical string for the client type.
    pub fn as_str(&self) -> (r: &'static str)
        ensures
            r@ == match *self {
                ClientType::Tendermint => "07-tendermint"@,
                ClientType::Mock => "mock"@,
            },
    {
        match *self {
            ClientType::Tendermint => "07-tendermint",
            ClientType::Mock => "mock",
        }
    }
}

} // verus!
