//! Errors of the client handlers and of the client-state envelope.

use vstd::prelude::*;

verus! {

/// The mathematical content of a client error.
pub ghost enum ClientErrorView {
    /// The envelope carried an empty `type_url`.
    EmptyClientStateResponse,
    /// The envelope's `type_url` names no known client kind.
    UnknownClientStateType { type_url: Seq<char> },
    /// The envelope's value bytes do not decode as the named client state.
    InvalidRawClientState,
}

/// An error raised while interpreting client state data.
#[derive(Debug)]
pub enum ClientError {
    EmptyClientStateResponse,
    UnknownClientStateType(String),
    InvalidRawClientState,
}

impl View for ClientError {
    type V = ClientErrorView;

    open spec fn view(&self) -> ClientErrorView {
        match self {
            ClientError::EmptyClientStateResponse => ClientErrorView::EmptyClientStateResponse,
            ClientError::UnknownClientStateType(u) => ClientErrorView::UnknownClientStateType {
                type_url: u@,
            },
            ClientError::InvalidRawClientState => ClientErrorView::InvalidRawClientState,
        }
    }
}

} // verus!
