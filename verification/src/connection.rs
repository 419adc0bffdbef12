//! Connection ends.

use vstd::prelude::*;
use crate::ident::{valid_identifier, ClientId, ConnectionId};

verus! {

/// Handshake state of a connection end.
#[derive(Clone, Copy, Debug, PartialEq, Eq, Hash, Structural)]
pub enum ConnectionState {
    Init,
    TryOpen,
    Open,
}

/// The mathematical content of a connection counterparty.
pub ghost struct ConnCounterpartyView {
    pub client_id: Seq<char>,
    pub connection_id: Option<Seq<char>>,
    pub prefix: Seq<u8>,
}

/// The client, connection identifier and commitment prefix of the other
/// chain's end; the connection identifier is unknown until chosen there.
#[derive(Debug)]
pub struct ConnCounterparty {
    pub client_id: ClientId,
    pub connection_id: Option<ConnectionId>,
    pub prefix: Vec<u8>,
}

impl View for ConnCounterparty {
    type V = ConnCounterpartyView;

    open spec fn view(&self) -> ConnCounterpartyView {
        ConnCounterpartyView {
            client_id: self.client_id@,
            connection_id: match self.connection_id {
                Some(c) => Some(c@),
                None => None,
            },
            prefix: self.prefix@,
        }
    }
}

impl ConnCounterparty {
    pub fn new(client_id: ClientId, connection_id: Option<ConnectionId>, prefix: Vec<u8>) -> (r:
        ConnCounterparty)
        ensures
            r@.client_id == client_id@,
            r@.connection_id == match connection_id {
                Some(c) => Some(c@),
                None => None::<Seq<char>>,
            },
            r@.prefix == prefix@,
    {
        ConnCounterparty { client_id, connection_id, prefix }
    }
}

impl Clone for ConnCounterparty {
    fn clone(&self) -> (r: Self)
        ensures
            r@ == self@,
    {
        let r = ConnCounterparty {
            client_id: self.client_id.clone(),
            connection_id: match &self.connection_id {
                Some(c) => Some(c.clone()),
                None => None,
            },
            prefix: self.prefix.clone(),
        };
        proof {
            assert(r.prefix@ =~= self.prefix@);
        }
        r
    }
}

/// The mathematical content of a connection end.
pub ghost struct ConnectionEndView {
    pub state: ConnectionState,
    pub client_id: Seq<char>,
    pub counterparty: ConnCounterpartyView,
    pub versions: Seq<Seq<char>>,
    pub delay_period: u64,
}

impl ConnectionEndView {
    /// Identifiers are well-formed, and once `Open` the counterparty
    /// connection is set.
    pub open spec fn wf(&self) -> bool {
        &&& valid_identifier(self.client_id)
        &&& valid_identifier(self.counterparty.client_id)
        &&& (self.counterparty.connection_id matches Some(c) ==> valid_identifier(c))
        &&& (self.state == ConnectionState::Open ==> self.counterparty.connection_id is Some)
    }
}

/// One end of a connection as stored on a ledger. `delay_period` is in
/// nanoseconds.
#[derive(Debug)]
pub struct ConnectionEnd {
    pub state: ConnectionState,
    pub client_id: ClientId,
    pub counterparty: ConnCounterparty,
    pub versions: Vec<String>,
    pub delay_period: u64,
}

impl View for ConnectionEnd {
    type V = ConnectionEndView;

    open spec fn view(&self) -> ConnectionEndView {
        ConnectionEndView {
            state: self.state,
            client_id: self.client_id@,
            counterparty: self.counterparty@,
            versions: self.versions.deep_view(),
            delay_period: self.delay_period,
        }
    }
}

impl Clone for ConnectionEnd {
    fn clone(&self) -> (r: Self)
        ensures
            r@ == self@,
    {
        let mut versions: Vec<String> = Vec::new();
        let mut i: usize = 0;
        while i < self.versions.len()
            invariant
                0 <= i <= self.versions.len(),
                versions@.len() == i as int,
                versions.deep_view() =~~= self.versions.deep_view().take(i as int),
            decreases self.versions.len() - i,
        {
            let ghost prev = versions@;
            let item = self.versions[i].clone();
            versions.push(item);
            proof {
                assert(versions@ == prev.push(item));
                assert forall|j: int| 0 <= j < versions@.len() implies versions.deep_view()[j]
                    == self.versions.deep_view().take(i + 1)[j] by {
                    if j < i {
                        assert(versions@[j] == prev[j]);
                    } else {
                        assert(versions@[j] == item);
                    }
                }
                assert(versions.deep_view() =~~= self.versions.deep_view().take(i + 1));
            }
            i = i + 1;
        }
        proof {
            assert(versions.deep_view() =~~= self.versions.deep_view());
        }
        ConnectionEnd {
            state: self.state,
            client_id: self.client_id.clone(),
            counterparty: self.counterparty.clone(),
            versions,
            delay_period: self.delay_period,
        }
    }
}

impl ConnectionEnd {
    pub fn new(
        state: ConnectionState,
        client_id: ClientId,
        counterparty: ConnCounterparty,
        versions: Vec<String>,
        delay_period: u64,
    ) -> (r: ConnectionEnd)
        ensures
            r@ == (ConnectionEndView {
                state,
                client_id: client_id@,
                counterparty: counterparty@,
                versions: versions.deep_view(),
                delay_period,
            }),
    {
        ConnectionEnd { state, client_id, counterparty, versions, delay_period }
    }

    /// The client this connection authenticates against.
    pub fn client_id(&self) -> (r: &ClientId)
        ensures
            r@ == self@.client_id,
    {
        &self.client_id
    }

    /// Is the connection in the given handshake state?
    pub fn state_matches(&self, other: &ConnectionState) -> (r: bool)
        ensures
            r == (self@.state == other),
    {
        self.state == *other
    }
}

} // verus!
