//! Channel ends.

use vstd::prelude::*;
use crate::ident::{valid_identifier, ChannelId, ConnectionId, PortId};

verus! {

/// Handshake state of a channel end. `Closed` is terminal.
#[derive(Clone, Copy, Debug, PartialEq, Eq, Hash, Structural)]
pub enum State {
    Init,
    TryOpen,
    Open,
    Closed,
}

/// Whether packets on the channel are delivered in strict sequence order.
#[derive(Clone, Copy, Debug, PartialEq, Eq, Hash, Structural)]
pub enum Order {
    Unordered,
    Ordered,
}

impl Order {
    /// Channels are unordered unless asked for otherwise.
    pub fn unordered() -> (r: Order)
        ensures
            r == Order::Unordered,
    {
        Order::Unordered
    }
}

/// The mathematical content of a channel counterparty.
pub ghost struct CounterpartyView {
    pub port_id: Seq<char>,
    pub channel_id: Option<Seq<char>>,
}

/// The `(port, channel)` endpoint on the other chain; the channel identifier
/// is unknown until the counterparty has chosen one.
#[derive(Debug)]
pub struct Counterparty {
    pub port_id: PortId,
    pub channel_id: Option<ChannelId>,
}

impl View for Counterparty {
    type V = CounterpartyView;

    open spec fn view(&self) -> CounterpartyView {
        CounterpartyView {
            port_id: self.port_id@,
            channel_id: match self.channel_id {
                Some(c) => Some(c@),
                None => None,
            },
        }
    }
}

impl Counterparty {
    pub fn new(port_id: PortId, channel_id: Option<ChannelId>) -> (r: Counterparty)
        ensures
            r@.port_id == port_id@,
            r@.channel_id == match channel_id {
                Some(c) => Some(c@),
                None => None::<Seq<char>>,
            },
    {
        Counterparty { port_id, channel_id }
    }
}

impl Clone for Counterparty {
    fn clone(&self) -> (r: Self)
        ensures
            r@ == self@,
    {
        Counterparty {
            port_id: self.port_id.clone(),
            channel_id: match &self.channel_id {
                Some(c) => Some(c.clone()),
                None => None,
            },
        }
    }
}

/// The mathematical content of a channel end.
pub ghost struct ChannelEndView {
    pub state: State,
    pub ordering: Order,
    pub remote: CounterpartyView,
    pub connection_hops: Seq<Seq<char>>,
    pub version: Seq<char>,
}

impl ChannelEndView {
    /// A channel end names at least one connection hop, its identifiers are
    /// well-formed, and once `Open` its counterparty channel is set.
    pub open spec fn wf(&self) -> bool {
        &&& self.connection_hops.len() >= 1
        &&& valid_identifier(self.remote.port_id)
        &&& (self.remote.channel_id matches Some(c) ==> valid_identifier(c))
        &&& (forall|i: int|
            0 <= i < self.connection_hops.len() ==> valid_identifier(
                #[trigger] self.connection_hops[i],
            ))
        &&& (self.state == State::Open ==> self.remote.channel_id is Some)
    }
}

/// One end of a channel as stored on a ledger. A channel identifies its
/// underlying connection by the first hop.
#[derive(Debug)]
pub struct ChannelEnd {
    pub state: State,
    pub ordering: Order,
    pub remote: Counterparty,
    pub connection_hops: Vec<ConnectionId>,
    pub version: String,
}

impl View for ChannelEnd {
    type V = ChannelEndView;

    open spec fn view(&self) -> ChannelEndView {
        ChannelEndView {
            state: self.state,
            ordering: self.ordering,
            remote: self.remote@,
            connection_hops: self.connection_hops.deep_view(),
            version: self.version@,
        }
    }
}

impl Clone for ChannelEnd {
    fn clone(&self) -> (r: Self)
        ensures
            r@ == self@,
    {
        let mut hops: Vec<ConnectionId> = Vec::new();
        let mut i: usize = 0;
        while i < self.connection_hops.len()
            invariant
                0 <= i <= self.connection_hops.len(),
                hops@.len() == i as int,
                hops.deep_view() =~~= self.connection_hops.deep_view().take(i as int),
            decreases self.connection_hops.len() - i,
        {
            let ghost prev = hops@;
            let item = self.connection_hops[i].clone();
            hops.push(item);
            proof {
                assert(hops@ == prev.push(item));
                assert forall|j: int| 0 <= j < hops@.len() implies hops.deep_view()[j]
                    == self.connection_hops.deep_view().take(i + 1)[j] by {
                    if j < i {
                        assert(hops@[j] == prev[j]);
                    } else {
                        assert(hops@[j] == item);
                    }
                }
                assert(hops.deep_view() =~~= self.connection_hops.deep_view().take(i + 1));
            }
            i = i + 1;
        }
        proof {
            assert(hops.deep_view() =~~= self.connection_hops.deep_view());
        }
        ChannelEnd {
            state: self.state,
            ordering: self.ordering,
            remote: self.remote.clone(),
            connection_hops: hops,
            version: self.version.clone(),
        }
    }
}

impl ChannelEnd {
    pub fn new(
        state: State,
        ordering: Order,
        remote: Counterparty,
        connection_hops: Vec<ConnectionId>,
        version: String,
    ) -> (r: ChannelEnd)
        ensures
            r@ == (ChannelEndView {
                state,
                ordering,
                remote: remote@,
                connection_hops: connection_hops.deep_view(),
                version: version@,
            }),
    {
        ChannelEnd { state, ordering, remote, connection_hops, version }
    }

    /// Is the channel in the given handshake state?
    pub fn state_matches(&self, other: &State) -> (r: bool)
        ensures
            r == (self@.state == other),
    {
        self.state == *other
    }

    /// Does the channel deliver with the given ordering?
    pub fn order_matches(&self, other: &Order) -> (r: bool)
        ensures
            r == (self@.ordering == other),
    {
        self.ordering == *other
    }

    /// Does the stored counterparty agree with the given one, field by field?
    pub fn counterparty_matches(&self, other: &Counterparty) -> (r: bool)
        ensures
            r == (self@.remote == other@),
    {
        let ports_match = self.remote.port_id == other.port_id;
        let channels_match = match (&self.remote.channel_id, &other.channel_id) {
            (Some(a), Some(b)) => a == b,
            (None, None) => true,
            _ => false,
        };
        ports_match && channels_match
    }
}

} // verus!
