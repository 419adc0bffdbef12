//! A mock ledger reader for exercising the handlers: association-list
//! storage behind the `ChannelReader` interface, with builders that seed
//! channels, connections, consensus states, commitments and capabilities,
//! and an `apply` that persists a handler's result. Its hash capability is
//! the identity and its proof verification always succeeds, as a test
//! light client's does.

use vstd::prelude::*;
use crate::channel::{ChannelEnd, ChannelEndView};
use crate::connection::{ConnectionEnd, ConnectionEndView};
use crate::height::Height;
use crate::ics02_client::consensus_state::{AnyConsensusState, AnyConsensusStateView,
    MockConsensusState};
use crate::ics04_channel::context::{Capability, ChannelReader, ReaderView};
use crate::ics04_channel::error::ChannelError;
use crate::ics04_channel::handler::PacketResult;
use crate::ident::{ChannelId, ClientId, ConnectionId, PortId};
use crate::packet::{Packet, PacketView, Sequence};
use crate::proofs::{Proofs, ProofsView};

verus! {

/// The stored channel ends, later entries shadowing earlier ones.
pub open spec fn channels_map(s: Seq<((PortId, ChannelId), ChannelEnd)>) -> Map<
    (Seq<char>, Seq<char>),
    ChannelEndView,
>
    decreases s.len(),
{
    if s.len() == 0 {
        Map::empty()
    } else {
        channels_map(s.drop_last()).insert((s.last().0.0@, s.last().0.1@), s.last().1@)
    }
}

/// The stored connection ends.
pub open spec fn connections_map(s: Seq<(ConnectionId, ConnectionEnd)>) -> Map<
    Seq<char>,
    ConnectionEndView,
>
    decreases s.len(),
{
    if s.len() == 0 {
        Map::empty()
    } else {
        connections_map(s.drop_last()).insert(s.last().0@, s.last().1@)
    }
}

/// The stored consensus snapshots.
pub open spec fn consensus_map(s: Seq<((ClientId, Height), AnyConsensusState)>) -> Map<
    (Seq<char>, Height),
    AnyConsensusStateView,
>
    decreases s.len(),
{
    if s.len() == 0 {
        Map::empty()
    } else {
        consensus_map(s.drop_last()).insert((s.last().0.0@, s.last().0.1), s.last().1@)
    }
}

/// The stored packet commitments.
pub open spec fn commitments_map(s: Seq<((PortId, ChannelId, Sequence), Vec<u8>)>) -> Map<
    (Seq<char>, Seq<char>, u64),
    Seq<u8>,
>
    decreases s.len(),
{
    if s.len() == 0 {
        Map::empty()
    } else {
        commitments_map(s.drop_last()).insert(
            (s.last().0.0@, s.last().0.1@, s.last().0.2.0),
            s.last().1@,
        )
    }
}

/// The stored packet receipts.
pub open spec fn receipts_set(s: Seq<(PortId, ChannelId, Sequence)>) -> Set<
    (Seq<char>, Seq<char>, u64),
>
    decreases s.len(),
{
    if s.len() == 0 {
        Set::empty()
    } else {
        receipts_set(s.drop_last()).insert((s.last().0@, s.last().1@, s.last().2.0))
    }
}

/// The stored receive cursors.
pub open spec fn sequences_map(s: Seq<((PortId, ChannelId), Sequence)>) -> Map<
    (Seq<char>, Seq<char>),
    u64,
>
    decreases s.len(),
{
    if s.len() == 0 {
        Map::empty()
    } else {
        sequences_map(s.drop_last()).insert((s.last().0.0@, s.last().0.1@), s.last().1.0)
    }
}

/// The held port capabilities.
pub open spec fn ports_set(s: Seq<PortId>) -> Set<Seq<char>>
    decreases s.len(),
{
    if s.len() == 0 {
        Set::empty()
    } else {
        ports_set(s.drop_last()).insert(s.last()@)
    }
}

/// A ledger reader backed by in-memory association lists.
#[derive(Clone, Debug)]
pub struct MockContext {
    channels: Vec<((PortId, ChannelId), ChannelEnd)>,
    connections: Vec<(ConnectionId, ConnectionEnd)>,
    consensus_states: Vec<((ClientId, Height), AnyConsensusState)>,
    commitments: Vec<((PortId, ChannelId, Sequence), Vec<u8>)>,
    receipts: Vec<(PortId, ChannelId, Sequence)>,
    next_sequences_recv: Vec<((PortId, ChannelId), Sequence)>,
    next_sequences_ack: Vec<((PortId, ChannelId), Sequence)>,
    capabilities: Vec<PortId>,
}

impl Default for MockContext {
    /// An empty ledger: no channels, connections, consensus states,
    /// commitments, receipts, cursors or capabilities.
    fn default() -> (r: MockContext)
        ensures
            r.reader_view() == (ReaderView {
                channels: Map::empty(),
                connections: Map::empty(),
                consensus_states: Map::empty(),
                commitments: Map::empty(),
                receipts: Set::empty(),
                next_sequences_recv: Map::empty(),
                capabilities: Set::empty(),
            }),
            r.reader_view().wf(),
    {
        MockContext {
            channels: Vec::new(),
            connections: Vec::new(),
            consensus_states: Vec::new(),
            commitments: Vec::new(),
            receipts: Vec::new(),
            next_sequences_recv: Vec::new(),
            next_sequences_ack: Vec::new(),
            capabilities: Vec::new(),
        }
    }
}

impl MockContext {
    /// Store a channel end under `(port, channel)`.
    pub fn with_channel(self, port_id: PortId, channel_id: ChannelId, channel_end: ChannelEnd)
        -> (r: MockContext)
        ensures
            r.reader_view() == (ReaderView {
                channels: self.reader_view().channels.insert(
                    (port_id@, channel_id@),
                    channel_end@,
                ),
                ..self.reader_view()
            }),
    {
        let ghost orig = self.channels@;
        let mut s = self;
        s.channels.push(((port_id, channel_id), channel_end));
        proof {
            assert(s.channels@.drop_last() =~= orig);
        }
        s
    }

    /// Store a connection end under the identifier.
    pub fn with_connection(self, connection_id: ConnectionId, connection_end: ConnectionEnd) -> (r:
        MockContext)
        ensures
            r.reader_view() == (ReaderView {
                connections: self.reader_view().connections.insert(
                    connection_id@,
                    connection_end@,
                ),
                ..self.reader_view()
            }),
    {
        let ghost orig = self.connections@;
        let mut s = self;
        s.connections.push((connection_id, connection_end));
        proof {
            assert(s.connections@.drop_last() =~= orig);
        }
        s
    }

    /// Record a client with a consensus snapshot at the height; the mock
    /// snapshot's timestamp is zero.
    pub fn with_client(self, client_id: &ClientId, height: Height) -> (r: MockContext)
        ensures
            r.reader_view() == (ReaderView {
                consensus_states: self.reader_view().consensus_states.insert(
                    (client_id@, height),
                    AnyConsensusStateView::Mock { timestamp: Some(0u64) },
                ),
                ..self.reader_view()
            }),
    {
        self.with_consensus_state(
            client_id.clone(),
            height,
            AnyConsensusState::Mock(MockConsensusState { timestamp: Some(0) }),
        )
    }

    /// Store a consensus snapshot of the client at the height.
    pub fn with_consensus_state(
        self,
        client_id: ClientId,
        height: Height,
        state: AnyConsensusState,
    ) -> (r: MockContext)
        ensures
            r.reader_view() == (ReaderView {
                consensus_states: self.reader_view().consensus_states.insert(
                    (client_id@, height),
                    state@,
                ),
                ..self.reader_view()
            }),
    {
        let ghost orig = self.consensus_states@;
        let mut s = self;
        s.consensus_states.push(((client_id, height), state));
        proof {
            assert(s.consensus_states@.drop_last() =~= orig);
        }
        s
    }

    /// Store a packet commitment under `(port, channel, sequence)`.
    pub fn with_packet_commitment(
        self,
        port_id: PortId,
        channel_id: ChannelId,
        sequence: Sequence,
        commitment: Vec<u8>,
    ) -> (r: MockContext)
        ensures
            r.reader_view() == (ReaderView {
                commitments: self.reader_view().commitments.insert(
                    (port_id@, channel_id@, sequence.0),
                    commitment@,
                ),
                ..self.reader_view()
            }),
    {
        let ghost orig = self.commitments@;
        let mut s = self;
        s.commitments.push(((port_id, channel_id, sequence), commitment));
        proof {
            assert(s.commitments@.drop_last() =~= orig);
        }
        s
    }

    /// Record a packet receipt under `(port, channel, sequence)`.
    pub fn with_packet_receipt(self, port_id: PortId, channel_id: ChannelId, sequence: Sequence)
        -> (r: MockContext)
        ensures
            r.reader_view() == (ReaderView {
                receipts: self.reader_view().receipts.insert((port_id@, channel_id@, sequence.0)),
                ..self.reader_view()
            }),
    {
        let ghost orig = self.receipts@;
        let mut s = self;
        s.receipts.push((port_id, channel_id, sequence));
        proof {
            assert(s.receipts@.drop_last() =~= orig);
        }
        s
    }

    /// Set the channel's next expected receive sequence.
    pub fn with_next_sequence_recv(
        self,
        port_id: PortId,
        channel_id: ChannelId,
        sequence: Sequence,
    ) -> (r: MockContext)
        ensures
            r.reader_view() == (ReaderView {
                next_sequences_recv: self.reader_view().next_sequences_recv.insert(
                    (port_id@, channel_id@),
                    sequence.0,
                ),
                ..self.reader_view()
            }),
    {
        let ghost orig = self.next_sequences_recv@;
        let mut s = self;
        s.next_sequences_recv.push(((port_id, channel_id), sequence));
        proof {
            assert(s.next_sequences_recv@.drop_last() =~= orig);
        }
        s
    }

    /// Set the channel's acknowledgement cursor. The packet handlers do not
    /// read it; it mirrors what a ledger stores for ordered channels.
    pub fn with_ack_sequence(self, port_id: PortId, channel_id: ChannelId, sequence: Sequence)
        -> (r: MockContext)
        ensures
            r.reader_view() == self.reader_view(),
    {
        let mut s = self;
        s.next_sequences_ack.push(((port_id, channel_id), sequence));
        s
    }

    /// Hold the capability for the port.
    pub fn with_port_capability(self, port_id: PortId) -> (r: MockContext)
        ensures
            r.reader_view() == (ReaderView {
                capabilities: self.reader_view().capabilities.insert(port_id@),
                ..self.reader_view()
            }),
    {
        let ghost orig = self.capabilities@;
        let mut s = self;
        s.capabilities.push(port_id);
        proof {
            assert(s.capabilities@.drop_last() =~= orig);
        }
        s
    }

    /// Erase any commitment stored under the key.
    fn remove_commitment(&mut self, port_id: &PortId, channel_id: &ChannelId, sequence: Sequence)
        ensures
            final(self).reader_view() == (ReaderView {
                commitments: old(self).reader_view().commitments.remove(
                    (port_id@, channel_id@, sequence.0),
                ),
                ..old(self).reader_view()
            }),
    {
        let ghost k = (port_id@, channel_id@, sequence.0);
        let ghost orig = self.commitments@;
        let mut kept: Vec<((PortId, ChannelId, Sequence), Vec<u8>)> = Vec::new();
        let n = self.commitments.len();
        let mut i: usize = 0;
        while i < n
            invariant
                0 <= i <= n,
                n == orig.len(),
                orig == self.commitments@,
                k == (port_id@, channel_id@, sequence.0),
                commitments_map(kept@) == commitments_map(orig.take(i as int)).remove(k),
            decreases n - i,
        {
            let entry = &self.commitments[i];
            let matches_key = entry.0.0 == *port_id && entry.0.1 == *channel_id && entry.0.2.0
                == sequence.0;
            let ghost pre = kept@;
            if !matches_key {
                let item = ((entry.0.0.clone(), entry.0.1.clone(), entry.0.2), entry.1.clone());
                proof {
                    assert(item.1@ =~= entry.1@);
                }
                kept.push(item);
                proof {
                    assert(kept@.drop_last() =~= pre);
                }
            }
            proof {
                assert(orig.take(i as int + 1).drop_last() =~= orig.take(i as int));
                assert(orig.take(i as int + 1).last() == orig[i as int]);
                let ki = (orig[i as int].0.0@, orig[i as int].0.1@, orig[i as int].0.2.0);
                let prev_map = commitments_map(orig.take(i as int));
                if matches_key {
                    assert(ki == k);
                    assert(commitments_map(orig.take(i as int + 1)).remove(k) =~= prev_map.remove(
                        k,
                    ));
                } else {
                    assert(ki != k);
                    assert(commitments_map(kept@) == prev_map.remove(k).insert(
                        ki,
                        orig[i as int].1@,
                    ));
                    assert(commitments_map(orig.take(i as int + 1)).remove(k)
                        =~= prev_map.insert(ki, orig[i as int].1@).remove(k));
                    assert(prev_map.insert(ki, orig[i as int].1@).remove(k) =~= prev_map.remove(
                        k,
                    ).insert(ki, orig[i as int].1@));
                }
            }
            i = i + 1;
        }
        proof {
            assert(orig.take(n as int) =~= orig);
        }
        self.commitments = kept;
    }

    /// Persist a packet handler's result: write the receipt or advance the
    /// receive cursor after a receive; erase the commitment after an
    /// acknowledgement; erase the commitment and store the closed channel,
    /// if one was returned, after a timeout.
    pub fn apply(&mut self, result: PacketResult)
        ensures
            match result {
                PacketResult::Recv(res) => final(self).reader_view() == (ReaderView {
                    receipts: if res@.receipt {
                        old(self).reader_view().receipts.insert(
                            (res@.port_id, res@.channel_id, res@.seq),
                        )
                    } else {
                        old(self).reader_view().receipts
                    },
                    next_sequences_recv: match res@.next_seq_recv {
                        Some(n) => old(self).reader_view().next_sequences_recv.insert(
                            (res@.port_id, res@.channel_id),
                            n,
                        ),
                        None => old(self).reader_view().next_sequences_recv,
                    },
                    ..old(self).reader_view()
                }),
                PacketResult::Ack(res) => final(self).reader_view() == (ReaderView {
                    commitments: old(self).reader_view().commitments.remove(
                        (res@.port_id, res@.channel_id, res@.seq),
                    ),
                    ..old(self).reader_view()
                }),
                PacketResult::Timeout(res) => final(self).reader_view() == (ReaderView {
                    commitments: old(self).reader_view().commitments.remove(
                        (res@.port_id, res@.channel_id, res@.seq),
                    ),
                    channels: match res@.channel {
                        Some(c) => old(self).reader_view().channels.insert(
                            (res@.port_id, res@.channel_id),
                            c,
                        ),
                        None => old(self).reader_view().channels,
                    },
                    ..old(self).reader_view()
                }),
            },
    {
        match result {
            PacketResult::Recv(res) => {
                if res.receipt {
                    let ghost orig = self.receipts@;
                    self.receipts.push((res.port_id.clone(), res.channel_id.clone(), res.seq));
                    proof {
                        assert(self.receipts@.drop_last() =~= orig);
                    }
                }
                match res.next_seq_recv {
                    Some(n) => {
                        let ghost orig = self.next_sequences_recv@;
                        self.next_sequences_recv.push(((res.port_id, res.channel_id), n));
                        proof {
                            assert(self.next_sequences_recv@.drop_last() =~= orig);
                        }
                    },
                    None => {},
                }
            },
            PacketResult::Ack(res) => {
                self.remove_commitment(&res.port_id, &res.channel_id, res.seq);
            },
            PacketResult::Timeout(res) => {
                self.remove_commitment(&res.port_id, &res.channel_id, res.seq);
                match res.channel {
                    Some(c) => {
                        let ghost orig = self.channels@;
                        self.channels.push(((res.port_id, res.channel_id), c));
                        proof {
                            assert(self.channels@.drop_last() =~= orig);
                        }
                    },
                    None => {},
                }
            },
        }
    }
}

impl ChannelReader for MockContext {
    closed spec fn reader_view(&self) -> ReaderView {
        ReaderView {
            channels: channels_map(self.channels@),
            connections: connections_map(self.connections@),
            consensus_states: consensus_map(self.consensus_states@),
            commitments: commitments_map(self.commitments@),
            receipts: receipts_set(self.receipts@),
            next_sequences_recv: sequences_map(self.next_sequences_recv@),
            capabilities: ports_set(self.capabilities@),
        }
    }

    /// The mock ledger's commitment hash is the identity.
    open spec fn hash_spec(&self, input: Seq<u8>) -> Seq<u8> {
        input
    }

    /// The mock light client accepts every proof.
    open spec fn next_seq_recv_verifies(
        &self,
        client_id: Seq<char>,
        packet: PacketView,
        next_sequence_recv: u64,
        proofs: ProofsView,
    ) -> bool {
        true
    }

    open spec fn packet_commitment_verifies(
        &self,
        client_id: Seq<char>,
        packet: PacketView,
        proofs: ProofsView,
    ) -> bool {
        true
    }

    open spec fn ack_verifies(
        &self,
        client_id: Seq<char>,
        packet: PacketView,
        acknowledgement: Seq<u8>,
        proofs: ProofsView,
    ) -> bool {
        true
    }

    open spec fn receipt_absence_verifies(
        &self,
        client_id: Seq<char>,
        packet: PacketView,
        proofs: ProofsView,
    ) -> bool {
        true
    }

    fn channel_end(&self, port_channel_id: &(PortId, ChannelId)) -> (r: Option<ChannelEnd>) {
        let ghost k = (port_channel_id.0@, port_channel_id.1@);
        let n = self.channels.len();
        let mut found: Option<&ChannelEnd> = None;
        let mut i: usize = 0;
        while i < n
            invariant
                0 <= i <= n,
                n == self.channels@.len(),
                k == (port_channel_id.0@, port_channel_id.1@),
                match found {
                    Some(c) => channels_map(self.channels@.take(i as int)).contains_key(k) && c@
                        == channels_map(self.channels@.take(i as int))[k],
                    None => !channels_map(self.channels@.take(i as int)).contains_key(k),
                },
            decreases n - i,
        {
            let entry = &self.channels[i];
            proof {
                assert(self.channels@.take(i as int + 1).drop_last() =~= self.channels@.take(
                    i as int,
                ));
                assert(self.channels@.take(i as int + 1).last() == self.channels@[i as int]);
            }
            if entry.0.0 == port_channel_id.0 && entry.0.1 == port_channel_id.1 {
                found = Some(&entry.1);
            }
            i = i + 1;
        }
        proof {
            assert(self.channels@.take(n as int) =~= self.channels@);
        }
        match found {
            Some(c) => Some(c.clone()),
            None => None,
        }
    }

    fn connection_end(&self, connection_id: &ConnectionId) -> (r: Option<ConnectionEnd>) {
        let ghost k = connection_id@;
        let n = self.connections.len();
        let mut found: Option<&ConnectionEnd> = None;
        let mut i: usize = 0;
        while i < n
            invariant
                0 <= i <= n,
                n == self.connections@.len(),
                k == connection_id@,
                match found {
                    Some(c) => connections_map(self.connections@.take(i as int)).contains_key(k)
                        && c@ == connections_map(self.connections@.take(i as int))[k],
                    None => !connections_map(self.connections@.take(i as int)).contains_key(k),
                },
            decreases n - i,
        {
            let entry = &self.connections[i];
            proof {
                assert(self.connections@.take(i as int + 1).drop_last() =~= self.connections@.take(
                    i as int,
                ));
                assert(self.connections@.take(i as int + 1).last() == self.connections@[i as int]);
            }
            if entry.0 == *connection_id {
                found = Some(&entry.1);
            }
            i = i + 1;
        }
        proof {
            assert(self.connections@.take(n as int) =~= self.connections@);
        }
        match found {
            Some(c) => Some(c.clone()),
            None => None,
        }
    }

    fn client_consensus_state(&self, client_id: &ClientId, height: Height) -> (r: Option<
        AnyConsensusState,
    >) {
        let ghost k = (client_id@, height);
        let n = self.consensus_states.len();
        let mut found: Option<&AnyConsensusState> = None;
        let mut i: usize = 0;
        while i < n
            invariant
                0 <= i <= n,
                n == self.consensus_states@.len(),
                k == (client_id@, height),
                match found {
                    Some(c) => consensus_map(self.consensus_states@.take(i as int)).contains_key(k)
                        && c@ == consensus_map(self.consensus_states@.take(i as int))[k],
                    None => !consensus_map(self.consensus_states@.take(i as int)).contains_key(k),
                },
            decreases n - i,
        {
            let entry = &self.consensus_states[i];
            proof {
                assert(self.consensus_states@.take(i as int + 1).drop_last()
                    =~= self.consensus_states@.take(i as int));
                assert(self.consensus_states@.take(i as int + 1).last()
                    == self.consensus_states@[i as int]);
            }
            if entry.0.0 == *client_id && entry.0.1 == height {
                found = Some(&entry.1);
            }
            i = i + 1;
        }
        proof {
            assert(self.consensus_states@.take(n as int) =~= self.consensus_states@);
        }
        match found {
            Some(c) => Some(c.clone()),
            None => None,
        }
    }

    fn get_packet_commitment(&self, key: &(PortId, ChannelId, Sequence)) -> (r: Option<Vec<u8>>) {
        let ghost k = (key.0@, key.1@, key.2.0);
        let n = self.commitments.len();
        let mut found: Option<&Vec<u8>> = None;
        let mut i: usize = 0;
        while i < n
            invariant
                0 <= i <= n,
                n == self.commitments@.len(),
                k == (key.0@, key.1@, key.2.0),
                match found {
                    Some(c) => commitments_map(self.commitments@.take(i as int)).contains_key(k)
                        && c@ == commitments_map(self.commitments@.take(i as int))[k],
                    None => !commitments_map(self.commitments@.take(i as int)).contains_key(k),
                },
            decreases n - i,
        {
            let entry = &self.commitments[i];
            proof {
                assert(self.commitments@.take(i as int + 1).drop_last() =~= self.commitments@.take(
                    i as int,
                ));
                assert(self.commitments@.take(i as int + 1).last() == self.commitments@[i as int]);
            }
            if entry.0.0 == key.0 && entry.0.1 == key.1 && entry.0.2.0 == key.2.0 {
                found = Some(&entry.1);
            }
            i = i + 1;
        }
        proof {
            assert(self.commitments@.take(n as int) =~= self.commitments@);
        }
        match found {
            Some(c) => {
                let r = c.clone();
                proof {
                    assert(r@ =~= c@);
                }
                Some(r)
            },
            None => None,
        }
    }

    fn get_packet_receipt(&self, key: &(PortId, ChannelId, Sequence)) -> (r: bool) {
        let ghost k = (key.0@, key.1@, key.2.0);
        let n = self.receipts.len();
        let mut present = false;
        let mut i: usize = 0;
        while i < n
            invariant
                0 <= i <= n,
                n == self.receipts@.len(),
                k == (key.0@, key.1@, key.2.0),
                present == receipts_set(self.receipts@.take(i as int)).contains(k),
            decreases n - i,
        {
            let entry = &self.receipts[i];
            proof {
                assert(self.receipts@.take(i as int + 1).drop_last() =~= self.receipts@.take(
                    i as int,
                ));
                assert(self.receipts@.take(i as int + 1).last() == self.receipts@[i as int]);
            }
            if entry.0 == key.0 && entry.1 == key.1 && entry.2.0 == key.2.0 {
                present = true;
            }
            i = i + 1;
        }
        proof {
            assert(self.receipts@.take(n as int) =~= self.receipts@);
        }
        present
    }

    fn get_next_sequence_recv(&self, key: &(PortId, ChannelId)) -> (r: Option<Sequence>) {
        let ghost k = (key.0@, key.1@);
        let n = self.next_sequences_recv.len();
        let mut found: Option<Sequence> = None;
        let mut i: usize = 0;
        while i < n
            invariant
                0 <= i <= n,
                n == self.next_sequences_recv@.len(),
                k == (key.0@, key.1@),
                match found {
                    Some(s) => sequences_map(self.next_sequences_recv@.take(i as int)).contains_key(
                        k,
                    ) && s.0 == sequences_map(self.next_sequences_recv@.take(i as int))[k],
                    None => !sequences_map(self.next_sequences_recv@.take(i as int)).contains_key(
                        k,
                    ),
                },
            decreases n - i,
        {
            let entry = &self.next_sequences_recv[i];
            proof {
                assert(self.next_sequences_recv@.take(i as int + 1).drop_last()
                    =~= self.next_sequences_recv@.take(i as int));
                assert(self.next_sequences_recv@.take(i as int + 1).last()
                    == self.next_sequences_recv@[i as int]);
            }
            if entry.0.0 == key.0 && entry.0.1 == key.1 {
                found = Some(entry.1);
            }
            i = i + 1;
        }
        proof {
            assert(self.next_sequences_recv@.take(n as int) =~= self.next_sequences_recv@);
        }
        found
    }

    fn authenticated_capability(&self, port: &PortId) -> (r: Result<Capability, ChannelError>) {
        let ghost k = port@;
        let n = self.capabilities.len();
        let mut present = false;
        let mut i: usize = 0;
        while i < n
            invariant
                0 <= i <= n,
                n == self.capabilities@.len(),
                k == port@,
                present == ports_set(self.capabilities@.take(i as int)).contains(k),
            decreases n - i,
        {
            let entry = &self.capabilities[i];
            proof {
                assert(self.capabilities@.take(i as int + 1).drop_last()
                    =~= self.capabilities@.take(i as int));
                assert(self.capabilities@.take(i as int + 1).last()
                    == self.capabilities@[i as int]);
            }
            if *entry == *port {
                present = true;
            }
            i = i + 1;
        }
        proof {
            assert(self.capabilities@.take(n as int) =~= self.capabilities@);
        }
        if present {
            Ok(Capability {  })
        } else {
            Err(ChannelError::NoPortCapability(port.clone()))
        }
    }

    fn hash(&self, input: Vec<u8>) -> (r: Vec<u8>) {
        input
    }

    fn verify_next_sequence_recv(
        &self,
        client_id: ClientId,
        packet: Packet,
        next_sequence_recv: Sequence,
        proofs: &Proofs,
    ) -> (r: Result<(), ChannelError>) {
        Ok(())
    }

    fn verify_packet_commitment(&self, client_id: ClientId, packet: Packet, proofs: &Proofs) -> (r:
        Result<(), ChannelError>) {
        Ok(())
    }

    fn verify_packet_acknowledgement(
        &self,
        client_id: ClientId,
        packet: Packet,
        acknowledgement: &Vec<u8>,
        proofs: &Proofs,
    ) -> (r: Result<(), ChannelError>) {
        Ok(())
    }

    fn verify_packet_receipt_absence(&self, client_id: ClientId, packet: Packet, proofs: &Proofs)
        -> (r: Result<(), ChannelError>) {
        Ok(())
    }
}

} // verus!
