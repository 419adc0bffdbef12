//! The read-only view of the ledger sub-store that channel and packet
//! handlers consume, together with the verification capabilities the host
//! provides.

use vstd::prelude::*;
use crate::channel::ChannelEnd;
use crate::connection::ConnectionEnd;
use crate::height::Height;
use crate::ics02_client::consensus_state::AnyConsensusState;
use crate::ics04_channel::error::{ChannelError, ChannelErrorView};
use crate::ident::{ChannelId, ClientId, ConnectionId, PortId};
use crate::packet::{Packet, PacketView, Sequence};
use crate::proofs::Proofs;

verus! {

/// Proof that the module holds the capability for a port.
#[derive(Clone, Copy, Debug)]
pub struct Capability {}

/// The mathematical content of the ledger sub-store a handler reads.
pub ghost struct ReaderView {
    /// Channel ends, keyed by `(port, channel)`.
    pub channels: Map<(Seq<char>, Seq<char>), crate::channel::ChannelEndView>,
    /// Connection ends, keyed by connection identifier.
    pub connections: Map<Seq<char>, crate::connection::ConnectionEndView>,
    /// Consensus snapshots, keyed by `(client, height)`.
    pub consensus_states: Map<
        (Seq<char>, Height),
        crate::ics02_client::consensus_state::AnyConsensusStateView,
    >,
    /// Packet commitments, keyed by `(port, channel, sequence)`.
    pub commitments: Map<(Seq<char>, Seq<char>, u64), Seq<u8>>,
    /// Packet receipts, written on unordered channels.
    pub receipts: Set<(Seq<char>, Seq<char>, u64)>,
    /// The next expected receive sequence of each ordered channel.
    pub next_sequences_recv: Map<(Seq<char>, Seq<char>), u64>,
    /// The ports whose capability this module holds.
    pub capabilities: Set<Seq<char>>,
}

impl ReaderView {
    /// Every stored channel and connection end satisfies its invariant.
    pub open spec fn wf(&self) -> bool {
        &&& (forall|k: (Seq<char>, Seq<char>)|
            self.channels.contains_key(k) ==> (#[trigger] self.channels[k]).wf())
        &&& (forall|k: Seq<char>|
            self.connections.contains_key(k) ==> (#[trigger] self.connections[k]).wf())
    }
}

/// Read-only lookups on the ledger sub-store, plus the host's hash and
/// proof-verification capabilities. The handlers are verified against this
/// interface; every implementation states what its lookups return through
/// `reader_view`.
pub trait ChannelReader: Sized {
    /// The stored sub-store content.
    spec fn reader_view(&self) -> ReaderView;

    /// The ledger-specific hash of a byte string.
    spec fn hash_spec(&self, input: Seq<u8>) -> Seq<u8>;

    /// Whether the counterparty proof verifies the next receive sequence.
    spec fn next_seq_recv_verifies(
        &self,
        client_id: Seq<char>,
        packet: PacketView,
        next_sequence_recv: u64,
        proofs: crate::proofs::ProofsView,
    ) -> bool;

    /// Whether the counterparty proof verifies the packet's commitment on
    /// the source chain.
    spec fn packet_commitment_verifies(
        &self,
        client_id: Seq<char>,
        packet: PacketView,
        proofs: crate::proofs::ProofsView,
    ) -> bool;

    /// Whether the counterparty proof verifies the acknowledgement written
    /// on the destination chain.
    spec fn ack_verifies(
        &self,
        client_id: Seq<char>,
        packet: PacketView,
        acknowledgement: Seq<u8>,
        proofs: crate::proofs::ProofsView,
    ) -> bool;

    /// Whether the counterparty proof verifies that no receipt exists.
    spec fn receipt_absence_verifies(
        &self,
        client_id: Seq<char>,
        packet: PacketView,
        proofs: crate::proofs::ProofsView,
    ) -> bool;

    /// The channel end stored under `(port, channel)`, if any.
    fn channel_end(&self, port_channel_id: &(PortId, ChannelId)) -> (r: Option<ChannelEnd>)
        ensures
            match r {
                Some(c) => self.reader_view().channels.contains_key(
                    (port_channel_id.0@, port_channel_id.1@),
                ) && c@ == self.reader_view().channels[(port_channel_id.0@, port_channel_id.1@)],
                None => !self.reader_view().channels.contains_key(
                    (port_channel_id.0@, port_channel_id.1@),
                ),
            },
    ;

    /// The connection end stored under the identifier, if any.
    fn connection_end(&self, connection_id: &ConnectionId) -> (r: Option<ConnectionEnd>)
        ensures
            match r {
                Some(c) => self.reader_view().connections.contains_key(connection_id@) && c@
                    == self.reader_view().connections[connection_id@],
                None => !self.reader_view().connections.contains_key(connection_id@),
            },
    ;

    /// The client's consensus snapshot at the height, if any.
    fn client_consensus_state(&self, client_id: &ClientId, height: Height) -> (r: Option<
        AnyConsensusState,
    >)
        ensures
            match r {
                Some(c) => self.reader_view().consensus_states.contains_key((client_id@, height))
                    && c@ == self.reader_view().consensus_states[(client_id@, height)],
                None => !self.reader_view().consensus_states.contains_key((client_id@, height)),
            },
    ;

    /// The packet commitment stored under `(port, channel, sequence)`.
    fn get_packet_commitment(&self, key: &(PortId, ChannelId, Sequence)) -> (r: Option<Vec<u8>>)
        ensures
            match r {
                Some(c) => self.reader_view().commitments.contains_key(
                    (key.0@, key.1@, key.2.0),
                ) && c@ == self.reader_view().commitments[(key.0@, key.1@, key.2.0)],
                None => !self.reader_view().commitments.contains_key((key.0@, key.1@, key.2.0)),
            },
    ;

    /// Whether a receipt is stored under `(port, channel, sequence)`.
    fn get_packet_receipt(&self, key: &(PortId, ChannelId, Sequence)) -> (r: bool)
        ensures
            r == self.reader_view().receipts.contains((key.0@, key.1@, key.2.0)),
    ;

    /// The next expected receive sequence of the channel, if stored.
    fn get_next_sequence_recv(&self, key: &(PortId, ChannelId)) -> (r: Option<Sequence>)
        ensures
            match r {
                Some(s) => self.reader_view().next_sequences_recv.contains_key((key.0@, key.1@))
                    && s.0 == self.reader_view().next_sequences_recv[(key.0@, key.1@)],
                None => !self.reader_view().next_sequences_recv.contains_key((key.0@, key.1@)),
            },
    ;

    /// The capability for the port, or `NoPortCapability`.
    fn authenticated_capability(&self, port: &PortId) -> (r: Result<Capability, ChannelError>)
        ensures
            match r {
                Ok(_) => self.reader_view().capabilities.contains(port@),
                Err(e) => !self.reader_view().capabilities.contains(port@) && e@
                    == (ChannelErrorView::NoPortCapability { port_id: port@ }),
            },
    ;

    /// Hash bytes with the ledger's commitment hash.
    fn hash(&self, input: Vec<u8>) -> (r: Vec<u8>)
        ensures
            r@ == self.hash_spec(input@),
    ;

    /// Verify, against the counterparty proof, that its next receive
    /// sequence is as claimed.
    fn verify_next_sequence_recv(
        &self,
        client_id: ClientId,
        packet: Packet,
        next_sequence_recv: Sequence,
        proofs: &Proofs,
    ) -> (r: Result<(), ChannelError>)
        ensures
            match r {
                Ok(()) => self.next_seq_recv_verifies(
                    client_id@,
                    packet@,
                    next_sequence_recv.0,
                    proofs@,
                ),
                Err(e) => !self.next_seq_recv_verifies(
                    client_id@,
                    packet@,
                    next_sequence_recv.0,
                    proofs@,
                ) && e@ == (ChannelErrorView::PacketVerificationFailed {
                    sequence: packet@.sequence,
                }),
            },
    ;

    /// Verify, against the counterparty proof, that the packet's commitment
    /// stands on the source chain.
    fn verify_packet_commitment(&self, client_id: ClientId, packet: Packet, proofs: &Proofs) -> (r:
        Result<(), ChannelError>)
        ensures
            match r {
                Ok(()) => self.packet_commitment_verifies(client_id@, packet@, proofs@),
                Err(e) => !self.packet_commitment_verifies(client_id@, packet@, proofs@) && e@
                    == (ChannelErrorView::PacketVerificationFailed {
                    sequence: packet@.sequence,
                }),
            },
    ;

    /// Verify, against the counterparty proof, the acknowledgement the
    /// destination chain wrote for the packet.
    fn verify_packet_acknowledgement(
        &self,
        client_id: ClientId,
        packet: Packet,
        acknowledgement: &Vec<u8>,
        proofs: &Proofs,
    ) -> (r: Result<(), ChannelError>)
        ensures
            match r {
                Ok(()) => self.ack_verifies(client_id@, packet@, acknowledgement@, proofs@),
                Err(e) => !self.ack_verifies(client_id@, packet@, acknowledgement@, proofs@) && e@
                    == (ChannelErrorView::PacketVerificationFailed {
                    sequence: packet@.sequence,
                }),
            },
    ;

    /// Verify, against the counterparty proof, that it stores no receipt for
    /// the packet.
    fn verify_packet_receipt_absence(&self, client_id: ClientId, packet: Packet, proofs: &Proofs)
        -> (r: Result<(), ChannelError>)
        ensures
            match r {
                Ok(()) => self.receipt_absence_verifies(client_id@, packet@, proofs@),
                Err(e) => !self.receipt_absence_verifies(client_id@, packet@, proofs@) && e@
                    == (ChannelErrorView::PacketVerificationFailed {
                    sequence: packet@.sequence,
                }),
            },
    ;
}

} // verus!
