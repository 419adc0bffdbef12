//! Errors of the channel and packet handlers. Each is a distinct value with
//! the identifiers and heights involved.

use vstd::prelude::*;
use crate::height::Height;
use crate::ident::{ChannelId, ClientId, ConnectionId, PortId};
use crate::packet::Sequence;

verus! {

/// The mathematical content of a channel handler error.
pub ghost enum ChannelErrorView {
    /// No channel end is stored under the packet's source `(port, channel)`.
    ChannelNotFound { port_id: Seq<char>, channel_id: Seq<char> },
    /// The source channel end is not `Open`.
    ChannelClosed { channel_id: Seq<char> },
    /// The module holds no capability for the port.
    NoPortCapability { port_id: Seq<char> },
    /// The source channel's counterparty is not the packet's destination.
    InvalidPacketCounterparty { port_id: Seq<char>, channel_id: Seq<char> },
    /// The channel's first connection hop is not a stored connection.
    MissingConnection { connection_id: Seq<char> },
    /// No consensus state of the client exists at the proof height.
    MissingClientConsensusState { client_id: Seq<char>, height: Height },
    /// The stored consensus state carries no readable timestamp.
    ErrorInvalidConsensusState,
    /// The packet's timeout height is enabled but above the proof height.
    PacketTimeoutHeightNotReached { timeout_height: Height, proof_height: Height },
    /// The packet's timeout timestamp is enabled but after the proof's.
    PacketTimeoutTimestampNotReached { timeout_timestamp: u64, proof_timestamp: u64 },
    /// No commitment is stored for the packet's sequence.
    PacketCommitmentNotFound { sequence: u64 },
    /// The stored commitment differs from the recomputed one.
    IncorrectPacketCommitment { sequence: u64 },
    /// On an ordered channel, the sequence is below the expected cursor.
    InvalidPacketSequence { sequence: u64, next_sequence: u64 },
    /// The counterparty proof did not verify.
    PacketVerificationFailed { sequence: u64 },
    /// An unordered channel already recorded a receipt for the sequence.
    PacketReceiptAlreadyExists { sequence: u64 },
    /// An ordered channel has no receive cursor stored.
    MissingNextRecvSequence { port_id: Seq<char>, channel_id: Seq<char> },
}

/// An error raised by a channel or packet handler.
#[derive(Debug)]
pub enum ChannelError {
    ChannelNotFound(PortId, ChannelId),
    ChannelClosed(ChannelId),
    NoPortCapability(PortId),
    InvalidPacketCounterparty(PortId, ChannelId),
    MissingConnection(ConnectionId),
    MissingClientConsensusState(ClientId, Height),
    ErrorInvalidConsensusState,
    PacketTimeoutHeightNotReached(Height, Height),
    PacketTimeoutTimestampNotReached(u64, u64),
    PacketCommitmentNotFound(Sequence),
    IncorrectPacketCommitment(Sequence),
    InvalidPacketSequence(Sequence, Sequence),
    PacketVerificationFailed(Sequence),
    PacketReceiptAlreadyExists(Sequence),
    MissingNextRecvSequence(PortId, ChannelId),
}

impl View for ChannelError {
    type V = ChannelErrorView;

    open spec fn view(&self) -> ChannelErrorView {
        match self {
            ChannelError::ChannelNotFound(p, c) => ChannelErrorView::ChannelNotFound {
                port_id: p@,
                channel_id: c@,
            },
            ChannelError::ChannelClosed(c) => ChannelErrorView::ChannelClosed { channel_id: c@ },
            ChannelError::NoPortCapability(p) => ChannelErrorView::NoPortCapability {
                port_id: p@,
            },
            ChannelError::InvalidPacketCounterparty(p, c) => {
                ChannelErrorView::InvalidPacketCounterparty { port_id: p@, channel_id: c@ }
            },
            ChannelError::MissingConnection(c) => ChannelErrorView::MissingConnection {
                connection_id: c@,
            },
            ChannelError::MissingClientConsensusState(c, h) => {
                ChannelErrorView::MissingClientConsensusState { client_id: c@, height: *h }
            },
            ChannelError::ErrorInvalidConsensusState => {
                ChannelErrorView::ErrorInvalidConsensusState
            },
            ChannelError::PacketTimeoutHeightNotReached(t, p) => {
                ChannelErrorView::PacketTimeoutHeightNotReached {
                    timeout_height: *t,
                    proof_height: *p,
                }
            },
            ChannelError::PacketTimeoutTimestampNotReached(t, p) => {
                ChannelErrorView::PacketTimeoutTimestampNotReached {
                    timeout_timestamp: *t,
                    proof_timestamp: *p,
                }
            },
            ChannelError::PacketCommitmentNotFound(s) => {
                ChannelErrorView::PacketCommitmentNotFound { sequence: s.0 }
            },
            ChannelError::IncorrectPacketCommitment(s) => {
                ChannelErrorView::IncorrectPacketCommitment { sequence: s.0 }
            },
            ChannelError::InvalidPacketSequence(s, n) => ChannelErrorView::InvalidPacketSequence {
                sequence: s.0,
                next_sequence: n.0,
            },
            ChannelError::PacketVerificationFailed(s) => {
                ChannelErrorView::PacketVerificationFailed { sequence: s.0 }
            },
            ChannelError::PacketReceiptAlreadyExists(s) => {
                ChannelErrorView::PacketReceiptAlreadyExists { sequence: s.0 }
            },
            ChannelError::MissingNextRecvSequence(p, c) => {
                ChannelErrorView::MissingNextRecvSequence { port_id: p@, channel_id: c@ }
            },
        }
    }
}

} // verus!
