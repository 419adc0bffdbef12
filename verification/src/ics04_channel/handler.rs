//! The packet handlers: pure functions from a reader and a message to the
//! store mutation to persist, the events to emit, and the log produced.

use vstd::prelude::*;
use crate::ident::{ChannelId, PortId};
use crate::packet::Sequence;

pub mod acknowledgement;
pub mod recv_packet;
pub mod timeout;

verus! {

/// The mathematical content of a receive decision.
pub ghost struct RecvPacketResultView {
    pub port_id: Seq<char>,
    pub channel_id: Seq<char>,
    pub seq: u64,
    pub receipt: bool,
    pub next_seq_recv: Option<u64>,
}

/// What the caller must persist after a successful receive: on an unordered
/// channel a receipt for the sequence; on an ordered channel the advanced
/// receive cursor.
#[derive(Debug)]
pub struct RecvPacketResult {
    pub port_id: PortId,
    pub channel_id: ChannelId,
    pub seq: Sequence,
    pub receipt: bool,
    pub next_seq_recv: Option<Sequence>,
}

impl View for RecvPacketResult {
    type V = RecvPacketResultView;

    open spec fn view(&self) -> RecvPacketResultView {
        RecvPacketResultView {
            port_id: self.port_id@,
            channel_id: self.channel_id@,
            seq: self.seq.0,
            receipt: self.receipt,
            next_seq_recv: match self.next_seq_recv {
                Some(s) => Some(s.0),
                None => None,
            },
        }
    }
}

/// The mathematical content of an acknowledgement decision.
pub ghost struct AckPacketResultView {
    pub port_id: Seq<char>,
    pub channel_id: Seq<char>,
    pub seq: u64,
}

/// What the caller must persist after a successful acknowledgement: the
/// packet's commitment is erased.
#[derive(Debug)]
pub struct AckPacketResult {
    pub port_id: PortId,
    pub channel_id: ChannelId,
    pub seq: Sequence,
}

impl View for AckPacketResult {
    type V = AckPacketResultView;

    open spec fn view(&self) -> AckPacketResultView {
        AckPacketResultView { port_id: self.port_id@, channel_id: self.channel_id@, seq: self.seq.0 }
    }
}

/// The mathematical content of a packet handler's decision.
pub ghost enum PacketResultView {
    Recv(RecvPacketResultView),
    Ack(AckPacketResultView),
    Timeout(timeout::TimeoutPacketResultView),
}

/// The full, sufficient description of the ledger mutation a packet handler
/// asks its caller to perform.
#[derive(Debug)]
pub enum PacketResult {
    Recv(RecvPacketResult),
    Ack(AckPacketResult),
    Timeout(timeout::TimeoutPacketResult),
}

impl View for PacketResult {
    type V = PacketResultView;

    open spec fn view(&self) -> PacketResultView {
        match self {
            PacketResult::Recv(r) => PacketResultView::Recv(r@),
            PacketResult::Ack(r) => PacketResultView::Ack(r@),
            PacketResult::Timeout(r) => PacketResultView::Timeout(r@),
        }
    }
}

} // verus!
