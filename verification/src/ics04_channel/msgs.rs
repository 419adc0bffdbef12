//! Proof-carrying packet messages submitted to the handlers.

use vstd::prelude::*;
use crate::packet::{Packet, PacketView, Sequence};
use crate::proofs::{Proofs, ProofsView};

verus! {

/// The mathematical content of a timeout message.
pub ghost struct MsgTimeoutView {
    pub packet: PacketView,
    pub next_sequence_recv: u64,
    pub proofs: ProofsView,
}

/// Ask the source chain to time out a packet: the counterparty can no longer
/// receive it. `next_sequence_recv` is the counterparty's receive cursor,
/// proven by `proofs`.
#[derive(Debug)]
pub struct MsgTimeout {
    pub packet: Packet,
    pub next_sequence_recv: Sequence,
    pub proofs: Proofs,
}

impl View for MsgTimeout {
    type V = MsgTimeoutView;

    open spec fn view(&self) -> MsgTimeoutView {
        MsgTimeoutView {
            packet: self.packet@,
            next_sequence_recv: self.next_sequence_recv.0,
            proofs: self.proofs@,
        }
    }
}

impl Clone for MsgTimeout {
    fn clone(&self) -> (r: Self)
        ensures
            r@ == self@,
    {
        MsgTimeout {
            packet: self.packet.clone(),
            next_sequence_recv: self.next_sequence_recv,
            proofs: self.proofs.clone(),
        }
    }
}

/// The mathematical content of a receive message.
pub ghost struct MsgRecvPacketView {
    pub packet: PacketView,
    pub proofs: ProofsView,
}

/// Ask the destination chain to receive a packet, proven committed on the
/// source.
#[derive(Debug)]
pub struct MsgRecvPacket {
    pub packet: Packet,
    pub proofs: Proofs,
}

impl View for MsgRecvPacket {
    type V = MsgRecvPacketView;

    open spec fn view(&self) -> MsgRecvPacketView {
        MsgRecvPacketView { packet: self.packet@, proofs: self.proofs@ }
    }
}

impl Clone for MsgRecvPacket {
    fn clone(&self) -> (r: Self)
        ensures
            r@ == self@,
    {
        MsgRecvPacket { packet: self.packet.clone(), proofs: self.proofs.clone() }
    }
}

/// The mathematical content of an acknowledgement message.
pub ghost struct MsgAcknowledgementView {
    pub packet: PacketView,
    pub acknowledgement: Seq<u8>,
    pub proofs: ProofsView,
}

/// Ask the source chain to process an acknowledgement written on the
/// destination; its commitment is then erased.
#[derive(Debug)]
pub struct MsgAcknowledgement {
    pub packet: Packet,
    pub acknowledgement: Vec<u8>,
    pub proofs: Proofs,
}

impl View for MsgAcknowledgement {
    type V = MsgAcknowledgementView;

    open spec fn view(&self) -> MsgAcknowledgementView {
        MsgAcknowledgementView {
            packet: self.packet@,
            acknowledgement: self.acknowledgement@,
            proofs: self.proofs@,
        }
    }
}

impl Clone for MsgAcknowledgement {
    fn clone(&self) -> (r: Self)
        ensures
            r@ == self@,
    {
        let acknowledgement = self.acknowledgement.clone();
        proof {
            assert(acknowledgement@ =~= self.acknowledgement@);
        }
        MsgAcknowledgement { packet: self.packet.clone(), acknowledgement, proofs: self.proofs.clone() }
    }
}

} // verus!
