//! The receive handler: given proof that a packet was committed on the
//! source chain, record its arrival on the destination — a receipt on an
//! unordered channel, an advanced receive cursor on an ordered one — and
//! write the application's acknowledgement.

use vstd::prelude::*;
use crate::channel::{Counterparty, CounterpartyView, Order, State};
use crate::events::{IbcEvent, IbcEventView};
use crate::handler::{HandlerOutput, HandlerOutputView, HandlerResult};
use crate::height::Height;
use crate::ics04_channel::context::{ChannelReader, ReaderView};
use crate::ics04_channel::error::{ChannelError, ChannelErrorView};
use crate::ics04_channel::events::{PacketEventView, ReceivePacket, WriteAckView,
    WriteAcknowledgement};
use crate::ics04_channel::handler::{PacketResult, PacketResultView, RecvPacketResult,
    RecvPacketResultView};
use crate::ics04_channel::msgs::{MsgRecvPacket, MsgRecvPacketView};
use crate::packet::Sequence;

verus! {

/// The store key a successful unordered receive writes a receipt under.
pub open spec fn recv_receipt_key(msg: MsgRecvPacketView) -> (Seq<char>, Seq<char>, u64) {
    (msg.packet.destination_port, msg.packet.destination_channel, msg.packet.sequence)
}

/// The receive decision, step by step: look the destination channel up,
/// check it is open and the port capability held, match the counterparty,
/// resolve the connection and the consensus state at the proof height, and
/// verify the commitment proof. On an ordered channel the packet must carry
/// exactly the expected sequence, which the receive advances; on an
/// unordered channel the sequence must not have been received before.
pub open spec fn recv_outcome<Ctx: ChannelReader>(ctx: &Ctx, msg: MsgRecvPacketView) -> Result<
    RecvPacketResultView,
    ChannelErrorView,
> {
    let r = ctx.reader_view();
    let p = msg.packet;
    let chan_key = (p.destination_port, p.destination_channel);
    if !r.channels.contains_key(chan_key) {
        Err(
            ChannelErrorView::ChannelNotFound {
                port_id: p.destination_port,
                channel_id: p.destination_channel,
            },
        )
    } else if !(r.channels[chan_key].state == State::Open) {
        Err(ChannelErrorView::ChannelClosed { channel_id: p.destination_channel })
    } else if !r.capabilities.contains(p.destination_port) {
        Err(ChannelErrorView::NoPortCapability { port_id: p.destination_port })
    } else if !(r.channels[chan_key].remote == (CounterpartyView {
        port_id: p.source_port,
        channel_id: Some(p.source_channel),
    })) {
        Err(
            ChannelErrorView::InvalidPacketCounterparty {
                port_id: p.source_port,
                channel_id: p.source_channel,
            },
        )
    } else if !r.connections.contains_key(r.channels[chan_key].connection_hops[0]) {
        Err(
            ChannelErrorView::MissingConnection {
                connection_id: r.channels[chan_key].connection_hops[0],
            },
        )
    } else if !r.consensus_states.contains_key(
        (r.connections[r.channels[chan_key].connection_hops[0]].client_id, msg.proofs.height),
    ) {
        Err(
            ChannelErrorView::MissingClientConsensusState {
                client_id: r.connections[r.channels[chan_key].connection_hops[0]].client_id,
                height: msg.proofs.height,
            },
        )
    } else if !ctx.packet_commitment_verifies(
        r.connections[r.channels[chan_key].connection_hops[0]].client_id,
        p,
        msg.proofs,
    ) {
        Err(ChannelErrorView::PacketVerificationFailed { sequence: p.sequence })
    } else if r.channels[chan_key].ordering == Order::Ordered {
        if !r.next_sequences_recv.contains_key(chan_key) {
            Err(
                ChannelErrorView::MissingNextRecvSequence {
                    port_id: p.destination_port,
                    channel_id: p.destination_channel,
                },
            )
        } else if p.sequence != r.next_sequences_recv[chan_key] || p.sequence == u64::MAX {
            Err(
                ChannelErrorView::InvalidPacketSequence {
                    sequence: p.sequence,
                    next_sequence: r.next_sequences_recv[chan_key],
                },
            )
        } else {
            Ok(
                RecvPacketResultView {
                    port_id: p.destination_port,
                    channel_id: p.destination_channel,
                    seq: p.sequence,
                    receipt: false,
                    next_seq_recv: Some((p.sequence + 1) as u64),
                },
            )
        }
    } else {
        if r.receipts.contains(recv_receipt_key(msg)) {
            Err(ChannelErrorView::PacketReceiptAlreadyExists { sequence: p.sequence })
        } else {
            Ok(
                RecvPacketResultView {
                    port_id: p.destination_port,
                    channel_id: p.destination_channel,
                    seq: p.sequence,
                    receipt: true,
                    next_seq_recv: None,
                },
            )
        }
    }
}

/// Process a receive message against the reader. `ack` is the
/// acknowledgement the application module wrote for this packet. Success
/// emits a `ReceivePacket` then a `WriteAcknowledgement` event.
pub fn process<Ctx: ChannelReader>(ctx: &Ctx, msg: MsgRecvPacket, ack: Vec<u8>) -> (r:
    HandlerResult<PacketResult, ChannelError>)
    requires
        ctx.reader_view().wf(),
    ensures
        match r {
            Ok(out) => recv_outcome(ctx, msg@) matches Ok(res) && out@ == (HandlerOutputView {
                result: PacketResultView::Recv(res),
                log: seq!["success: packet receive"@],
                events: seq![
                    IbcEventView::ReceivePacket(
                        PacketEventView {
                            height: Height { revision_number: 0u64, revision_height: 0u64 },
                            packet: msg@.packet,
                        },
                    ),
                    IbcEventView::WriteAcknowledgement(
                        WriteAckView {
                            height: Height { revision_number: 0u64, revision_height: 0u64 },
                            packet: msg@.packet,
                            ack: ack@,
                        },
                    ),
                ],
            }),
            Err(e) => recv_outcome(ctx, msg@) == Err::<RecvPacketResultView, ChannelErrorView>(e@),
        },
{
    let mut output = HandlerOutput::<PacketResult>::builder();

    let packet = &msg.packet;

    let dest_channel_end = match ctx.channel_end(
        &(packet.destination_port.clone(), packet.destination_channel.clone()),
    ) {
        Some(c) => c,
        None => {
            return Err(
                ChannelError::ChannelNotFound(
                    packet.destination_port.clone(),
                    packet.destination_channel.clone(),
                ),
            );
        },
    };

    if !dest_channel_end.state_matches(&State::Open) {
        return Err(ChannelError::ChannelClosed(packet.destination_channel.clone()));
    }

    let _channel_cap = match ctx.authenticated_capability(&packet.destination_port) {
        Ok(c) => c,
        Err(e) => {
            return Err(e);
        },
    };

    let counterparty = Counterparty::new(
        packet.source_port.clone(),
        Some(packet.source_channel.clone()),
    );

    if !dest_channel_end.counterparty_matches(&counterparty) {
        return Err(
            ChannelError::InvalidPacketCounterparty(
                packet.source_port.clone(),
                packet.source_channel.clone(),
            ),
        );
    }

    let connection_end = match ctx.connection_end(&dest_channel_end.connection_hops[0]) {
        Some(c) => c,
        None => {
            return Err(
                ChannelError::MissingConnection(dest_channel_end.connection_hops[0].clone()),
            );
        },
    };

    let client_id = connection_end.client_id().clone();

    let proof_height = msg.proofs.height();

    match ctx.client_consensus_state(&client_id, proof_height) {
        Some(_) => {},
        None => {
            return Err(ChannelError::MissingClientConsensusState(client_id, proof_height));
        },
    }

    match ctx.verify_packet_commitment(client_id, packet.clone(), &msg.proofs) {
        Ok(()) => {},
        Err(e) => {
            return Err(e);
        },
    }

    let result = if dest_channel_end.order_matches(&Order::Ordered) {
        let next_seq_recv = match ctx.get_next_sequence_recv(
            &(packet.destination_port.clone(), packet.destination_channel.clone()),
        ) {
            Some(s) => s,
            None => {
                return Err(
                    ChannelError::MissingNextRecvSequence(
                        packet.destination_port.clone(),
                        packet.destination_channel.clone(),
                    ),
                );
            },
        };
        if packet.sequence.0 != next_seq_recv.0 || packet.sequence.0 == u64::MAX {
            return Err(ChannelError::InvalidPacketSequence(packet.sequence, next_seq_recv));
        }
        PacketResult::Recv(
            RecvPacketResult {
                port_id: packet.destination_port.clone(),
                channel_id: packet.destination_channel.clone(),
                seq: packet.sequence,
                receipt: false,
                next_seq_recv: Some(Sequence(packet.sequence.0 + 1)),
            },
        )
    } else {
        if ctx.get_packet_receipt(
            &(packet.destination_port.clone(), packet.destination_channel.clone(), packet.sequence),
        ) {
            return Err(ChannelError::PacketReceiptAlreadyExists(packet.sequence));
        }
        PacketResult::Recv(
            RecvPacketResult {
                port_id: packet.destination_port.clone(),
                channel_id: packet.destination_channel.clone(),
                seq: packet.sequence,
                receipt: true,
                next_seq_recv: None,
            },
        )
    };

    output.log("success: packet receive");

    output.emit(
        IbcEvent::ReceivePacket(
            ReceivePacket { height: Height::default(), packet: packet.clone() },
        ),
    );
    output.emit(
        IbcEvent::WriteAcknowledgement(
            WriteAcknowledgement { height: Height::default(), packet: packet.clone(), ack },
        ),
    );

    let out = output.with_result(result);
    proof {
        assert(out@.log =~= seq!["success: packet receive"@]);
        assert(out@.events =~= seq![
            IbcEventView::ReceivePacket(
                PacketEventView {
                    height: Height { revision_number: 0u64, revision_height: 0u64 },
                    packet: msg@.packet,
                },
            ),
            IbcEventView::WriteAcknowledgement(
                WriteAckView {
                    height: Height { revision_number: 0u64, revision_height: 0u64 },
                    packet: msg@.packet,
                    ack: ack@,
                },
            ),
        ]);
    }
    Ok(out)
}


/// Handler purity: the receive decision depends on the reader's stored
/// content and verification capability and on the message alone.
pub proof fn lemma_recv_deterministic<C1: ChannelReader, C2: ChannelReader>(
    c1: &C1,
    c2: &C2,
    msg: MsgRecvPacketView,
)
    requires
        c1.reader_view() == c2.reader_view(),
        forall|cl: Seq<char>, p: crate::packet::PacketView, pr: crate::proofs::ProofsView|
            #[trigger] c1.packet_commitment_verifies(cl, p, pr) == c2.packet_commitment_verifies(
                cl,
                p,
                pr,
            ),
    ensures
        recv_outcome(c1, msg) == recv_outcome(c2, msg),
{
}

/// Idempotent receive on an unordered channel. A successful receive writes
/// a receipt; against the store that results, the same message fails with
/// `PacketReceiptAlreadyExists`, and writing the receipt again would leave
/// the store unchanged.
pub proof fn lemma_recv_idempotent<C1: ChannelReader, C2: ChannelReader>(
    c1: &C1,
    c2: &C2,
    msg: MsgRecvPacketView,
)
    requires
        recv_outcome(c1, msg) is Ok,
        c1.reader_view().channels.contains_key(
            (msg.packet.destination_port, msg.packet.destination_channel),
        ),
        c1.reader_view().channels[(msg.packet.destination_port, msg.packet.destination_channel)]
            .ordering == Order::Unordered,
        c2.reader_view() == (ReaderView {
            receipts: c1.reader_view().receipts.insert(recv_receipt_key(msg)),
            ..c1.reader_view()
        }),
        forall|cl: Seq<char>, p: crate::packet::PacketView, pr: crate::proofs::ProofsView|
            #[trigger] c1.packet_commitment_verifies(cl, p, pr) == c2.packet_commitment_verifies(
                cl,
                p,
                pr,
            ),
    ensures
        recv_outcome(c2, msg) == Err::<RecvPacketResultView, ChannelErrorView>(
            ChannelErrorView::PacketReceiptAlreadyExists { sequence: msg.packet.sequence },
        ),
        c1.reader_view().receipts.insert(recv_receipt_key(msg)).insert(recv_receipt_key(msg))
            == c1.reader_view().receipts.insert(recv_receipt_key(msg)),
{
    assert(c1.reader_view().receipts.insert(recv_receipt_key(msg)).insert(recv_receipt_key(msg))
        =~= c1.reader_view().receipts.insert(recv_receipt_key(msg)));
}

} // verus!
