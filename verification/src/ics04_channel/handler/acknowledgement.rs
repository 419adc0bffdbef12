//! The acknowledgement handler: given proof that the destination chain
//! wrote an acknowledgement for a packet, erase the packet's commitment on
//! the source chain.

use vstd::prelude::*;
use crate::channel::{Counterparty, CounterpartyView, State};
use crate::events::{IbcEvent, IbcEventView};
use crate::handler::{HandlerOutput, HandlerOutputView, HandlerResult};
use crate::height::Height;
use crate::ics04_channel::context::ChannelReader;
use crate::ics04_channel::error::{ChannelError, ChannelErrorView};
use crate::ics04_channel::events::{AcknowledgePacket, PacketEventView};
use crate::ics04_channel::handler::{AckPacketResult, AckPacketResultView, PacketResult,
    PacketResultView};
use crate::ics04_channel::msgs::{MsgAcknowledgement, MsgAcknowledgementView};
use crate::packet::{commitment_input, spec_commitment_input};
use crate::wire::bytes_eq;

verus! {

/// The acknowledgement decision, step by step: look the source channel up,
/// check it is open and the port capability held, match the counterparty,
/// resolve the connection and the consensus state at the proof height,
/// match the stored commitment against the recomputed one, and verify the
/// written acknowledgement against the counterparty proof.
pub open spec fn ack_outcome<Ctx: ChannelReader>(ctx: &Ctx, msg: MsgAcknowledgementView) -> Result<
    AckPacketResultView,
    ChannelErrorView,
> {
    let r = ctx.reader_view();
    let p = msg.packet;
    let chan_key = (p.source_port, p.source_channel);
    if !r.channels.contains_key(chan_key) {
        Err(
            ChannelErrorView::ChannelNotFound {
                port_id: p.source_port,
                channel_id: p.source_channel,
            },
        )
    } else if !(r.channels[chan_key].state == State::Open) {
        Err(ChannelErrorView::ChannelClosed { channel_id: p.source_channel })
    } else if !r.capabilities.contains(p.source_port) {
        Err(ChannelErrorView::NoPortCapability { port_id: p.source_port })
    } else if !(r.channels[chan_key].remote == (CounterpartyView {
        port_id: p.destination_port,
        channel_id: Some(p.destination_channel),
    })) {
        Err(
            ChannelErrorView::InvalidPacketCounterparty {
                port_id: p.destination_port,
                channel_id: p.destination_channel,
            },
        )
    } else if !r.connections.contains_key(r.channels[chan_key].connection_hops[0]) {
        Err(
            ChannelErrorView::MissingConnection {
                connection_id: r.channels[chan_key].connection_hops[0],
            },
        )
    } else if !r.consensus_states.contains_key(
        (r.connections[r.channels[chan_key].connection_hops[0]].client_id, msg.proofs.height),
    ) {
        Err(
            ChannelErrorView::MissingClientConsensusState {
                client_id: r.connections[r.channels[chan_key].connection_hops[0]].client_id,
                height: msg.proofs.height,
            },
        )
    } else if !r.commitments.contains_key((p.source_port, p.source_channel, p.sequence)) {
        Err(ChannelErrorView::PacketCommitmentNotFound { sequence: p.sequence })
    } else if !(r.commitments[(p.source_port, p.source_channel, p.sequence)] == ctx.hash_spec(
        spec_commitment_input(p.timeout_timestamp, p.timeout_height, p.data),
    )) {
        Err(ChannelErrorView::IncorrectPacketCommitment { sequence: p.sequence })
    } else if !ctx.ack_verifies(
        r.connections[r.channels[chan_key].connection_hops[0]].client_id,
        p,
        msg.acknowledgement,
        msg.proofs,
    ) {
        Err(ChannelErrorView::PacketVerificationFailed { sequence: p.sequence })
    } else {
        Ok(
            AckPacketResultView {
                port_id: p.source_port,
                channel_id: p.source_channel,
                seq: p.sequence,
            },
        )
    }
}

/// Process an acknowledgement message against the reader. Success returns
/// an `Ack` result naming the commitment to erase and emits exactly one
/// `AcknowledgePacket` event.
pub fn process<Ctx: ChannelReader>(ctx: &Ctx, msg: MsgAcknowledgement) -> (r: HandlerResult<
    PacketResult,
    ChannelError,
>)
    requires
        ctx.reader_view().wf(),
    ensures
        match r {
            Ok(out) => ack_outcome(ctx, msg@) matches Ok(res) && out@ == (HandlerOutputView {
                result: PacketResultView::Ack(res),
                log: seq!["success: packet ack"@],
                events: seq![
                    IbcEventView::AcknowledgePacket(
                        PacketEventView {
                            height: Height { revision_number: 0u64, revision_height: 0u64 },
                            packet: msg@.packet,
                        },
                    ),
                ],
            }),
            Err(e) => ack_outcome(ctx, msg@) == Err::<AckPacketResultView, ChannelErrorView>(e@),
        },
{
    let mut output = HandlerOutput::<PacketResult>::builder();

    let packet = &msg.packet;

    let source_channel_end = match ctx.channel_end(
        &(packet.source_port.clone(), packet.source_channel.clone()),
    ) {
        Some(c) => c,
        None => {
            return Err(
                ChannelError::ChannelNotFound(
                    packet.source_port.clone(),
                    packet.source_channel.clone(),
                ),
            );
        },
    };

    if !source_channel_end.state_matches(&State::Open) {
        return Err(ChannelError::ChannelClosed(packet.source_channel.clone()));
    }

    let _channel_cap = match ctx.authenticated_capability(&packet.source_port) {
        Ok(c) => c,
        Err(e) => {
            return Err(e);
        },
    };

    let counterparty = Counterparty::new(
        packet.destination_port.clone(),
        Some(packet.destination_channel.clone()),
    );

    if !source_channel_end.counterparty_matches(&counterparty) {
        return Err(
            ChannelError::InvalidPacketCounterparty(
                packet.destination_port.clone(),
                packet.destination_channel.clone(),
            ),
        );
    }

    let connection_end = match ctx.connection_end(&source_channel_end.connection_hops[0]) {
        Some(c) => c,
        None => {
            return Err(
                ChannelError::MissingConnection(source_channel_end.connection_hops[0].clone()),
            );
        },
    };

    let client_id = connection_end.client_id().clone();

    let proof_height = msg.proofs.height();

    match ctx.client_consensus_state(&client_id, proof_height) {
        Some(_) => {},
        None => {
            return Err(ChannelError::MissingClientConsensusState(client_id, proof_height));
        },
    }

    let packet_commitment = match ctx.get_packet_commitment(
        &(packet.source_port.clone(), packet.source_channel.clone(), packet.sequence),
    ) {
        Some(c) => c,
        None => {
            return Err(ChannelError::PacketCommitmentNotFound(packet.sequence));
        },
    };

    let input = commitment_input(packet.timeout_timestamp, packet.timeout_height, &packet.data);
    let expected = ctx.hash(input);
    if !bytes_eq(&packet_commitment, &expected) {
        return Err(ChannelError::IncorrectPacketCommitment(packet.sequence));
    }

    match ctx.verify_packet_acknowledgement(
        client_id,
        packet.clone(),
        &msg.acknowledgement,
        &msg.proofs,
    ) {
        Ok(()) => {},
        Err(e) => {
            return Err(e);
        },
    }

    let result = PacketResult::Ack(
        AckPacketResult {
            port_id: packet.source_port.clone(),
            channel_id: packet.source_channel.clone(),
            seq: packet.sequence,
        },
    );

    output.log("success: packet ack");

    output.emit(
        IbcEvent::AcknowledgePacket(
            AcknowledgePacket { height: Height::default(), packet: packet.clone() },
        ),
    );

    let out = output.with_result(result);
    proof {
        assert(out@.log =~= seq!["success: packet ack"@]);
        assert(out@.events =~= seq![
            IbcEventView::AcknowledgePacket(
                PacketEventView {
                    height: Height { revision_number: 0u64, revision_height: 0u64 },
                    packet: msg@.packet,
                },
            ),
        ]);
    }
    Ok(out)
}


/// Handler purity: the acknowledgement decision depends on the reader's
/// stored content, hash and verification capabilities and on the message
/// alone.
pub proof fn lemma_ack_deterministic<C1: ChannelReader, C2: ChannelReader>(
    c1: &C1,
    c2: &C2,
    msg: MsgAcknowledgementView,
)
    requires
        c1.reader_view() == c2.reader_view(),
        forall|b: Seq<u8>| #[trigger] c1.hash_spec(b) == c2.hash_spec(b),
        forall|
            cl: Seq<char>,
            p: crate::packet::PacketView,
            a: Seq<u8>,
            pr: crate::proofs::ProofsView,
        |
            #[trigger] c1.ack_verifies(cl, p, a, pr) == c2.ack_verifies(cl, p, a, pr),
    ensures
        ack_outcome(c1, msg) == ack_outcome(c2, msg),
{
}

} // verus!
