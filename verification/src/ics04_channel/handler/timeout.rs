//! The timeout handler: given proof that the counterparty can no longer
//! receive a packet, erase its commitment; on an ordered channel, also close
//! the source channel end.

use vstd::prelude::*;
use crate::channel::{ChannelEnd, ChannelEndView, Counterparty, CounterpartyView, Order, State};
use crate::events::{IbcEvent, IbcEventView};
use crate::handler::{HandlerOutput, HandlerOutputView, HandlerResult};
use crate::height::{height_le, Height};
use crate::ics04_channel::context::ChannelReader;
use crate::ics04_channel::error::{ChannelError, ChannelErrorView};
use crate::ics04_channel::events::{PacketEventView, TimeoutPacket};
use crate::ics04_channel::handler::{PacketResult, PacketResultView};
use crate::ics04_channel::msgs::{MsgTimeout, MsgTimeoutView};
use crate::ident::{ChannelId, PortId};
use crate::packet::{commitment_input, spec_commitment_input};
use crate::wire::bytes_eq;

verus! {

/// The mathematical content of a timeout decision.
pub ghost struct TimeoutPacketResultView {
    pub port_id: Seq<char>,
    pub channel_id: Seq<char>,
    pub seq: u64,
    pub channel: Option<ChannelEndView>,
}

/// What the caller must persist after a successful timeout: erase the
/// packet's commitment, and, on an ordered channel, store the closed source
/// channel end.
#[derive(Debug)]
pub struct TimeoutPacketResult {
    pub port_id: PortId,
    pub channel_id: ChannelId,
    pub seq: crate::packet::Sequence,
    pub channel: Option<ChannelEnd>,
}

impl View for TimeoutPacketResult {
    type V = TimeoutPacketResultView;

    open spec fn view(&self) -> TimeoutPacketResultView {
        TimeoutPacketResultView {
            port_id: self.port_id@,
            channel_id: self.channel_id@,
            seq: self.seq.0,
            channel: match self.channel {
                Some(ref c) => Some(c@),
                None => None,
            },
        }
    }
}

/// The timeout decision, step by step: look the source channel up, check it
/// is open and the port capability held, match the counterparty, resolve the
/// connection and the consensus state at the proof height, check that the
/// packet's timeout has passed on the other end, recompute and match the
/// stored commitment, then verify the counterparty proof — the receive
/// cursor on an ordered channel (which the timeout closes), the absence of a
/// receipt on an unordered one.
pub open spec fn timeout_outcome<Ctx: ChannelReader>(ctx: &Ctx, msg: MsgTimeoutView) -> Result<
    TimeoutPacketResultView,
    ChannelErrorView,
> {
    let r = ctx.reader_view();
    let p = msg.packet;
    let chan_key = (p.source_port, p.source_channel);
    let zero = Height { revision_number: 0u64, revision_height: 0u64 };
    if !r.channels.contains_key(chan_key) {
        Err(
            ChannelErrorView::ChannelNotFound {
                port_id: p.source_port,
                channel_id: p.source_channel,
            },
        )
    } else if !(r.channels[chan_key].state == State::Open) {
        Err(ChannelErrorView::ChannelClosed { channel_id: p.source_channel })
    } else if !r.capabilities.contains(p.source_port) {
        Err(ChannelErrorView::NoPortCapability { port_id: p.source_port })
    } else if !(r.channels[chan_key].remote == (CounterpartyView {
        port_id: p.destination_port,
        channel_id: Some(p.destination_channel),
    })) {
        Err(
            ChannelErrorView::InvalidPacketCounterparty {
                port_id: p.destination_port,
                channel_id: p.destination_channel,
            },
        )
    } else if !r.connections.contains_key(r.channels[chan_key].connection_hops[0]) {
        Err(
            ChannelErrorView::MissingConnection {
                connection_id: r.channels[chan_key].connection_hops[0],
            },
        )
    } else if !r.consensus_states.contains_key(
        (r.connections[r.channels[chan_key].connection_hops[0]].client_id, msg.proofs.height),
    ) {
        Err(
            ChannelErrorView::MissingClientConsensusState {
                client_id: r.connections[r.channels[chan_key].connection_hops[0]].client_id,
                height: msg.proofs.height,
            },
        )
    } else {
        let chan = r.channels[chan_key];
        let client_id = r.connections[chan.connection_hops[0]].client_id;
        let proof_height = msg.proofs.height;
        match r.consensus_states[(client_id, proof_height)].spec_timestamp() {
            None => Err(ChannelErrorView::ErrorInvalidConsensusState),
            Some(proof_timestamp) => {
                let height_reached = !(p.timeout_height == zero) && height_le(
                    p.timeout_height,
                    proof_height,
                );
                let timestamp_reached = p.timeout_timestamp != 0 && p.timeout_timestamp
                    <= proof_timestamp;
                let commit_key = (p.source_port, p.source_channel, p.sequence);
                if !(height_reached || timestamp_reached) {
                    if !(p.timeout_height == zero) {
                        Err(
                            ChannelErrorView::PacketTimeoutHeightNotReached {
                                timeout_height: p.timeout_height,
                                proof_height,
                            },
                        )
                    } else {
                        Err(
                            ChannelErrorView::PacketTimeoutTimestampNotReached {
                                timeout_timestamp: p.timeout_timestamp,
                                proof_timestamp,
                            },
                        )
                    }
                } else if !r.commitments.contains_key(commit_key) {
                    Err(ChannelErrorView::PacketCommitmentNotFound { sequence: p.sequence })
                } else if !(r.commitments[commit_key] == ctx.hash_spec(
                    spec_commitment_input(p.timeout_timestamp, p.timeout_height, p.data),
                )) {
                    Err(ChannelErrorView::IncorrectPacketCommitment { sequence: p.sequence })
                } else if chan.ordering == Order::Ordered {
                    if p.sequence < msg.next_sequence_recv {
                        Err(
                            ChannelErrorView::InvalidPacketSequence {
                                sequence: p.sequence,
                                next_sequence: msg.next_sequence_recv,
                            },
                        )
                    } else if !ctx.next_seq_recv_verifies(
                        client_id,
                        p,
                        msg.next_sequence_recv,
                        msg.proofs,
                    ) {
                        Err(ChannelErrorView::PacketVerificationFailed { sequence: p.sequence })
                    } else {
                        Ok(
                            TimeoutPacketResultView {
                                port_id: p.source_port,
                                channel_id: p.source_channel,
                                seq: p.sequence,
                                channel: Some(ChannelEndView { state: State::Closed, ..chan }),
                            },
                        )
                    }
                } else {
                    if !ctx.receipt_absence_verifies(client_id, p, msg.proofs) {
                        Err(ChannelErrorView::PacketVerificationFailed { sequence: p.sequence })
                    } else {
                        Ok(
                            TimeoutPacketResultView {
                                port_id: p.source_port,
                                channel_id: p.source_channel,
                                seq: p.sequence,
                                channel: None,
                            },
                        )
                    }
                }
            },
        }
    }
}

/// Process a timeout message against the reader. Success returns a
/// `Timeout` result carrying the packet's `(port, channel, sequence)` and,
/// on an ordered channel, the closed channel end; exactly one
/// `TimeoutPacket` event is emitted and the log records the success.
pub fn process<Ctx: ChannelReader>(ctx: &Ctx, msg: MsgTimeout) -> (r: HandlerResult<
    PacketResult,
    ChannelError,
>)
    requires
        ctx.reader_view().wf(),
    ensures
        match r {
            Ok(out) => timeout_outcome(ctx, msg@) matches Ok(res) && out@ == (HandlerOutputView {
                result: PacketResultView::Timeout(res),
                log: seq!["success: packet timeout "@],
                events: seq![
                    IbcEventView::TimeoutPacket(
                        PacketEventView {
                            height: Height { revision_number: 0u64, revision_height: 0u64 },
                            packet: msg@.packet,
                        },
                    ),
                ],
            }),
            Err(e) => timeout_outcome(ctx, msg@) == Err::<TimeoutPacketResultView,
                ChannelErrorView,
            >(e@),
        },
{
    let mut output = HandlerOutput::<PacketResult>::builder();

    let packet = &msg.packet;

    let mut source_channel_end = match ctx.channel_end(
        &(packet.source_port.clone(), packet.source_channel.clone()),
    ) {
        Some(c) => c,
        None => {
            return Err(
                ChannelError::ChannelNotFound(
                    packet.source_port.clone(),
                    packet.source_channel.clone(),
                ),
            );
        },
    };

    if !source_channel_end.state_matches(&State::Open) {
        return Err(ChannelError::ChannelClosed(packet.source_channel.clone()));
    }

    let _channel_cap = match ctx.authenticated_capability(&packet.source_port) {
        Ok(c) => c,
        Err(e) => {
            return Err(e);
        },
    };

    let counterparty = Counterparty::new(
        packet.destination_port.clone(),
        Some(packet.destination_channel.clone()),
    );

    if !source_channel_end.counterparty_matches(&counterparty) {
        return Err(
            ChannelError::InvalidPacketCounterparty(
                packet.destination_port.clone(),
                packet.destination_channel.clone(),
            ),
        );
    }

    let connection_end = match ctx.connection_end(&source_channel_end.connection_hops[0]) {
        Some(c) => c,
        None => {
            return Err(
                ChannelError::MissingConnection(source_channel_end.connection_hops[0].clone()),
            );
        },
    };

    let client_id = connection_end.client_id().clone();

    let proof_height = msg.proofs.height();

    let consensus_state = match ctx.client_consensus_state(&client_id, proof_height) {
        Some(c) => c,
        None => {
            return Err(ChannelError::MissingClientConsensusState(client_id, proof_height));
        },
    };

    let proof_timestamp = match consensus_state.timestamp() {
        Some(t) => t,
        None => {
            return Err(ChannelError::ErrorInvalidConsensusState);
        },
    };

    // check that the timeout height or the timeout timestamp has passed on
    // the other end
    let height_reached = !packet.timeout_height.is_zero() && packet.timeout_height.le(
        &proof_height,
    );
    let timestamp_reached = packet.timeout_timestamp != 0 && packet.timeout_timestamp
        <= proof_timestamp;
    if !(height_reached || timestamp_reached) {
        if !packet.timeout_height.is_zero() {
            return Err(
                ChannelError::PacketTimeoutHeightNotReached(packet.timeout_height, proof_height),
            );
        } else {
            return Err(
                ChannelError::PacketTimeoutTimestampNotReached(
                    packet.timeout_timestamp,
                    proof_timestamp,
                ),
            );
        }
    }

    // verify the packet commitment
    let packet_commitment = match ctx.get_packet_commitment(
        &(packet.source_port.clone(), packet.source_channel.clone(), packet.sequence),
    ) {
        Some(c) => c,
        None => {
            return Err(ChannelError::PacketCommitmentNotFound(packet.sequence));
        },
    };

    let input = commitment_input(packet.timeout_timestamp, packet.timeout_height, &packet.data);
    let expected = ctx.hash(input);
    if !bytes_eq(&packet_commitment, &expected) {
        return Err(ChannelError::IncorrectPacketCommitment(packet.sequence));
    }

    let result = if source_channel_end.order_matches(&Order::Ordered) {
        if packet.sequence.0 < msg.next_sequence_recv.0 {
            return Err(
                ChannelError::InvalidPacketSequence(packet.sequence, msg.next_sequence_recv),
            );
        }
        match ctx.verify_next_sequence_recv(
            client_id,
            packet.clone(),
            msg.next_sequence_recv,
            &msg.proofs,
        ) {
            Ok(()) => {},
            Err(e) => {
                return Err(e);
            },
        }

        source_channel_end.state = State::Closed;
        PacketResult::Timeout(
            TimeoutPacketResult {
                port_id: packet.source_port.clone(),
                channel_id: packet.source_channel.clone(),
                seq: packet.sequence,
                channel: Some(source_channel_end),
            },
        )
    } else {
        match ctx.verify_packet_receipt_absence(client_id, packet.clone(), &msg.proofs) {
            Ok(()) => {},
            Err(e) => {
                return Err(e);
            },
        }

        PacketResult::Timeout(
            TimeoutPacketResult {
                port_id: packet.source_port.clone(),
                channel_id: packet.source_channel.clone(),
                seq: packet.sequence,
                channel: None,
            },
        )
    };

    output.log("success: packet timeout ");

    output.emit(
        IbcEvent::TimeoutPacket(TimeoutPacket { height: Height::default(), packet: packet.clone() }),
    );

    let out = output.with_result(result);
    proof {
        assert(out@.log =~= seq!["success: packet timeout "@]);
        assert(out@.events =~= seq![
            IbcEventView::TimeoutPacket(
                PacketEventView {
                    height: Height { revision_number: 0u64, revision_height: 0u64 },
                    packet: msg@.packet,
                },
            ),
        ]);
    }
    Ok(out)
}

/// Handler purity: the timeout decision depends on the reader's stored
/// content and capabilities and on the message alone. Two readers that
/// present the same store, hash and verification behaviour decide every
/// message identically.
pub proof fn lemma_timeout_deterministic<C1: ChannelReader, C2: ChannelReader>(
    c1: &C1,
    c2: &C2,
    msg: MsgTimeoutView,
)
    requires
        c1.reader_view() == c2.reader_view(),
        forall|b: Seq<u8>| #[trigger] c1.hash_spec(b) == c2.hash_spec(b),
        forall|cl: Seq<char>, p: crate::packet::PacketView, n: u64, pr: crate::proofs::ProofsView|
            #[trigger] c1.next_seq_recv_verifies(cl, p, n, pr) == c2.next_seq_recv_verifies(
                cl,
                p,
                n,
                pr,
            ),
        forall|cl: Seq<char>, p: crate::packet::PacketView, pr: crate::proofs::ProofsView|
            #[trigger] c1.receipt_absence_verifies(cl, p, pr) == c2.receipt_absence_verifies(
                cl,
                p,
                pr,
            ),
    ensures
        timeout_outcome(c1, msg) == timeout_outcome(c2, msg),
{
}

/// On an ordered channel, a timeout that succeeds (which requires
/// `packet.sequence >= next_sequence_recv`) transitions the source channel
/// to `Closed`: the returned channel end is the stored one, closed.
pub proof fn lemma_ordered_timeout_closes_channel<Ctx: ChannelReader>(
    ctx: &Ctx,
    msg: MsgTimeoutView,
)
    requires
        ctx.reader_view().channels.contains_key((msg.packet.source_port, msg.packet.source_channel)),
        ctx.reader_view().channels[(msg.packet.source_port, msg.packet.source_channel)].ordering
            == Order::Ordered,
    ensures
        timeout_outcome(ctx, msg) matches Ok(res) ==> res.channel == Some(
            ChannelEndView {
                state: State::Closed,
                ..ctx.reader_view().channels[(msg.packet.source_port, msg.packet.source_channel)]
            },
        ),
        timeout_outcome(ctx, msg) matches Ok(res) ==> msg.packet.sequence
            >= msg.next_sequence_recv,
{
}

/// A timeout succeeds only when the stored commitment matches, byte for
/// byte, the reader's hash of the packet's timeout timestamp, timeout height
/// and data.
pub proof fn lemma_timeout_commitment_match<Ctx: ChannelReader>(ctx: &Ctx, msg: MsgTimeoutView)
    ensures
        timeout_outcome(ctx, msg) is Ok ==> ctx.reader_view().commitments.contains_key(
            (msg.packet.source_port, msg.packet.source_channel, msg.packet.sequence),
        ),
        timeout_outcome(ctx, msg) is Ok ==> ctx.reader_view().commitments[(
            msg.packet.source_port,
            msg.packet.source_channel,
            msg.packet.sequence,
        )] == ctx.hash_spec(
            spec_commitment_input(
                msg.packet.timeout_timestamp,
                msg.packet.timeout_height,
                msg.packet.data,
            ),
        ),
{
}

} // verus!
