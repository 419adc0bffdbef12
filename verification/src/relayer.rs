//! The relayer side of the core: the per-chain event subscription, the
//! link worker's message assembly, and the start command's mode decision.
//!
//! A chain runtime owns the I/O: it subscribes to a block stream, decodes
//! raw events with `from_tx_response_event`, and delivers batches through a
//! `Subscription`. The link worker turns source-chain events into the
//! counterparty messages that advance the state machine on the other chain.

use vstd::prelude::*;
use crate::events::IbcEvent;
use crate::height::{height_le, height_lt, Height};
use crate::ics04_channel::events::{SendPacket, WriteAcknowledgement};
use crate::ics04_channel::msgs::{MsgAcknowledgement, MsgRecvPacket};
use crate::ident::{ChannelId, ClientId, PortId};
use crate::proofs::Proofs;

verus! {

/// One block's worth of decoded events, tagged with the block height.
#[derive(Debug)]
pub struct EventBatch {
    pub height: Height,
    pub events: Vec<IbcEvent>,
}

/// The heights of a run of batches, in delivery order.
pub open spec fn batch_heights(s: Seq<EventBatch>) -> Seq<Height> {
    Seq::new(s.len(), |i: int| s[i].height)
}

/// Batches are delivered in block order: each batch's height is at or above
/// its predecessor's.
pub open spec fn batches_ordered(s: Seq<EventBatch>) -> bool {
    forall|i: int| 0 <= i < s.len() - 1 ==> height_le((#[trigger] s[i]).height, s[i + 1].height)
}

/// A subscriber's view of one chain's event stream. The subscription
/// refuses a batch older than the last one delivered, so the delivered run
/// is always in block order.
pub struct Subscription {
    delivered: Vec<EventBatch>,
}

impl Subscription {
    /// The batches delivered so far, in order.
    pub closed spec fn spec_delivered(&self) -> Seq<EventBatch> {
        self.delivered@
    }

    /// The subscription invariant: delivered batches are in block order.
    pub open spec fn wf(&self) -> bool {
        batches_ordered(self.spec_delivered())
    }

    pub fn new() -> (r: Subscription)
        ensures
            r.spec_delivered() == Seq::<EventBatch>::empty(),
            r.wf(),
    {
        Subscription { delivered: Vec::new() }
    }

    /// Deliver the next batch. It is accepted exactly when its height is at
    /// or above the last delivered batch's; a stale batch leaves the
    /// subscription unchanged.
    pub fn deliver(&mut self, batch: EventBatch) -> (accepted: bool)
        requires
            old(self).wf(),
        ensures
            accepted == (old(self).spec_delivered().len() == 0 || height_le(
                old(self).spec_delivered().last().height,
                batch.height,
            )),
            accepted ==> final(self).spec_delivered() == old(self).spec_delivered().push(batch),
            !accepted ==> final(self).spec_delivered() == old(self).spec_delivered(),
            final(self).wf(),
    {
        let n = self.delivered.len();
        let ok = if n == 0 {
            true
        } else {
            self.delivered[n - 1].height.le(&batch.height)
        };
        if ok {
            let ghost prev = self.delivered@;
            self.delivered.push(batch);
            proof {
                assert forall|i: int|
                    0 <= i < self.delivered@.len() - 1 implies height_le(
                    (#[trigger] self.delivered@[i]).height,
                    self.delivered@[i + 1].height,
                ) by {
                    if i < prev.len() - 1 {
                        assert(height_le(prev[i].height, prev[i + 1].height));
                    }
                }
            }
        }
        ok
    }

    /// The batches delivered so far.
    pub fn batches(&self) -> (r: &Vec<EventBatch>)
        ensures
            r@ == self.spec_delivered(),
    {
        &self.delivered
    }
}

/// Height monotonicity: within one subscription, the height of every later
/// batch is at or above the height of every earlier one.
pub proof fn lemma_subscription_heights_monotonic(s: Seq<EventBatch>, i: int, j: int)
    requires
        batches_ordered(s),
        0 <= i <= j < s.len(),
    ensures
        height_le(batch_heights(s)[i], batch_heights(s)[j]),
    decreases j - i,
{
    if i < j {
        lemma_subscription_heights_monotonic(s, i, j - 1);
        crate::height::lemma_height_order_transitive(s[i].height, s[j - 1].height, s[j].height);
    }
}

/// A request to bring the counterparty's client for the source chain up to
/// the target height before proof-carrying messages are submitted.
#[derive(Debug)]
pub struct MsgUpdateClient {
    pub client_id: ClientId,
    pub target_height: Height,
}

/// One message in a batch the link worker submits to the destination chain.
#[derive(Debug)]
pub enum LinkMessage {
    UpdateClient(MsgUpdateClient),
    Recv(MsgRecvPacket),
    Ack(MsgAcknowledgement),
}

/// Assemble the destination-chain messages for a `SendPacket` event seen on
/// the source chain: the receive message carries the commitment proof taken
/// one block after the event, and a client update to that height is
/// prepended exactly when the destination's client for the source chain is
/// still below it.
pub fn build_recv_messages(
    event: &SendPacket,
    client_id: &ClientId,
    client_trusted_height: Height,
    proof_bytes: Vec<u8>,
) -> (r: Vec<LinkMessage>)
    ensures
        r@.len() == if height_lt(client_trusted_height, event@.height.increment_spec()) {
            2int
        } else {
            1int
        },
        r@.len() == 2 ==> (r@[0] matches LinkMessage::UpdateClient(u) && u.client_id@
            == client_id@ && u.target_height == event@.height.increment_spec()),
        r@.last() matches LinkMessage::Recv(m) && m@.packet == event@.packet && m@.proofs.height
            == event@.height.increment_spec() && m@.proofs.object_proof == proof_bytes@,
{
    let proof_height = event.height.increment();
    let mut out: Vec<LinkMessage> = Vec::new();
    if client_trusted_height.lt(&proof_height) {
        out.push(
            LinkMessage::UpdateClient(
                MsgUpdateClient { client_id: client_id.clone(), target_height: proof_height },
            ),
        );
    }
    out.push(
        LinkMessage::Recv(
            MsgRecvPacket {
                packet: event.packet.clone(),
                proofs: Proofs::new(proof_height, proof_bytes),
            },
        ),
    );
    out
}

/// Assemble the source-chain messages for a `WriteAcknowledgement` event
/// seen on the destination chain: the acknowledgement message carries the
/// proof taken one block after the event, with a client update prepended
/// exactly when the source's client for the destination chain is below it.
pub fn build_ack_messages(
    event: &WriteAcknowledgement,
    client_id: &ClientId,
    client_trusted_height: Height,
    proof_bytes: Vec<u8>,
) -> (r: Vec<LinkMessage>)
    ensures
        r@.len() == if height_lt(client_trusted_height, event@.height.increment_spec()) {
            2int
        } else {
            1int
        },
        r@.len() == 2 ==> (r@[0] matches LinkMessage::UpdateClient(u) && u.client_id@
            == client_id@ && u.target_height == event@.height.increment_spec()),
        r@.last() matches LinkMessage::Ack(m) && m@.packet == event@.packet && m@.acknowledgement
            == event@.ack && m@.proofs.height == event@.height.increment_spec()
            && m@.proofs.object_proof == proof_bytes@,
{
    let proof_height = event.height.increment();
    let mut out: Vec<LinkMessage> = Vec::new();
    if client_trusted_height.lt(&proof_height) {
        out.push(
            LinkMessage::UpdateClient(
                MsgUpdateClient { client_id: client_id.clone(), target_height: proof_height },
            ),
        );
    }
    let ack = event.ack.clone();
    proof {
        assert(ack@ =~= event.ack@);
    }
    out.push(
        LinkMessage::Ack(
            MsgAcknowledgement {
                packet: event.packet.clone(),
                acknowledgement: ack,
                proofs: Proofs::new(proof_height, proof_bytes),
            },
        ),
    );
    out
}

/// The `(port, channel)` a link relays on.
#[derive(Debug)]
pub struct LinkParameters {
    pub src_port_id: PortId,
    pub src_channel_id: ChannelId,
}

/// What the start command should do with its arguments.
#[derive(Debug)]
pub enum StartMode {
    /// Both a port and a channel were given: run that single link.
    Link(LinkParameters),
    /// Neither was given: discover a link from the configured paths.
    Discovery,
    /// Exactly one of the two was given: reject the arguments.
    Invalid,
}

/// Decide the start command's mode: with both port and channel it runs a
/// single link, with neither it auto-discovers, and mixing one of the two
/// is an error.
pub fn start_mode(src_port_id: Option<PortId>, src_channel_id: Option<ChannelId>) -> (r: StartMode)
    ensures
        match r {
            StartMode::Link(p) => (src_port_id matches Some(port) && p.src_port_id@ == port@) && (
            src_channel_id matches Some(chan) && p.src_channel_id@ == chan@),
            StartMode::Discovery => src_port_id is None && src_channel_id is None,
            StartMode::Invalid => (src_port_id is Some) != (src_channel_id is Some),
        },
{
    match (src_port_id, src_channel_id) {
        (Some(port), Some(chan)) => StartMode::Link(
            LinkParameters { src_port_id: port, src_channel_id: chan },
        ),
        (None, None) => StartMode::Discovery,
        _ => StartMode::Invalid,
    }
}

} // verus!
