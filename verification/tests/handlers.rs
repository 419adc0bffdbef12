use ibc_relayer_core::channel::{ChannelEnd, Counterparty, Order, State};
use ibc_relayer_core::connection::{ConnCounterparty, ConnectionEnd, ConnectionState};
use ibc_relayer_core::events::IbcEvent;
use ibc_relayer_core::height::Height;
use ibc_relayer_core::ics04_channel::context::ChannelReader;
use ibc_relayer_core::ics04_channel::error::ChannelError;
use ibc_relayer_core::ics04_channel::handler::{acknowledgement, recv_packet, timeout};
use ibc_relayer_core::ics04_channel::handler::PacketResult;
use ibc_relayer_core::ics04_channel::msgs::{MsgAcknowledgement, MsgRecvPacket, MsgTimeout};
use ibc_relayer_core::ident::{ChannelId, ClientId, ConnectionId, PortId};
use ibc_relayer_core::mock::MockContext;
use ibc_relayer_core::packet::{commitment_input, Packet, Sequence};
use ibc_relayer_core::proofs::Proofs;

fn dummy_packet(timeout_height: Height, timeout_timestamp: u64) -> Packet {
    Packet {
        sequence: Sequence(1),
        source_port: PortId::default(),
        source_channel: ChannelId::default(),
        destination_port: PortId::default(),
        destination_channel: ChannelId::default(),
        data: vec![0x01],
        timeout_height,
        timeout_timestamp,
    }
}

fn open_channel(ordering: Order) -> ChannelEnd {
    ChannelEnd::new(
        State::Open,
        ordering,
        Counterparty::new(PortId::default(), Some(ChannelId::default())),
        vec![ConnectionId::default()],
        "ics20".to_string(),
    )
}

fn open_connection() -> ConnectionEnd {
    ConnectionEnd::new(
        ConnectionState::Open,
        ClientId::default(),
        ConnCounterparty::new(ClientId::default(), Some(ConnectionId::default()), vec![]),
        vec!["1".to_string()],
        0,
    )
}

fn source_context(ordering: Order, packet: &Packet, client_height: Height) -> MockContext {
    let input = commitment_input(packet.timeout_timestamp, packet.timeout_height, &packet.data);
    let commitment = ChannelReader::hash(&MockContext::default(), input);
    MockContext::default()
        .with_client(&ClientId::default(), client_height)
        .with_connection(ConnectionId::default(), open_connection())
        .with_port_capability(PortId::default())
        .with_channel(PortId::default(), ChannelId::default(), open_channel(ordering))
        .with_packet_commitment(
            PortId::default(),
            ChannelId::default(),
            packet.sequence,
            commitment,
        )
}

#[test]
fn timeout_unordered_happy_path() {
    // Channel open and unordered, packet committed with timeout height two
    // blocks ahead, destination client updated to that height, no receipt.
    let packet = dummy_packet(Height::new(0, 2), 0);
    let ctx = source_context(Order::Unordered, &packet, Height::new(0, 2));
    let msg = MsgTimeout {
        packet: packet.clone(),
        next_sequence_recv: Sequence(1),
        proofs: Proofs::new(Height::new(0, 2), vec![1]),
    };

    let output = timeout::process(&ctx, msg).expect("timeout should succeed");

    match &output.result {
        PacketResult::Timeout(res) => {
            assert_eq!(res.port_id, PortId::default());
            assert_eq!(res.channel_id, ChannelId::default());
            assert_eq!(res.seq, Sequence(1));
            assert!(res.channel.is_none());
        }
        other => panic!("expected a timeout result, got {:?}", other),
    }
    assert_eq!(output.events.len(), 1);
    assert!(matches!(&output.events[0], IbcEvent::TimeoutPacket(_)));
    assert!(output.log.iter().any(|l| l.contains("success: packet timeout")));
}

#[test]
fn timeout_ordered_closes_channel() {
    // Same as the happy path, but the channel is ordered: the returned
    // channel end is the stored one, closed.
    let packet = dummy_packet(Height::new(0, 2), 0);
    let ctx = source_context(Order::Ordered, &packet, Height::new(0, 2));
    let msg = MsgTimeout {
        packet,
        next_sequence_recv: Sequence(1),
        proofs: Proofs::new(Height::new(0, 2), vec![1]),
    };

    let output = timeout::process(&ctx, msg).expect("ordered timeout should succeed");

    match &output.result {
        PacketResult::Timeout(res) => match &res.channel {
            Some(channel) => assert_eq!(channel.state, State::Closed),
            None => panic!("ordered timeout must return the closed channel"),
        },
        other => panic!("expected a timeout result, got {:?}", other),
    }
}

#[test]
fn timeout_before_deadline_fails() {
    // The packet times out at height five, but the proof is taken at two:
    // the deadline has not been reached.
    let packet = dummy_packet(Height::new(0, 5), 0);
    let ctx = source_context(Order::Unordered, &packet, Height::new(0, 2));
    let msg = MsgTimeout {
        packet,
        next_sequence_recv: Sequence(1),
        proofs: Proofs::new(Height::new(0, 2), vec![1]),
    };

    match timeout::process(&ctx, msg) {
        Err(ChannelError::PacketTimeoutHeightNotReached(timeout_height, proof_height)) => {
            assert_eq!(timeout_height, Height::new(0, 5));
            assert_eq!(proof_height, Height::new(0, 2));
        }
        other => panic!("expected PacketTimeoutHeightNotReached, got {:?}", other),
    }
}

#[test]
fn timeout_without_channel_fails() {
    let packet = dummy_packet(Height::new(0, 2), 0);
    let msg = MsgTimeout {
        packet,
        next_sequence_recv: Sequence(1),
        proofs: Proofs::new(Height::new(0, 2), vec![1]),
    };

    match timeout::process(&MockContext::default(), msg) {
        Err(ChannelError::ChannelNotFound(port_id, channel_id)) => {
            assert_eq!(port_id, PortId::default());
            assert_eq!(channel_id, ChannelId::default());
        }
        other => panic!("expected ChannelNotFound, got {:?}", other),
    }
}

#[test]
fn timeout_commitment_mismatch_fails() {
    // The stored commitment differs from the recomputed one by a byte.
    let packet = dummy_packet(Height::new(0, 2), 0);
    let ctx = MockContext::default()
        .with_client(&ClientId::default(), Height::new(0, 2))
        .with_connection(ConnectionId::default(), open_connection())
        .with_port_capability(PortId::default())
        .with_channel(PortId::default(), ChannelId::default(), open_channel(Order::Unordered))
        .with_packet_commitment(
            PortId::default(),
            ChannelId::default(),
            Sequence(1),
            vec![0xde, 0xad],
        );
    let msg = MsgTimeout {
        packet,
        next_sequence_recv: Sequence(1),
        proofs: Proofs::new(Height::new(0, 2), vec![1]),
    };

    assert!(matches!(
        timeout::process(&ctx, msg),
        Err(ChannelError::IncorrectPacketCommitment(Sequence(1)))
    ));
}

#[test]
fn timeout_ordered_gap_below_cursor_fails() {
    // On an ordered channel the packet's sequence must be at or above the
    // counterparty's receive cursor.
    let packet = dummy_packet(Height::new(0, 2), 0);
    let ctx = source_context(Order::Ordered, &packet, Height::new(0, 2));
    let msg = MsgTimeout {
        packet,
        next_sequence_recv: Sequence(5),
        proofs: Proofs::new(Height::new(0, 2), vec![1]),
    };

    assert!(matches!(
        timeout::process(&ctx, msg),
        Err(ChannelError::InvalidPacketSequence(Sequence(1), Sequence(5)))
    ));
}

fn destination_context(client_height: Height) -> MockContext {
    MockContext::default()
        .with_client(&ClientId::default(), client_height)
        .with_connection(ConnectionId::default(), open_connection())
        .with_port_capability(PortId::default())
        .with_channel(PortId::default(), ChannelId::default(), open_channel(Order::Unordered))
}

#[test]
fn recv_packet_idempotent_on_unordered_channel() {
    // Processing the same receive twice against the resulting state: the
    // first succeeds and writes the receipt, the second fails with the
    // receipt-exists error, and the store is unchanged by the retry.
    let packet = dummy_packet(Height::new(0, 10), 0);
    let mut ctx = destination_context(Height::new(0, 3));
    let msg = MsgRecvPacket { packet, proofs: Proofs::new(Height::new(0, 3), vec![1]) };

    let output = recv_packet::process(&ctx, msg.clone(), vec![0xaa]).expect("first receive");
    assert_eq!(output.events.len(), 2);
    assert!(matches!(&output.events[0], IbcEvent::ReceivePacket(_)));
    assert!(matches!(&output.events[1], IbcEvent::WriteAcknowledgement(_)));
    ctx.apply(output.result);
    assert!(ctx.get_packet_receipt(&(PortId::default(), ChannelId::default(), Sequence(1))));

    match recv_packet::process(&ctx, msg, vec![0xaa]) {
        Err(ChannelError::PacketReceiptAlreadyExists(seq)) => assert_eq!(seq, Sequence(1)),
        other => panic!("expected PacketReceiptAlreadyExists, got {:?}", other),
    }
    assert!(ctx.get_packet_receipt(&(PortId::default(), ChannelId::default(), Sequence(1))));
}

#[test]
fn recv_packet_ordered_advances_cursor() {
    let packet = dummy_packet(Height::new(0, 10), 0);
    let mut ctx = MockContext::default()
        .with_client(&ClientId::default(), Height::new(0, 3))
        .with_connection(ConnectionId::default(), open_connection())
        .with_port_capability(PortId::default())
        .with_channel(PortId::default(), ChannelId::default(), open_channel(Order::Ordered))
        .with_next_sequence_recv(PortId::default(), ChannelId::default(), Sequence(1));
    let msg = MsgRecvPacket { packet, proofs: Proofs::new(Height::new(0, 3), vec![1]) };

    let output = recv_packet::process(&ctx, msg.clone(), vec![]).expect("ordered receive");
    ctx.apply(output.result);
    let cursor = ctx.get_next_sequence_recv(&(PortId::default(), ChannelId::default()));
    assert_eq!(cursor, Some(Sequence(2)));

    // The same sequence a second time no longer matches the cursor.
    assert!(matches!(
        recv_packet::process(&ctx, msg, vec![]),
        Err(ChannelError::InvalidPacketSequence(Sequence(1), Sequence(2)))
    ));
}

#[test]
fn acknowledgement_erases_commitment() {
    let packet = dummy_packet(Height::new(0, 10), 0);
    let mut ctx = source_context(Order::Unordered, &packet, Height::new(0, 3));
    let msg = MsgAcknowledgement {
        packet,
        acknowledgement: vec![0xaa],
        proofs: Proofs::new(Height::new(0, 3), vec![1]),
    };

    let output = acknowledgement::process(&ctx, msg).expect("acknowledgement");
    assert_eq!(output.events.len(), 1);
    assert!(matches!(&output.events[0], IbcEvent::AcknowledgePacket(_)));
    ctx.apply(output.result);
    assert!(ctx
        .get_packet_commitment(&(PortId::default(), ChannelId::default(), Sequence(1)))
        .is_none());
}
