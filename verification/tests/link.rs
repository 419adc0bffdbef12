use ibc_relayer_core::channel::{ChannelEnd, Counterparty, Order, State};
use ibc_relayer_core::connection::{ConnCounterparty, ConnectionEnd, ConnectionState};
use ibc_relayer_core::events::IbcEvent;
use ibc_relayer_core::height::Height;
use ibc_relayer_core::ics04_channel::context::ChannelReader;
use ibc_relayer_core::ics04_channel::events::SendPacket;
use ibc_relayer_core::ics04_channel::handler::{acknowledgement, recv_packet};
use ibc_relayer_core::ics04_channel::msgs::MsgAcknowledgement;
use ibc_relayer_core::ident::{ChannelId, ClientId, ConnectionId, PortId};
use ibc_relayer_core::mock::MockContext;
use ibc_relayer_core::packet::{commitment_input, Packet, Sequence};
use ibc_relayer_core::proofs::Proofs;
use ibc_relayer_core::relayer::{
    build_ack_messages, build_recv_messages, start_mode, EventBatch, LinkMessage, StartMode,
    Subscription,
};

fn link_packet() -> Packet {
    Packet {
        sequence: Sequence(1),
        source_port: PortId::default(),
        source_channel: ChannelId::default(),
        destination_port: PortId::default(),
        destination_channel: ChannelId::default(),
        data: vec![0x01],
        timeout_height: Height::new(0, 15),
        timeout_timestamp: 0,
    }
}

fn link_channel() -> ChannelEnd {
    ChannelEnd::new(
        State::Open,
        Order::Unordered,
        Counterparty::new(PortId::default(), Some(ChannelId::default())),
        vec![ConnectionId::default()],
        "ics20".to_string(),
    )
}

fn link_connection() -> ConnectionEnd {
    ConnectionEnd::new(
        ConnectionState::Open,
        ClientId::default(),
        ConnCounterparty::new(ClientId::default(), Some(ConnectionId::default()), vec![]),
        vec!["1".to_string()],
        0,
    )
}

#[test]
fn link_worker_send_to_receive_unordered() {
    // The source chain emits SendPacket at height five. The worker builds
    // the destination batch: the destination's client for the source is
    // still at height one, so a client update to six (the proof height)
    // precedes the receive. The destination handler receives the packet and
    // writes the acknowledgement; the worker relays the acknowledgement
    // back, and the source erases the commitment.
    let packet = link_packet();
    let send_event = SendPacket { height: Height::new(0, 5), packet: packet.clone() };

    // Step one: assemble the destination messages.
    let msgs = build_recv_messages(&send_event, &ClientId::default(), Height::new(0, 1), vec![9]);
    assert_eq!(msgs.len(), 2);
    match &msgs[0] {
        LinkMessage::UpdateClient(u) => {
            assert_eq!(u.client_id, ClientId::default());
            assert_eq!(u.target_height, Height::new(0, 6));
        }
        other => panic!("expected a client update first, got {:?}", other),
    }
    let recv_msg = match msgs.into_iter().nth(1).unwrap() {
        LinkMessage::Recv(m) => m,
        other => panic!("expected a receive message, got {:?}", other),
    };
    assert_eq!(recv_msg.proofs.height(), Height::new(0, 6));

    // Step two: the destination processes the receive at the proof height.
    let mut dst = MockContext::default()
        .with_client(&ClientId::default(), Height::new(0, 6))
        .with_connection(ConnectionId::default(), link_connection())
        .with_port_capability(PortId::default())
        .with_channel(PortId::default(), ChannelId::default(), link_channel());
    let output = recv_packet::process(&dst, recv_msg, vec![0x01]).expect("receive");
    assert!(matches!(&output.events[0], IbcEvent::ReceivePacket(_)));
    let write_ack = match &output.events[1] {
        IbcEvent::WriteAcknowledgement(w) => {
            let mut w = w.clone();
            w.set_height(Height::new(0, 7));
            w
        }
        other => panic!("expected a written acknowledgement, got {:?}", other),
    };
    dst.apply(output.result);
    assert!(dst.get_packet_receipt(&(PortId::default(), ChannelId::default(), Sequence(1))));

    // Step three: relay the acknowledgement back to the source.
    let ack_msgs = build_ack_messages(&write_ack, &ClientId::default(), Height::new(0, 1), vec![7]);
    assert_eq!(ack_msgs.len(), 2);
    let ack_msg: MsgAcknowledgement = match ack_msgs.into_iter().nth(1).unwrap() {
        LinkMessage::Ack(m) => m,
        other => panic!("expected an acknowledgement message, got {:?}", other),
    };
    assert_eq!(ack_msg.proofs.height(), Height::new(0, 8));
    assert_eq!(ack_msg.acknowledgement, vec![0x01]);

    // Step four: the source erases the commitment.
    let commitment = ChannelReader::hash(
        &MockContext::default(),
        commitment_input(packet.timeout_timestamp, packet.timeout_height, &packet.data),
    );
    let mut src = MockContext::default()
        .with_client(&ClientId::default(), Height::new(0, 8))
        .with_connection(ConnectionId::default(), link_connection())
        .with_port_capability(PortId::default())
        .with_channel(PortId::default(), ChannelId::default(), link_channel())
        .with_packet_commitment(
            PortId::default(),
            ChannelId::default(),
            Sequence(1),
            commitment,
        );
    let ack_output = acknowledgement::process(&src, ack_msg).expect("acknowledgement");
    src.apply(ack_output.result);
    assert!(src
        .get_packet_commitment(&(PortId::default(), ChannelId::default(), Sequence(1)))
        .is_none());
}

#[test]
fn link_worker_skips_update_when_client_fresh() {
    let packet = link_packet();
    let send_event = SendPacket { height: Height::new(0, 5), packet };
    let msgs = build_recv_messages(&send_event, &ClientId::default(), Height::new(0, 9), vec![]);
    assert_eq!(msgs.len(), 1);
    assert!(matches!(&msgs[0], LinkMessage::Recv(_)));
}

#[test]
fn subscription_keeps_block_order() {
    let mut sub = Subscription::new();
    assert!(sub.deliver(EventBatch { height: Height::new(0, 1), events: vec![] }));
    assert!(sub.deliver(EventBatch { height: Height::new(0, 1), events: vec![] }));
    assert!(sub.deliver(EventBatch { height: Height::new(0, 4), events: vec![] }));
    // A stale batch is refused and the run stays in order.
    assert!(!sub.deliver(EventBatch { height: Height::new(0, 2), events: vec![] }));
    let batches = sub.batches();
    assert_eq!(batches.len(), 3);
    for pair in batches.windows(2) {
        assert!(pair[0].height.le(&pair[1].height));
    }
}

#[test]
fn start_mode_decision() {
    match start_mode(Some(PortId::default()), Some(ChannelId::default())) {
        StartMode::Link(p) => {
            assert_eq!(p.src_port_id, PortId::default());
            assert_eq!(p.src_channel_id, ChannelId::default());
        }
        other => panic!("expected a single link, got {:?}", other),
    }
    assert!(matches!(start_mode(None, None), StartMode::Discovery));
    assert!(matches!(start_mode(Some(PortId::default()), None), StartMode::Invalid));
    assert!(matches!(start_mode(None, Some(ChannelId::default())), StartMode::Invalid));
}
