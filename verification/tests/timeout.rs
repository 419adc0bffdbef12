use ibc_relayer_core::channel::{ChannelEnd, Counterparty, Order, State};
use ibc_relayer_core::connection::{ConnCounterparty, ConnectionEnd, ConnectionState};
use ibc_relayer_core::events::IbcEvent;
use ibc_relayer_core::height::Height;
use ibc_relayer_core::ics04_channel::context::ChannelReader;
use ibc_relayer_core::ics04_channel::handler::timeout::process;
use ibc_relayer_core::ics04_channel::msgs::MsgTimeout;
use ibc_relayer_core::ident::{ChannelId, ClientId, ConnectionId, PortId};
use ibc_relayer_core::mock::MockContext;
use ibc_relayer_core::packet::{commitment_input, Packet, Sequence};
use ibc_relayer_core::proofs::Proofs;

struct Test {
    name: String,
    ctx: MockContext,
    msg: MsgTimeout,
    want_pass: bool,
}

fn get_dummy_raw_msg_timeout(height: u64, timeout_timestamp: u64) -> MsgTimeout {
    MsgTimeout {
        packet: Packet {
            sequence: Sequence(1),
            source_port: PortId::default(),
            source_channel: ChannelId::default(),
            destination_port: PortId::default(),
            destination_channel: ChannelId::default(),
            data: vec![0],
            timeout_height: Height::new(0, height),
            timeout_timestamp,
        },
        next_sequence_recv: Sequence(1),
        proofs: Proofs::new(Height::new(0, height), vec![1]),
    }
}

#[test]
fn timeout_packet_processing() {
    let context = MockContext::default();

    let height = Height::default().revision_height + 2;
    let timeout_timestamp = 5;

    let client_height = Height::new(0, Height::default().revision_height + 2);

    let msg = get_dummy_raw_msg_timeout(height, timeout_timestamp);
    let packet = msg.packet.clone();

    let mut msg_ok = msg.clone();
    msg_ok.packet.timeout_timestamp = Default::default();

    let input = commitment_input(
        msg_ok.packet.timeout_timestamp,
        msg_ok.packet.timeout_height,
        &msg_ok.packet.data,
    );
    let data = ChannelReader::hash(&context, input);

    let source_channel_end = ChannelEnd::new(
        State::Open,
        Order::unordered(),
        Counterparty::new(
            packet.destination_port.clone(),
            Some(packet.destination_channel.clone()),
        ),
        vec![ConnectionId::default()],
        "ics20".to_string(),
    );

    let mut source_ordered_channel_end = source_channel_end.clone();
    source_ordered_channel_end.ordering = Order::Ordered;

    let connection_end = ConnectionEnd::new(
        ConnectionState::Open,
        ClientId::default(),
        ConnCounterparty::new(
            ClientId::default(),
            Some(ConnectionId::default()),
            Default::default(),
        ),
        vec!["1".to_string()],
        0,
    );

    let tests: Vec<Test> = vec![
        Test {
            name: "Processing fails because no channel exists in the context".to_string(),
            ctx: context.clone(),
            msg: msg.clone(),
            want_pass: false,
        },
        Test {
            name: "Processing fails because the client does not have a consensus state for the required height"
                .to_string(),
            ctx: context.clone().with_channel(
                PortId::default(),
                ChannelId::default(),
                source_channel_end.clone(),
            )
            .with_port_capability(packet.destination_port.clone())
            .with_connection(ConnectionId::default(), connection_end.clone()),
            msg: msg.clone(),
            want_pass: false,
        },
        Test {
            name: "Processing fails because the proof's timeout has not been reached "
                .to_string(),
            ctx: context.clone().with_channel(
                PortId::default(),
                ChannelId::default(),
                source_channel_end.clone(),
            )
            .with_client(&ClientId::default(), client_height)
            .with_port_capability(packet.destination_port.clone())
            .with_connection(ConnectionId::default(), connection_end.clone()),
            msg,
            want_pass: false,
        },
        Test {
            name: "Good parameters Unordered channel".to_string(),
            ctx: context.clone()
                .with_client(&ClientId::default(), client_height)
                .with_connection(ConnectionId::default(), connection_end.clone())
                .with_port_capability(packet.destination_port.clone())
                .with_channel(
                    packet.source_port.clone(),
                    packet.source_channel.clone(),
                    source_channel_end,
                )
                .with_packet_commitment(
                    msg_ok.packet.source_port.clone(),
                    msg_ok.packet.source_channel.clone(),
                    msg_ok.packet.sequence,
                    data.clone(),
                ),
            msg: msg_ok.clone(),
            want_pass: true,
        },
        Test {
            name: "Good parameters Ordered Channel".to_string(),
            ctx: context
                .with_client(&ClientId::default(), client_height)
                .with_connection(ConnectionId::default(), connection_end)
                .with_port_capability(packet.destination_port.clone())
                .with_channel(
                    packet.source_port.clone(),
                    packet.source_channel,
                    source_ordered_channel_end,
                )
                .with_packet_commitment(
                    msg_ok.packet.source_port.clone(),
                    msg_ok.packet.source_channel.clone(),
                    msg_ok.packet.sequence,
                    data,
                )
                .with_ack_sequence(
                     packet.destination_port,
                     packet.destination_channel,
                     Sequence(1),
                 ),
            msg: msg_ok,
            want_pass: true,
        },
    ]
    .into_iter()
    .collect();

    for test in tests {
        let res = process(&test.ctx, test.msg.clone());
        // Additionally check the events and the output objects in the result.
        match res {
            Ok(proto_output) => {
                assert_eq!(
                    test.want_pass,
                    true,
                    "TO_packet: test passed but was supposed to fail for test: {}, \nparams {:?} {:?}",
                    test.name,
                    test.msg.clone(),
                    test.ctx.clone()
                );
                assert_ne!(proto_output.events.is_empty(), true); // Some events must exist.
                for e in proto_output.events.iter() {
                    assert!(matches!(e, &IbcEvent::TimeoutPacket(_)));
                }
            }
            Err(e) => {
                assert_eq!(
                    test.want_pass,
                    false,
                    "timeout_packet: did not pass test: {}, \nparams {:?} {:?} error: {:?}",
                    test.name,
                    test.msg.clone(),
                    test.ctx.clone(),
                    e,
                );
            }
        }
    }
}
