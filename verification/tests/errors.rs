use ibc_relayer_core::channel::{ChannelEnd, Counterparty, Order, State};
use ibc_relayer_core::connection::{ConnCounterparty, ConnectionEnd, ConnectionState};
use ibc_relayer_core::height::Height;
use ibc_relayer_core::ics02_client::consensus_state::{AnyConsensusState, MockConsensusState};
use ibc_relayer_core::ics04_channel::context::ChannelReader;
use ibc_relayer_core::ics04_channel::error::ChannelError;
use ibc_relayer_core::ics04_channel::handler::{recv_packet, timeout};
use ibc_relayer_core::ics04_channel::msgs::{MsgRecvPacket, MsgTimeout};
use ibc_relayer_core::ident::{ChannelId, ClientId, ConnectionId, PortId};
use ibc_relayer_core::mock::MockContext;
use ibc_relayer_core::packet::{commitment_input, Packet, Sequence};
use ibc_relayer_core::proofs::Proofs;

fn packet_with_timeouts(timeout_height: Height, timeout_timestamp: u64) -> Packet {
    Packet {
        sequence: Sequence(1),
        source_port: PortId::default(),
        source_channel: ChannelId::default(),
        destination_port: PortId::default(),
        destination_channel: ChannelId::default(),
        data: vec![0x01],
        timeout_height,
        timeout_timestamp,
    }
}

fn channel(state: State, ordering: Order) -> ChannelEnd {
    ChannelEnd::new(
        state,
        ordering,
        Counterparty::new(PortId::default(), Some(ChannelId::default())),
        vec![ConnectionId::default()],
        "ics20".to_string(),
    )
}

fn connection() -> ConnectionEnd {
    ConnectionEnd::new(
        ConnectionState::Open,
        ClientId::default(),
        ConnCounterparty::new(ClientId::default(), Some(ConnectionId::default()), vec![]),
        vec!["1".to_string()],
        0,
    )
}

fn timeout_msg(packet: Packet, proof_height: Height) -> MsgTimeout {
    MsgTimeout {
        packet,
        next_sequence_recv: Sequence(1),
        proofs: Proofs::new(proof_height, vec![1]),
    }
}

#[test]
fn timeout_on_closed_channel_fails() {
    let ctx = MockContext::default().with_channel(
        PortId::default(),
        ChannelId::default(),
        channel(State::Closed, Order::Unordered),
    );
    let msg = timeout_msg(packet_with_timeouts(Height::new(0, 2), 0), Height::new(0, 2));
    assert!(matches!(timeout::process(&ctx, msg), Err(ChannelError::ChannelClosed(_))));
}

#[test]
fn timeout_without_port_capability_fails() {
    let ctx = MockContext::default().with_channel(
        PortId::default(),
        ChannelId::default(),
        channel(State::Open, Order::Unordered),
    );
    let msg = timeout_msg(packet_with_timeouts(Height::new(0, 2), 0), Height::new(0, 2));
    assert!(matches!(timeout::process(&ctx, msg), Err(ChannelError::NoPortCapability(_))));
}

#[test]
fn timeout_with_wrong_counterparty_fails() {
    let mut wrong = channel(State::Open, Order::Unordered);
    wrong.remote = Counterparty::new(PortId::new("transfer".to_string()).unwrap(), None);
    let ctx = MockContext::default()
        .with_channel(PortId::default(), ChannelId::default(), wrong)
        .with_port_capability(PortId::default());
    let msg = timeout_msg(packet_with_timeouts(Height::new(0, 2), 0), Height::new(0, 2));
    assert!(matches!(
        timeout::process(&ctx, msg),
        Err(ChannelError::InvalidPacketCounterparty(_, _))
    ));
}

#[test]
fn timeout_without_connection_fails() {
    let ctx = MockContext::default()
        .with_channel(PortId::default(), ChannelId::default(), channel(State::Open, Order::Unordered))
        .with_port_capability(PortId::default());
    let msg = timeout_msg(packet_with_timeouts(Height::new(0, 2), 0), Height::new(0, 2));
    match timeout::process(&ctx, msg) {
        Err(ChannelError::MissingConnection(id)) => assert_eq!(id, ConnectionId::default()),
        other => panic!("expected MissingConnection, got {:?}", other),
    }
}

#[test]
fn timeout_without_consensus_state_fails() {
    let ctx = MockContext::default()
        .with_channel(PortId::default(), ChannelId::default(), channel(State::Open, Order::Unordered))
        .with_port_capability(PortId::default())
        .with_connection(ConnectionId::default(), connection());
    let msg = timeout_msg(packet_with_timeouts(Height::new(0, 2), 0), Height::new(0, 2));
    match timeout::process(&ctx, msg) {
        Err(ChannelError::MissingClientConsensusState(client, height)) => {
            assert_eq!(client, ClientId::default());
            assert_eq!(height, Height::new(0, 2));
        }
        other => panic!("expected MissingClientConsensusState, got {:?}", other),
    }
}

#[test]
fn timeout_with_unreadable_consensus_timestamp_fails() {
    // A stored consensus state without a readable timestamp cannot support
    // the timestamp comparison.
    let ctx = MockContext::default()
        .with_channel(PortId::default(), ChannelId::default(), channel(State::Open, Order::Unordered))
        .with_port_capability(PortId::default())
        .with_connection(ConnectionId::default(), connection())
        .with_consensus_state(
            ClientId::default(),
            Height::new(0, 2),
            AnyConsensusState::Mock(MockConsensusState { timestamp: None }),
        );
    let msg = timeout_msg(packet_with_timeouts(Height::new(0, 2), 0), Height::new(0, 2));
    assert!(matches!(
        timeout::process(&ctx, msg),
        Err(ChannelError::ErrorInvalidConsensusState)
    ));
}

#[test]
fn timeout_timestamp_not_reached_fails() {
    // Height timeout disabled; the timestamp deadline lies after the
    // consensus timestamp of the proof.
    let ctx = MockContext::default()
        .with_channel(PortId::default(), ChannelId::default(), channel(State::Open, Order::Unordered))
        .with_port_capability(PortId::default())
        .with_connection(ConnectionId::default(), connection())
        .with_client(&ClientId::default(), Height::new(0, 2));
    let msg = timeout_msg(packet_with_timeouts(Height::new(0, 0), 99), Height::new(0, 2));
    match timeout::process(&ctx, msg) {
        Err(ChannelError::PacketTimeoutTimestampNotReached(wanted, proof)) => {
            assert_eq!(wanted, 99);
            assert_eq!(proof, 0);
        }
        other => panic!("expected PacketTimeoutTimestampNotReached, got {:?}", other),
    }
}

#[test]
fn timeout_commitment_not_found_fails() {
    let ctx = MockContext::default()
        .with_channel(PortId::default(), ChannelId::default(), channel(State::Open, Order::Unordered))
        .with_port_capability(PortId::default())
        .with_connection(ConnectionId::default(), connection())
        .with_client(&ClientId::default(), Height::new(0, 2));
    let msg = timeout_msg(packet_with_timeouts(Height::new(0, 2), 0), Height::new(0, 2));
    assert!(matches!(
        timeout::process(&ctx, msg),
        Err(ChannelError::PacketCommitmentNotFound(Sequence(1)))
    ));
}

#[test]
fn recv_on_ordered_channel_without_cursor_fails() {
    let ctx = MockContext::default()
        .with_channel(PortId::default(), ChannelId::default(), channel(State::Open, Order::Ordered))
        .with_port_capability(PortId::default())
        .with_connection(ConnectionId::default(), connection())
        .with_client(&ClientId::default(), Height::new(0, 3));
    let msg = MsgRecvPacket {
        packet: packet_with_timeouts(Height::new(0, 10), 0),
        proofs: Proofs::new(Height::new(0, 3), vec![1]),
    };
    assert!(matches!(
        recv_packet::process(&ctx, msg, vec![]),
        Err(ChannelError::MissingNextRecvSequence(_, _))
    ));
}

#[test]
fn commitment_input_layout() {
    // The commitment pre-image: the timeout timestamp, the two height
    // components (little-endian), then the payload.
    let bytes = commitment_input(5, Height::new(1, 2), &vec![9, 8]);
    let mut expected = vec![5, 0, 0, 0, 0, 0, 0, 0];
    expected.extend_from_slice(&[1, 0, 0, 0, 0, 0, 0, 0]);
    expected.extend_from_slice(&[2, 0, 0, 0, 0, 0, 0, 0]);
    expected.extend_from_slice(&[9, 8]);
    assert_eq!(bytes, expected);

    // The mock reader hashes by identity, so a stored commitment is the
    // pre-image itself.
    let hashed = ChannelReader::hash(&MockContext::default(), bytes.clone());
    assert_eq!(hashed, bytes);
}
