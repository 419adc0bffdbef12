use ibc_relayer_core::events::{
    extract_events, from_tx_response_event, EventError, IbcEvent, IbcEventType, RawEvent,
    RawObject,
};
use ibc_relayer_core::height::Height;
use ibc_relayer_core::ics04_channel::events::{OpenInit, SendPacket, WriteAcknowledgement};
use ibc_relayer_core::ident::{ChannelId, ClientId, ConnectionId, PortId};
use ibc_relayer_core::packet::{Packet, Sequence};

fn pairs(entries: &[(&str, &str)]) -> Vec<(String, String)> {
    entries.iter().map(|(k, v)| (k.to_string(), v.to_string())).collect()
}

fn sample_packet() -> Packet {
    Packet {
        sequence: Sequence(7),
        source_port: PortId::default(),
        source_channel: ChannelId::default(),
        destination_port: PortId::default(),
        destination_channel: ChannelId::default(),
        data: b"hello".to_vec(),
        timeout_height: Height::new(1, 100),
        timeout_timestamp: 55,
    }
}

#[test]
fn ibc_event_type_strings() {
    assert_eq!(IbcEventType::CreateClient.as_str(), "create_client");
    assert_eq!(IbcEventType::UpdateClient.as_str(), "update_client");
    assert_eq!(IbcEventType::SendPacket.as_str(), "send_packet");
    assert_eq!(IbcEventType::WriteAck.as_str(), "write_acknowledgement");
}

#[test]
fn send_packet_event_round_trip() {
    let event = IbcEvent::SendPacket(SendPacket { height: Height::new(0, 9), packet: sample_packet() });
    let raw = event.to_raw().expect("send packet has a wire form");
    assert_eq!(raw.event_type, "send_packet");

    let back = from_tx_response_event(Height::new(0, 9), &raw)
        .expect("decoding must not error")
        .expect("the type string is recognised");
    match back {
        IbcEvent::SendPacket(e) => {
            assert_eq!(e.height, Height::new(0, 9));
            let p = sample_packet();
            assert_eq!(e.packet.sequence, p.sequence);
            assert_eq!(e.packet.source_port, p.source_port);
            assert_eq!(e.packet.source_channel, p.source_channel);
            assert_eq!(e.packet.destination_port, p.destination_port);
            assert_eq!(e.packet.destination_channel, p.destination_channel);
            assert_eq!(e.packet.data, p.data);
            assert_eq!(e.packet.timeout_height, p.timeout_height);
            assert_eq!(e.packet.timeout_timestamp, p.timeout_timestamp);
        }
        other => panic!("expected SendPacket back, got {:?}", other),
    }
}

#[test]
fn write_acknowledgement_event_round_trip() {
    let event = IbcEvent::WriteAcknowledgement(WriteAcknowledgement {
        height: Height::new(0, 3),
        packet: sample_packet(),
        ack: b"ok".to_vec(),
    });
    let raw = event.to_raw().expect("write acknowledgement has a wire form");
    let back = from_tx_response_event(Height::new(0, 3), &raw).unwrap().unwrap();
    match back {
        IbcEvent::WriteAcknowledgement(e) => {
            assert_eq!(e.ack, b"ok".to_vec());
            assert_eq!(e.packet.sequence, Sequence(7));
        }
        other => panic!("expected WriteAcknowledgement back, got {:?}", other),
    }
}

#[test]
fn channel_open_init_event_round_trip() {
    let raw = RawEvent {
        event_type: "channel_open_init".to_string(),
        attributes: pairs(&[
            ("port_id", "transfer"),
            ("channel_id", "channel-0"),
            ("connection_id", "connection-0"),
            ("counterparty_port_id", "transfer"),
        ]),
    };
    let event = from_tx_response_event(Height::new(0, 2), &raw).unwrap().unwrap();
    let open_init = match &event {
        IbcEvent::OpenInitChannel(e) => e,
        other => panic!("expected OpenInitChannel, got {:?}", other),
    };
    assert_eq!(open_init.height(), Height::new(0, 2));
    assert!(open_init.channel_id().is_some());

    let reencoded = event.to_raw().unwrap();
    let again = from_tx_response_event(Height::new(0, 2), &reencoded).unwrap().unwrap();
    match again {
        IbcEvent::OpenInitChannel(e) => {
            assert_eq!(e.0.port_id.as_str(), "transfer");
            assert_eq!(e.0.connection_id.as_str(), "connection-0");
            assert!(e.0.counterparty_channel_id.is_none());
        }
        other => panic!("expected OpenInitChannel again, got {:?}", other),
    }
}

#[test]
fn create_client_event_round_trip() {
    let raw = RawEvent {
        event_type: "create_client".to_string(),
        attributes: pairs(&[
            ("client_id", "07-tendermint-0"),
            ("client_type", "07-tendermint"),
            ("consensus_height", "0-42"),
        ]),
    };
    let event = from_tx_response_event(Height::new(0, 43), &raw).unwrap().unwrap();
    match &event {
        IbcEvent::CreateClient(e) => {
            assert_eq!(e.0.client_id, ClientId::default());
            assert_eq!(e.0.consensus_height, Height::new(0, 42));
            assert_eq!(e.height(), Height::new(0, 43));
        }
        other => panic!("expected CreateClient, got {:?}", other),
    }
    let reencoded = event.to_raw().unwrap();
    assert_eq!(reencoded.event_type, "create_client");
}

#[test]
fn unknown_event_type_yields_none() {
    let raw = RawEvent { event_type: "transfer".to_string(), attributes: vec![] };
    assert!(from_tx_response_event(Height::new(0, 1), &raw).unwrap().is_none());
}

#[test]
fn missing_mandatory_attribute_is_an_error() {
    // A recognised type with a missing mandatory attribute must yield a
    // decode error, not a silent default.
    let raw = RawEvent {
        event_type: "channel_open_init".to_string(),
        attributes: pairs(&[("channel_id", "channel-0")]),
    };
    match from_tx_response_event(Height::new(0, 1), &raw) {
        Err(EventError::MissingKey(key)) => assert_eq!(key, "port_id"),
        other => panic!("expected MissingKey, got {:?}", other),
    }
}

#[test]
fn invalid_attribute_is_an_error() {
    let raw = RawEvent {
        event_type: "send_packet".to_string(),
        attributes: pairs(&[("packet_sequence", "not-a-number")]),
    };
    assert!(matches!(
        from_tx_response_event(Height::new(0, 1), &raw),
        Err(EventError::InvalidAttribute(_))
    ));
}

#[test]
fn stray_write_ack_attribute_is_an_error() {
    // A `packet_ack` attribute is allowed exactly on write_acknowledgement.
    let mut attributes = pairs(&[
        ("packet_sequence", "1"),
        ("packet_src_port", "defaultPort"),
        ("packet_src_channel", "defaultChannel"),
        ("packet_dst_port", "defaultPort"),
        ("packet_dst_channel", "defaultChannel"),
        ("packet_timeout_height", "0-10"),
        ("packet_timeout_timestamp", "0"),
        ("packet_data", "xyz"),
    ]);
    attributes.push(("packet_ack".to_string(), "ok".to_string()));
    let raw = RawEvent { event_type: "send_packet".to_string(), attributes };
    assert!(matches!(
        from_tx_response_event(Height::new(0, 1), &raw),
        Err(EventError::UnexpectedWriteAck)
    ));

    // Conversely, write_acknowledgement without one is an error.
    let raw = RawEvent {
        event_type: "write_acknowledgement".to_string(),
        attributes: pairs(&[
            ("packet_sequence", "1"),
            ("packet_src_port", "defaultPort"),
            ("packet_src_channel", "defaultChannel"),
            ("packet_dst_port", "defaultPort"),
            ("packet_dst_channel", "defaultChannel"),
            ("packet_timeout_height", "0-10"),
            ("packet_timeout_timestamp", "0"),
            ("packet_data", "xyz"),
        ]),
    };
    match from_tx_response_event(Height::new(0, 1), &raw) {
        Err(EventError::MissingKey(key)) => assert_eq!(key, "packet_ack"),
        other => panic!("expected MissingKey(packet_ack), got {:?}", other),
    }
}

#[test]
fn extract_events_checks_the_action() {
    let events: Vec<(String, Vec<String>)> = vec![(
        "message.action".to_string(),
        vec!["send_packet".to_string(), "update_client".to_string()],
    )];
    assert!(extract_events(&events, "send_packet").is_ok());
    assert!(matches!(
        extract_events(&events, "timeout_packet"),
        Err(EventError::MissingActionString)
    ));
    let no_action: Vec<(String, Vec<String>)> = vec![];
    assert!(matches!(
        extract_events(&no_action, "send_packet"),
        Err(EventError::IncorrectEventType)
    ));
}

#[test]
fn open_init_from_raw_object() {
    let events: Vec<(String, Vec<String>)> = vec![
        ("channel_open_init.port_id".to_string(), vec!["transfer".to_string()]),
        ("channel_open_init.channel_id".to_string(), vec!["channel-1".to_string()]),
        ("channel_open_init.connection_id".to_string(), vec!["connection-1".to_string()]),
        ("channel_open_init.counterparty_port_id".to_string(), vec!["transfer".to_string()]),
        ("channel_open_init.counterparty_channel_id".to_string(), vec!["!".to_string()]),
    ];
    let obj = RawObject::new(Height::new(0, 6), "channel_open_init".to_string(), 0, events);
    let event = OpenInit::try_from(&obj).expect("decodes");
    assert_eq!(event.height(), Height::new(0, 6));
    assert_eq!(event.0.port_id.as_str(), "transfer");
    assert_eq!(event.0.connection_id, ConnectionId::new("connection-1".to_string()).unwrap());
    // A malformed optional identifier reads as absent.
    assert!(event.0.counterparty_channel_id.is_none());

    // A missing mandatory key is an error.
    let missing = RawObject::new(
        Height::new(0, 6),
        "channel_open_init".to_string(),
        0,
        vec![("channel_open_init.port_id".to_string(), vec!["transfer".to_string()])],
    );
    assert!(matches!(OpenInit::try_from(&missing), Err(EventError::MissingKey(_))));
}

#[test]
fn packet_events_from_raw_object() {
    let action = "send_packet";
    let key = |k: &str| format!("{}.{}", action, k);
    let events: Vec<(String, Vec<String>)> = vec![
        (key("packet_sequence"), vec!["3".to_string()]),
        (key("packet_src_port"), vec!["transfer".to_string()]),
        (key("packet_src_channel"), vec!["channel-0".to_string()]),
        (key("packet_dst_port"), vec!["transfer".to_string()]),
        (key("packet_dst_channel"), vec!["channel-1".to_string()]),
        (key("packet_timeout_height"), vec!["2-90".to_string()]),
        (key("packet_timeout_timestamp"), vec!["17".to_string()]),
        (key("packet_data"), vec!["payload".to_string()]),
    ];
    let obj = RawObject::new(Height::new(0, 8), action.to_string(), 0, events);
    let event = SendPacket::try_from(&obj).expect("decodes");
    assert_eq!(event.height, Height::new(0, 8));
    assert_eq!(event.packet.sequence, Sequence(3));
    assert_eq!(event.packet.data, b"payload".to_vec());
    assert_eq!(event.packet.timeout_height, Height::new(2, 90));
    assert_eq!(event.packet.timeout_timestamp, 17);

    let packet = Packet::try_from(&obj).expect("bare packet decodes");
    assert!(packet.data.is_empty());
}
