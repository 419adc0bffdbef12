use ibc_relayer_core::height::Height;
use ibc_relayer_core::ics02_client::client_state::{
    mock_client_state_type_url, tendermint_client_state_type_url, Any, AnyClientState,
    ClientState, MockClientState, TendermintClientState,
};
use ibc_relayer_core::ics02_client::client_type::ClientType;
use ibc_relayer_core::ics02_client::error::ClientError;
use ibc_relayer_core::ident::ChainId;

fn get_dummy_tendermint_client_state() -> TendermintClientState {
    TendermintClientState::new(
        ChainId::new("testchain".to_string(), 1),
        Height::new(1, 10),
        None,
    )
}

#[test]
fn any_client_state_serialization() {
    let tm_client_state = get_dummy_tendermint_client_state().wrap_any();

    let raw: Any = tm_client_state.to_any();
    let tm_client_state_back = AnyClientState::try_from(raw).unwrap();
    assert_eq!(tm_client_state, tm_client_state_back);
}

#[test]
fn mock_client_state_serialization() {
    let state = AnyClientState::Mock(MockClientState { latest_height: Height::new(0, 44) });
    let raw = state.to_any();
    assert_eq!(raw.type_url, mock_client_state_type_url());
    let back = AnyClientState::try_from(raw).unwrap();
    assert_eq!(state, back);
    assert_eq!(back.latest_height(), Height::new(0, 44));
    assert_eq!(back.client_type(), ClientType::Mock);
}

#[test]
fn client_state_envelope_keeps_frozen_height() {
    let state = AnyClientState::Tendermint(TendermintClientState::new(
        ChainId::new("frosty".to_string(), 3),
        Height::new(3, 500),
        Some(Height::new(3, 400)),
    ));
    let back = AnyClientState::try_from(state.to_any()).unwrap();
    assert_eq!(state, back);
    assert!(ClientState::is_frozen(&back));
    assert_eq!(
        ClientState::chain_id(&back).id_string(),
        ChainId::new("frosty".to_string(), 3).id_string()
    );
}

#[test]
fn client_state_envelope_non_ascii_chain_name() {
    // The chain name crosses the envelope as UTF-8 bytes; a multi-byte name
    // must survive the round trip.
    let state = AnyClientState::Tendermint(TendermintClientState::new(
        ChainId::new("ch\u{00e4}in-\u{6d4b}\u{8bd5}".to_string(), 7),
        Height::new(7, 9),
        None,
    ));
    let back = AnyClientState::try_from(state.to_any()).unwrap();
    assert_eq!(state, back);
}

#[test]
fn client_state_unknown_type_url() {
    let raw = Any { type_url: "/ibc.unknown.ClientState".to_string(), value: vec![] };
    match AnyClientState::try_from(raw) {
        Err(ClientError::UnknownClientStateType(url)) => {
            assert_eq!(url, "/ibc.unknown.ClientState");
        }
        other => panic!("expected UnknownClientStateType, got {:?}", other),
    }
}

#[test]
fn client_state_empty_type_url() {
    let raw = Any { type_url: String::new(), value: vec![1, 2, 3] };
    assert!(matches!(
        AnyClientState::try_from(raw),
        Err(ClientError::EmptyClientStateResponse)
    ));
}

#[test]
fn client_state_invalid_raw_bytes() {
    // Too short for the fixed layout.
    let raw = Any { type_url: tendermint_client_state_type_url().to_string(), value: vec![0; 10] };
    assert!(matches!(
        AnyClientState::try_from(raw),
        Err(ClientError::InvalidRawClientState)
    ));

    // Right length, but the chain-name tail is not valid UTF-8.
    let mut bad = AnyClientState::Tendermint(get_dummy_tendermint_client_state()).to_any().value;
    let n = bad.len();
    bad[n - 1] = 0xff;
    bad[n - 2] = 0xfe;
    let raw = Any { type_url: tendermint_client_state_type_url().to_string(), value: bad };
    assert!(matches!(
        AnyClientState::try_from(raw),
        Err(ClientError::InvalidRawClientState)
    ));
}
