//! Polymorphic client states and their wire envelope.
//!
//! The core does not know any specific light client: it works against the
//! capability set `{chain_id, client_type, latest_height, is_frozen}`,
//! dispatched over a tagged union. Client states cross the wire inside a
//! `(type_url, bytes)` envelope so that new client kinds can be added without
//! changing on-wire layouts.
//!
//! The value bytes of the envelope are a fixed layout per kind. For a
//! Tendermint state: the chain revision number, then the two components of
//! the latest height (each eight bytes little-endian), one frozen flag byte,
//! sixteen bytes for the frozen height (zero when the flag is clear), and the
//! chain name in UTF-8 to the end. For a mock state: the two components of
//! the latest height.

use vstd::prelude::*;
use vstd::bytes::{lemma_auto_spec_u64_to_from_le_bytes, spec_u64_from_le_bytes,
    spec_u64_to_le_bytes, u64_to_le_bytes};
use vstd::string::StrSliceExecFns;
use vstd::utf8::{decode_utf8, encode_utf8, valid_utf8};
use crate::height::Height;
use crate::ident::{chain_id_str, ChainId};
use crate::ics02_client::client_type::ClientType;
use crate::ics02_client::error::{ClientError, ClientErrorView};
use crate::wire::{read_u64_at, str_eq, string_from_utf8, tail_bytes};

verus! {

/// The envelope's `type_url` for a Tendermint client state.
pub fn tendermint_client_state_type_url() -> (r: &'static str)
    ensures
        r@ == "/ibc.lightclients.tendermint.v1.ClientState"@,
{
    "/ibc.lightclients.tendermint.v1.ClientState"
}

/// The envelope's `type_url` for a mock client state (tests only).
pub fn mock_client_state_type_url() -> (r: &'static str)
    ensures
        r@ == "/ibc.mock.ClientState"@,
{
    "/ibc.mock.ClientState"
}

/// The mathematical content of a `(type_url, bytes)` envelope.
pub ghost struct AnyView {
    pub type_url: Seq<char>,
    pub value: Seq<u8>,
}

/// A `(type_url, bytes)` envelope for polymorphic wire data.
#[derive(Debug, PartialEq, Eq)]
pub struct Any {
    pub type_url: String,
    pub value: Vec<u8>,
}

impl View for Any {
    type V = AnyView;

    open spec fn view(&self) -> AnyView {
        AnyView { type_url: self.type_url@, value: self.value@ }
    }
}

impl Clone for Any {
    fn clone(&self) -> (r: Self)
        ensures
            r@ == self@,
    {
        let value = self.value.clone();
        proof {
            assert(value@ =~= self.value@);
        }
        Any { type_url: self.type_url.clone(), value }
    }
}

/// The mathematical content of a Tendermint client state.
pub ghost struct TmClientStateView {
    pub chain_name: Seq<char>,
    pub chain_version: u64,
    pub latest_height: Height,
    pub frozen_height: Option<Height>,
}

/// The mathematical content of a mock client state.
pub ghost struct MockClientStateView {
    pub latest_height: Height,
}

/// The mathematical content of a client state of any kind.
pub ghost enum AnyClientStateView {
    Tendermint(TmClientStateView),
    Mock(MockClientStateView),
}

/// The chain a client state serves, read off its mathematical content.
pub open spec fn any_view_chain_id(s: AnyClientStateView) -> Seq<char> {
    match s {
        AnyClientStateView::Tendermint(v) => chain_id_str(v.chain_name, v.chain_version),
        AnyClientStateView::Mock(_) => chain_id_str("mock"@, 0),
    }
}

pub open spec fn any_view_client_type(s: AnyClientStateView) -> ClientType {
    match s {
        AnyClientStateView::Tendermint(_) => ClientType::Tendermint,
        AnyClientStateView::Mock(_) => ClientType::Mock,
    }
}

pub open spec fn any_view_latest_height(s: AnyClientStateView) -> Height {
    match s {
        AnyClientStateView::Tendermint(v) => v.latest_height,
        AnyClientStateView::Mock(v) => v.latest_height,
    }
}

pub open spec fn any_view_is_frozen(s: AnyClientStateView) -> bool {
    match s {
        AnyClientStateView::Tendermint(v) => v.frozen_height is Some,
        AnyClientStateView::Mock(_) => false,
    }
}

/// The capability set every client state offers.
pub trait ClientState: Sized {
    /// The chain this client is serving (it verifies consensus states from
    /// that chain).
    spec fn spec_chain_id(&self) -> Seq<char>;

    spec fn spec_client_type(&self) -> ClientType;

    spec fn spec_latest_height(&self) -> Height;

    spec fn spec_is_frozen(&self) -> bool;

    /// Return the chain identifier which this client is serving.
    fn chain_id(&self) -> (r: ChainId)
        ensures
            r@ == self.spec_chain_id(),
    ;

    /// Type of client associated with this state.
    fn client_type(&self) -> (r: ClientType)
        ensures
            r == self.spec_client_type(),
    ;

    /// Latest height of consensus state.
    fn latest_height(&self) -> (r: Height)
        ensures
            r == self.spec_latest_height(),
    ;

    /// Freeze status of the client.
    fn is_frozen(&self) -> (r: bool)
        ensures
            r == self.spec_is_frozen(),
    ;

    /// Wrap into an `AnyClientState`, keeping the whole capability set.
    fn wrap_any(self) -> (r: AnyClientState)
        ensures
            any_view_chain_id(r@) == self.spec_chain_id(),
            any_view_client_type(r@) == self.spec_client_type(),
            any_view_latest_height(r@) == self.spec_latest_height(),
            any_view_is_frozen(r@) == self.spec_is_frozen(),
    ;
}

/// A Tendermint light-client state, reduced to the capability set the core
/// reads: the chain served, the latest trusted height, and the frozen
/// height, if any.
#[derive(Debug, PartialEq, Eq)]
pub struct TendermintClientState {
    pub chain_id: ChainId,
    pub latest_height: Height,
    pub frozen_height: Option<Height>,
}

impl View for TendermintClientState {
    type V = TmClientStateView;

    open spec fn view(&self) -> TmClientStateView {
        TmClientStateView {
            chain_name: self.chain_id.spec_name(),
            chain_version: self.chain_id.spec_version(),
            latest_height: self.latest_height,
            frozen_height: self.frozen_height,
        }
    }
}

impl Clone for TendermintClientState {
    fn clone(&self) -> (r: Self)
        ensures
            r@ == self@,
    {
        TendermintClientState {
            chain_id: self.chain_id.clone(),
            latest_height: self.latest_height,
            frozen_height: self.frozen_height,
        }
    }
}

impl TendermintClientState {
    pub fn new(chain_id: ChainId, latest_height: Height, frozen_height: Option<Height>) -> (r:
        TendermintClientState)
        ensures
            r@ == (TmClientStateView {
                chain_name: chain_id.spec_name(),
                chain_version: chain_id.spec_version(),
                latest_height,
                frozen_height,
            }),
    {
        TendermintClientState { chain_id, latest_height, frozen_height }
    }
}

/// A test client state: only a latest height.
#[derive(Clone, Copy, Debug, PartialEq, Eq, Hash, Structural)]
pub struct MockClientState {
    pub latest_height: Height,
}

impl View for MockClientState {
    type V = MockClientStateView;

    open spec fn view(&self) -> MockClientStateView {
        MockClientStateView { latest_height: self.latest_height }
    }
}

/// A client state of any known kind.
#[derive(Debug, PartialEq, Eq)]
pub enum AnyClientState {
    Tendermint(TendermintClientState),
    Mock(MockClientState),
}

impl View for AnyClientState {
    type V = AnyClientStateView;

    open spec fn view(&self) -> AnyClientStateView {
        match self {
            AnyClientState::Tendermint(s) => AnyClientStateView::Tendermint(s@),
            AnyClientState::Mock(s) => AnyClientStateView::Mock(s@),
        }
    }
}

impl Clone for AnyClientState {
    fn clone(&self) -> (r: Self)
        ensures
            r@ == self@,
    {
        match self {
            AnyClientState::Tendermint(s) => AnyClientState::Tendermint(s.clone()),
            AnyClientState::Mock(s) => AnyClientState::Mock(*s),
        }
    }
}

impl AnyClientState {
    /// Latest height of the wrapped state's consensus.
    pub fn latest_height(&self) -> (r: Height)
        ensures
            r == match self@ {
                AnyClientStateView::Tendermint(s) => s.latest_height,
                AnyClientStateView::Mock(s) => s.latest_height,
            },
    {
        match self {
            AnyClientState::Tendermint(s) => s.latest_height,
            AnyClientState::Mock(s) => s.latest_height,
        }
    }

    /// The kind of the wrapped state.
    pub fn client_type(&self) -> (r: ClientType)
        ensures
            r == match self@ {
                AnyClientStateView::Tendermint(_) => ClientType::Tendermint,
                AnyClientStateView::Mock(_) => ClientType::Mock,
            },
    {
        match self {
            AnyClientState::Tendermint(_) => ClientType::Tendermint,
            AnyClientState::Mock(_) => ClientType::Mock,
        }
    }
}

/// The frozen-height section of a Tendermint client state's bytes: one flag
/// byte, then sixteen bytes of height (zero when no frozen height is set).
pub open spec fn frozen_height_bytes(f: Option<Height>) -> Seq<u8> {
    match f {
        None => seq![0u8] + spec_u64_to_le_bytes(0u64) + spec_u64_to_le_bytes(0u64),
        Some(h) => seq![1u8] + spec_u64_to_le_bytes(h.revision_number) + spec_u64_to_le_bytes(
            h.revision_height,
        ),
    }
}

/// The value bytes of a Tendermint client state.
pub open spec fn tm_client_state_bytes(v: TmClientStateView) -> Seq<u8> {
    spec_u64_to_le_bytes(v.chain_version) + spec_u64_to_le_bytes(v.latest_height.revision_number)
        + spec_u64_to_le_bytes(v.latest_height.revision_height) + frozen_height_bytes(
        v.frozen_height,
    ) + encode_utf8(v.chain_name)
}

/// Parse the value bytes of a Tendermint client state.
pub open spec fn spec_parse_tm_client_state(b: Seq<u8>) -> Option<TmClientStateView> {
    if b.len() >= 41 && (b[24] == 0 || b[24] == 1) && valid_utf8(b.skip(41)) {
        Some(
            TmClientStateView {
                chain_name: decode_utf8(b.skip(41)),
                chain_version: spec_u64_from_le_bytes(b.subrange(0, 8)),
                latest_height: Height {
                    revision_number: spec_u64_from_le_bytes(b.subrange(8, 16)),
                    revision_height: spec_u64_from_le_bytes(b.subrange(16, 24)),
                },
                frozen_height: if b[24] == 1 {
                    Some(
                        Height {
                            revision_number: spec_u64_from_le_bytes(b.subrange(25, 33)),
                            revision_height: spec_u64_from_le_bytes(b.subrange(33, 41)),
                        },
                    )
                } else {
                    None
                },
            },
        )
    } else {
        None
    }
}

/// The value bytes of a mock client state.
pub open spec fn mock_client_state_bytes(v: MockClientStateView) -> Seq<u8> {
    spec_u64_to_le_bytes(v.latest_height.revision_number) + spec_u64_to_le_bytes(
        v.latest_height.revision_height,
    )
}

/// Parse the value bytes of a mock client state.
pub open spec fn spec_parse_mock_client_state(b: Seq<u8>) -> Option<MockClientStateView> {
    if b.len() == 16 {
        Some(
            MockClientStateView {
                latest_height: Height {
                    revision_number: spec_u64_from_le_bytes(b.subrange(0, 8)),
                    revision_height: spec_u64_from_le_bytes(b.subrange(8, 16)),
                },
            },
        )
    } else {
        None
    }
}

/// Decoding the value bytes of a Tendermint client state undoes encoding.
pub proof fn lemma_tm_client_state_round_trip(v: TmClientStateView)
    ensures
        spec_parse_tm_client_state(tm_client_state_bytes(v)) == Some(v),
{
    broadcast use vstd::utf8::encode_utf8_valid_utf8, vstd::utf8::encode_utf8_decode_utf8;

    lemma_auto_spec_u64_to_from_le_bytes();
    let b = tm_client_state_bytes(v);
    assert(frozen_height_bytes(v.frozen_height).len() == 17);
    assert(b.subrange(0, 8) =~= spec_u64_to_le_bytes(v.chain_version));
    assert(b.subrange(8, 16) =~= spec_u64_to_le_bytes(v.latest_height.revision_number));
    assert(b.subrange(16, 24) =~= spec_u64_to_le_bytes(v.latest_height.revision_height));
    assert(b[24] == frozen_height_bytes(v.frozen_height)[0]);
    match v.frozen_height {
        None => {
            assert(b[24] == 0);
        },
        Some(h) => {
            assert(b[24] == 1);
            assert(b.subrange(25, 33) =~= spec_u64_to_le_bytes(h.revision_number));
            assert(b.subrange(33, 41) =~= spec_u64_to_le_bytes(h.revision_height));
        },
    }
    assert(b.skip(41) =~= encode_utf8(v.chain_name));
}

/// Decoding the value bytes of a mock client state undoes encoding.
pub proof fn lemma_mock_client_state_round_trip(v: MockClientStateView)
    ensures
        spec_parse_mock_client_state(mock_client_state_bytes(v)) == Some(v),
{
    lemma_auto_spec_u64_to_from_le_bytes();
    let b = mock_client_state_bytes(v);
    assert(b.subrange(0, 8) =~= spec_u64_to_le_bytes(v.latest_height.revision_number));
    assert(b.subrange(8, 16) =~= spec_u64_to_le_bytes(v.latest_height.revision_height));
}

impl TendermintClientState {
    /// Encode this state as envelope value bytes.
    pub fn encode_vec(&self) -> (r: Vec<u8>)
        ensures
            r@ == tm_client_state_bytes(self@),
    {
        let mut out = u64_to_le_bytes(self.chain_id.version());
        let mut lat_rev = u64_to_le_bytes(self.latest_height.revision_number);
        let mut lat_hgt = u64_to_le_bytes(self.latest_height.revision_height);
        out.append(&mut lat_rev);
        out.append(&mut lat_hgt);
        match &self.frozen_height {
            None => {
                out.push(0u8);
                let mut z1 = u64_to_le_bytes(0u64);
                let mut z2 = u64_to_le_bytes(0u64);
                out.append(&mut z1);
                out.append(&mut z2);
            },
            Some(h) => {
                out.push(1u8);
                let mut f1 = u64_to_le_bytes(h.revision_number);
                let mut f2 = u64_to_le_bytes(h.revision_height);
                out.append(&mut f1);
                out.append(&mut f2);
            },
        }
        let mut name = self.chain_id.name().as_bytes_vec();
        out.append(&mut name);
        proof {
            assert(out@ =~= tm_client_state_bytes(self@));
        }
        out
    }

    /// Decode envelope value bytes as a Tendermint client state.
    pub fn decode_vec(bytes: &Vec<u8>) -> (r: Option<TendermintClientState>)
        ensures
            match r {
                Some(s) => spec_parse_tm_client_state(bytes@) == Some(s@),
                None => spec_parse_tm_client_state(bytes@) is None,
            },
    {
        if bytes.len() < 41 {
            return None;
        }
        let chain_version = read_u64_at(bytes, 0);
        let latest_height = Height::new(read_u64_at(bytes, 8), read_u64_at(bytes, 16));
        let flag = bytes[24];
        if flag > 1 {
            return None;
        }
        let frozen_height = if flag == 1 {
            Some(Height::new(read_u64_at(bytes, 25), read_u64_at(bytes, 33)))
        } else {
            None
        };
        let name_bytes = tail_bytes(bytes, 41);
        match string_from_utf8(name_bytes) {
            Some(name) => Some(
                TendermintClientState {
                    chain_id: ChainId::new(name, chain_version),
                    latest_height,
                    frozen_height,
                },
            ),
            None => None,
        }
    }
}

impl MockClientState {
    /// Encode this state as envelope value bytes.
    pub fn encode_vec(&self) -> (r: Vec<u8>)
        ensures
            r@ == mock_client_state_bytes(self@),
    {
        let mut out = u64_to_le_bytes(self.latest_height.revision_number);
        let mut hgt = u64_to_le_bytes(self.latest_height.revision_height);
        out.append(&mut hgt);
        proof {
            assert(out@ =~= mock_client_state_bytes(self@));
        }
        out
    }

    /// Decode envelope value bytes as a mock client state.
    pub fn decode_vec(bytes: &Vec<u8>) -> (r: Option<MockClientState>)
        ensures
            match r {
                Some(s) => spec_parse_mock_client_state(bytes@) == Some(s@),
                None => spec_parse_mock_client_state(bytes@) is None,
            },
    {
        if bytes.len() != 16 {
            return None;
        }
        Some(
            MockClientState {
                latest_height: Height::new(read_u64_at(bytes, 0), read_u64_at(bytes, 8)),
            },
        )
    }
}

/// What an envelope must decode to: empty `type_url` is an error, the two
/// recognised urls decode their value bytes, anything else is unknown.
pub open spec fn spec_decode_client_state(raw: AnyView) -> Result<
    AnyClientStateView,
    ClientErrorView,
> {
    if raw.type_url.len() == 0 {
        Err(ClientErrorView::EmptyClientStateResponse)
    } else if raw.type_url == "/ibc.lightclients.tendermint.v1.ClientState"@ {
        match spec_parse_tm_client_state(raw.value) {
            Some(s) => Ok(AnyClientStateView::Tendermint(s)),
            None => Err(ClientErrorView::InvalidRawClientState),
        }
    } else if raw.type_url == "/ibc.mock.ClientState"@ {
        match spec_parse_mock_client_state(raw.value) {
            Some(s) => Ok(AnyClientStateView::Mock(s)),
            None => Err(ClientErrorView::InvalidRawClientState),
        }
    } else {
        Err(ClientErrorView::UnknownClientStateType { type_url: raw.type_url })
    }
}

/// The envelope a client state is encoded into.
pub open spec fn spec_encode_client_state(s: AnyClientStateView) -> AnyView {
    match s {
        AnyClientStateView::Tendermint(v) => AnyView {
            type_url: "/ibc.lightclients.tendermint.v1.ClientState"@,
            value: tm_client_state_bytes(v),
        },
        AnyClientStateView::Mock(v) => AnyView {
            type_url: "/ibc.mock.ClientState"@,
            value: mock_client_state_bytes(v),
        },
    }
}

/// Decoding an encoded client-state envelope yields the state back, for
/// every client state.
pub proof fn lemma_client_state_envelope_round_trip(s: AnyClientStateView)
    ensures
        spec_decode_client_state(spec_encode_client_state(s)) == Ok::<
            AnyClientStateView,
            ClientErrorView,
        >(s),
{
    reveal_strlit("/ibc.lightclients.tendermint.v1.ClientState");
    reveal_strlit("/ibc.mock.ClientState");
    match s {
        AnyClientStateView::Tendermint(v) => {
            lemma_tm_client_state_round_trip(v);
        },
        AnyClientStateView::Mock(v) => {
            lemma_mock_client_state_round_trip(v);
            assert("/ibc.mock.ClientState"@ != "/ibc.lightclients.tendermint.v1.ClientState"@);
        },
    }
}

impl AnyClientState {
    /// Decode a `(type_url, bytes)` envelope into a typed client state.
    pub fn try_from(raw: Any) -> (r: Result<AnyClientState, ClientError>)
        ensures
            match r {
                Ok(s) => spec_decode_client_state(raw@) == Ok::<
                    AnyClientStateView,
                    ClientErrorView,
                >(s@),
                Err(e) => spec_decode_client_state(raw@) == Err::<
                    AnyClientStateView,
                    ClientErrorView,
                >(e@),
            },
    {
        if raw.type_url.as_str().is_empty() {
            Err(ClientError::EmptyClientStateResponse)
        } else if str_eq(raw.type_url.as_str(), tendermint_client_state_type_url()) {
            match TendermintClientState::decode_vec(&raw.value) {
                Some(s) => Ok(AnyClientState::Tendermint(s)),
                None => Err(ClientError::InvalidRawClientState),
            }
        } else if str_eq(raw.type_url.as_str(), mock_client_state_type_url()) {
            match MockClientState::decode_vec(&raw.value) {
                Some(s) => Ok(AnyClientState::Mock(s)),
                None => Err(ClientError::InvalidRawClientState),
            }
        } else {
            Err(ClientError::UnknownClientStateType(raw.type_url))
        }
    }

    /// Encode this client state into its `(type_url, bytes)` envelope.
    pub fn to_any(&self) -> (r: Any)
        ensures
            r@ == spec_encode_client_state(self@),
    {
        match self {
            AnyClientState::Tendermint(s) => Any {
                type_url: String::from_str(tendermint_client_state_type_url()),
                value: s.encode_vec(),
            },
            AnyClientState::Mock(s) => Any {
                type_url: String::from_str(mock_client_state_type_url()),
                value: s.encode_vec(),
            },
        }
    }
}

impl ClientState for TendermintClientState {
    open spec fn spec_chain_id(&self) -> Seq<char> {
        chain_id_str(self.chain_id.spec_name(), self.chain_id.spec_version())
    }

    open spec fn spec_client_type(&self) -> ClientType {
        ClientType::Tendermint
    }

    open spec fn spec_latest_height(&self) -> Height {
        self.latest_height
    }

    open spec fn spec_is_frozen(&self) -> bool {
        self.frozen_height is Some
    }

    fn chain_id(&self) -> (r: ChainId) {
        let r = self.chain_id.clone();
        proof {
            r.lemma_view();
        }
        r
    }

    fn client_type(&self) -> (r: ClientType) {
        ClientType::Tendermint
    }

    fn latest_height(&self) -> (r: Height) {
        self.latest_height
    }

    fn is_frozen(&self) -> (r: bool) {
        self.frozen_height.is_some()
    }

    fn wrap_any(self) -> (r: AnyClientState) {
        AnyClientState::Tendermint(self)
    }
}

impl ClientState for MockClientState {
    open spec fn spec_chain_id(&self) -> Seq<char> {
        chain_id_str("mock"@, 0)
    }

    open spec fn spec_client_type(&self) -> ClientType {
        ClientType::Mock
    }

    open spec fn spec_latest_height(&self) -> Height {
        self.latest_height
    }

    open spec fn spec_is_frozen(&self) -> bool {
        false
    }

    fn chain_id(&self) -> (r: ChainId) {
        ChainId::new(String::from_str("mock"), 0)
    }

    fn client_type(&self) -> (r: ClientType) {
        ClientType::Mock
    }

    fn latest_height(&self) -> (r: Height) {
        self.latest_height
    }

    fn is_frozen(&self) -> (r: bool) {
        false
    }

    fn wrap_any(self) -> (r: AnyClientState) {
        AnyClientState::Mock(self)
    }
}

impl ClientState for AnyClientState {
    open spec fn spec_chain_id(&self) -> Seq<char> {
        any_view_chain_id(self@)
    }

    open spec fn spec_client_type(&self) -> ClientType {
        any_view_client_type(self@)
    }

    open spec fn spec_latest_height(&self) -> Height {
        any_view_latest_height(self@)
    }

    open spec fn spec_is_frozen(&self) -> bool {
        any_view_is_frozen(self@)
    }

    fn chain_id(&self) -> (r: ChainId) {
        match self {
            AnyClientState::Tendermint(s) => ClientState::chain_id(s),
            AnyClientState::Mock(s) => ClientState::chain_id(s),
        }
    }

    fn client_type(&self) -> (r: ClientType) {
        self.client_type()
    }

    fn latest_height(&self) -> (r: Height) {
        self.latest_height()
    }

    fn is_frozen(&self) -> (r: bool) {
        match self {
            AnyClientState::Tendermint(s) => s.frozen_height.is_some(),
            AnyClientState::Mock(_) => false,
        }
    }

    fn wrap_any(self) -> (r: AnyClientState) {
        self
    }
}

} // verus!
