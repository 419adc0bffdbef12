//! The IBC event taxonomy and the raw forms events arrive in.
//!
//! Every handler emits events of this fixed taxonomy. An event carries the
//! height at which it was produced and a payload that varies by kind.

use vstd::prelude::*;
use vstd::string::StrSliceExecFns;
use vstd::utf8::encode_utf8;
use crate::height::{spec_parse_height, parse_height, Height};
use crate::decimal::{parse_u64, spec_parse_u64};
use crate::ident::{valid_identifier, ChannelId, ClientId, ConnectionId, PortId};
use vstd::utf8::valid_utf8;
use crate::ics02_client::events as client_events;
use crate::ics02_client::events::{ClientAttributesView, NewBlock};
use crate::ics03_connection::events as connection_events;
use crate::ics03_connection::events::ConnAttributesView;
use crate::ics04_channel::events as channel_events;
use crate::ics04_channel::events::{AttributesView, PacketEventView, WriteAckView};

verus! {

/// Event types a relayer filters on.
#[derive(Clone, Copy, Debug, PartialEq, Eq, Hash, Structural)]
pub enum IbcEventType {
    CreateClient,
    UpdateClient,
    SendPacket,
    WriteAck,
}

impl IbcEventType {
    /// The wire string for the event type.
    pub fn as_str(&self) -> (r: &'static str)
        ensures
            r@ == match *self {
                IbcEventType::CreateClient => "create_client"@,
                IbcEventType::UpdateClient => "update_client"@,
                IbcEventType::SendPacket => "send_packet"@,
                IbcEventType::WriteAck => "write_acknowledgement"@,
            },
    {
        match *self {
            IbcEventType::CreateClient => "create_client",
            IbcEventType::UpdateClient => "update_client",
            IbcEventType::SendPacket => "send_packet",
            IbcEventType::WriteAck => "write_acknowledgement",
        }
    }
}

/// The mathematical content of an IBC event.
pub ghost enum IbcEventView {
    NewBlock { height: Height },
    CreateClient(ClientAttributesView),
    UpdateClient(ClientAttributesView),
    UpgradeClient(ClientAttributesView),
    ClientMisbehaviour(ClientAttributesView),
    OpenInitConnection(ConnAttributesView),
    OpenTryConnection(ConnAttributesView),
    OpenAckConnection(ConnAttributesView),
    OpenConfirmConnection(ConnAttributesView),
    OpenInitChannel(AttributesView),
    OpenTryChannel(AttributesView),
    OpenAckChannel(AttributesView),
    OpenConfirmChannel(AttributesView),
    CloseInitChannel(AttributesView),
    CloseConfirmChannel(AttributesView),
    SendPacket(PacketEventView),
    ReceivePacket(PacketEventView),
    WriteAcknowledgement(WriteAckView),
    AcknowledgePacket(PacketEventView),
    TimeoutPacket(PacketEventView),
    TimeoutOnClosePacket(PacketEventView),
    Empty { msg: Seq<char> },
    ChainError { msg: Seq<char> },
}

impl IbcEventView {
    /// The kinds whose producing height `height()` reports.
    pub open spec fn has_height(&self) -> bool {
        match *self {
            IbcEventView::UpgradeClient(_) => false,
            IbcEventView::TimeoutOnClosePacket(_) => false,
            IbcEventView::Empty { .. } => false,
            IbcEventView::ChainError { .. } => false,
            _ => true,
        }
    }

    /// The height the event was produced at.
    pub open spec fn spec_height(&self) -> Height {
        match *self {
            IbcEventView::NewBlock { height } => height,
            IbcEventView::CreateClient(a) => a.height,
            IbcEventView::UpdateClient(a) => a.height,
            IbcEventView::UpgradeClient(a) => a.height,
            IbcEventView::ClientMisbehaviour(a) => a.height,
            IbcEventView::OpenInitConnection(a) => a.height,
            IbcEventView::OpenTryConnection(a) => a.height,
            IbcEventView::OpenAckConnection(a) => a.height,
            IbcEventView::OpenConfirmConnection(a) => a.height,
            IbcEventView::OpenInitChannel(a) => a.height,
            IbcEventView::OpenTryChannel(a) => a.height,
            IbcEventView::OpenAckChannel(a) => a.height,
            IbcEventView::OpenConfirmChannel(a) => a.height,
            IbcEventView::CloseInitChannel(a) => a.height,
            IbcEventView::CloseConfirmChannel(a) => a.height,
            IbcEventView::SendPacket(p) => p.height,
            IbcEventView::ReceivePacket(p) => p.height,
            IbcEventView::WriteAcknowledgement(w) => w.height,
            IbcEventView::AcknowledgePacket(p) => p.height,
            IbcEventView::TimeoutPacket(p) => p.height,
            IbcEventView::TimeoutOnClosePacket(p) => p.height,
            IbcEventView::Empty { .. } => Height { revision_number: 0u64, revision_height: 0u64 },
            IbcEventView::ChainError { .. } => Height {
                revision_number: 0u64,
                revision_height: 0u64,
            },
        }
    }

    /// Well-formed events: every identifier carried is valid and packet
    /// sequences are positive.
    pub open spec fn wf(&self) -> bool {
        match *self {
            IbcEventView::NewBlock { .. } => true,
            IbcEventView::CreateClient(a) => valid_identifier(a.client_id),
            IbcEventView::UpdateClient(a) => valid_identifier(a.client_id),
            IbcEventView::UpgradeClient(a) => valid_identifier(a.client_id),
            IbcEventView::ClientMisbehaviour(a) => valid_identifier(a.client_id),
            IbcEventView::OpenInitConnection(a) => crate::ics03_connection::events::conn_attrs_wf(
                a,
            ),
            IbcEventView::OpenTryConnection(a) => crate::ics03_connection::events::conn_attrs_wf(
                a,
            ),
            IbcEventView::OpenAckConnection(a) => crate::ics03_connection::events::conn_attrs_wf(
                a,
            ),
            IbcEventView::OpenConfirmConnection(a) => {
                crate::ics03_connection::events::conn_attrs_wf(a)
            },
            IbcEventView::OpenInitChannel(a) => a.wf(),
            IbcEventView::OpenTryChannel(a) => a.wf(),
            IbcEventView::OpenAckChannel(a) => a.wf(),
            IbcEventView::OpenConfirmChannel(a) => a.wf(),
            IbcEventView::CloseInitChannel(a) => a.wf(),
            IbcEventView::CloseConfirmChannel(a) => a.wf(),
            IbcEventView::SendPacket(p) => p.packet.wf(),
            IbcEventView::ReceivePacket(p) => p.packet.wf(),
            IbcEventView::WriteAcknowledgement(w) => w.packet.wf(),
            IbcEventView::AcknowledgePacket(p) => p.packet.wf(),
            IbcEventView::TimeoutPacket(p) => p.packet.wf(),
            IbcEventView::TimeoutOnClosePacket(p) => p.packet.wf(),
            IbcEventView::Empty { .. } => true,
            IbcEventView::ChainError { .. } => true,
        }
    }

    /// The kinds that have a raw wire form: the client, connection and
    /// channel handshake events, and the four packet event kinds the
    /// decoder recognises, whose payload bytes must be UTF-8 text.
    pub open spec fn has_wire_form(&self) -> bool {
        match *self {
            IbcEventView::CreateClient(_) => true,
            IbcEventView::UpdateClient(_) => true,
            IbcEventView::UpgradeClient(_) => true,
            IbcEventView::ClientMisbehaviour(_) => true,
            IbcEventView::OpenInitConnection(_) => true,
            IbcEventView::OpenTryConnection(_) => true,
            IbcEventView::OpenAckConnection(_) => true,
            IbcEventView::OpenConfirmConnection(_) => true,
            IbcEventView::OpenInitChannel(_) => true,
            IbcEventView::OpenTryChannel(_) => true,
            IbcEventView::OpenAckChannel(_) => true,
            IbcEventView::OpenConfirmChannel(_) => true,
            IbcEventView::CloseInitChannel(_) => true,
            IbcEventView::CloseConfirmChannel(_) => true,
            IbcEventView::SendPacket(p) => valid_utf8(p.packet.data),
            IbcEventView::WriteAcknowledgement(w) => valid_utf8(w.packet.data) && valid_utf8(
                w.ack,
            ),
            IbcEventView::AcknowledgePacket(p) => valid_utf8(p.packet.data),
            IbcEventView::TimeoutPacket(p) => valid_utf8(p.packet.data),
            _ => false,
        }
    }

    /// The kinds whose height `set_height()` can replace.
    pub open spec fn can_set_height(&self) -> bool {
        match *self {
            IbcEventView::TimeoutOnClosePacket(_) => false,
            IbcEventView::Empty { .. } => false,
            IbcEventView::ChainError { .. } => false,
            _ => true,
        }
    }

    /// The same event at another height.
    pub open spec fn with_height(&self, height: Height) -> IbcEventView {
        match *self {
            IbcEventView::NewBlock { .. } => IbcEventView::NewBlock { height },
            IbcEventView::CreateClient(a) => IbcEventView::CreateClient(
                ClientAttributesView { height, ..a },
            ),
            IbcEventView::UpdateClient(a) => IbcEventView::UpdateClient(
                ClientAttributesView { height, ..a },
            ),
            IbcEventView::UpgradeClient(a) => IbcEventView::UpgradeClient(
                ClientAttributesView { height, ..a },
            ),
            IbcEventView::ClientMisbehaviour(a) => IbcEventView::ClientMisbehaviour(
                ClientAttributesView { height, ..a },
            ),
            IbcEventView::OpenInitConnection(a) => IbcEventView::OpenInitConnection(
                ConnAttributesView { height, ..a },
            ),
            IbcEventView::OpenTryConnection(a) => IbcEventView::OpenTryConnection(
                ConnAttributesView { height, ..a },
            ),
            IbcEventView::OpenAckConnection(a) => IbcEventView::OpenAckConnection(
                ConnAttributesView { height, ..a },
            ),
            IbcEventView::OpenConfirmConnection(a) => IbcEventView::OpenConfirmConnection(
                ConnAttributesView { height, ..a },
            ),
            IbcEventView::OpenInitChannel(a) => IbcEventView::OpenInitChannel(
                AttributesView { height, ..a },
            ),
            IbcEventView::OpenTryChannel(a) => IbcEventView::OpenTryChannel(
                AttributesView { height, ..a },
            ),
            IbcEventView::OpenAckChannel(a) => IbcEventView::OpenAckChannel(
                AttributesView { height, ..a },
            ),
            IbcEventView::OpenConfirmChannel(a) => IbcEventView::OpenConfirmChannel(
                AttributesView { height, ..a },
            ),
            IbcEventView::CloseInitChannel(a) => IbcEventView::CloseInitChannel(
                AttributesView { height, ..a },
            ),
            IbcEventView::CloseConfirmChannel(a) => IbcEventView::CloseConfirmChannel(
                AttributesView { height, ..a },
            ),
            IbcEventView::SendPacket(p) => IbcEventView::SendPacket(
                PacketEventView { height, ..p },
            ),
            IbcEventView::ReceivePacket(p) => IbcEventView::ReceivePacket(
                PacketEventView { height, ..p },
            ),
            IbcEventView::WriteAcknowledgement(w) => IbcEventView::WriteAcknowledgement(
                WriteAckView { height, ..w },
            ),
            IbcEventView::AcknowledgePacket(p) => IbcEventView::AcknowledgePacket(
                PacketEventView { height, ..p },
            ),
            IbcEventView::TimeoutPacket(p) => IbcEventView::TimeoutPacket(
                PacketEventView { height, ..p },
            ),
            IbcEventView::TimeoutOnClosePacket(p) => IbcEventView::TimeoutOnClosePacket(
                PacketEventView { height, ..p },
            ),
            IbcEventView::Empty { msg } => IbcEventView::Empty { msg },
            IbcEventView::ChainError { msg } => IbcEventView::ChainError { msg },
        }
    }
}

/// An event created by the IBC component of a chain, destined for a relayer.
/// `Empty` signifies a response without IBC relevance; `ChainError` carries a
/// chain-reported execution error.
#[derive(Clone, Debug)]
pub enum IbcEvent {
    NewBlock(NewBlock),
    CreateClient(client_events::CreateClient),
    UpdateClient(client_events::UpdateClient),
    UpgradeClient(client_events::UpgradeClient),
    ClientMisbehaviour(client_events::ClientMisbehaviour),
    OpenInitConnection(connection_events::OpenInit),
    OpenTryConnection(connection_events::OpenTry),
    OpenAckConnection(connection_events::OpenAck),
    OpenConfirmConnection(connection_events::OpenConfirm),
    OpenInitChannel(channel_events::OpenInit),
    OpenTryChannel(channel_events::OpenTry),
    OpenAckChannel(channel_events::OpenAck),
    OpenConfirmChannel(channel_events::OpenConfirm),
    CloseInitChannel(channel_events::CloseInit),
    CloseConfirmChannel(channel_events::CloseConfirm),
    SendPacket(channel_events::SendPacket),
    ReceivePacket(channel_events::ReceivePacket),
    WriteAcknowledgement(channel_events::WriteAcknowledgement),
    AcknowledgePacket(channel_events::AcknowledgePacket),
    TimeoutPacket(channel_events::TimeoutPacket),
    TimeoutOnClosePacket(channel_events::TimeoutOnClosePacket),
    Empty(String),
    ChainError(String),
}

impl View for IbcEvent {
    type V = IbcEventView;

    open spec fn view(&self) -> IbcEventView {
        match self {
            IbcEvent::NewBlock(e) => IbcEventView::NewBlock { height: e.height },
            IbcEvent::CreateClient(e) => IbcEventView::CreateClient(e@),
            IbcEvent::UpdateClient(e) => IbcEventView::UpdateClient(e@),
            IbcEvent::UpgradeClient(e) => IbcEventView::UpgradeClient(e@),
            IbcEvent::ClientMisbehaviour(e) => IbcEventView::ClientMisbehaviour(e@),
            IbcEvent::OpenInitConnection(e) => IbcEventView::OpenInitConnection(e@),
            IbcEvent::OpenTryConnection(e) => IbcEventView::OpenTryConnection(e@),
            IbcEvent::OpenAckConnection(e) => IbcEventView::OpenAckConnection(e@),
            IbcEvent::OpenConfirmConnection(e) => IbcEventView::OpenConfirmConnection(e@),
            IbcEvent::OpenInitChannel(e) => IbcEventView::OpenInitChannel(e@),
            IbcEvent::OpenTryChannel(e) => IbcEventView::OpenTryChannel(e@),
            IbcEvent::OpenAckChannel(e) => IbcEventView::OpenAckChannel(e@),
            IbcEvent::OpenConfirmChannel(e) => IbcEventView::OpenConfirmChannel(e@),
            IbcEvent::CloseInitChannel(e) => IbcEventView::CloseInitChannel(e@),
            IbcEvent::CloseConfirmChannel(e) => IbcEventView::CloseConfirmChannel(e@),
            IbcEvent::SendPacket(e) => IbcEventView::SendPacket(e@),
            IbcEvent::ReceivePacket(e) => IbcEventView::ReceivePacket(e@),
            IbcEvent::WriteAcknowledgement(e) => IbcEventView::WriteAcknowledgement(e@),
            IbcEvent::AcknowledgePacket(e) => IbcEventView::AcknowledgePacket(e@),
            IbcEvent::TimeoutPacket(e) => IbcEventView::TimeoutPacket(e@),
            IbcEvent::TimeoutOnClosePacket(e) => IbcEventView::TimeoutOnClosePacket(e@),
            IbcEvent::Empty(s) => IbcEventView::Empty { msg: s@ },
            IbcEvent::ChainError(s) => IbcEventView::ChainError { msg: s@ },
        }
    }
}

impl IbcEvent {
    /// The height the event was produced at. Kinds outside the relayer's
    /// interest do not report one.
    pub fn height(&self) -> (r: Height)
        requires
            self@.has_height(),
        ensures
            r == self@.spec_height(),
    {
        match self {
            IbcEvent::NewBlock(e) => e.height(),
            IbcEvent::CreateClient(e) => e.height(),
            IbcEvent::UpdateClient(e) => e.height(),
            IbcEvent::ClientMisbehaviour(e) => e.height(),
            IbcEvent::OpenInitConnection(e) => e.height(),
            IbcEvent::OpenTryConnection(e) => e.height(),
            IbcEvent::OpenAckConnection(e) => e.height(),
            IbcEvent::OpenConfirmConnection(e) => e.height(),
            IbcEvent::OpenInitChannel(e) => e.height(),
            IbcEvent::OpenTryChannel(e) => e.height(),
            IbcEvent::OpenAckChannel(e) => e.height(),
            IbcEvent::OpenConfirmChannel(e) => e.height(),
            IbcEvent::CloseInitChannel(e) => e.height(),
            IbcEvent::CloseConfirmChannel(e) => e.height(),
            IbcEvent::SendPacket(e) => e.height(),
            IbcEvent::ReceivePacket(e) => e.height(),
            IbcEvent::WriteAcknowledgement(e) => e.height(),
            IbcEvent::AcknowledgePacket(e) => e.height(),
            IbcEvent::TimeoutPacket(e) => e.height(),
            _ => unreached(),
        }
    }

    /// Replace the event's height with the one of the enclosing block.
    pub fn set_height(&mut self, height: Height)
        requires
            old(self)@.can_set_height(),
        ensures
            final(self)@ == old(self)@.with_height(height),
    {
        match self {
            IbcEvent::NewBlock(e) => e.set_height(height),
            IbcEvent::CreateClient(e) => e.set_height(height),
            IbcEvent::UpdateClient(e) => e.set_height(height),
            IbcEvent::UpgradeClient(e) => e.set_height(height),
            IbcEvent::ClientMisbehaviour(e) => e.set_height(height),
            IbcEvent::OpenInitConnection(e) => e.set_height(height),
            IbcEvent::OpenTryConnection(e) => e.set_height(height),
            IbcEvent::OpenAckConnection(e) => e.set_height(height),
            IbcEvent::OpenConfirmConnection(e) => e.set_height(height),
            IbcEvent::OpenInitChannel(e) => e.set_height(height),
            IbcEvent::OpenTryChannel(e) => e.set_height(height),
            IbcEvent::OpenAckChannel(e) => e.set_height(height),
            IbcEvent::OpenConfirmChannel(e) => e.set_height(height),
            IbcEvent::CloseInitChannel(e) => e.set_height(height),
            IbcEvent::CloseConfirmChannel(e) => e.set_height(height),
            IbcEvent::SendPacket(e) => e.set_height(height),
            IbcEvent::ReceivePacket(e) => e.set_height(height),
            IbcEvent::WriteAcknowledgement(e) => e.set_height(height),
            IbcEvent::AcknowledgePacket(e) => e.set_height(height),
            IbcEvent::TimeoutPacket(e) => e.set_height(height),
            _ => unreached(),
        }
    }
}

/// A batch of events, as handlers and subscriptions hand them around.
#[derive(Clone, Debug)]
pub struct VecIbcEvents(pub Vec<IbcEvent>);

/// A failure to decode a raw ledger event into a typed one.
#[derive(Debug)]
pub enum EventError {
    /// A mandatory attribute is absent.
    MissingKey(String),
    /// An attribute is present but its value does not parse.
    InvalidAttribute(String),
    /// A `packet_ack` attribute appeared on an event kind that carries none.
    UnexpectedWriteAck,
    /// The raw object does not carry the looked-for action string.
    MissingActionString,
    /// The raw object carries no action list at all.
    IncorrectEventType,
}

/// The mathematical content of an event decode failure.
pub ghost enum EventErrorView {
    MissingKey { key: Seq<char> },
    InvalidAttribute { key: Seq<char> },
    UnexpectedWriteAck,
    MissingActionString,
    IncorrectEventType,
}

impl View for EventError {
    type V = EventErrorView;

    open spec fn view(&self) -> EventErrorView {
        match self {
            EventError::MissingKey(k) => EventErrorView::MissingKey { key: k@ },
            EventError::InvalidAttribute(k) => EventErrorView::InvalidAttribute { key: k@ },
            EventError::UnexpectedWriteAck => EventErrorView::UnexpectedWriteAck,
            EventError::MissingActionString => EventErrorView::MissingActionString,
            EventError::IncorrectEventType => EventErrorView::IncorrectEventType,
        }
    }
}

/// The content of a list of keyed values.
pub open spec fn pairs_view<V: DeepView>(s: Seq<(String, V)>) -> Seq<(Seq<char>, V::V)> {
    Seq::new(s.len(), |i: int| (s[i].0@, s[i].1.deep_view()))
}

/// The first value under the key, if any.
pub open spec fn spec_lookup<V>(pairs: Seq<(Seq<char>, V)>, key: Seq<char>) -> Option<V>
    decreases pairs.len(),
{
    if pairs.len() == 0 {
        None
    } else if pairs[0].0 == key {
        Some(pairs[0].1)
    } else {
        spec_lookup(pairs.drop_first(), key)
    }
}

/// The lookup finds the value at the first position whose key matches.
pub proof fn lemma_lookup_at<V>(pairs: Seq<(Seq<char>, V)>, key: Seq<char>, k: int)
    requires
        0 <= k < pairs.len(),
        pairs[k].0 == key,
        forall|j: int| 0 <= j < k ==> (#[trigger] pairs[j]).0 != key,
    ensures
        spec_lookup(pairs, key) == Some(pairs[k].1),
    decreases k,
{
    if k == 0 {
    } else {
        lemma_lookup_at(pairs.drop_first(), key, k - 1);
        assert(pairs.drop_first()[k - 1] == pairs[k]);
        assert(forall|j: int|
            0 <= j < k - 1 ==> (#[trigger] pairs.drop_first()[j]).0 == pairs[j + 1].0);
    }
}

/// The lookup finds nothing when no key matches.
pub proof fn lemma_lookup_none<V>(pairs: Seq<(Seq<char>, V)>, key: Seq<char>)
    requires
        forall|j: int| 0 <= j < pairs.len() ==> (#[trigger] pairs[j]).0 != key,
    ensures
        spec_lookup(pairs, key) is None,
    decreases pairs.len(),
{
    if pairs.len() > 0 {
        assert(forall|j: int|
            0 <= j < pairs.len() - 1 ==> (#[trigger] pairs.drop_first()[j]).0 == pairs[j + 1].0);
        lemma_lookup_none(pairs.drop_first(), key);
    }
}

/// Find the first value stored under `key`.
pub fn lookup_value<'a, V: DeepView>(pairs: &'a Vec<(String, V)>, key: &str) -> (r: Option<&'a V>)
    ensures
        match r {
            Some(v) => spec_lookup(pairs_view(pairs@), key@) == Some(v.deep_view()),
            None => spec_lookup(pairs_view(pairs@), key@) is None,
        },
{
    let ghost all = pairs_view(pairs@);
    let mut i: usize = 0;
    while i < pairs.len()
        invariant
            0 <= i <= pairs@.len(),
            all == pairs_view(pairs@),
            all.len() == pairs@.len(),
            forall|j: int| 0 <= j < i ==> (#[trigger] all[j]).0 != key@,
        decreases pairs@.len() - i,
    {
        if crate::wire::str_eq(pairs[i].0.as_str(), key) {
            proof {
                lemma_lookup_at(all, key@, i as int);
            }
            return Some(&pairs[i].1);
        }
        i = i + 1;
    }
    proof {
        lemma_lookup_none(all, key@);
    }
    None
}


/// A mandatory identifier attribute: absent is `MissingKey`, malformed is
/// `InvalidAttribute`.
pub open spec fn spec_req_id(attrs: Seq<(Seq<char>, Seq<char>)>, key: Seq<char>) -> Result<
    Seq<char>,
    EventErrorView,
> {
    match spec_lookup(attrs, key) {
        None => Err(EventErrorView::MissingKey { key }),
        Some(v) => if valid_identifier(v) {
            Ok(v)
        } else {
            Err(EventErrorView::InvalidAttribute { key })
        },
    }
}

/// An optional identifier attribute: absent is `None`, malformed is
/// `InvalidAttribute`.
pub open spec fn spec_opt_id(attrs: Seq<(Seq<char>, Seq<char>)>, key: Seq<char>) -> Result<
    Option<Seq<char>>,
    EventErrorView,
> {
    match spec_lookup(attrs, key) {
        None => Ok(None),
        Some(v) => if valid_identifier(v) {
            Ok(Some(v))
        } else {
            Err(EventErrorView::InvalidAttribute { key })
        },
    }
}

/// A mandatory decimal attribute.
pub open spec fn spec_req_u64(attrs: Seq<(Seq<char>, Seq<char>)>, key: Seq<char>) -> Result<
    u64,
    EventErrorView,
> {
    match spec_lookup(attrs, key) {
        None => Err(EventErrorView::MissingKey { key }),
        Some(v) => match spec_parse_u64(v) {
            Some(n) => Ok(n),
            None => Err(EventErrorView::InvalidAttribute { key }),
        },
    }
}

/// A mandatory height attribute, in `revision-height` text.
pub open spec fn spec_req_height(attrs: Seq<(Seq<char>, Seq<char>)>, key: Seq<char>) -> Result<
    Height,
    EventErrorView,
> {
    match spec_lookup(attrs, key) {
        None => Err(EventErrorView::MissingKey { key }),
        Some(v) => match spec_parse_height(v) {
            Some(h) => Ok(h),
            None => Err(EventErrorView::InvalidAttribute { key }),
        },
    }
}

/// An optional byte-string attribute: the value's UTF-8 bytes.
pub open spec fn spec_opt_bytes(attrs: Seq<(Seq<char>, Seq<char>)>, key: Seq<char>) -> Option<
    Seq<u8>,
> {
    match spec_lookup(attrs, key) {
        None => None,
        Some(v) => Some(encode_utf8(v)),
    }
}

/// Read a mandatory port identifier attribute.
pub fn req_port_id(attrs: &Vec<(String, String)>, key: &str) -> (r: Result<PortId, EventError>)
    ensures
        match r {
            Ok(id) => spec_req_id(pairs_view(attrs@), key@) == Ok::<Seq<char>, EventErrorView>(id@),
            Err(e) => spec_req_id(pairs_view(attrs@), key@) == Err::<Seq<char>, EventErrorView>(
                e@,
            ),
        },
{
    match lookup_value(attrs, key) {
        Some(v) => match PortId::new(v.clone()) {
            Some(id) => Ok(id),
            None => Err(EventError::InvalidAttribute(String::from_str(key))),
        },
        None => Err(EventError::MissingKey(String::from_str(key))),
    }
}

/// Read a mandatory channel identifier attribute.
pub fn req_channel_id(attrs: &Vec<(String, String)>, key: &str) -> (r: Result<
    ChannelId,
    EventError,
>)
    ensures
        match r {
            Ok(id) => spec_req_id(pairs_view(attrs@), key@) == Ok::<Seq<char>, EventErrorView>(id@),
            Err(e) => spec_req_id(pairs_view(attrs@), key@) == Err::<Seq<char>, EventErrorView>(
                e@,
            ),
        },
{
    match lookup_value(attrs, key) {
        Some(v) => match ChannelId::new(v.clone()) {
            Some(id) => Ok(id),
            None => Err(EventError::InvalidAttribute(String::from_str(key))),
        },
        None => Err(EventError::MissingKey(String::from_str(key))),
    }
}

/// Read an optional channel identifier attribute.
pub fn opt_channel_id(attrs: &Vec<(String, String)>, key: &str) -> (r: Result<
    Option<ChannelId>,
    EventError,
>)
    ensures
        match r {
            Ok(id) => spec_opt_id(pairs_view(attrs@), key@) == Ok::<
                Option<Seq<char>>,
                EventErrorView,
            >(
                match id {
                    Some(c) => Some(c@),
                    None => None,
                },
            ),
            Err(e) => spec_opt_id(pairs_view(attrs@), key@) == Err::<
                Option<Seq<char>>,
                EventErrorView,
            >(e@),
        },
{
    match lookup_value(attrs, key) {
        Some(v) => match ChannelId::new(v.clone()) {
            Some(id) => Ok(Some(id)),
            None => Err(EventError::InvalidAttribute(String::from_str(key))),
        },
        None => Ok(None),
    }
}

/// Read a mandatory connection identifier attribute.
pub fn req_connection_id(attrs: &Vec<(String, String)>, key: &str) -> (r: Result<
    ConnectionId,
    EventError,
>)
    ensures
        match r {
            Ok(id) => spec_req_id(pairs_view(attrs@), key@) == Ok::<Seq<char>, EventErrorView>(id@),
            Err(e) => spec_req_id(pairs_view(attrs@), key@) == Err::<Seq<char>, EventErrorView>(
                e@,
            ),
        },
{
    match lookup_value(attrs, key) {
        Some(v) => match ConnectionId::new(v.clone()) {
            Some(id) => Ok(id),
            None => Err(EventError::InvalidAttribute(String::from_str(key))),
        },
        None => Err(EventError::MissingKey(String::from_str(key))),
    }
}

/// Read an optional connection identifier attribute.
pub fn opt_connection_id(attrs: &Vec<(String, String)>, key: &str) -> (r: Result<
    Option<ConnectionId>,
    EventError,
>)
    ensures
        match r {
            Ok(id) => spec_opt_id(pairs_view(attrs@), key@) == Ok::<
                Option<Seq<char>>,
                EventErrorView,
            >(
                match id {
                    Some(c) => Some(c@),
                    None => None,
                },
            ),
            Err(e) => spec_opt_id(pairs_view(attrs@), key@) == Err::<
                Option<Seq<char>>,
                EventErrorView,
            >(e@),
        },
{
    match lookup_value(attrs, key) {
        Some(v) => match ConnectionId::new(v.clone()) {
            Some(id) => Ok(Some(id)),
            None => Err(EventError::InvalidAttribute(String::from_str(key))),
        },
        None => Ok(None),
    }
}

/// Read a mandatory client identifier attribute.
pub fn req_client_id(attrs: &Vec<(String, String)>, key: &str) -> (r: Result<ClientId, EventError>)
    ensures
        match r {
            Ok(id) => spec_req_id(pairs_view(attrs@), key@) == Ok::<Seq<char>, EventErrorView>(id@),
            Err(e) => spec_req_id(pairs_view(attrs@), key@) == Err::<Seq<char>, EventErrorView>(
                e@,
            ),
        },
{
    match lookup_value(attrs, key) {
        Some(v) => match ClientId::new(v.clone()) {
            Some(id) => Ok(id),
            None => Err(EventError::InvalidAttribute(String::from_str(key))),
        },
        None => Err(EventError::MissingKey(String::from_str(key))),
    }
}

/// Read a mandatory decimal attribute.
pub fn req_u64_attr(attrs: &Vec<(String, String)>, key: &str) -> (r: Result<u64, EventError>)
    ensures
        match r {
            Ok(n) => spec_req_u64(pairs_view(attrs@), key@) == Ok::<u64, EventErrorView>(n),
            Err(e) => spec_req_u64(pairs_view(attrs@), key@) == Err::<u64, EventErrorView>(e@),
        },
{
    match lookup_value(attrs, key) {
        Some(v) => match parse_u64(v.as_str()) {
            Some(n) => Ok(n),
            None => Err(EventError::InvalidAttribute(String::from_str(key))),
        },
        None => Err(EventError::MissingKey(String::from_str(key))),
    }
}

/// Read a mandatory height attribute.
pub fn req_height_attr(attrs: &Vec<(String, String)>, key: &str) -> (r: Result<Height, EventError>)
    ensures
        match r {
            Ok(h) => spec_req_height(pairs_view(attrs@), key@) == Ok::<Height, EventErrorView>(h),
            Err(e) => spec_req_height(pairs_view(attrs@), key@) == Err::<Height, EventErrorView>(
                e@,
            ),
        },
{
    match lookup_value(attrs, key) {
        Some(v) => match parse_height(v.as_str()) {
            Some(h) => Ok(h),
            None => Err(EventError::InvalidAttribute(String::from_str(key))),
        },
        None => Err(EventError::MissingKey(String::from_str(key))),
    }
}

/// Read an optional byte-string attribute, as the value's UTF-8 bytes.
pub fn opt_bytes_attr(attrs: &Vec<(String, String)>, key: &str) -> (r: Option<Vec<u8>>)
    ensures
        match r {
            Some(b) => spec_opt_bytes(pairs_view(attrs@), key@) == Some(b@),
            None => spec_opt_bytes(pairs_view(attrs@), key@) is None,
        },
{
    match lookup_value(attrs, key) {
        Some(v) => Some(v.as_str().as_bytes_vec()),
        None => None,
    }
}

/// The raw form of one event as a chain emits it: a type string and a list
/// of key/value attributes.
#[derive(Clone, Debug)]
pub struct RawEvent {
    pub event_type: String,
    pub attributes: Vec<(String, String)>,
}

/// The mathematical content of a raw event.
pub ghost struct RawEventView {
    pub event_type: Seq<char>,
    pub attributes: Seq<(Seq<char>, Seq<char>)>,
}

impl View for RawEvent {
    type V = RawEventView;

    open spec fn view(&self) -> RawEventView {
        RawEventView { event_type: self.event_type@, attributes: pairs_view(self.attributes@) }
    }
}

/// The mathematical content of a raw transaction-result object.
pub ghost struct RawObjectView {
    pub height: Height,
    pub action: Seq<char>,
    pub idx: int,
    pub events: Seq<(Seq<char>, Seq<Seq<char>>)>,
}

/// A raw transaction-result object: the block height, the module action, the
/// index of the transaction within the block, and the event attributes as a
/// map from dotted keys to one value per transaction.
#[derive(Debug)]
pub struct RawObject {
    pub height: Height,
    pub action: String,
    pub idx: usize,
    pub events: Vec<(String, Vec<String>)>,
}

impl View for RawObject {
    type V = RawObjectView;

    open spec fn view(&self) -> RawObjectView {
        RawObjectView {
            height: self.height,
            action: self.action@,
            idx: self.idx as int,
            events: pairs_view(self.events@),
        }
    }
}

impl RawObject {
    pub fn new(height: Height, action: String, idx: usize, events: Vec<(String, Vec<String>)>)
        -> (r: RawObject)
        ensures
            r@ == (RawObjectView {
                height,
                action: action@,
                idx: idx as int,
                events: pairs_view(events@),
            }),
    {
        RawObject { height, action, idx, events }
    }
}


/// The value of a raw-object attribute: the entry stored under the full
/// dotted key, taken at the object's transaction index.
pub open spec fn spec_obj_attr(o: RawObjectView, full_key: Seq<char>) -> Option<Seq<char>> {
    match spec_lookup(o.events, full_key) {
        None => None,
        Some(vals) => if 0 <= o.idx < vals.len() {
            Some(vals[o.idx])
        } else {
            None
        },
    }
}

/// The value of a raw-object attribute under the object's own action prefix.
pub open spec fn spec_obj_action_attr(o: RawObjectView, key: Seq<char>) -> Option<Seq<char>> {
    spec_obj_attr(o, o.action + "."@ + key)
}

/// Look a raw-object attribute up under the full dotted key.
pub fn obj_attr<'a>(obj: &'a RawObject, full_key: &str) -> (r: Option<&'a String>)
    ensures
        match r {
            Some(v) => spec_obj_attr(obj@, full_key@) == Some(v@),
            None => spec_obj_attr(obj@, full_key@) is None,
        },
{
    match lookup_value(&obj.events, full_key) {
        Some(vals) => if obj.idx < vals.len() {
            Some(&vals[obj.idx])
        } else {
            None
        },
        None => None,
    }
}

/// Look a raw-object attribute up under the object's action prefix.
pub fn obj_action_attr<'a>(obj: &'a RawObject, key: &str) -> (r: Option<&'a String>)
    ensures
        match r {
            Some(v) => spec_obj_action_attr(obj@, key@) == Some(v@),
            None => spec_obj_action_attr(obj@, key@) is None,
        },
{
    let mut full = obj.action.clone();
    full.append(".");
    full.append(key);
    proof {
        assert(full@ =~= obj@.action + "."@ + key@);
    }
    match lookup_value(&obj.events, full.as_str()) {
        Some(vals) => if obj.idx < vals.len() {
            Some(&vals[obj.idx])
        } else {
            None
        },
        None => None,
    }
}


/// A mandatory raw-object identifier attribute.
pub open spec fn spec_obj_req_id(o: RawObjectView, full_key: Seq<char>) -> Result<
    Seq<char>,
    EventErrorView,
> {
    match spec_obj_attr(o, full_key) {
        None => Err(EventErrorView::MissingKey { key: full_key }),
        Some(v) => if valid_identifier(v) {
            Ok(v)
        } else {
            Err(EventErrorView::InvalidAttribute { key: full_key })
        },
    }
}

/// An optional raw-object identifier attribute: the key must be present,
/// and a malformed value reads as absent.
pub open spec fn spec_obj_opt_id(o: RawObjectView, full_key: Seq<char>) -> Result<
    Option<Seq<char>>,
    EventErrorView,
> {
    match spec_obj_attr(o, full_key) {
        None => Err(EventErrorView::MissingKey { key: full_key }),
        Some(v) => Ok(
            if valid_identifier(v) {
                Some(v)
            } else {
                None
            },
        ),
    }
}

/// A mandatory raw-object decimal attribute, under the action prefix.
pub open spec fn spec_obj_req_u64(o: RawObjectView, key: Seq<char>) -> Result<
    u64,
    EventErrorView,
> {
    match spec_obj_action_attr(o, key) {
        None => Err(EventErrorView::MissingKey { key }),
        Some(v) => match spec_parse_u64(v) {
            Some(n) => Ok(n),
            None => Err(EventErrorView::InvalidAttribute { key }),
        },
    }
}

/// A mandatory raw-object height attribute, under the action prefix.
pub open spec fn spec_obj_req_height(o: RawObjectView, key: Seq<char>) -> Result<
    Height,
    EventErrorView,
> {
    match spec_obj_action_attr(o, key) {
        None => Err(EventErrorView::MissingKey { key }),
        Some(v) => match spec_parse_height(v) {
            Some(h) => Ok(h),
            None => Err(EventErrorView::InvalidAttribute { key }),
        },
    }
}

/// A mandatory raw-object identifier attribute, under the action prefix.
pub open spec fn spec_obj_act_req_id(o: RawObjectView, key: Seq<char>) -> Result<
    Seq<char>,
    EventErrorView,
> {
    match spec_obj_action_attr(o, key) {
        None => Err(EventErrorView::MissingKey { key }),
        Some(v) => if valid_identifier(v) {
            Ok(v)
        } else {
            Err(EventErrorView::InvalidAttribute { key })
        },
    }
}

/// A mandatory raw-object byte-string attribute, under the action prefix.
pub open spec fn spec_obj_req_bytes(o: RawObjectView, key: Seq<char>) -> Result<
    Seq<u8>,
    EventErrorView,
> {
    match spec_obj_action_attr(o, key) {
        None => Err(EventErrorView::MissingKey { key }),
        Some(v) => Ok(encode_utf8(v)),
    }
}

/// Read a mandatory port identifier from a raw object.
pub fn obj_req_port(obj: &RawObject, full_key: &str) -> (r: Result<PortId, EventError>)
    ensures
        match r {
            Ok(id) => spec_obj_req_id(obj@, full_key@) == Ok::<Seq<char>, EventErrorView>(id@),
            Err(e) => spec_obj_req_id(obj@, full_key@) == Err::<Seq<char>, EventErrorView>(e@),
        },
{
    match obj_attr(obj, full_key) {
        Some(v) => match PortId::new(v.clone()) {
            Some(id) => Ok(id),
            None => Err(EventError::InvalidAttribute(String::from_str(full_key))),
        },
        None => Err(EventError::MissingKey(String::from_str(full_key))),
    }
}

/// Read an optional channel identifier from a raw object.
pub fn obj_opt_channel(obj: &RawObject, full_key: &str) -> (r: Result<Option<ChannelId>, EventError>)
    ensures
        match r {
            Ok(id) => spec_obj_opt_id(obj@, full_key@) == Ok::<Option<Seq<char>>, EventErrorView>(
                match id {
                    Some(c) => Some(c@),
                    None => None,
                },
            ),
            Err(e) => spec_obj_opt_id(obj@, full_key@) == Err::<Option<Seq<char>>, EventErrorView>(
                e@,
            ),
        },
{
    match obj_attr(obj, full_key) {
        Some(v) => Ok(ChannelId::new(v.clone())),
        None => Err(EventError::MissingKey(String::from_str(full_key))),
    }
}

/// Read a mandatory connection identifier from a raw object.
pub fn obj_req_connection(obj: &RawObject, full_key: &str) -> (r: Result<ConnectionId, EventError>)
    ensures
        match r {
            Ok(id) => spec_obj_req_id(obj@, full_key@) == Ok::<Seq<char>, EventErrorView>(id@),
            Err(e) => spec_obj_req_id(obj@, full_key@) == Err::<Seq<char>, EventErrorView>(e@),
        },
{
    match obj_attr(obj, full_key) {
        Some(v) => match ConnectionId::new(v.clone()) {
            Some(id) => Ok(id),
            None => Err(EventError::InvalidAttribute(String::from_str(full_key))),
        },
        None => Err(EventError::MissingKey(String::from_str(full_key))),
    }
}

/// Read a mandatory port identifier from a raw object, under the action
/// prefix.
pub fn obj_act_req_port(obj: &RawObject, key: &str) -> (r: Result<PortId, EventError>)
    ensures
        match r {
            Ok(id) => spec_obj_act_req_id(obj@, key@) == Ok::<Seq<char>, EventErrorView>(id@),
            Err(e) => spec_obj_act_req_id(obj@, key@) == Err::<Seq<char>, EventErrorView>(e@),
        },
{
    match obj_action_attr(obj, key) {
        Some(v) => match PortId::new(v.clone()) {
            Some(id) => Ok(id),
            None => Err(EventError::InvalidAttribute(String::from_str(key))),
        },
        None => Err(EventError::MissingKey(String::from_str(key))),
    }
}

/// Read a mandatory channel identifier from a raw object, under the action
/// prefix.
pub fn obj_act_req_channel(obj: &RawObject, key: &str) -> (r: Result<ChannelId, EventError>)
    ensures
        match r {
            Ok(id) => spec_obj_act_req_id(obj@, key@) == Ok::<Seq<char>, EventErrorView>(id@),
            Err(e) => spec_obj_act_req_id(obj@, key@) == Err::<Seq<char>, EventErrorView>(e@),
        },
{
    match obj_action_attr(obj, key) {
        Some(v) => match ChannelId::new(v.clone()) {
            Some(id) => Ok(id),
            None => Err(EventError::InvalidAttribute(String::from_str(key))),
        },
        None => Err(EventError::MissingKey(String::from_str(key))),
    }
}

/// Read a mandatory decimal attribute from a raw object, under the action
/// prefix.
pub fn obj_req_u64(obj: &RawObject, key: &str) -> (r: Result<u64, EventError>)
    ensures
        match r {
            Ok(n) => spec_obj_req_u64(obj@, key@) == Ok::<u64, EventErrorView>(n),
            Err(e) => spec_obj_req_u64(obj@, key@) == Err::<u64, EventErrorView>(e@),
        },
{
    match obj_action_attr(obj, key) {
        Some(v) => match parse_u64(v.as_str()) {
            Some(n) => Ok(n),
            None => Err(EventError::InvalidAttribute(String::from_str(key))),
        },
        None => Err(EventError::MissingKey(String::from_str(key))),
    }
}

/// Read a mandatory height attribute from a raw object, under the action
/// prefix.
pub fn obj_req_height(obj: &RawObject, key: &str) -> (r: Result<Height, EventError>)
    ensures
        match r {
            Ok(h) => spec_obj_req_height(obj@, key@) == Ok::<Height, EventErrorView>(h),
            Err(e) => spec_obj_req_height(obj@, key@) == Err::<Height, EventErrorView>(e@),
        },
{
    match obj_action_attr(obj, key) {
        Some(v) => match parse_height(v.as_str()) {
            Some(h) => Ok(h),
            None => Err(EventError::InvalidAttribute(String::from_str(key))),
        },
        None => Err(EventError::MissingKey(String::from_str(key))),
    }
}

/// Read a mandatory byte-string attribute from a raw object, under the
/// action prefix.
pub fn obj_req_bytes(obj: &RawObject, key: &str) -> (r: Result<Vec<u8>, EventError>)
    ensures
        match r {
            Ok(b) => spec_obj_req_bytes(obj@, key@) == Ok::<Seq<u8>, EventErrorView>(b@),
            Err(e) => spec_obj_req_bytes(obj@, key@) == Err::<Seq<u8>, EventErrorView>(e@),
        },
{
    match obj_action_attr(obj, key) {
        Some(v) => Ok(v.as_str().as_bytes_vec()),
        None => Err(EventError::MissingKey(String::from_str(key))),
    }
}

/// Does the raw object's `message.action` list contain the action string?
/// `MissingActionString` when the list is there without the string;
/// `IncorrectEventType` when there is no such list.
pub open spec fn spec_extract_events(
    events: Seq<(Seq<char>, Seq<Seq<char>>)>,
    action: Seq<char>,
) -> Result<(), EventErrorView> {
    match spec_lookup(events, "message.action"@) {
        Some(actions) => if exists|i: int| 0 <= i < actions.len() && actions[i] == action {
            Ok(())
        } else {
            Err(EventErrorView::MissingActionString)
        },
        None => Err(EventErrorView::IncorrectEventType),
    }
}

/// Check that the raw object's `message.action` list names the action.
pub fn extract_events(events: &Vec<(String, Vec<String>)>, action_string: &str) -> (r: Result<
    (),
    EventError,
>)
    ensures
        match r {
            Ok(()) => spec_extract_events(pairs_view(events@), action_string@) == Ok::<
                (),
                EventErrorView,
            >(()),
            Err(e) => spec_extract_events(pairs_view(events@), action_string@) == Err::<
                (),
                EventErrorView,
            >(e@),
        },
{
    match lookup_value(events, "message.action") {
        Some(actions) => {
            let ghost actions_view = actions.deep_view();
            let mut i: usize = 0;
            while i < actions.len()
                invariant
                    0 <= i <= actions@.len(),
                    actions_view == actions.deep_view(),
                    actions_view.len() == actions@.len(),
                    spec_lookup(pairs_view(events@), "message.action"@) == Some(actions_view),
                    forall|j: int| 0 <= j < i ==> (#[trigger] actions_view[j]) != action_string@,
                decreases actions@.len() - i,
            {
                if crate::wire::str_eq(actions[i].as_str(), action_string) {
                    proof {
                        assert(actions_view[i as int] == action_string@);
                        assert(exists|j: int|
                            0 <= j < actions_view.len() && actions_view[j] == action_string@);
                    }
                    return Ok(());
                }
                i = i + 1;
            }
            Err(EventError::MissingActionString)
        },
        None => Err(EventError::IncorrectEventType),
    }
}


/// The raw form an event is encoded to. Only meaningful for kinds with a
/// wire form.
pub open spec fn spec_event_wire(e: IbcEventView) -> RawEventView {
    match e {
        IbcEventView::CreateClient(a) => RawEventView {
            event_type: "create_client"@,
            attributes: crate::ics02_client::events::client_attrs_wire(a),
        },
        IbcEventView::UpdateClient(a) => RawEventView {
            event_type: "update_client"@,
            attributes: crate::ics02_client::events::client_attrs_wire(a),
        },
        IbcEventView::UpgradeClient(a) => RawEventView {
            event_type: "upgrade_client"@,
            attributes: crate::ics02_client::events::client_attrs_wire(a),
        },
        IbcEventView::ClientMisbehaviour(a) => RawEventView {
            event_type: "client_misbehaviour"@,
            attributes: crate::ics02_client::events::client_attrs_wire(a),
        },
        IbcEventView::OpenInitConnection(a) => RawEventView {
            event_type: "connection_open_init"@,
            attributes: crate::ics03_connection::events::conn_attrs_wire(a),
        },
        IbcEventView::OpenTryConnection(a) => RawEventView {
            event_type: "connection_open_try"@,
            attributes: crate::ics03_connection::events::conn_attrs_wire(a),
        },
        IbcEventView::OpenAckConnection(a) => RawEventView {
            event_type: "connection_open_ack"@,
            attributes: crate::ics03_connection::events::conn_attrs_wire(a),
        },
        IbcEventView::OpenConfirmConnection(a) => RawEventView {
            event_type: "connection_open_confirm"@,
            attributes: crate::ics03_connection::events::conn_attrs_wire(a),
        },
        IbcEventView::OpenInitChannel(a) => RawEventView {
            event_type: "channel_open_init"@,
            attributes: crate::ics04_channel::events::channel_attrs_wire(a),
        },
        IbcEventView::OpenTryChannel(a) => RawEventView {
            event_type: "channel_open_try"@,
            attributes: crate::ics04_channel::events::channel_attrs_wire(a),
        },
        IbcEventView::OpenAckChannel(a) => RawEventView {
            event_type: "channel_open_ack"@,
            attributes: crate::ics04_channel::events::channel_attrs_wire(a),
        },
        IbcEventView::OpenConfirmChannel(a) => RawEventView {
            event_type: "channel_open_confirm"@,
            attributes: crate::ics04_channel::events::channel_attrs_wire(a),
        },
        IbcEventView::CloseInitChannel(a) => RawEventView {
            event_type: "channel_close_init"@,
            attributes: crate::ics04_channel::events::channel_attrs_wire(a),
        },
        IbcEventView::CloseConfirmChannel(a) => RawEventView {
            event_type: "channel_close_confirm"@,
            attributes: crate::ics04_channel::events::channel_attrs_wire(a),
        },
        IbcEventView::SendPacket(p) => RawEventView {
            event_type: "send_packet"@,
            attributes: crate::ics04_channel::events::packet_attrs_wire(p.packet, None),
        },
        IbcEventView::WriteAcknowledgement(w) => RawEventView {
            event_type: "write_acknowledgement"@,
            attributes: crate::ics04_channel::events::packet_attrs_wire(w.packet, Some(w.ack)),
        },
        IbcEventView::AcknowledgePacket(p) => RawEventView {
            event_type: "acknowledge_packet"@,
            attributes: crate::ics04_channel::events::packet_attrs_wire(p.packet, None),
        },
        IbcEventView::TimeoutPacket(p) => RawEventView {
            event_type: "timeout_packet"@,
            attributes: crate::ics04_channel::events::packet_attrs_wire(p.packet, None),
        },
        _ => RawEventView { event_type: Seq::empty(), attributes: Seq::empty() },
    }
}

/// Decode a raw event against the whole taxonomy: client events first, then
/// connection events, then channel and packet events. An unrecognised type
/// yields `None`.
pub open spec fn spec_event_from_raw(ev: RawEventView, height: Height) -> Result<
    Option<IbcEventView>,
    EventErrorView,
> {
    match crate::ics02_client::events::spec_client_event_from_raw(ev, height) {
        Err(e) => Err(e),
        Ok(Some(v)) => Ok(Some(v)),
        Ok(None) => match crate::ics03_connection::events::spec_conn_event_from_raw(ev, height) {
            Err(e) => Err(e),
            Ok(Some(v)) => Ok(Some(v)),
            Ok(None) => crate::ics04_channel::events::spec_channel_event_from_raw(ev, height),
        },
    }
}

/// Decode a raw ledger event into a typed IBC event, assigning the height
/// carried by the enclosing block. The first recognising decoder wins.
pub fn from_tx_response_event(height: Height, event: &RawEvent) -> (r: Result<
    Option<IbcEvent>,
    EventError,
>)
    ensures
        match r {
            Ok(Some(e)) => spec_event_from_raw(event@, height) == Ok::<
                Option<IbcEventView>,
                EventErrorView,
            >(Some(e@)),
            Ok(None) => spec_event_from_raw(event@, height) == Ok::<
                Option<IbcEventView>,
                EventErrorView,
            >(None),
            Err(e) => spec_event_from_raw(event@, height) == Err::<
                Option<IbcEventView>,
                EventErrorView,
            >(e@),
        },
{
    match crate::ics02_client::events::try_from_tx(event, height) {
        Err(e) => Err(e),
        Ok(Some(ev)) => Ok(Some(ev)),
        Ok(None) => match crate::ics03_connection::events::try_from_tx(event, height) {
            Err(e) => Err(e),
            Ok(Some(ev)) => Ok(Some(ev)),
            Ok(None) => crate::ics04_channel::events::try_from_tx(event, height),
        },
    }
}

impl IbcEvent {
    /// Encode this event to its raw wire form: `None` for kinds without one,
    /// or when a packet payload is not UTF-8 text.
    pub fn to_raw(&self) -> (r: Option<RawEvent>)
        ensures
            match r {
                Some(raw) => self@.has_wire_form() && raw@ == spec_event_wire(self@),
                None => !self@.has_wire_form(),
            },
    {
        match self {
            IbcEvent::CreateClient(e) => Some(
                RawEvent {
                    event_type: String::from_str("create_client"),
                    attributes: crate::ics02_client::events::client_attrs_to_raw(&e.0),
                },
            ),
            IbcEvent::UpdateClient(e) => Some(
                RawEvent {
                    event_type: String::from_str("update_client"),
                    attributes: crate::ics02_client::events::client_attrs_to_raw(&e.0),
                },
            ),
            IbcEvent::UpgradeClient(e) => Some(
                RawEvent {
                    event_type: String::from_str("upgrade_client"),
                    attributes: crate::ics02_client::events::client_attrs_to_raw(&e.0),
                },
            ),
            IbcEvent::ClientMisbehaviour(e) => Some(
                RawEvent {
                    event_type: String::from_str("client_misbehaviour"),
                    attributes: crate::ics02_client::events::client_attrs_to_raw(&e.0),
                },
            ),
            IbcEvent::OpenInitConnection(e) => Some(
                RawEvent {
                    event_type: String::from_str("connection_open_init"),
                    attributes: crate::ics03_connection::events::conn_attrs_to_raw(&e.0),
                },
            ),
            IbcEvent::OpenTryConnection(e) => Some(
                RawEvent {
                    event_type: String::from_str("connection_open_try"),
                    attributes: crate::ics03_connection::events::conn_attrs_to_raw(&e.0),
                },
            ),
            IbcEvent::OpenAckConnection(e) => Some(
                RawEvent {
                    event_type: String::from_str("connection_open_ack"),
                    attributes: crate::ics03_connection::events::conn_attrs_to_raw(&e.0),
                },
            ),
            IbcEvent::OpenConfirmConnection(e) => Some(
                RawEvent {
                    event_type: String::from_str("connection_open_confirm"),
                    attributes: crate::ics03_connection::events::conn_attrs_to_raw(&e.0),
                },
            ),
            IbcEvent::OpenInitChannel(e) => Some(
                RawEvent {
                    event_type: String::from_str("channel_open_init"),
                    attributes: crate::ics04_channel::events::channel_attrs_to_raw(&e.0),
                },
            ),
            IbcEvent::OpenTryChannel(e) => Some(
                RawEvent {
                    event_type: String::from_str("channel_open_try"),
                    attributes: crate::ics04_channel::events::channel_attrs_to_raw(&e.0),
                },
            ),
            IbcEvent::OpenAckChannel(e) => Some(
                RawEvent {
                    event_type: String::from_str("channel_open_ack"),
                    attributes: crate::ics04_channel::events::channel_attrs_to_raw(&e.0),
                },
            ),
            IbcEvent::OpenConfirmChannel(e) => Some(
                RawEvent {
                    event_type: String::from_str("channel_open_confirm"),
                    attributes: crate::ics04_channel::events::channel_attrs_to_raw(&e.0),
                },
            ),
            IbcEvent::CloseInitChannel(e) => Some(
                RawEvent {
                    event_type: String::from_str("channel_close_init"),
                    attributes: crate::ics04_channel::events::channel_attrs_to_raw(&e.0),
                },
            ),
            IbcEvent::CloseConfirmChannel(e) => Some(
                RawEvent {
                    event_type: String::from_str("channel_close_confirm"),
                    attributes: crate::ics04_channel::events::channel_attrs_to_raw(&e.0),
                },
            ),
            IbcEvent::SendPacket(e) => match crate::ics04_channel::events::packet_attrs_to_raw(
                &e.packet,
                None,
            ) {
                Some(attributes) => Some(
                    RawEvent { event_type: String::from_str("send_packet"), attributes },
                ),
                None => None,
            },
            IbcEvent::WriteAcknowledgement(e) => {
                match crate::ics04_channel::events::packet_attrs_to_raw(&e.packet, Some(&e.ack)) {
                    Some(attributes) => Some(
                        RawEvent {
                            event_type: String::from_str("write_acknowledgement"),
                            attributes,
                        },
                    ),
                    None => None,
                }
            },
            IbcEvent::AcknowledgePacket(e) => {
                match crate::ics04_channel::events::packet_attrs_to_raw(&e.packet, None) {
                    Some(attributes) => Some(
                        RawEvent { event_type: String::from_str("acknowledge_packet"), attributes },
                    ),
                    None => None,
                }
            },
            IbcEvent::TimeoutPacket(e) => {
                match crate::ics04_channel::events::packet_attrs_to_raw(&e.packet, None) {
                    Some(attributes) => Some(
                        RawEvent { event_type: String::from_str("timeout_packet"), attributes },
                    ),
                    None => None,
                }
            },
            _ => None,
        }
    }
}

/// Event round-trip: for every well-formed typed IBC event with a wire
/// form, encoding to raw attributes and decoding back at the event's own
/// height yields the event again.
pub proof fn lemma_event_round_trip(e: IbcEventView)
    requires
        e.wf(),
        e.has_wire_form(),
    ensures
        spec_event_from_raw(spec_event_wire(e), e.spec_height()) == Ok::<
            Option<IbcEventView>,
            EventErrorView,
        >(Some(e)),
{
    reveal_strlit("create_client");
    reveal_strlit("update_client");
    reveal_strlit("upgrade_client");
    reveal_strlit("client_misbehaviour");
    reveal_strlit("connection_open_init");
    reveal_strlit("connection_open_try");
    reveal_strlit("connection_open_ack");
    reveal_strlit("connection_open_confirm");
    reveal_strlit("channel_open_init");
    reveal_strlit("channel_open_try");
    reveal_strlit("channel_open_ack");
    reveal_strlit("channel_open_confirm");
    reveal_strlit("channel_close_init");
    reveal_strlit("channel_close_confirm");
    reveal_strlit("send_packet");
    reveal_strlit("write_acknowledgement");
    reveal_strlit("acknowledge_packet");
    reveal_strlit("timeout_packet");
    assert("create_client"@.len() == 13);
    assert("update_client"@.len() == 13);
    assert("upgrade_client"@.len() == 14);
    assert("client_misbehaviour"@.len() == 19);
    assert("connection_open_init"@.len() == 20);
    assert("connection_open_try"@.len() == 19);
    assert("connection_open_ack"@.len() == 19);
    assert("connection_open_confirm"@.len() == 23);
    assert("channel_open_init"@.len() == 17);
    assert("channel_open_try"@.len() == 16);
    assert("channel_open_ack"@.len() == 16);
    assert("channel_open_confirm"@.len() == 20);
    assert("channel_close_init"@.len() == 18);
    assert("channel_close_confirm"@.len() == 21);
    assert("send_packet"@.len() == 11);
    assert("write_acknowledgement"@.len() == 21);
    assert("acknowledge_packet"@.len() == 18);
    assert("timeout_packet"@.len() == 14);
    assert("update_client"@ != "create_client"@) by {
        assert("update_client"@[0] != "create_client"@[0]);
    }
    assert("connection_open_try"@ != "client_misbehaviour"@) by {
        assert("connection_open_try"@[1] != "client_misbehaviour"@[1]);
    }
    assert("connection_open_ack"@ != "client_misbehaviour"@) by {
        assert("connection_open_ack"@[1] != "client_misbehaviour"@[1]);
    }
    assert("connection_open_ack"@ != "connection_open_try"@) by {
        assert("connection_open_ack"@[16] != "connection_open_try"@[16]);
    }
    assert("channel_open_confirm"@ != "connection_open_init"@) by {
        assert("channel_open_confirm"@[1] != "connection_open_init"@[1]);
    }
    assert("channel_open_ack"@ != "channel_open_try"@) by {
        assert("channel_open_ack"@[13] != "channel_open_try"@[13]);
    }
    assert("timeout_packet"@ != "upgrade_client"@) by {
        assert("timeout_packet"@[0] != "upgrade_client"@[0]);
    }
    assert("acknowledge_packet"@ != "channel_close_init"@) by {
        assert("acknowledge_packet"@[0] != "channel_close_init"@[0]);
    }
    assert("write_acknowledgement"@ != "channel_close_confirm"@) by {
        assert("write_acknowledgement"@[0] != "channel_close_confirm"@[0]);
    }
    match e {
        IbcEventView::CreateClient(a) => {
            crate::ics02_client::events::lemma_client_attrs_round_trip(a);
        },
        IbcEventView::UpdateClient(a) => {
            crate::ics02_client::events::lemma_client_attrs_round_trip(a);
        },
        IbcEventView::UpgradeClient(a) => {
            crate::ics02_client::events::lemma_client_attrs_round_trip(a);
        },
        IbcEventView::ClientMisbehaviour(a) => {
            crate::ics02_client::events::lemma_client_attrs_round_trip(a);
        },
        IbcEventView::OpenInitConnection(a) => {
            crate::ics03_connection::events::lemma_conn_attrs_round_trip(a);
        },
        IbcEventView::OpenTryConnection(a) => {
            crate::ics03_connection::events::lemma_conn_attrs_round_trip(a);
        },
        IbcEventView::OpenAckConnection(a) => {
            crate::ics03_connection::events::lemma_conn_attrs_round_trip(a);
        },
        IbcEventView::OpenConfirmConnection(a) => {
            crate::ics03_connection::events::lemma_conn_attrs_round_trip(a);
        },
        IbcEventView::OpenInitChannel(a) => {
            crate::ics04_channel::events::lemma_channel_attrs_round_trip(a);
        },
        IbcEventView::OpenTryChannel(a) => {
            crate::ics04_channel::events::lemma_channel_attrs_round_trip(a);
        },
        IbcEventView::OpenAckChannel(a) => {
            crate::ics04_channel::events::lemma_channel_attrs_round_trip(a);
        },
        IbcEventView::OpenConfirmChannel(a) => {
            crate::ics04_channel::events::lemma_channel_attrs_round_trip(a);
        },
        IbcEventView::CloseInitChannel(a) => {
            crate::ics04_channel::events::lemma_channel_attrs_round_trip(a);
        },
        IbcEventView::CloseConfirmChannel(a) => {
            crate::ics04_channel::events::lemma_channel_attrs_round_trip(a);
        },
        IbcEventView::SendPacket(p) => {
            crate::ics04_channel::events::lemma_packet_attrs_round_trip(p.packet, None);
        },
        IbcEventView::WriteAcknowledgement(w) => {
            crate::ics04_channel::events::lemma_packet_attrs_round_trip(w.packet, Some(w.ack));
        },
        IbcEventView::AcknowledgePacket(p) => {
            crate::ics04_channel::events::lemma_packet_attrs_round_trip(p.packet, None);
        },
        IbcEventView::TimeoutPacket(p) => {
            crate::ics04_channel::events::lemma_packet_attrs_round_trip(p.packet, None);
        },
        _ => {
        },
    }
}

} // verus!
