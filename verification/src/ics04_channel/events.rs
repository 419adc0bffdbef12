//! Channel and packet events, and their raw wire form.
//!
//! Raw ledger events arrive as a type string with a list of key/value
//! attributes. The decoder in this module recognises the channel handshake
//! and packet event types; the encoder produces the same canonical keys, and
//! decoding an encoded event yields the event back.

use vstd::prelude::*;
use vstd::utf8::{decode_utf8, valid_utf8};
use crate::decimal::{dec_str, lemma_dec_round_trip, u64_to_dec};
use crate::events::{lemma_lookup_at, lemma_lookup_none, obj_act_req_channel, obj_act_req_port,
    obj_opt_channel, obj_req_bytes, obj_req_connection, obj_req_height, obj_req_port, obj_req_u64,
    opt_bytes_attr, opt_channel_id, pairs_view, req_channel_id, req_connection_id,
    req_height_attr, req_port_id, req_u64_attr, spec_lookup, spec_obj_act_req_id,
    spec_obj_opt_id, spec_obj_req_bytes, spec_obj_req_height, spec_obj_req_id, spec_obj_req_u64,
    spec_opt_bytes, spec_opt_id, spec_req_height, spec_req_id, spec_req_u64, EventError,
    EventErrorView, IbcEvent, IbcEventView, RawEvent, RawEventView, RawObject, RawObjectView};
use crate::height::{height_str, height_string, lemma_height_str_round_trip, Height};
use crate::ident::{valid_identifier, ChannelId, ConnectionId, PortId};
use crate::packet::{Packet, PacketView, Sequence};
use crate::wire::{str_eq, string_from_utf8};

verus! {

/// The mathematical content of a channel handshake event's attributes.
pub ghost struct AttributesView {
    pub height: Height,
    pub port_id: Seq<char>,
    pub channel_id: Option<Seq<char>>,
    pub connection_id: Seq<char>,
    pub counterparty_port_id: Seq<char>,
    pub counterparty_channel_id: Option<Seq<char>>,
}

/// The attributes every channel handshake event carries. The channel
/// identifiers are optional: each side learns the other's only as the
/// handshake advances.
#[derive(Debug)]
pub struct Attributes {
    pub height: Height,
    pub port_id: PortId,
    pub channel_id: Option<ChannelId>,
    pub connection_id: ConnectionId,
    pub counterparty_port_id: PortId,
    pub counterparty_channel_id: Option<ChannelId>,
}

impl View for Attributes {
    type V = AttributesView;

    open spec fn view(&self) -> AttributesView {
        AttributesView {
            height: self.height,
            port_id: self.port_id@,
            channel_id: match self.channel_id {
                Some(ref c) => Some(c@),
                None => None,
            },
            connection_id: self.connection_id@,
            counterparty_port_id: self.counterparty_port_id@,
            counterparty_channel_id: match self.counterparty_channel_id {
                Some(ref c) => Some(c@),
                None => None,
            },
        }
    }
}

impl Clone for Attributes {
    fn clone(&self) -> (r: Self)
        ensures
            r@ == self@,
    {
        Attributes {
            height: self.height,
            port_id: self.port_id.clone(),
            channel_id: match &self.channel_id {
                Some(c) => Some(c.clone()),
                None => None,
            },
            connection_id: self.connection_id.clone(),
            counterparty_port_id: self.counterparty_port_id.clone(),
            counterparty_channel_id: match &self.counterparty_channel_id {
                Some(c) => Some(c.clone()),
                None => None,
            },
        }
    }
}

impl Default for Attributes {
    /// Placeholder attributes: zero height, default identifiers, no channel
    /// identifiers.
    fn default() -> (r: Attributes)
        ensures
            r@ == (AttributesView {
                height: Height { revision_number: 0u64, revision_height: 0u64 },
                port_id: "defaultPort"@,
                channel_id: None,
                connection_id: "defaultConnection"@,
                counterparty_port_id: "defaultPort"@,
                counterparty_channel_id: None,
            }),
    {
        Attributes {
            height: Height::default(),
            port_id: PortId::default(),
            channel_id: None,
            connection_id: ConnectionId::default(),
            counterparty_port_id: PortId::default(),
            counterparty_channel_id: None,
        }
    }
}

/// A channel handshake was started on this chain.
#[derive(Clone, Debug)]
pub struct OpenInit(pub Attributes);

impl View for OpenInit {
    type V = AttributesView;

    open spec fn view(&self) -> AttributesView {
        self.0@
    }
}

impl OpenInit {
    pub fn channel_id(&self) -> (r: &Option<ChannelId>)
        ensures
            self@.channel_id == match r {
                Some(c) => Some(c@),
                None => None::<Seq<char>>,
            },
    {
        &self.0.channel_id
    }

    pub fn height(&self) -> (r: Height)
        ensures
            r == self@.height,
    {
        self.0.height
    }

    pub fn set_height(&mut self, height: Height)
        ensures
            final(self)@ == (AttributesView { height, ..old(self)@ }),
    {
        self.0.height = height;
    }
}

/// The counterparty answered a channel handshake.
#[derive(Clone, Debug)]
pub struct OpenTry(pub Attributes);

impl View for OpenTry {
    type V = AttributesView;

    open spec fn view(&self) -> AttributesView {
        self.0@
    }
}

impl OpenTry {
    pub fn channel_id(&self) -> (r: &Option<ChannelId>)
        ensures
            self@.channel_id == match r {
                Some(c) => Some(c@),
                None => None::<Seq<char>>,
            },
    {
        &self.0.channel_id
    }

    pub fn height(&self) -> (r: Height)
        ensures
            r == self@.height,
    {
        self.0.height
    }

    pub fn set_height(&mut self, height: Height)
        ensures
            final(self)@ == (AttributesView { height, ..old(self)@ }),
    {
        self.0.height = height;
    }
}

/// This chain acknowledged the counterparty's answer.
#[derive(Clone, Debug)]
pub struct OpenAck(pub Attributes);

impl View for OpenAck {
    type V = AttributesView;

    open spec fn view(&self) -> AttributesView {
        self.0@
    }
}

impl OpenAck {
    pub fn channel_id(&self) -> (r: &Option<ChannelId>)
        ensures
            self@.channel_id == match r {
                Some(c) => Some(c@),
                None => None::<Seq<char>>,
            },
    {
        &self.0.channel_id
    }

    pub fn height(&self) -> (r: Height)
        ensures
            r == self@.height,
    {
        self.0.height
    }

    pub fn set_height(&mut self, height: Height)
        ensures
            final(self)@ == (AttributesView { height, ..old(self)@ }),
    {
        self.0.height = height;
    }
}

/// The counterparty confirmed the channel is open.
#[derive(Clone, Debug)]
pub struct OpenConfirm(pub Attributes);

impl View for OpenConfirm {
    type V = AttributesView;

    open spec fn view(&self) -> AttributesView {
        self.0@
    }
}

impl OpenConfirm {
    pub fn channel_id(&self) -> (r: &Option<ChannelId>)
        ensures
            self@.channel_id == match r {
                Some(c) => Some(c@),
                None => None::<Seq<char>>,
            },
    {
        &self.0.channel_id
    }

    pub fn height(&self) -> (r: Height)
        ensures
            r == self@.height,
    {
        self.0.height
    }

    pub fn set_height(&mut self, height: Height)
        ensures
            final(self)@ == (AttributesView { height, ..old(self)@ }),
    {
        self.0.height = height;
    }
}

/// This chain started closing the channel.
#[derive(Clone, Debug)]
pub struct CloseInit(pub Attributes);

impl View for CloseInit {
    type V = AttributesView;

    open spec fn view(&self) -> AttributesView {
        self.0@
    }
}

impl CloseInit {
    pub fn port_id(&self) -> (r: &PortId)
        ensures
            r@ == self@.port_id,
    {
        &self.0.port_id
    }

    /// The channel being closed. A close event always names its channel.
    pub fn channel_id(&self) -> (r: &ChannelId)
        requires
            self@.channel_id is Some,
        ensures
            Some(r@) == self@.channel_id,
    {
        match &self.0.channel_id {
            Some(c) => c,
            None => unreached(),
        }
    }

    pub fn counterparty_port_id(&self) -> (r: &PortId)
        ensures
            r@ == self@.counterparty_port_id,
    {
        &self.0.counterparty_port_id
    }

    pub fn counterparty_channel_id(&self) -> (r: Option<&ChannelId>)
        ensures
            self@.counterparty_channel_id == match r {
                Some(c) => Some(c@),
                None => None::<Seq<char>>,
            },
    {
        self.0.counterparty_channel_id.as_ref()
    }

    pub fn height(&self) -> (r: Height)
        ensures
            r == self@.height,
    {
        self.0.height
    }

    pub fn set_height(&mut self, height: Height)
        ensures
            final(self)@ == (AttributesView { height, ..old(self)@ }),
    {
        self.0.height = height;
    }
}

/// The counterparty confirmed the close.
#[derive(Clone, Debug)]
pub struct CloseConfirm(pub Attributes);

impl View for CloseConfirm {
    type V = AttributesView;

    open spec fn view(&self) -> AttributesView {
        self.0@
    }
}

impl CloseConfirm {
    pub fn channel_id(&self) -> (r: &Option<ChannelId>)
        ensures
            self@.channel_id == match r {
                Some(c) => Some(c@),
                None => None::<Seq<char>>,
            },
    {
        &self.0.channel_id
    }

    pub fn height(&self) -> (r: Height)
        ensures
            r == self@.height,
    {
        self.0.height
    }

    pub fn set_height(&mut self, height: Height)
        ensures
            final(self)@ == (AttributesView { height, ..old(self)@ }),
    {
        self.0.height = height;
    }
}

/// The mathematical content of a packet event.
pub ghost struct PacketEventView {
    pub height: Height,
    pub packet: crate::packet::PacketView,
}

/// A packet was sent: its commitment is now on the source ledger.
#[derive(Clone, Debug)]
pub struct SendPacket {
    pub height: Height,
    pub packet: Packet,
}

impl View for SendPacket {
    type V = PacketEventView;

    open spec fn view(&self) -> PacketEventView {
        PacketEventView { height: self.height, packet: self.packet@ }
    }
}

impl SendPacket {
    pub fn height(&self) -> (r: Height)
        ensures
            r == self@.height,
    {
        self.height
    }

    pub fn set_height(&mut self, height: Height)
        ensures
            final(self)@ == (PacketEventView { height, packet: old(self)@.packet }),
    {
        self.height = height;
    }
}

/// A packet was received on the destination ledger.
#[derive(Clone, Debug)]
pub struct ReceivePacket {
    pub height: Height,
    pub packet: Packet,
}

impl View for ReceivePacket {
    type V = PacketEventView;

    open spec fn view(&self) -> PacketEventView {
        PacketEventView { height: self.height, packet: self.packet@ }
    }
}

impl ReceivePacket {
    pub fn height(&self) -> (r: Height)
        ensures
            r == self@.height,
    {
        self.height
    }

    pub fn set_height(&mut self, height: Height)
        ensures
            final(self)@ == (PacketEventView { height, packet: old(self)@.packet }),
    {
        self.height = height;
    }
}

/// The mathematical content of a written acknowledgement event.
pub ghost struct WriteAckView {
    pub height: Height,
    pub packet: crate::packet::PacketView,
    pub ack: Seq<u8>,
}

/// The destination ledger wrote an acknowledgement for a received packet.
#[derive(Clone, Debug)]
pub struct WriteAcknowledgement {
    pub height: Height,
    pub packet: Packet,
    pub ack: Vec<u8>,
}

impl View for WriteAcknowledgement {
    type V = WriteAckView;

    open spec fn view(&self) -> WriteAckView {
        WriteAckView { height: self.height, packet: self.packet@, ack: self.ack@ }
    }
}

impl WriteAcknowledgement {
    pub fn height(&self) -> (r: Height)
        ensures
            r == self@.height,
    {
        self.height
    }

    pub fn set_height(&mut self, height: Height)
        ensures
            final(self)@ == (WriteAckView { height, ..old(self)@ }),
    {
        self.height = height;
    }
}

/// The source ledger processed an acknowledgement; the commitment is erased.
#[derive(Clone, Debug)]
pub struct AcknowledgePacket {
    pub height: Height,
    pub packet: Packet,
}

impl View for AcknowledgePacket {
    type V = PacketEventView;

    open spec fn view(&self) -> PacketEventView {
        PacketEventView { height: self.height, packet: self.packet@ }
    }
}

impl AcknowledgePacket {
    pub fn height(&self) -> (r: Height)
        ensures
            r == self@.height,
    {
        self.height
    }

    pub fn set_height(&mut self, height: Height)
        ensures
            final(self)@ == (PacketEventView { height, packet: old(self)@.packet }),
    {
        self.height = height;
    }
}

/// A packet timed out; its commitment is erased on the source ledger.
#[derive(Clone, Debug)]
pub struct TimeoutPacket {
    pub height: Height,
    pub packet: Packet,
}

impl View for TimeoutPacket {
    type V = PacketEventView;

    open spec fn view(&self) -> PacketEventView {
        PacketEventView { height: self.height, packet: self.packet@ }
    }
}

impl TimeoutPacket {
    pub fn height(&self) -> (r: Height)
        ensures
            r == self@.height,
    {
        self.height
    }

    pub fn set_height(&mut self, height: Height)
        ensures
            final(self)@ == (PacketEventView { height, packet: old(self)@.packet }),
    {
        self.height = height;
    }

    pub fn src_port_id(&self) -> (r: &PortId)
        ensures
            r@ == self@.packet.source_port,
    {
        &self.packet.source_port
    }

    pub fn src_channel_id(&self) -> (r: &ChannelId)
        ensures
            r@ == self@.packet.source_channel,
    {
        &self.packet.source_channel
    }
}

/// A packet timed out because the counterparty channel closed.
#[derive(Clone, Debug)]
pub struct TimeoutOnClosePacket {
    pub height: Height,
    pub packet: Packet,
}

impl View for TimeoutOnClosePacket {
    type V = PacketEventView;

    open spec fn view(&self) -> PacketEventView {
        PacketEventView { height: self.height, packet: self.packet@ }
    }
}

impl TimeoutOnClosePacket {
    pub fn height(&self) -> (r: Height)
        ensures
            r == self@.height,
    {
        self.height
    }

    pub fn set_height(&mut self, height: Height)
        ensures
            final(self)@ == (PacketEventView { height, packet: old(self)@.packet }),
    {
        self.height = height;
    }
}


impl AttributesView {
    /// Well-formed attributes: every identifier carried is valid.
    pub open spec fn wf(&self) -> bool {
        &&& valid_identifier(self.port_id)
        &&& valid_identifier(self.connection_id)
        &&& valid_identifier(self.counterparty_port_id)
        &&& (self.channel_id matches Some(c) ==> valid_identifier(c))
        &&& (self.counterparty_channel_id matches Some(c) ==> valid_identifier(c))
    }
}

/// Parse the attributes of a channel handshake event. The port, connection
/// and counterparty port are mandatory; the channel identifiers are set only
/// once each side has chosen one.
pub open spec fn spec_parse_channel_attributes(
    attrs: Seq<(Seq<char>, Seq<char>)>,
    height: Height,
) -> Result<AttributesView, EventErrorView> {
    match spec_req_id(attrs, "port_id"@) {
        Err(e) => Err(e),
        Ok(port_id) => match spec_opt_id(attrs, "channel_id"@) {
            Err(e) => Err(e),
            Ok(channel_id) => match spec_req_id(attrs, "connection_id"@) {
                Err(e) => Err(e),
                Ok(connection_id) => match spec_req_id(attrs, "counterparty_port_id"@) {
                    Err(e) => Err(e),
                    Ok(counterparty_port_id) => match spec_opt_id(
                        attrs,
                        "counterparty_channel_id"@,
                    ) {
                        Err(e) => Err(e),
                        Ok(counterparty_channel_id) => Ok(
                            AttributesView {
                                height,
                                port_id,
                                channel_id,
                                connection_id,
                                counterparty_port_id,
                                counterparty_channel_id,
                            },
                        ),
                    },
                },
            },
        },
    }
}

/// Extract the attributes of a channel handshake event, stamping the block
/// height. A missing mandatory attribute is a hard error, never a silent
/// default.
pub fn extract_attributes_from_tx(event: &RawEvent, height: Height) -> (r: Result<
    Attributes,
    EventError,
>)
    ensures
        match r {
            Ok(a) => spec_parse_channel_attributes(event@.attributes, height) == Ok::<
                AttributesView,
                EventErrorView,
            >(a@),
            Err(e) => spec_parse_channel_attributes(event@.attributes, height) == Err::<
                AttributesView,
                EventErrorView,
            >(e@),
        },
{
    let port_id = match req_port_id(&event.attributes, "port_id") {
        Ok(id) => id,
        Err(e) => {
            return Err(e);
        },
    };
    let channel_id = match opt_channel_id(&event.attributes, "channel_id") {
        Ok(id) => id,
        Err(e) => {
            return Err(e);
        },
    };
    let connection_id = match req_connection_id(&event.attributes, "connection_id") {
        Ok(id) => id,
        Err(e) => {
            return Err(e);
        },
    };
    let counterparty_port_id = match req_port_id(&event.attributes, "counterparty_port_id") {
        Ok(id) => id,
        Err(e) => {
            return Err(e);
        },
    };
    let counterparty_channel_id = match opt_channel_id(
        &event.attributes,
        "counterparty_channel_id",
    ) {
        Ok(id) => id,
        Err(e) => {
            return Err(e);
        },
    };
    Ok(
        Attributes {
            height,
            port_id,
            channel_id,
            connection_id,
            counterparty_port_id,
            counterparty_channel_id,
        },
    )
}

/// The raw attribute list a channel handshake event is encoded to.
pub open spec fn channel_attrs_wire(a: AttributesView) -> Seq<(Seq<char>, Seq<char>)> {
    seq![("port_id"@, a.port_id)] + (match a.channel_id {
        Some(c) => seq![("channel_id"@, c)],
        None => Seq::empty(),
    }) + seq![
        ("connection_id"@, a.connection_id),
        ("counterparty_port_id"@, a.counterparty_port_id),
    ] + (match a.counterparty_channel_id {
        Some(c) => seq![("counterparty_channel_id"@, c)],
        None => Seq::empty(),
    })
}

/// Encode the attributes of a channel handshake event to their raw form.
pub fn channel_attrs_to_raw(a: &Attributes) -> (r: Vec<(String, String)>)
    ensures
        pairs_view(r@) == channel_attrs_wire(a@),
{
    let mut out: Vec<(String, String)> = Vec::new();
    out.push((String::from_str("port_id"), String::from_str(a.port_id.as_str())));
    match &a.channel_id {
        Some(c) => {
            out.push((String::from_str("channel_id"), String::from_str(c.as_str())));
        },
        None => {},
    }
    out.push((String::from_str("connection_id"), String::from_str(a.connection_id.as_str())));
    out.push(
        (
            String::from_str("counterparty_port_id"),
            String::from_str(a.counterparty_port_id.as_str()),
        ),
    );
    match &a.counterparty_channel_id {
        Some(c) => {
            out.push((String::from_str("counterparty_channel_id"), String::from_str(c.as_str())));
        },
        None => {},
    }
    proof {
        assert(pairs_view(out@) =~= channel_attrs_wire(a@));
    }
    out
}

/// Decoding an encoded channel handshake event's attributes yields them
/// back.
pub proof fn lemma_channel_attrs_round_trip(a: AttributesView)
    requires
        a.wf(),
    ensures
        spec_parse_channel_attributes(channel_attrs_wire(a), a.height) == Ok::<
            AttributesView,
            EventErrorView,
        >(a),
{
    reveal_strlit("port_id");
    reveal_strlit("channel_id");
    reveal_strlit("connection_id");
    reveal_strlit("counterparty_port_id");
    reveal_strlit("counterparty_channel_id");
    assert("port_id"@.len() == 7);
    assert("channel_id"@.len() == 10);
    assert("connection_id"@.len() == 13);
    assert("counterparty_port_id"@.len() == 20);
    assert("counterparty_channel_id"@.len() == 23);
    let attrs = channel_attrs_wire(a);
    lemma_lookup_at(attrs, "port_id"@, 0);
    match a.channel_id {
        Some(_) => {
            lemma_lookup_at(attrs, "channel_id"@, 1);
            lemma_lookup_at(attrs, "connection_id"@, 2);
            lemma_lookup_at(attrs, "counterparty_port_id"@, 3);
            match a.counterparty_channel_id {
                Some(_) => {
                    lemma_lookup_at(attrs, "counterparty_channel_id"@, 4);
                },
                None => {
                    lemma_lookup_none(attrs, "counterparty_channel_id"@);
                },
            }
        },
        None => {
            lemma_lookup_none(attrs, "channel_id"@);
            lemma_lookup_at(attrs, "connection_id"@, 1);
            lemma_lookup_at(attrs, "counterparty_port_id"@, 2);
            match a.counterparty_channel_id {
                Some(_) => {
                    lemma_lookup_at(attrs, "counterparty_channel_id"@, 3);
                },
                None => {
                    lemma_lookup_none(attrs, "counterparty_channel_id"@);
                },
            }
        },
    }
}

/// Parse a packet and, when present, the written acknowledgement, from a
/// packet event's attributes. All seven packet fields are parsed; the
/// timeout timestamp attribute is mandatory. The payload attribute is
/// optional and defaults to empty data.
pub open spec fn spec_parse_packet_attrs(attrs: Seq<(Seq<char>, Seq<char>)>) -> Result<
    (PacketView, Option<Seq<u8>>),
    EventErrorView,
> {
    match spec_req_u64(attrs, "packet_sequence"@) {
        Err(e) => Err(e),
        Ok(sequence) => if sequence < 1 {
            Err(EventErrorView::InvalidAttribute { key: "packet_sequence"@ })
        } else {
            match spec_req_id(attrs, "packet_src_port"@) {
                Err(e) => Err(e),
                Ok(source_port) => match spec_req_id(attrs, "packet_src_channel"@) {
                    Err(e) => Err(e),
                    Ok(source_channel) => match spec_req_id(attrs, "packet_dst_port"@) {
                        Err(e) => Err(e),
                        Ok(destination_port) => match spec_req_id(attrs, "packet_dst_channel"@) {
                            Err(e) => Err(e),
                            Ok(destination_channel) => match spec_req_height(
                                attrs,
                                "packet_timeout_height"@,
                            ) {
                                Err(e) => Err(e),
                                Ok(timeout_height) => match spec_req_u64(
                                    attrs,
                                    "packet_timeout_timestamp"@,
                                ) {
                                    Err(e) => Err(e),
                                    Ok(timeout_timestamp) => Ok(
                                        (
                                            PacketView {
                                                sequence,
                                                source_port,
                                                source_channel,
                                                destination_port,
                                                destination_channel,
                                                data: match spec_opt_bytes(
                                                    attrs,
                                                    "packet_data"@,
                                                ) {
                                                    Some(d) => d,
                                                    None => Seq::empty(),
                                                },
                                                timeout_height,
                                                timeout_timestamp,
                                            },
                                            spec_opt_bytes(attrs, "packet_ack"@),
                                        ),
                                    ),
                                },
                            },
                        },
                    },
                },
            }
        },
    }
}

/// Extract a packet and, when present, the written acknowledgement from a
/// packet event.
pub fn extract_packet_and_write_ack_from_tx(event: &RawEvent) -> (r: Result<
    (Packet, Option<Vec<u8>>),
    EventError,
>)
    ensures
        match r {
            Ok(p) => spec_parse_packet_attrs(event@.attributes) matches Ok(sp) && sp.0 == p.0@
                && sp.1 == (match p.1 {
                Some(a) => Some(a@),
                None => None::<Seq<u8>>,
            }),
            Err(e) => spec_parse_packet_attrs(event@.attributes) == Err::<
                (PacketView, Option<Seq<u8>>),
                EventErrorView,
            >(e@),
        },
{
    let sequence = match req_u64_attr(&event.attributes, "packet_sequence") {
        Ok(n) => n,
        Err(e) => {
            return Err(e);
        },
    };
    if sequence < 1 {
        return Err(EventError::InvalidAttribute(String::from_str("packet_sequence")));
    }
    let source_port = match req_port_id(&event.attributes, "packet_src_port") {
        Ok(id) => id,
        Err(e) => {
            return Err(e);
        },
    };
    let source_channel = match req_channel_id(&event.attributes, "packet_src_channel") {
        Ok(id) => id,
        Err(e) => {
            return Err(e);
        },
    };
    let destination_port = match req_port_id(&event.attributes, "packet_dst_port") {
        Ok(id) => id,
        Err(e) => {
            return Err(e);
        },
    };
    let destination_channel = match req_channel_id(&event.attributes, "packet_dst_channel") {
        Ok(id) => id,
        Err(e) => {
            return Err(e);
        },
    };
    let timeout_height = match req_height_attr(&event.attributes, "packet_timeout_height") {
        Ok(h) => h,
        Err(e) => {
            return Err(e);
        },
    };
    let timeout_timestamp = match req_u64_attr(&event.attributes, "packet_timeout_timestamp") {
        Ok(n) => n,
        Err(e) => {
            return Err(e);
        },
    };
    let data = match opt_bytes_attr(&event.attributes, "packet_data") {
        Some(d) => d,
        None => Vec::new(),
    };
    let write_ack = opt_bytes_attr(&event.attributes, "packet_ack");
    let packet = Packet {
        sequence: Sequence(sequence),
        source_port,
        source_channel,
        destination_port,
        destination_channel,
        data,
        timeout_height,
        timeout_timestamp,
    };
    Ok((packet, write_ack))
}

/// The raw attribute list a packet event is encoded to. The payload and
/// acknowledgement travel as the UTF-8 text of their bytes.
pub open spec fn packet_attrs_wire(p: PacketView, ack: Option<Seq<u8>>) -> Seq<
    (Seq<char>, Seq<char>),
> {
    seq![
        ("packet_sequence"@, dec_str(p.sequence as nat)),
        ("packet_src_port"@, p.source_port),
        ("packet_src_channel"@, p.source_channel),
        ("packet_dst_port"@, p.destination_port),
        ("packet_dst_channel"@, p.destination_channel),
        ("packet_timeout_height"@, height_str(p.timeout_height)),
        ("packet_timeout_timestamp"@, dec_str(p.timeout_timestamp as nat)),
        ("packet_data"@, decode_utf8(p.data)),
    ] + (match ack {
        Some(a) => seq![("packet_ack"@, decode_utf8(a))],
        None => Seq::empty(),
    })
}

/// Encode a packet event's attributes to their raw form; fails when the
/// payload or acknowledgement bytes are not UTF-8 text.
pub fn packet_attrs_to_raw(packet: &Packet, ack: Option<&Vec<u8>>) -> (r: Option<
    Vec<(String, String)>,
>)
    ensures
        match r {
            Some(v) => valid_utf8(packet@.data) && (ack matches Some(a) ==> valid_utf8(a@))
                && pairs_view(v@) == packet_attrs_wire(
                packet@,
                match ack {
                    Some(a) => Some(a@),
                    None => None,
                },
            ),
            None => !(valid_utf8(packet@.data) && (ack matches Some(a) ==> valid_utf8(a@))),
        },
{
    let data_str = match string_from_utf8(packet.data.clone()) {
        Some(s) => s,
        None => {
            return None;
        },
    };
    let ack_str = match ack {
        Some(a) => match string_from_utf8(a.clone()) {
            Some(s) => Some(s),
            None => {
                return None;
            },
        },
        None => None,
    };
    let mut out: Vec<(String, String)> = Vec::new();
    out.push((String::from_str("packet_sequence"), u64_to_dec(packet.sequence.0)));
    out.push((String::from_str("packet_src_port"), String::from_str(packet.source_port.as_str())));
    out.push(
        (String::from_str("packet_src_channel"), String::from_str(packet.source_channel.as_str())),
    );
    out.push(
        (String::from_str("packet_dst_port"), String::from_str(packet.destination_port.as_str())),
    );
    out.push(
        (
            String::from_str("packet_dst_channel"),
            String::from_str(packet.destination_channel.as_str()),
        ),
    );
    out.push((String::from_str("packet_timeout_height"), height_string(&packet.timeout_height)));
    out.push((String::from_str("packet_timeout_timestamp"), u64_to_dec(packet.timeout_timestamp)));
    out.push((String::from_str("packet_data"), data_str));
    match ack_str {
        Some(s) => {
            out.push((String::from_str("packet_ack"), s));
        },
        None => {},
    }
    proof {
        assert(pairs_view(out@) =~= packet_attrs_wire(
            packet@,
            match ack {
                Some(a) => Some(a@),
                None => None,
            },
        ));
    }
    Some(out)
}

/// Decoding an encoded packet event's attributes yields the packet and
/// acknowledgement back.
pub proof fn lemma_packet_attrs_round_trip(p: PacketView, ack: Option<Seq<u8>>)
    requires
        p.wf(),
        valid_utf8(p.data),
        ack matches Some(a) ==> valid_utf8(a),
    ensures
        spec_parse_packet_attrs(packet_attrs_wire(p, ack)) == Ok::<
            (PacketView, Option<Seq<u8>>),
            EventErrorView,
        >((p, ack)),
{
    broadcast use vstd::utf8::decode_utf8_encode_utf8;

    reveal_strlit("packet_sequence");
    reveal_strlit("packet_src_port");
    reveal_strlit("packet_src_channel");
    reveal_strlit("packet_dst_port");
    reveal_strlit("packet_dst_channel");
    reveal_strlit("packet_timeout_height");
    reveal_strlit("packet_timeout_timestamp");
    reveal_strlit("packet_data");
    reveal_strlit("packet_ack");
    assert("packet_sequence"@.len() == 15);
    assert("packet_src_port"@.len() == 15);
    assert("packet_src_channel"@.len() == 18);
    assert("packet_dst_port"@.len() == 15);
    assert("packet_dst_channel"@.len() == 18);
    assert("packet_timeout_height"@.len() == 21);
    assert("packet_timeout_timestamp"@.len() == 24);
    assert("packet_data"@.len() == 11);
    assert("packet_ack"@.len() == 10);
    assert("packet_sequence"@ != "packet_src_port"@) by {
        assert("packet_sequence"@[8] != "packet_src_port"@[8]);
    }
    assert("packet_sequence"@ != "packet_dst_port"@) by {
        assert("packet_sequence"@[7] != "packet_dst_port"@[7]);
    }
    assert("packet_src_port"@ != "packet_dst_port"@) by {
        assert("packet_src_port"@[7] != "packet_dst_port"@[7]);
    }
    assert("packet_src_channel"@ != "packet_dst_channel"@) by {
        assert("packet_src_channel"@[7] != "packet_dst_channel"@[7]);
    }
    let attrs = packet_attrs_wire(p, ack);
    lemma_lookup_at(attrs, "packet_sequence"@, 0);
    lemma_lookup_at(attrs, "packet_src_port"@, 1);
    lemma_lookup_at(attrs, "packet_src_channel"@, 2);
    lemma_lookup_at(attrs, "packet_dst_port"@, 3);
    lemma_lookup_at(attrs, "packet_dst_channel"@, 4);
    lemma_lookup_at(attrs, "packet_timeout_height"@, 5);
    lemma_lookup_at(attrs, "packet_timeout_timestamp"@, 6);
    lemma_lookup_at(attrs, "packet_data"@, 7);
    match ack {
        Some(_) => {
            lemma_lookup_at(attrs, "packet_ack"@, 8);
        },
        None => {
            lemma_lookup_none(attrs, "packet_ack"@);
        },
    }
    lemma_dec_round_trip(p.sequence);
    lemma_dec_round_trip(p.timeout_timestamp);
    lemma_height_str_round_trip(p.timeout_height);
}

/// Decode a raw event as a channel or packet event: an unrecognised type
/// string is `None`; a recognised one with missing or malformed attributes
/// is an error. A `packet_ack` attribute must be present exactly on
/// `write_acknowledgement` events.
pub open spec fn spec_channel_event_from_raw(ev: RawEventView, height: Height) -> Result<
    Option<IbcEventView>,
    EventErrorView,
> {
    if ev.event_type == "channel_open_init"@ {
        match spec_parse_channel_attributes(ev.attributes, height) {
            Ok(a) => Ok(Some(IbcEventView::OpenInitChannel(a))),
            Err(e) => Err(e),
        }
    } else if ev.event_type == "channel_open_try"@ {
        match spec_parse_channel_attributes(ev.attributes, height) {
            Ok(a) => Ok(Some(IbcEventView::OpenTryChannel(a))),
            Err(e) => Err(e),
        }
    } else if ev.event_type == "channel_open_ack"@ {
        match spec_parse_channel_attributes(ev.attributes, height) {
            Ok(a) => Ok(Some(IbcEventView::OpenAckChannel(a))),
            Err(e) => Err(e),
        }
    } else if ev.event_type == "channel_open_confirm"@ {
        match spec_parse_channel_attributes(ev.attributes, height) {
            Ok(a) => Ok(Some(IbcEventView::OpenConfirmChannel(a))),
            Err(e) => Err(e),
        }
    } else if ev.event_type == "channel_close_init"@ {
        match spec_parse_channel_attributes(ev.attributes, height) {
            Ok(a) => Ok(Some(IbcEventView::CloseInitChannel(a))),
            Err(e) => Err(e),
        }
    } else if ev.event_type == "channel_close_confirm"@ {
        match spec_parse_channel_attributes(ev.attributes, height) {
            Ok(a) => Ok(Some(IbcEventView::CloseConfirmChannel(a))),
            Err(e) => Err(e),
        }
    } else if ev.event_type == "send_packet"@ {
        match spec_parse_packet_attrs(ev.attributes) {
            Err(e) => Err(e),
            Ok((p, ack)) => match ack {
                Some(_) => Err(EventErrorView::UnexpectedWriteAck),
                None => Ok(Some(IbcEventView::SendPacket(PacketEventView { height, packet: p }))),
            },
        }
    } else if ev.event_type == "write_acknowledgement"@ {
        match spec_parse_packet_attrs(ev.attributes) {
            Err(e) => Err(e),
            Ok((p, ack)) => match ack {
                Some(a) => Ok(
                    Some(
                        IbcEventView::WriteAcknowledgement(
                            WriteAckView { height, packet: p, ack: a },
                        ),
                    ),
                ),
                None => Err(EventErrorView::MissingKey { key: "packet_ack"@ }),
            },
        }
    } else if ev.event_type == "acknowledge_packet"@ {
        match spec_parse_packet_attrs(ev.attributes) {
            Err(e) => Err(e),
            Ok((p, ack)) => match ack {
                Some(_) => Err(EventErrorView::UnexpectedWriteAck),
                None => Ok(
                    Some(IbcEventView::AcknowledgePacket(PacketEventView { height, packet: p })),
                ),
            },
        }
    } else if ev.event_type == "timeout_packet"@ {
        match spec_parse_packet_attrs(ev.attributes) {
            Err(e) => Err(e),
            Ok((p, ack)) => match ack {
                Some(_) => Err(EventErrorView::UnexpectedWriteAck),
                None => Ok(
                    Some(IbcEventView::TimeoutPacket(PacketEventView { height, packet: p })),
                ),
            },
        }
    } else {
        Ok(None)
    }
}

/// Decode a raw event as a channel or packet event, stamping the block
/// height.
pub fn try_from_tx(event: &RawEvent, height: Height) -> (r: Result<Option<IbcEvent>, EventError>)
    ensures
        match r {
            Ok(Some(e)) => spec_channel_event_from_raw(event@, height) == Ok::<
                Option<IbcEventView>,
                EventErrorView,
            >(Some(e@)),
            Ok(None) => spec_channel_event_from_raw(event@, height) == Ok::<
                Option<IbcEventView>,
                EventErrorView,
            >(None),
            Err(e) => spec_channel_event_from_raw(event@, height) == Err::<
                Option<IbcEventView>,
                EventErrorView,
            >(e@),
        },
{
    let t = event.event_type.as_str();
    if str_eq(t, "channel_open_init") {
        match extract_attributes_from_tx(event, height) {
            Ok(a) => Ok(Some(IbcEvent::OpenInitChannel(OpenInit(a)))),
            Err(e) => Err(e),
        }
    } else if str_eq(t, "channel_open_try") {
        match extract_attributes_from_tx(event, height) {
            Ok(a) => Ok(Some(IbcEvent::OpenTryChannel(OpenTry(a)))),
            Err(e) => Err(e),
        }
    } else if str_eq(t, "channel_open_ack") {
        match extract_attributes_from_tx(event, height) {
            Ok(a) => Ok(Some(IbcEvent::OpenAckChannel(OpenAck(a)))),
            Err(e) => Err(e),
        }
    } else if str_eq(t, "channel_open_confirm") {
        match extract_attributes_from_tx(event, height) {
            Ok(a) => Ok(Some(IbcEvent::OpenConfirmChannel(OpenConfirm(a)))),
            Err(e) => Err(e),
        }
    } else if str_eq(t, "channel_close_init") {
        match extract_attributes_from_tx(event, height) {
            Ok(a) => Ok(Some(IbcEvent::CloseInitChannel(CloseInit(a)))),
            Err(e) => Err(e),
        }
    } else if str_eq(t, "channel_close_confirm") {
        match extract_attributes_from_tx(event, height) {
            Ok(a) => Ok(Some(IbcEvent::CloseConfirmChannel(CloseConfirm(a)))),
            Err(e) => Err(e),
        }
    } else if str_eq(t, "send_packet") {
        match extract_packet_and_write_ack_from_tx(event) {
            Err(e) => Err(e),
            Ok((packet, ack)) => match ack {
                Some(_) => Err(EventError::UnexpectedWriteAck),
                None => Ok(Some(IbcEvent::SendPacket(SendPacket { height, packet }))),
            },
        }
    } else if str_eq(t, "write_acknowledgement") {
        match extract_packet_and_write_ack_from_tx(event) {
            Err(e) => Err(e),
            Ok((packet, ack)) => match ack {
                Some(a) => Ok(
                    Some(
                        IbcEvent::WriteAcknowledgement(
                            WriteAcknowledgement { height, packet, ack: a },
                        ),
                    ),
                ),
                None => Err(EventError::MissingKey(String::from_str("packet_ack"))),
            },
        }
    } else if str_eq(t, "acknowledge_packet") {
        match extract_packet_and_write_ack_from_tx(event) {
            Err(e) => Err(e),
            Ok((packet, ack)) => match ack {
                Some(_) => Err(EventError::UnexpectedWriteAck),
                None => Ok(Some(IbcEvent::AcknowledgePacket(AcknowledgePacket { height, packet }))),
            },
        }
    } else if str_eq(t, "timeout_packet") {
        match extract_packet_and_write_ack_from_tx(event) {
            Err(e) => Err(e),
            Ok((packet, ack)) => match ack {
                Some(_) => Err(EventError::UnexpectedWriteAck),
                None => Ok(Some(IbcEvent::TimeoutPacket(TimeoutPacket { height, packet }))),
            },
        }
    } else {
        Ok(None)
    }
}


/// Parse channel handshake attributes out of a raw object, given the five
/// dotted keys of the event type. The channel-identifier keys must be
/// present; their values read as absent when malformed.
pub open spec fn spec_obj_attributes(
    o: RawObjectView,
    k_port: Seq<char>,
    k_chan: Seq<char>,
    k_conn: Seq<char>,
    k_cp_port: Seq<char>,
    k_cp_chan: Seq<char>,
) -> Result<AttributesView, EventErrorView> {
    match spec_obj_req_id(o, k_port) {
        Err(e) => Err(e),
        Ok(port_id) => match spec_obj_opt_id(o, k_chan) {
            Err(e) => Err(e),
            Ok(channel_id) => match spec_obj_req_id(o, k_conn) {
                Err(e) => Err(e),
                Ok(connection_id) => match spec_obj_req_id(o, k_cp_port) {
                    Err(e) => Err(e),
                    Ok(counterparty_port_id) => match spec_obj_opt_id(o, k_cp_chan) {
                        Err(e) => Err(e),
                        Ok(counterparty_channel_id) => Ok(
                            AttributesView {
                                height: o.height,
                                port_id,
                                channel_id,
                                connection_id,
                                counterparty_port_id,
                                counterparty_channel_id,
                            },
                        ),
                    },
                },
            },
        },
    }
}

/// Parse channel handshake attributes out of a raw object.
pub fn attributes_from_obj(
    obj: &RawObject,
    k_port: &str,
    k_chan: &str,
    k_conn: &str,
    k_cp_port: &str,
    k_cp_chan: &str,
) -> (r: Result<Attributes, EventError>)
    ensures
        match r {
            Ok(a) => spec_obj_attributes(obj@, k_port@, k_chan@, k_conn@, k_cp_port@, k_cp_chan@)
                == Ok::<AttributesView, EventErrorView>(a@),
            Err(e) => spec_obj_attributes(obj@, k_port@, k_chan@, k_conn@, k_cp_port@, k_cp_chan@)
                == Err::<AttributesView, EventErrorView>(e@),
        },
{
    let port_id = match obj_req_port(obj, k_port) {
        Ok(id) => id,
        Err(e) => {
            return Err(e);
        },
    };
    let channel_id = match obj_opt_channel(obj, k_chan) {
        Ok(id) => id,
        Err(e) => {
            return Err(e);
        },
    };
    let connection_id = match obj_req_connection(obj, k_conn) {
        Ok(id) => id,
        Err(e) => {
            return Err(e);
        },
    };
    let counterparty_port_id = match obj_req_port(obj, k_cp_port) {
        Ok(id) => id,
        Err(e) => {
            return Err(e);
        },
    };
    let counterparty_channel_id = match obj_opt_channel(obj, k_cp_chan) {
        Ok(id) => id,
        Err(e) => {
            return Err(e);
        },
    };
    Ok(
        Attributes {
            height: obj.height,
            port_id,
            channel_id,
            connection_id,
            counterparty_port_id,
            counterparty_channel_id,
        },
    )
}

impl OpenInit {
    /// Decode a raw transaction-result object as this event.
    pub fn try_from(obj: &RawObject) -> (r: Result<OpenInit, EventError>)
        ensures
            match r {
                Ok(e) => spec_obj_attributes(
                    obj@,
                    "channel_open_init.port_id"@,
                    "channel_open_init.channel_id"@,
                    "channel_open_init.connection_id"@,
                    "channel_open_init.counterparty_port_id"@,
                    "channel_open_init.counterparty_channel_id"@,
                ) == Ok::<AttributesView, EventErrorView>(e@),
                Err(e) => spec_obj_attributes(
                    obj@,
                    "channel_open_init.port_id"@,
                    "channel_open_init.channel_id"@,
                    "channel_open_init.connection_id"@,
                    "channel_open_init.counterparty_port_id"@,
                    "channel_open_init.counterparty_channel_id"@,
                ) == Err::<AttributesView, EventErrorView>(e@),
            },
    {
        match attributes_from_obj(
            obj,
            "channel_open_init.port_id",
            "channel_open_init.channel_id",
            "channel_open_init.connection_id",
            "channel_open_init.counterparty_port_id",
            "channel_open_init.counterparty_channel_id",
        ) {
            Ok(a) => Ok(OpenInit(a)),
            Err(e) => Err(e),
        }
    }
}

impl OpenTry {
    /// Decode a raw transaction-result object as this event.
    pub fn try_from(obj: &RawObject) -> (r: Result<OpenTry, EventError>)
        ensures
            match r {
                Ok(e) => spec_obj_attributes(
                    obj@,
                    "channel_open_try.port_id"@,
                    "channel_open_try.channel_id"@,
                    "channel_open_try.connection_id"@,
                    "channel_open_try.counterparty_port_id"@,
                    "channel_open_try.counterparty_channel_id"@,
                ) == Ok::<AttributesView, EventErrorView>(e@),
                Err(e) => spec_obj_attributes(
                    obj@,
                    "channel_open_try.port_id"@,
                    "channel_open_try.channel_id"@,
                    "channel_open_try.connection_id"@,
                    "channel_open_try.counterparty_port_id"@,
                    "channel_open_try.counterparty_channel_id"@,
                ) == Err::<AttributesView, EventErrorView>(e@),
            },
    {
        match attributes_from_obj(
            obj,
            "channel_open_try.port_id",
            "channel_open_try.channel_id",
            "channel_open_try.connection_id",
            "channel_open_try.counterparty_port_id",
            "channel_open_try.counterparty_channel_id",
        ) {
            Ok(a) => Ok(OpenTry(a)),
            Err(e) => Err(e),
        }
    }
}

impl OpenAck {
    /// Decode a raw transaction-result object as this event.
    pub fn try_from(obj: &RawObject) -> (r: Result<OpenAck, EventError>)
        ensures
            match r {
                Ok(e) => spec_obj_attributes(
                    obj@,
                    "channel_open_ack.port_id"@,
                    "channel_open_ack.channel_id"@,
                    "channel_open_ack.connection_id"@,
                    "channel_open_ack.counterparty_port_id"@,
                    "channel_open_ack.counterparty_channel_id"@,
                ) == Ok::<AttributesView, EventErrorView>(e@),
                Err(e) => spec_obj_attributes(
                    obj@,
                    "channel_open_ack.port_id"@,
                    "channel_open_ack.channel_id"@,
                    "channel_open_ack.connection_id"@,
                    "channel_open_ack.counterparty_port_id"@,
                    "channel_open_ack.counterparty_channel_id"@,
                ) == Err::<AttributesView, EventErrorView>(e@),
            },
    {
        match attributes_from_obj(
            obj,
            "channel_open_ack.port_id",
            "channel_open_ack.channel_id",
            "channel_open_ack.connection_id",
            "channel_open_ack.counterparty_port_id",
            "channel_open_ack.counterparty_channel_id",
        ) {
            Ok(a) => Ok(OpenAck(a)),
            Err(e) => Err(e),
        }
    }
}

impl OpenConfirm {
    /// Decode a raw transaction-result object as this event.
    pub fn try_from(obj: &RawObject) -> (r: Result<OpenConfirm, EventError>)
        ensures
            match r {
                Ok(e) => spec_obj_attributes(
                    obj@,
                    "channel_open_confirm.port_id"@,
                    "channel_open_confirm.channel_id"@,
                    "channel_open_confirm.connection_id"@,
                    "channel_open_confirm.counterparty_port_id"@,
                    "channel_open_confirm.counterparty_channel_id"@,
                ) == Ok::<AttributesView, EventErrorView>(e@),
                Err(e) => spec_obj_attributes(
                    obj@,
                    "channel_open_confirm.port_id"@,
                    "channel_open_confirm.channel_id"@,
                    "channel_open_confirm.connection_id"@,
                    "channel_open_confirm.counterparty_port_id"@,
                    "channel_open_confirm.counterparty_channel_id"@,
                ) == Err::<AttributesView, EventErrorView>(e@),
            },
    {
        match attributes_from_obj(
            obj,
            "channel_open_confirm.port_id",
            "channel_open_confirm.channel_id",
            "channel_open_confirm.connection_id",
            "channel_open_confirm.counterparty_port_id",
            "channel_open_confirm.counterparty_channel_id",
        ) {
            Ok(a) => Ok(OpenConfirm(a)),
            Err(e) => Err(e),
        }
    }
}

impl CloseInit {
    /// Decode a raw transaction-result object as this event.
    pub fn try_from(obj: &RawObject) -> (r: Result<CloseInit, EventError>)
        ensures
            match r {
                Ok(e) => spec_obj_attributes(
                    obj@,
                    "channel_close_init.port_id"@,
                    "channel_close_init.channel_id"@,
                    "channel_close_init.connection_id"@,
                    "channel_close_init.counterparty_port_id"@,
                    "channel_close_init.counterparty_channel_id"@,
                ) == Ok::<AttributesView, EventErrorView>(e@),
                Err(e) => spec_obj_attributes(
                    obj@,
                    "channel_close_init.port_id"@,
                    "channel_close_init.channel_id"@,
                    "channel_close_init.connection_id"@,
                    "channel_close_init.counterparty_port_id"@,
                    "channel_close_init.counterparty_channel_id"@,
                ) == Err::<AttributesView, EventErrorView>(e@),
            },
    {
        match attributes_from_obj(
            obj,
            "channel_close_init.port_id",
            "channel_close_init.channel_id",
            "channel_close_init.connection_id",
            "channel_close_init.counterparty_port_id",
            "channel_close_init.counterparty_channel_id",
        ) {
            Ok(a) => Ok(CloseInit(a)),
            Err(e) => Err(e),
        }
    }
}

impl CloseConfirm {
    /// Decode a raw transaction-result object as this event.
    pub fn try_from(obj: &RawObject) -> (r: Result<CloseConfirm, EventError>)
        ensures
            match r {
                Ok(e) => spec_obj_attributes(
                    obj@,
                    "channel_close_confirm.port_id"@,
                    "channel_close_confirm.channel_id"@,
                    "channel_close_confirm.connection_id"@,
                    "channel_close_confirm.counterparty_port_id"@,
                    "channel_close_confirm.counterparty_channel_id"@,
                ) == Ok::<AttributesView, EventErrorView>(e@),
                Err(e) => spec_obj_attributes(
                    obj@,
                    "channel_close_confirm.port_id"@,
                    "channel_close_confirm.channel_id"@,
                    "channel_close_confirm.connection_id"@,
                    "channel_close_confirm.counterparty_port_id"@,
                    "channel_close_confirm.counterparty_channel_id"@,
                ) == Err::<AttributesView, EventErrorView>(e@),
            },
    {
        match attributes_from_obj(
            obj,
            "channel_close_confirm.port_id",
            "channel_close_confirm.channel_id",
            "channel_close_confirm.connection_id",
            "channel_close_confirm.counterparty_port_id",
            "channel_close_confirm.counterparty_channel_id",
        ) {
            Ok(a) => Ok(CloseConfirm(a)),
            Err(e) => Err(e),
        }
    }
}

/// Parse a packet out of a raw object, under the object's action prefix.
/// The payload stays empty: packet events that carry one read it
/// separately.
pub open spec fn spec_packet_from_obj(o: RawObjectView) -> Result<PacketView, EventErrorView> {
    match spec_obj_req_height(o, "packet_timeout_height"@) {
        Err(e) => Err(e),
        Ok(timeout_height) => match spec_obj_req_u64(o, "packet_sequence"@) {
            Err(e) => Err(e),
            Ok(sequence) => if sequence < 1 {
                Err(EventErrorView::InvalidAttribute { key: "packet_sequence"@ })
            } else {
                match spec_obj_act_req_id(o, "packet_src_port"@) {
                    Err(e) => Err(e),
                    Ok(source_port) => match spec_obj_act_req_id(o, "packet_src_channel"@) {
                        Err(e) => Err(e),
                        Ok(source_channel) => match spec_obj_act_req_id(o, "packet_dst_port"@) {
                            Err(e) => Err(e),
                            Ok(destination_port) => match spec_obj_act_req_id(
                                o,
                                "packet_dst_channel"@,
                            ) {
                                Err(e) => Err(e),
                                Ok(destination_channel) => match spec_obj_req_u64(
                                    o,
                                    "packet_timeout_timestamp"@,
                                ) {
                                    Err(e) => Err(e),
                                    Ok(timeout_timestamp) => Ok(
                                        PacketView {
                                            sequence,
                                            source_port,
                                            source_channel,
                                            destination_port,
                                            destination_channel,
                                            data: Seq::empty(),
                                            timeout_height,
                                            timeout_timestamp,
                                        },
                                    ),
                                },
                            },
                        },
                    },
                }
            },
        },
    }
}

impl Packet {
    /// Decode a packet from a raw transaction-result object; the payload
    /// stays empty.
    pub fn try_from(obj: &RawObject) -> (r: Result<Packet, EventError>)
        ensures
            match r {
                Ok(p) => spec_packet_from_obj(obj@) == Ok::<PacketView, EventErrorView>(p@),
                Err(e) => spec_packet_from_obj(obj@) == Err::<PacketView, EventErrorView>(e@),
            },
    {
        let timeout_height = match obj_req_height(obj, "packet_timeout_height") {
            Ok(h) => h,
            Err(e) => {
                return Err(e);
            },
        };
        let sequence = match obj_req_u64(obj, "packet_sequence") {
            Ok(n) => n,
            Err(e) => {
                return Err(e);
            },
        };
        if sequence < 1 {
            return Err(EventError::InvalidAttribute(String::from_str("packet_sequence")));
        }
        let source_port = match obj_act_req_port(obj, "packet_src_port") {
            Ok(id) => id,
            Err(e) => {
                return Err(e);
            },
        };
        let source_channel = match obj_act_req_channel(obj, "packet_src_channel") {
            Ok(id) => id,
            Err(e) => {
                return Err(e);
            },
        };
        let destination_port = match obj_act_req_port(obj, "packet_dst_port") {
            Ok(id) => id,
            Err(e) => {
                return Err(e);
            },
        };
        let destination_channel = match obj_act_req_channel(obj, "packet_dst_channel") {
            Ok(id) => id,
            Err(e) => {
                return Err(e);
            },
        };
        let timeout_timestamp = match obj_req_u64(obj, "packet_timeout_timestamp") {
            Ok(n) => n,
            Err(e) => {
                return Err(e);
            },
        };
        Ok(
            Packet {
                sequence: Sequence(sequence),
                source_port,
                source_channel,
                destination_port,
                destination_channel,
                data: Vec::new(),
                timeout_height,
                timeout_timestamp,
            },
        )
    }
}

impl SendPacket {
    /// Decode a raw transaction-result object as this event; the payload is
    /// the UTF-8 bytes of the `packet_data` attribute.
    pub fn try_from(obj: &RawObject) -> (r: Result<SendPacket, EventError>)
        ensures
            match r {
                Ok(e) => (spec_obj_req_bytes(obj@, "packet_data"@) matches Ok(d)
                    && spec_packet_from_obj(obj@) matches Ok(p) && e@ == (PacketEventView {
                    height: obj@.height,
                    packet: PacketView { data: d, ..p },
                })),
                Err(e) => spec_obj_req_bytes(obj@, "packet_data"@) == Err::<Seq<u8>,
                    EventErrorView,
                >(e@) || (spec_obj_req_bytes(obj@, "packet_data"@) is Ok && spec_packet_from_obj(
                    obj@,
                ) == Err::<PacketView, EventErrorView>(e@)),
            },
    {
        let data = match obj_req_bytes(obj, "packet_data") {
            Ok(d) => d,
            Err(e) => {
                return Err(e);
            },
        };
        let mut packet = match Packet::try_from(obj) {
            Ok(p) => p,
            Err(e) => {
                return Err(e);
            },
        };
        packet.data = data;
        Ok(SendPacket { height: obj.height, packet })
    }
}

impl ReceivePacket {
    /// Decode a raw transaction-result object as this event; the payload is
    /// the UTF-8 bytes of the `packet_data` attribute.
    pub fn try_from(obj: &RawObject) -> (r: Result<ReceivePacket, EventError>)
        ensures
            match r {
                Ok(e) => (spec_obj_req_bytes(obj@, "packet_data"@) matches Ok(d)
                    && spec_packet_from_obj(obj@) matches Ok(p) && e@ == (PacketEventView {
                    height: obj@.height,
                    packet: PacketView { data: d, ..p },
                })),
                Err(e) => spec_obj_req_bytes(obj@, "packet_data"@) == Err::<Seq<u8>,
                    EventErrorView,
                >(e@) || (spec_obj_req_bytes(obj@, "packet_data"@) is Ok && spec_packet_from_obj(
                    obj@,
                ) == Err::<PacketView, EventErrorView>(e@)),
            },
    {
        let data = match obj_req_bytes(obj, "packet_data") {
            Ok(d) => d,
            Err(e) => {
                return Err(e);
            },
        };
        let mut packet = match Packet::try_from(obj) {
            Ok(p) => p,
            Err(e) => {
                return Err(e);
            },
        };
        packet.data = data;
        Ok(ReceivePacket { height: obj.height, packet })
    }
}

impl WriteAcknowledgement {
    /// Decode a raw transaction-result object as this event; the payload
    /// and acknowledgement are the UTF-8 bytes of the `packet_data` and
    /// `packet_ack` attributes.
    pub fn try_from(obj: &RawObject) -> (r: Result<WriteAcknowledgement, EventError>)
        ensures
            r matches Ok(e) ==> (spec_obj_req_bytes(obj@, "packet_data"@) matches Ok(d)
                && spec_obj_req_bytes(obj@, "packet_ack"@) matches Ok(a) && spec_packet_from_obj(
                obj@,
            ) matches Ok(p) && e@ == (WriteAckView {
                height: obj@.height,
                packet: PacketView { data: d, ..p },
                ack: a,
            })),
            r is Err ==> (spec_obj_req_bytes(obj@, "packet_data"@) is Err || spec_obj_req_bytes(
                obj@,
                "packet_ack"@,
            ) is Err || spec_packet_from_obj(obj@) is Err),
    {
        let data = match obj_req_bytes(obj, "packet_data") {
            Ok(d) => d,
            Err(e) => {
                return Err(e);
            },
        };
        let ack = match obj_req_bytes(obj, "packet_ack") {
            Ok(a) => a,
            Err(e) => {
                return Err(e);
            },
        };
        let mut packet = match Packet::try_from(obj) {
            Ok(p) => p,
            Err(e) => {
                return Err(e);
            },
        };
        packet.data = data;
        Ok(WriteAcknowledgement { height: obj.height, packet, ack })
    }
}

impl AcknowledgePacket {
    /// Decode a raw transaction-result object as this event.
    pub fn try_from(obj: &RawObject) -> (r: Result<AcknowledgePacket, EventError>)
        ensures
            match r {
                Ok(e) => (spec_packet_from_obj(obj@) matches Ok(p) && e@ == (PacketEventView {
                    height: obj@.height,
                    packet: p,
                })),
                Err(e) => spec_packet_from_obj(obj@) == Err::<PacketView, EventErrorView>(e@),
            },
    {
        match Packet::try_from(obj) {
            Ok(packet) => Ok(AcknowledgePacket { height: obj.height, packet }),
            Err(e) => Err(e),
        }
    }
}

impl TimeoutPacket {
    /// Decode a raw transaction-result object as this event.
    pub fn try_from(obj: &RawObject) -> (r: Result<TimeoutPacket, EventError>)
        ensures
            match r {
                Ok(e) => (spec_packet_from_obj(obj@) matches Ok(p) && e@ == (PacketEventView {
                    height: obj@.height,
                    packet: p,
                })),
                Err(e) => spec_packet_from_obj(obj@) == Err::<PacketView, EventErrorView>(e@),
            },
    {
        match Packet::try_from(obj) {
            Ok(packet) => Ok(TimeoutPacket { height: obj.height, packet }),
            Err(e) => Err(e),
        }
    }
}

impl TimeoutOnClosePacket {
    /// Decode a raw transaction-result object as this event.
    pub fn try_from(obj: &RawObject) -> (r: Result<TimeoutOnClosePacket, EventError>)
        ensures
            match r {
                Ok(e) => (spec_packet_from_obj(obj@) matches Ok(p) && e@ == (PacketEventView {
                    height: obj@.height,
                    packet: p,
                })),
                Err(e) => spec_packet_from_obj(obj@) == Err::<PacketView, EventErrorView>(e@),
            },
    {
        match Packet::try_from(obj) {
            Ok(packet) => Ok(TimeoutOnClosePacket { height: obj.height, packet }),
            Err(e) => Err(e),
        }
    }
}

} // verus!
