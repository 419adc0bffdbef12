//! Connection handshake events.

use vstd::prelude::*;
use crate::events::{lemma_lookup_at, lemma_lookup_none, pairs_view, req_client_id,
    opt_connection_id, spec_opt_id, spec_req_id, EventError, EventErrorView, IbcEvent,
    IbcEventView, RawEvent, RawEventView};
use crate::height::Height;
use crate::ident::{valid_identifier, ClientId, ConnectionId};
use crate::wire::str_eq;

verus! {

/// The mathematical content of a connection event's attributes.
pub ghost struct ConnAttributesView {
    pub height: Height,
    pub connection_id: Option<Seq<char>>,
    pub client_id: Seq<char>,
    pub counterparty_connection_id: Option<Seq<char>>,
    pub counterparty_client_id: Seq<char>,
}

/// The attributes every connection handshake event carries.
#[derive(Debug)]
pub struct ConnAttributes {
    pub height: Height,
    pub connection_id: Option<ConnectionId>,
    pub client_id: ClientId,
    pub counterparty_connection_id: Option<ConnectionId>,
    pub counterparty_client_id: ClientId,
}

impl View for ConnAttributes {
    type V = ConnAttributesView;

    open spec fn view(&self) -> ConnAttributesView {
        ConnAttributesView {
            height: self.height,
            connection_id: match self.connection_id {
                Some(ref c) => Some(c@),
                None => None,
            },
            client_id: self.client_id@,
            counterparty_connection_id: match self.counterparty_connection_id {
                Some(ref c) => Some(c@),
                None => None,
            },
            counterparty_client_id: self.counterparty_client_id@,
        }
    }
}

impl Clone for ConnAttributes {
    fn clone(&self) -> (r: Self)
        ensures
            r@ == self@,
    {
        ConnAttributes {
            height: self.height,
            connection_id: match &self.connection_id {
                Some(c) => Some(c.clone()),
                None => None,
            },
            client_id: self.client_id.clone(),
            counterparty_connection_id: match &self.counterparty_connection_id {
                Some(c) => Some(c.clone()),
                None => None,
            },
            counterparty_client_id: self.counterparty_client_id.clone(),
        }
    }
}

/// A connection handshake was started on this chain.
#[derive(Clone, Debug)]
pub struct OpenInit(pub ConnAttributes);

impl View for OpenInit {
    type V = ConnAttributesView;

    open spec fn view(&self) -> ConnAttributesView {
        self.0@
    }
}

impl OpenInit {
    pub fn height(&self) -> (r: Height)
        ensures
            r == self@.height,
    {
        self.0.height
    }

    pub fn set_height(&mut self, height: Height)
        ensures
            final(self)@ == (ConnAttributesView { height, ..old(self)@ }),
    {
        self.0.height = height;
    }
}

/// The counterparty answered a connection handshake.
#[derive(Clone, Debug)]
pub struct OpenTry(pub ConnAttributes);

impl View for OpenTry {
    type V = ConnAttributesView;

    open spec fn view(&self) -> ConnAttributesView {
        self.0@
    }
}

impl OpenTry {
    pub fn height(&self) -> (r: Height)
        ensures
            r == self@.height,
    {
        self.0.height
    }

    pub fn set_height(&mut self, height: Height)
        ensures
            final(self)@ == (ConnAttributesView { height, ..old(self)@ }),
    {
        self.0.height = height;
    }
}

/// This chain acknowledged the counterparty's answer.
#[derive(Clone, Debug)]
pub struct OpenAck(pub ConnAttributes);

impl View for OpenAck {
    type V = ConnAttributesView;

    open spec fn view(&self) -> ConnAttributesView {
        self.0@
    }
}

impl OpenAck {
    pub fn height(&self) -> (r: Height)
        ensures
            r == self@.height,
    {
        self.0.height
    }

    pub fn set_height(&mut self, height: Height)
        ensures
            final(self)@ == (ConnAttributesView { height, ..old(self)@ }),
    {
        self.0.height = height;
    }
}

/// The counterparty confirmed the connection is open.
#[derive(Clone, Debug)]
pub struct OpenConfirm(pub ConnAttributes);

impl View for OpenConfirm {
    type V = ConnAttributesView;

    open spec fn view(&self) -> ConnAttributesView {
        self.0@
    }
}

impl OpenConfirm {
    pub fn height(&self) -> (r: Height)
        ensures
            r == self@.height,
    {
        self.0.height
    }

    pub fn set_height(&mut self, height: Height)
        ensures
            final(self)@ == (ConnAttributesView { height, ..old(self)@ }),
    {
        self.0.height = height;
    }
}


/// Parse the attributes of a connection handshake event. The client
/// identifiers are mandatory; the connection identifiers are set only once
/// each side has chosen one.
pub open spec fn spec_parse_conn_attributes(
    attrs: Seq<(Seq<char>, Seq<char>)>,
    height: Height,
) -> Result<ConnAttributesView, EventErrorView> {
    match spec_req_id(attrs, "client_id"@) {
        Err(e) => Err(e),
        Ok(client_id) => match spec_req_id(attrs, "counterparty_client_id"@) {
            Err(e) => Err(e),
            Ok(counterparty_client_id) => match spec_opt_id(attrs, "connection_id"@) {
                Err(e) => Err(e),
                Ok(connection_id) => match spec_opt_id(attrs, "counterparty_connection_id"@) {
                    Err(e) => Err(e),
                    Ok(counterparty_connection_id) => Ok(
                        ConnAttributesView {
                            height,
                            connection_id,
                            client_id,
                            counterparty_connection_id,
                            counterparty_client_id,
                        },
                    ),
                },
            },
        },
    }
}

/// Extract the attributes of a connection event, stamping the block height.
pub fn extract_conn_attributes(event: &RawEvent, height: Height) -> (r: Result<
    ConnAttributes,
    EventError,
>)
    ensures
        match r {
            Ok(a) => spec_parse_conn_attributes(event@.attributes, height) == Ok::<
                ConnAttributesView,
                EventErrorView,
            >(a@),
            Err(e) => spec_parse_conn_attributes(event@.attributes, height) == Err::<
                ConnAttributesView,
                EventErrorView,
            >(e@),
        },
{
    let client_id = match req_client_id(&event.attributes, "client_id") {
        Ok(id) => id,
        Err(e) => {
            return Err(e);
        },
    };
    let counterparty_client_id = match req_client_id(&event.attributes, "counterparty_client_id") {
        Ok(id) => id,
        Err(e) => {
            return Err(e);
        },
    };
    let connection_id = match opt_connection_id(&event.attributes, "connection_id") {
        Ok(id) => id,
        Err(e) => {
            return Err(e);
        },
    };
    let counterparty_connection_id = match opt_connection_id(
        &event.attributes,
        "counterparty_connection_id",
    ) {
        Ok(id) => id,
        Err(e) => {
            return Err(e);
        },
    };
    Ok(
        ConnAttributes {
            height,
            connection_id,
            client_id,
            counterparty_connection_id,
            counterparty_client_id,
        },
    )
}

/// The raw attribute list a connection event is encoded to.
pub open spec fn conn_attrs_wire(a: ConnAttributesView) -> Seq<(Seq<char>, Seq<char>)> {
    seq![("client_id"@, a.client_id), ("counterparty_client_id"@, a.counterparty_client_id)] + (
    match a.connection_id {
        Some(c) => seq![("connection_id"@, c)],
        None => Seq::empty(),
    }) + (match a.counterparty_connection_id {
        Some(c) => seq![("counterparty_connection_id"@, c)],
        None => Seq::empty(),
    })
}

/// Encode the attributes of a connection event to their raw form.
pub fn conn_attrs_to_raw(a: &ConnAttributes) -> (r: Vec<(String, String)>)
    ensures
        pairs_view(r@) == conn_attrs_wire(a@),
{
    let mut out: Vec<(String, String)> = Vec::new();
    out.push((String::from_str("client_id"), String::from_str(a.client_id.as_str())));
    out.push(
        (
            String::from_str("counterparty_client_id"),
            String::from_str(a.counterparty_client_id.as_str()),
        ),
    );
    match &a.connection_id {
        Some(c) => {
            out.push((String::from_str("connection_id"), String::from_str(c.as_str())));
        },
        None => {},
    }
    match &a.counterparty_connection_id {
        Some(c) => {
            out.push(
                (String::from_str("counterparty_connection_id"), String::from_str(c.as_str())),
            );
        },
        None => {},
    }
    proof {
        assert(pairs_view(out@) =~= conn_attrs_wire(a@));
    }
    out
}

/// Well-formed connection attributes: every identifier carried is valid.
pub open spec fn conn_attrs_wf(a: ConnAttributesView) -> bool {
    &&& valid_identifier(a.client_id)
    &&& valid_identifier(a.counterparty_client_id)
    &&& (a.connection_id matches Some(c) ==> valid_identifier(c))
    &&& (a.counterparty_connection_id matches Some(c) ==> valid_identifier(c))
}

/// Decoding an encoded connection event's attributes yields them back.
pub proof fn lemma_conn_attrs_round_trip(a: ConnAttributesView)
    requires
        conn_attrs_wf(a),
    ensures
        spec_parse_conn_attributes(conn_attrs_wire(a), a.height) == Ok::<
            ConnAttributesView,
            EventErrorView,
        >(a),
{
    reveal_strlit("client_id");
    reveal_strlit("counterparty_client_id");
    reveal_strlit("connection_id");
    reveal_strlit("counterparty_connection_id");
    assert("client_id"@.len() == 9);
    assert("counterparty_client_id"@.len() == 22);
    assert("connection_id"@.len() == 13);
    assert("counterparty_connection_id"@.len() == 26);
    let attrs = conn_attrs_wire(a);
    lemma_lookup_at(attrs, "client_id"@, 0);
    lemma_lookup_at(attrs, "counterparty_client_id"@, 1);
    match a.connection_id {
        Some(c) => {
            lemma_lookup_at(attrs, "connection_id"@, 2);
        },
        None => {
            lemma_lookup_none(attrs, "connection_id"@);
        },
    }
    match (a.connection_id, a.counterparty_connection_id) {
        (Some(_), Some(c)) => {
            lemma_lookup_at(attrs, "counterparty_connection_id"@, 3);
        },
        (None, Some(c)) => {
            lemma_lookup_at(attrs, "counterparty_connection_id"@, 2);
        },
        (_, None) => {
            lemma_lookup_none(attrs, "counterparty_connection_id"@);
        },
    }
}

/// Decode a raw event as a connection handshake event: an unrecognised type
/// string is `None`, a recognised one with bad attributes is an error.
pub open spec fn spec_conn_event_from_raw(ev: RawEventView, height: Height) -> Result<
    Option<IbcEventView>,
    EventErrorView,
> {
    if ev.event_type == "connection_open_init"@ {
        match spec_parse_conn_attributes(ev.attributes, height) {
            Ok(a) => Ok(Some(IbcEventView::OpenInitConnection(a))),
            Err(e) => Err(e),
        }
    } else if ev.event_type == "connection_open_try"@ {
        match spec_parse_conn_attributes(ev.attributes, height) {
            Ok(a) => Ok(Some(IbcEventView::OpenTryConnection(a))),
            Err(e) => Err(e),
        }
    } else if ev.event_type == "connection_open_ack"@ {
        match spec_parse_conn_attributes(ev.attributes, height) {
            Ok(a) => Ok(Some(IbcEventView::OpenAckConnection(a))),
            Err(e) => Err(e),
        }
    } else if ev.event_type == "connection_open_confirm"@ {
        match spec_parse_conn_attributes(ev.attributes, height) {
            Ok(a) => Ok(Some(IbcEventView::OpenConfirmConnection(a))),
            Err(e) => Err(e),
        }
    } else {
        Ok(None)
    }
}

/// Decode a raw event as a connection event, stamping the block height.
pub fn try_from_tx(event: &RawEvent, height: Height) -> (r: Result<Option<IbcEvent>, EventError>)
    ensures
        match r {
            Ok(Some(e)) => spec_conn_event_from_raw(event@, height) == Ok::<
                Option<IbcEventView>,
                EventErrorView,
            >(Some(e@)),
            Ok(None) => spec_conn_event_from_raw(event@, height) == Ok::<
                Option<IbcEventView>,
                EventErrorView,
            >(None),
            Err(e) => spec_conn_event_from_raw(event@, height) == Err::<
                Option<IbcEventView>,
                EventErrorView,
            >(e@),
        },
{
    let t = event.event_type.as_str();
    if str_eq(t, "connection_open_init") {
        match extract_conn_attributes(event, height) {
            Ok(a) => Ok(Some(IbcEvent::OpenInitConnection(OpenInit(a)))),
            Err(e) => Err(e),
        }
    } else if str_eq(t, "connection_open_try") {
        match extract_conn_attributes(event, height) {
            Ok(a) => Ok(Some(IbcEvent::OpenTryConnection(OpenTry(a)))),
            Err(e) => Err(e),
        }
    } else if str_eq(t, "connection_open_ack") {
        match extract_conn_attributes(event, height) {
            Ok(a) => Ok(Some(IbcEvent::OpenAckConnection(OpenAck(a)))),
            Err(e) => Err(e),
        }
    } else if str_eq(t, "connection_open_confirm") {
        match extract_conn_attributes(event, height) {
            Ok(a) => Ok(Some(IbcEvent::OpenConfirmConnection(OpenConfirm(a)))),
            Err(e) => Err(e),
        }
    } else {
        Ok(None)
    }
}

} // verus!
