//! Client events: emitted by the client handlers and decoded from raw
//! ledger events.

use vstd::prelude::*;
use crate::events::{lemma_lookup_at, lookup_value, pairs_view, req_client_id, req_height_attr,
    spec_lookup, spec_req_height, spec_req_id, EventError, EventErrorView, IbcEvent, IbcEventView,
    RawEvent, RawEventView};
use crate::height::{height_str, height_string, lemma_height_str_round_trip, Height};
use crate::ident::{valid_identifier, ClientId};
use crate::ics02_client::client_type::ClientType;
use crate::wire::str_eq;

verus! {

/// A new block was produced; carries only the height.
#[derive(Clone, Copy, Debug, PartialEq, Eq, Hash, Structural)]
pub struct NewBlock {
    pub height: Height,
}

impl NewBlock {
    pub fn new(height: Height) -> (r: NewBlock)
        ensures
            r.height == height,
    {
        NewBlock { height }
    }

    pub fn height(&self) -> (r: Height)
        ensures
            r == self.height,
    {
        self.height
    }

    pub fn set_height(&mut self, height: Height)
        ensures
            final(self).height == height,
    {
        self.height = height;
    }
}

/// The mathematical content of a client event's attributes.
pub ghost struct ClientAttributesView {
    pub height: Height,
    pub client_id: Seq<char>,
    pub client_type: ClientType,
    pub consensus_height: Height,
}

/// The attributes every client event carries: the client acted on, its
/// kind, and the consensus height involved.
#[derive(Debug)]
pub struct ClientAttributes {
    pub height: Height,
    pub client_id: ClientId,
    pub client_type: ClientType,
    pub consensus_height: Height,
}

impl View for ClientAttributes {
    type V = ClientAttributesView;

    open spec fn view(&self) -> ClientAttributesView {
        ClientAttributesView {
            height: self.height,
            client_id: self.client_id@,
            client_type: self.client_type,
            consensus_height: self.consensus_height,
        }
    }
}

impl Clone for ClientAttributes {
    fn clone(&self) -> (r: Self)
        ensures
            r@ == self@,
    {
        ClientAttributes {
            height: self.height,
            client_id: self.client_id.clone(),
            client_type: self.client_type,
            consensus_height: self.consensus_height,
        }
    }
}

/// A client was created.
#[derive(Clone, Debug)]
pub struct CreateClient(pub ClientAttributes);

impl View for CreateClient {
    type V = ClientAttributesView;

    open spec fn view(&self) -> ClientAttributesView {
        self.0@
    }
}

impl CreateClient {
    pub fn height(&self) -> (r: Height)
        ensures
            r == self@.height,
    {
        self.0.height
    }

    pub fn set_height(&mut self, height: Height)
        ensures
            final(self)@ == (ClientAttributesView { height, ..old(self)@ }),
    {
        self.0.height = height;
    }
}

/// A client was updated with a new consensus state.
#[derive(Clone, Debug)]
pub struct UpdateClient(pub ClientAttributes);

impl View for UpdateClient {
    type V = ClientAttributesView;

    open spec fn view(&self) -> ClientAttributesView {
        self.0@
    }
}

impl UpdateClient {
    pub fn height(&self) -> (r: Height)
        ensures
            r == self@.height,
    {
        self.0.height
    }

    pub fn set_height(&mut self, height: Height)
        ensures
            final(self)@ == (ClientAttributesView { height, ..old(self)@ }),
    {
        self.0.height = height;
    }
}

/// A client was upgraded to a new revision.
#[derive(Clone, Debug)]
pub struct UpgradeClient(pub ClientAttributes);

impl View for UpgradeClient {
    type V = ClientAttributesView;

    open spec fn view(&self) -> ClientAttributesView {
        self.0@
    }
}

impl UpgradeClient {
    pub fn height(&self) -> (r: Height)
        ensures
            r == self@.height,
    {
        self.0.height
    }

    pub fn set_height(&mut self, height: Height)
        ensures
            final(self)@ == (ClientAttributesView { height, ..old(self)@ }),
    {
        self.0.height = height;
    }
}

/// Evidence of client misbehaviour was submitted.
#[derive(Clone, Debug)]
pub struct ClientMisbehaviour(pub ClientAttributes);

impl View for ClientMisbehaviour {
    type V = ClientAttributesView;

    open spec fn view(&self) -> ClientAttributesView {
        self.0@
    }
}

impl ClientMisbehaviour {
    pub fn height(&self) -> (r: Height)
        ensures
            r == self@.height,
    {
        self.0.height
    }

    pub fn set_height(&mut self, height: Height)
        ensures
            final(self)@ == (ClientAttributesView { height, ..old(self)@ }),
    {
        self.0.height = height;
    }
}


/// The wire string of a client type.
pub open spec fn client_type_str(t: ClientType) -> Seq<char> {
    match t {
        ClientType::Tendermint => "07-tendermint"@,
        ClientType::Mock => "mock"@,
    }
}

/// Parse the attributes of a client event: the client acted on, its kind,
/// and the consensus height involved. All three are mandatory.
pub open spec fn spec_parse_client_attributes(
    attrs: Seq<(Seq<char>, Seq<char>)>,
    height: Height,
) -> Result<ClientAttributesView, EventErrorView> {
    match spec_req_id(attrs, "client_id"@) {
        Err(e) => Err(e),
        Ok(client_id) => match spec_lookup(attrs, "client_type"@) {
            None => Err(EventErrorView::MissingKey { key: "client_type"@ }),
            Some(t) => if t == "07-tendermint"@ || t == "mock"@ {
                match spec_req_height(attrs, "consensus_height"@) {
                    Err(e) => Err(e),
                    Ok(consensus_height) => Ok(
                        ClientAttributesView {
                            height,
                            client_id,
                            client_type: if t == "07-tendermint"@ {
                                ClientType::Tendermint
                            } else {
                                ClientType::Mock
                            },
                            consensus_height,
                        },
                    ),
                }
            } else {
                Err(EventErrorView::InvalidAttribute { key: "client_type"@ })
            },
        },
    }
}

/// Extract the attributes of a client event, stamping the block height.
pub fn extract_client_attributes(event: &RawEvent, height: Height) -> (r: Result<
    ClientAttributes,
    EventError,
>)
    ensures
        match r {
            Ok(a) => spec_parse_client_attributes(event@.attributes, height) == Ok::<
                ClientAttributesView,
                EventErrorView,
            >(a@),
            Err(e) => spec_parse_client_attributes(event@.attributes, height) == Err::<
                ClientAttributesView,
                EventErrorView,
            >(e@),
        },
{
    let client_id = match req_client_id(&event.attributes, "client_id") {
        Ok(id) => id,
        Err(e) => {
            return Err(e);
        },
    };
    let client_type = match lookup_value(&event.attributes, "client_type") {
        None => {
            return Err(EventError::MissingKey(String::from_str("client_type")));
        },
        Some(t) => if str_eq(t.as_str(), "07-tendermint") {
            ClientType::Tendermint
        } else if str_eq(t.as_str(), "mock") {
            ClientType::Mock
        } else {
            return Err(EventError::InvalidAttribute(String::from_str("client_type")));
        },
    };
    let consensus_height = match req_height_attr(&event.attributes, "consensus_height") {
        Ok(h) => h,
        Err(e) => {
            return Err(e);
        },
    };
    Ok(ClientAttributes { height, client_id, client_type, consensus_height })
}

/// The raw attribute list a client event is encoded to.
pub open spec fn client_attrs_wire(a: ClientAttributesView) -> Seq<(Seq<char>, Seq<char>)> {
    seq![
        ("client_id"@, a.client_id),
        ("client_type"@, client_type_str(a.client_type)),
        ("consensus_height"@, height_str(a.consensus_height)),
    ]
}

/// Encode the attributes of a client event to their raw form.
pub fn client_attrs_to_raw(a: &ClientAttributes) -> (r: Vec<(String, String)>)
    ensures
        pairs_view(r@) == client_attrs_wire(a@),
{
    let mut out: Vec<(String, String)> = Vec::new();
    out.push((String::from_str("client_id"), String::from_str(a.client_id.as_str())));
    out.push((String::from_str("client_type"), String::from_str(a.client_type.as_str())));
    out.push((String::from_str("consensus_height"), height_string(&a.consensus_height)));
    proof {
        assert(pairs_view(out@) =~= client_attrs_wire(a@));
    }
    out
}

/// Decoding an encoded client event's attributes yields them back.
pub proof fn lemma_client_attrs_round_trip(a: ClientAttributesView)
    requires
        valid_identifier(a.client_id),
    ensures
        spec_parse_client_attributes(client_attrs_wire(a), a.height) == Ok::<
            ClientAttributesView,
            EventErrorView,
        >(a),
{
    reveal_strlit("client_id");
    reveal_strlit("client_type");
    reveal_strlit("consensus_height");
    reveal_strlit("07-tendermint");
    reveal_strlit("mock");
    let attrs = client_attrs_wire(a);
    assert("client_id"@.len() == 9);
    assert("client_type"@.len() == 11);
    assert("consensus_height"@.len() == 16);
    assert("07-tendermint"@.len() == 13);
    assert("mock"@.len() == 4);
    lemma_lookup_at(attrs, "client_id"@, 0);
    lemma_lookup_at(attrs, "client_type"@, 1);
    lemma_lookup_at(attrs, "consensus_height"@, 2);
    lemma_height_str_round_trip(a.consensus_height);
}

/// The wire type strings of the client events.
pub open spec fn spec_client_event_type(e: IbcEventView) -> Seq<char> {
    match e {
        IbcEventView::CreateClient(_) => "create_client"@,
        IbcEventView::UpdateClient(_) => "update_client"@,
        IbcEventView::UpgradeClient(_) => "upgrade_client"@,
        _ => "client_misbehaviour"@,
    }
}

/// Decode a raw event as a client event: an unrecognised type string is
/// `None`, a recognised one with bad attributes is an error.
pub open spec fn spec_client_event_from_raw(ev: RawEventView, height: Height) -> Result<
    Option<IbcEventView>,
    EventErrorView,
> {
    if ev.event_type == "create_client"@ {
        match spec_parse_client_attributes(ev.attributes, height) {
            Ok(a) => Ok(Some(IbcEventView::CreateClient(a))),
            Err(e) => Err(e),
        }
    } else if ev.event_type == "update_client"@ {
        match spec_parse_client_attributes(ev.attributes, height) {
            Ok(a) => Ok(Some(IbcEventView::UpdateClient(a))),
            Err(e) => Err(e),
        }
    } else if ev.event_type == "upgrade_client"@ {
        match spec_parse_client_attributes(ev.attributes, height) {
            Ok(a) => Ok(Some(IbcEventView::UpgradeClient(a))),
            Err(e) => Err(e),
        }
    } else if ev.event_type == "client_misbehaviour"@ {
        match spec_parse_client_attributes(ev.attributes, height) {
            Ok(a) => Ok(Some(IbcEventView::ClientMisbehaviour(a))),
            Err(e) => Err(e),
        }
    } else {
        Ok(None)
    }
}

/// Decode a raw event as a client event, stamping the block height.
pub fn try_from_tx(event: &RawEvent, height: Height) -> (r: Result<Option<IbcEvent>, EventError>)
    ensures
        match r {
            Ok(Some(e)) => spec_client_event_from_raw(event@, height) == Ok::<
                Option<IbcEventView>,
                EventErrorView,
            >(Some(e@)),
            Ok(None) => spec_client_event_from_raw(event@, height) == Ok::<
                Option<IbcEventView>,
                EventErrorView,
            >(None),
            Err(e) => spec_client_event_from_raw(event@, height) == Err::<
                Option<IbcEventView>,
                EventErrorView,
            >(e@),
        },
{
    let t = event.event_type.as_str();
    if str_eq(t, "create_client") {
        match extract_client_attributes(event, height) {
            Ok(a) => Ok(Some(IbcEvent::CreateClient(CreateClient(a)))),
            Err(e) => Err(e),
        }
    } else if str_eq(t, "update_client") {
        match extract_client_attributes(event, height) {
            Ok(a) => Ok(Some(IbcEvent::UpdateClient(UpdateClient(a)))),
            Err(e) => Err(e),
        }
    } else if str_eq(t, "upgrade_client") {
        match extract_client_attributes(event, height) {
            Ok(a) => Ok(Some(IbcEvent::UpgradeClient(UpgradeClient(a)))),
            Err(e) => Err(e),
        }
    } else if str_eq(t, "client_misbehaviour") {
        match extract_client_attributes(event, height) {
            Ok(a) => Ok(Some(IbcEvent::ClientMisbehaviour(ClientMisbehaviour(a)))),
            Err(e) => Err(e),
        }
    } else {
        Ok(None)
    }
}

} // verus!
