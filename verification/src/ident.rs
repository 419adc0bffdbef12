//! Typed ledger identifiers.
//!
//! Chain, client, connection, channel and port identifiers are validated
//! strings: the core treats them as opaque but comparable. Validation admits
//! the character set of the host ledger (`ICS-024`): alphanumerics and
//! `.`, `_`, `+`, `-`, `#`, `[`, `]`, `<`, `>`, with a length of 1 to 64.
//! A chain identifier additionally encodes its revision number in a
//! trailing `-N` suffix.

use vstd::prelude::*;
use crate::decimal::{dec_str, u64_to_dec};

verus! {

pub open spec fn valid_id_char(c: char) -> bool {
    ('a' <= c && c <= 'z') || ('A' <= c && c <= 'Z') || ('0' <= c && c <= '9') || c == '.' || c
        == '_' || c == '+' || c == '-' || c == '#' || c == '[' || c == ']' || c == '<' || c == '>'
}

pub open spec fn valid_identifier(s: Seq<char>) -> bool {
    1 <= s.len() <= 64 && forall|i: int| 0 <= i < s.len() ==> valid_id_char(#[trigger] s[i])
}

/// Check a candidate identifier against the character set and length bounds.
pub fn validate_identifier(s: &str) -> (r: bool)
    ensures
        r == valid_identifier(s@),
{
    let n = s.unicode_len();
    if n < 1 || n > 64 {
        return false;
    }
    let mut i: usize = 0;
    while i < n
        invariant
            n == s@.len(),
            1 <= n <= 64,
            0 <= i <= n,
            forall|j: int| 0 <= j < i ==> valid_id_char(#[trigger] s@[j]),
        decreases n - i,
    {
        let c = s.get_char(i);
        let ok = ('a' <= c && c <= 'z') || ('A' <= c && c <= 'Z') || ('0' <= c && c <= '9') || c
            == '.' || c == '_' || c == '+' || c == '-' || c == '#' || c == '[' || c == ']' || c
            == '<' || c == '>';
        if !ok {
            return false;
        }
        i = i + 1;
    }
    true
}

/// A port identifier.
#[derive(Debug, Eq, Hash, PartialOrd, Ord)]
pub struct PortId(String);

impl DeepView for PortId {
    type V = Seq<char>;

    open spec fn deep_view(&self) -> Seq<char> {
        self.view()
    }
}

impl View for PortId {
    type V = Seq<char>;

    closed spec fn view(&self) -> Seq<char> {
        self.0@
    }
}

impl PortId {
    pub open spec fn is_valid(&self) -> bool {
        valid_identifier(self@)
    }

    /// Accept the string as a port identifier if it is well-formed.
    pub fn new(s: String) -> (r: Option<PortId>)
        ensures
            r is Some <==> valid_identifier(s@),
            r matches Some(id) ==> id@ == s@,
    {
        if validate_identifier(s.as_str()) {
            Some(PortId(s))
        } else {
            None
        }
    }

    pub fn as_str(&self) -> (r: &str)
        ensures
            r@ == self@,
    {
        self.0.as_str()
    }
}

impl Default for PortId {
    /// The placeholder identifier used by tests and mock state.
    fn default() -> (r: PortId)
        ensures
            r@ == "defaultPort"@,
    {
        PortId(String::from_str("defaultPort"))
    }
}

impl Clone for PortId {
    fn clone(&self) -> (r: Self)
        ensures
            r@ == self@,
            r.is_valid() == self.is_valid(),
    {
        PortId(self.0.clone())
    }
}

impl PartialEq for PortId {
    fn eq(&self, other: &PortId) -> (r: bool) {
        self.0 == other.0
    }
}

impl vstd::std_specs::cmp::PartialEqSpecImpl for PortId {
    open spec fn obeys_eq_spec() -> bool {
        true
    }

    open spec fn eq_spec(&self, other: &PortId) -> bool {
        self@ == other@
    }
}

/// A channel identifier.
#[derive(Debug, Eq, Hash, PartialOrd, Ord)]
pub struct ChannelId(String);

impl DeepView for ChannelId {
    type V = Seq<char>;

    open spec fn deep_view(&self) -> Seq<char> {
        self.view()
    }
}

impl View for ChannelId {
    type V = Seq<char>;

    closed spec fn view(&self) -> Seq<char> {
        self.0@
    }
}

impl ChannelId {
    pub open spec fn is_valid(&self) -> bool {
        valid_identifier(self@)
    }

    /// Accept the string as a channel identifier if it is well-formed.
    pub fn new(s: String) -> (r: Option<ChannelId>)
        ensures
            r is Some <==> valid_identifier(s@),
            r matches Some(id) ==> id@ == s@,
    {
        if validate_identifier(s.as_str()) {
            Some(ChannelId(s))
        } else {
            None
        }
    }

    pub fn as_str(&self) -> (r: &str)
        ensures
            r@ == self@,
    {
        self.0.as_str()
    }
}

impl Default for ChannelId {
    /// The placeholder identifier used by tests and mock state.
    fn default() -> (r: ChannelId)
        ensures
            r@ == "defaultChannel"@,
    {
        ChannelId(String::from_str("defaultChannel"))
    }
}

impl Clone for ChannelId {
    fn clone(&self) -> (r: Self)
        ensures
            r@ == self@,
            r.is_valid() == self.is_valid(),
    {
        ChannelId(self.0.clone())
    }
}

impl PartialEq for ChannelId {
    fn eq(&self, other: &ChannelId) -> (r: bool) {
        self.0 == other.0
    }
}

impl vstd::std_specs::cmp::PartialEqSpecImpl for ChannelId {
    open spec fn obeys_eq_spec() -> bool {
        true
    }

    open spec fn eq_spec(&self, other: &ChannelId) -> bool {
        self@ == other@
    }
}

/// A connection identifier.
#[derive(Debug, Eq, Hash, PartialOrd, Ord)]
pub struct ConnectionId(String);

impl DeepView for ConnectionId {
    type V = Seq<char>;

    open spec fn deep_view(&self) -> Seq<char> {
        self.view()
    }
}

impl View for ConnectionId {
    type V = Seq<char>;

    closed spec fn view(&self) -> Seq<char> {
        self.0@
    }
}

impl ConnectionId {
    pub open spec fn is_valid(&self) -> bool {
        valid_identifier(self@)
    }

    /// Accept the string as a connection identifier if it is well-formed.
    pub fn new(s: String) -> (r: Option<ConnectionId>)
        ensures
            r is Some <==> valid_identifier(s@),
            r matches Some(id) ==> id@ == s@,
    {
        if validate_identifier(s.as_str()) {
            Some(ConnectionId(s))
        } else {
            None
        }
    }

    pub fn as_str(&self) -> (r: &str)
        ensures
            r@ == self@,
    {
        self.0.as_str()
    }
}

impl Default for ConnectionId {
    /// The placeholder identifier used by tests and mock state.
    fn default() -> (r: ConnectionId)
        ensures
            r@ == "defaultConnection"@,
    {
        ConnectionId(String::from_str("defaultConnection"))
    }
}

impl Clone for ConnectionId {
    fn clone(&self) -> (r: Self)
        ensures
            r@ == self@,
            r.is_valid() == self.is_valid(),
    {
        ConnectionId(self.0.clone())
    }
}

impl PartialEq for ConnectionId {
    fn eq(&self, other: &ConnectionId) -> (r: bool) {
        self.0 == other.0
    }
}

impl vstd::std_specs::cmp::PartialEqSpecImpl for ConnectionId {
    open spec fn obeys_eq_spec() -> bool {
        true
    }

    open spec fn eq_spec(&self, other: &ConnectionId) -> bool {
        self@ == other@
    }
}

/// A client identifier.
#[derive(Debug, Eq, Hash, PartialOrd, Ord)]
pub struct ClientId(String);

impl DeepView for ClientId {
    type V = Seq<char>;

    open spec fn deep_view(&self) -> Seq<char> {
        self.view()
    }
}

impl View for ClientId {
    type V = Seq<char>;

    closed spec fn view(&self) -> Seq<char> {
        self.0@
    }
}

impl ClientId {
    pub open spec fn is_valid(&self) -> bool {
        valid_identifier(self@)
    }

    /// Accept the string as a client identifier if it is well-formed.
    pub fn new(s: String) -> (r: Option<ClientId>)
        ensures
            r is Some <==> valid_identifier(s@),
            r matches Some(id) ==> id@ == s@,
    {
        if validate_identifier(s.as_str()) {
            Some(ClientId(s))
        } else {
            None
        }
    }

    pub fn as_str(&self) -> (r: &str)
        ensures
            r@ == self@,
    {
        self.0.as_str()
    }
}

impl Default for ClientId {
    /// The placeholder identifier used by tests and mock state.
    fn default() -> (r: ClientId)
        ensures
            r@ == "07-tendermint-0"@,
    {
        ClientId(String::from_str("07-tendermint-0"))
    }
}

impl Clone for ClientId {
    fn clone(&self) -> (r: Self)
        ensures
            r@ == self@,
            r.is_valid() == self.is_valid(),
    {
        ClientId(self.0.clone())
    }
}

impl PartialEq for ClientId {
    fn eq(&self, other: &ClientId) -> (r: bool) {
        self.0 == other.0
    }
}

impl vstd::std_specs::cmp::PartialEqSpecImpl for ClientId {
    open spec fn obeys_eq_spec() -> bool {
        true
    }

    open spec fn eq_spec(&self, other: &ClientId) -> bool {
        self@ == other@
    }
}

/// The view of a chain identifier built from a name and a revision number.
pub open spec fn chain_id_str(name: Seq<char>, version: u64) -> Seq<char> {
    name + seq!['-'] + dec_str(version as nat)
}

/// A chain identifier; its trailing `-N` suffix encodes the revision number.
#[derive(Debug, Eq, Hash, PartialOrd, Ord)]
pub struct ChainId {
    name: String,
    version: u64,
}

impl DeepView for ChainId {
    type V = Seq<char>;

    open spec fn deep_view(&self) -> Seq<char> {
        self.view()
    }
}

impl View for ChainId {
    type V = Seq<char>;

    closed spec fn view(&self) -> Seq<char> {
        chain_id_str(self.name@, self.version)
    }
}

impl ChainId {
    /// Build a chain identifier from a chain name and a revision number.
    pub fn new(name: String, version: u64) -> (r: ChainId)
        ensures
            r@ == chain_id_str(name@, version),
            r.spec_name() == name@,
            r.spec_version() == version,
    {
        ChainId { name, version }
    }

    pub closed spec fn spec_name(&self) -> Seq<char> {
        self.name@
    }

    pub closed spec fn spec_version(&self) -> u64 {
        self.version
    }

    /// The identifier string is the name with the `-version` suffix.
    pub proof fn lemma_view(&self)
        ensures
            self@ == chain_id_str(self.spec_name(), self.spec_version()),
    {
    }

    /// The chain name, without the revision suffix.
    pub fn name(&self) -> (r: &str)
        ensures
            r@ == self.spec_name(),
    {
        self.name.as_str()
    }

    /// The revision number carried in the identifier's suffix.
    pub fn version(&self) -> (r: u64)
        ensures
            r == self.spec_version(),
    {
        self.version
    }

    /// The full identifier string, `name-version`.
    pub fn id_string(&self) -> (r: String)
        ensures
            r@ == self@,
    {
        let mut id = self.name.clone();
        id.append("-");
        let dec = u64_to_dec(self.version);
        id.append(dec.as_str());
        proof {
            reveal_strlit("-");
            assert(id@ =~= chain_id_str(self.name@, self.version));
        }
        id
    }
}

impl Clone for ChainId {
    fn clone(&self) -> (r: Self)
        ensures
            r@ == self@,
            r.spec_name() == self.spec_name(),
            r.spec_version() == self.spec_version(),
    {
        ChainId { name: self.name.clone(), version: self.version }
    }
}

impl PartialEq for ChainId {
    fn eq(&self, other: &ChainId) -> (r: bool) {
        self.name == other.name && self.version == other.version
    }
}

impl vstd::std_specs::cmp::PartialEqSpecImpl for ChainId {
    open spec fn obeys_eq_spec() -> bool {
        true
    }

    open spec fn eq_spec(&self, other: &ChainId) -> bool {
        self.spec_name() == other.spec_name() && self.spec_version() == other.spec_version()
    }
}

} // verus!
