//! Protocol types of the Model Context Protocol, revision 2025-03-26.

pub mod annotations;
pub mod completion;
pub mod json_rpc;
pub mod logging;
pub mod messages;
pub mod prompts;
pub mod resources;
pub mod roots;
pub mod sampling;
pub mod tools;
pub mod wire;

use crate::error::Error;
use crate::json::{
    lemma_lookup_empty, lemma_lookup_push, Json, JsonValue, members_view, put_str, str_eq,
};
use crate::protocol::wire::{member, required, Wire};
use vstd::prelude::*;

verus! {

/// Latest protocol version supported by this library.
pub const LATEST_PROTOCOL_VERSION: &'static str = "2025-03-26";

/// An opaque token used to represent a cursor for pagination.
pub type Cursor = String;

/// Describes the name and version of an MCP implementation.
#[derive(Debug, Clone, PartialEq)]
pub struct Implementation {
    /// Name of the implementation.
    pub name: String,
    /// Version of the implementation.
    pub version: String,
}

/// The mathematical value of an [`Implementation`].
pub struct ImplementationView {
    pub name: Seq<char>,
    pub version: Seq<char>,
}

impl View for Implementation {
    type V = ImplementationView;

    open spec fn view(&self) -> ImplementationView {
        ImplementationView { name: self.name@, version: self.version@ }
    }
}

impl Implementation {
    /// Create a new Implementation.
    pub fn new(name: &str, version: &str) -> (r: Implementation)
        ensures
            r@ == (ImplementationView { name: name@, version: version@ }),
    {
        Implementation { name: name.to_owned(), version: version.to_owned() }
    }

    /// A copy of the value.
    pub fn duplicate(&self) -> (r: Implementation)
        ensures
            r@ == self@,
    {
        Implementation { name: self.name.clone(), version: self.version.clone() }
    }
}

impl Wire for Implementation {
    open spec fn encode(v: ImplementationView) -> JsonValue {
        let m = Seq::empty();
        let m = m.push(("name"@, JsonValue::Str(v.name)));
        let m = m.push(("version"@, JsonValue::Str(v.version)));
        JsonValue::Object(m)
    }

    open spec fn decode(j: JsonValue) -> Option<ImplementationView> {
        match (member::<String>(j, "name"@), member::<String>(j, "version"@)) {
            (Some(name), Some(version)) => Some(ImplementationView { name, version }),
            _ => None,
        }
    }

    open spec fn lossless(v: ImplementationView) -> bool {
        true
    }

    proof fn lemma_round_trip(v: ImplementationView) {
        let m = Seq::empty().push(("name"@, JsonValue::Str(v.name)));
        lemma_lookup_empty("name"@);
        lemma_lookup_empty("version"@);
        lemma_lookup_push(Seq::empty(), "name"@, JsonValue::Str(v.name), "name"@);
        lemma_lookup_push(Seq::empty(), "name"@, JsonValue::Str(v.name), "version"@);
        lemma_lookup_push(m, "version"@, JsonValue::Str(v.version), "name"@);
        lemma_lookup_push(m, "version"@, JsonValue::Str(v.version), "version"@);
        reveal_strlit("name");
        reveal_strlit("version");
        assert("name"@.len() == 4 && "version"@.len() == 7);
    }

    fn to_json(&self) -> (j: Json) {
        let mut members: Vec<(String, Json)> = Vec::new();
        assert(members_view(members@) =~= Seq::empty());
        put_str(&mut members, "name", self.name.as_str());
        put_str(&mut members, "version", self.version.as_str());
        Json::object(members)
    }

    fn from_json(j: &Json) -> (r: Result<Implementation, Error>) {
        let name = required::<String>(j, "name")?;
        let version = required::<String>(j, "version")?;
        Ok(Implementation { name, version })
    }
}

/// The sender or recipient of messages and data in a conversation.
#[derive(Debug, Clone, Copy, PartialEq, Eq, Hash, Structural)]
pub enum Role {
    /// A user or human participant.
    User,
    /// An AI assistant.
    Assistant,
}

impl Role {
    /// The wire name of the role.
    pub open spec fn name(self) -> Seq<char> {
        match self {
            Role::User => "user"@,
            Role::Assistant => "assistant"@,
        }
    }

    /// The role with the given wire name.
    pub open spec fn named(name: Seq<char>) -> Option<Role> {
        if name == "user"@ {
            Some(Role::User)
        } else if name == "assistant"@ {
            Some(Role::Assistant)
        } else {
            None
        }
    }

    /// The wire name of the role.
    pub fn as_str(&self) -> (s: &'static str)
        ensures
            s@ == self.name(),
    {
        match self {
            Role::User => "user",
            Role::Assistant => "assistant",
        }
    }

    /// The role with the given wire name.
    pub fn parse(name: &str) -> (r: Option<Role>)
        ensures
            r == Role::named(name@),
    {
        if str_eq(name, "user") {
            Some(Role::User)
        } else if str_eq(name, "assistant") {
            Some(Role::Assistant)
        } else {
            None
        }
    }
}

impl View for Role {
    type V = Role;

    open spec fn view(&self) -> Role {
        *self
    }
}

impl Wire for Role {
    open spec fn encode(v: Role) -> JsonValue {
        JsonValue::Str(v.name())
    }

    open spec fn decode(j: JsonValue) -> Option<Role> {
        match j {
            JsonValue::Str(s) => Role::named(s),
            _ => None,
        }
    }

    open spec fn lossless(v: Role) -> bool {
        true
    }

    proof fn lemma_round_trip(v: Role) {
        reveal_strlit("user");
        reveal_strlit("assistant");
        assert("user"@.len() == 4 && "assistant"@.len() == 9);
    }

    fn to_json(&self) -> (j: Json) {
        Json::string(self.as_str())
    }

    fn from_json(j: &Json) -> (r: Result<Role, Error>) {
        match j.as_str() {
            Some(s) => match Role::parse(s) {
                Some(role) => Ok(role),
                None => Err(Error::parse("unknown role")),
            },
            None => Err(Error::parse("expected a role name")),
        }
    }
}

/// A progress token, used to associate progress notifications with the
/// request that they report on.
#[derive(Debug, Clone, PartialEq)]
pub enum ProgressToken {
    /// String token.
    String(String),
    /// Integer token.
    Integer(i64),
}

/// A unique request ID for JSON-RPC messages.
#[derive(Debug, Clone, PartialEq, Eq, Hash)]
pub enum RequestId {
    /// String ID.
    String(String),
    /// Integer ID.
    Integer(i64),
}

/// The mathematical value of a [`RequestId`] or a [`ProgressToken`].
pub enum IdView {
    String(Seq<char>),
    Integer(i64),
}

impl IdView {
    /// The wire form: a string or an integer.
    pub open spec fn encode(self) -> JsonValue {
        match self {
            IdView::String(s) => JsonValue::Str(s),
            IdView::Integer(i) => JsonValue::integer(i),
        }
    }

    /// Reads the wire form: a string, or an integer that fits in `i64`.
    pub open spec fn decode(j: JsonValue) -> Option<IdView> {
        match j {
            JsonValue::Str(s) => Some(IdView::String(s)),
            JsonValue::Number(n) => match n.int_value() {
                Some(i) => Some(IdView::Integer(i)),
                None => None,
            },
            _ => None,
        }
    }
}

/// Reading back the wire form of an id gives the id.
pub proof fn lemma_id_round_trip(id: IdView)
    ensures
        IdView::decode(id.encode()) == Some(id),
{
}

impl View for RequestId {
    type V = IdView;

    open spec fn view(&self) -> IdView {
        match self {
            RequestId::String(s) => IdView::String(s@),
            RequestId::Integer(i) => IdView::Integer(*i),
        }
    }
}

impl View for ProgressToken {
    type V = IdView;

    open spec fn view(&self) -> IdView {
        match self {
            ProgressToken::String(s) => IdView::String(s@),
            ProgressToken::Integer(i) => IdView::Integer(*i),
        }
    }
}

impl RequestId {
    /// An id made of a string.
    pub fn from_str(s: &str) -> (id: RequestId)
        ensures
            id@ == IdView::String(s@),
    {
        RequestId::String(s.to_owned())
    }

    /// An id made of an integer.
    pub fn from_i64(i: i64) -> (id: RequestId)
        ensures
            id@ == IdView::Integer(i),
    {
        RequestId::Integer(i)
    }

    /// A copy of the id.
    pub fn duplicate(&self) -> (id: RequestId)
        ensures
            id@ == self@,
    {
        match self {
            RequestId::String(s) => RequestId::String(s.clone()),
            RequestId::Integer(i) => RequestId::Integer(*i),
        }
    }

    /// Whether two ids are the same.
    pub fn same(&self, other: &RequestId) -> (r: bool)
        ensures
            r == (self@ == other@),
    {
        match (self, other) {
            (RequestId::String(a), RequestId::String(b)) => str_eq(
                a.as_str(),
                b.as_str(),
            ),
            (RequestId::Integer(a), RequestId::Integer(b)) => *a == *b,
            _ => false,
        }
    }
}

impl From<String> for RequestId {
    fn from(s: String) -> (id: RequestId) {
        RequestId::String(s)
    }
}

impl vstd::std_specs::convert::FromSpecImpl<String> for RequestId {
    open spec fn obeys_from_spec() -> bool {
        true
    }

    open spec fn from_spec(s: String) -> RequestId {
        RequestId::String(s)
    }
}

impl From<i64> for RequestId {
    fn from(i: i64) -> (id: RequestId) {
        RequestId::Integer(i)
    }
}

impl vstd::std_specs::convert::FromSpecImpl<i64> for RequestId {
    open spec fn obeys_from_spec() -> bool {
        true
    }

    open spec fn from_spec(i: i64) -> RequestId {
        RequestId::Integer(i)
    }
}

impl From<i32> for RequestId {
    fn from(i: i32) -> (id: RequestId) {
        RequestId::Integer(i as i64)
    }
}

impl vstd::std_specs::convert::FromSpecImpl<i32> for RequestId {
    open spec fn obeys_from_spec() -> bool {
        true
    }

    open spec fn from_spec(i: i32) -> RequestId {
        RequestId::Integer(i as i64)
    }
}

impl From<u32> for RequestId {
    fn from(i: u32) -> (id: RequestId) {
        RequestId::Integer(i as i64)
    }
}

impl vstd::std_specs::convert::FromSpecImpl<u32> for RequestId {
    open spec fn obeys_from_spec() -> bool {
        true
    }

    open spec fn from_spec(i: u32) -> RequestId {
        RequestId::Integer(i as i64)
    }
}

impl Wire for RequestId {
    open spec fn encode(v: IdView) -> JsonValue {
        v.encode()
    }

    open spec fn decode(j: JsonValue) -> Option<IdView> {
        IdView::decode(j)
    }

    open spec fn lossless(v: IdView) -> bool {
        true
    }

    proof fn lemma_round_trip(v: IdView) {
        lemma_id_round_trip(v);
    }

    fn to_json(&self) -> (j: Json) {
        match self {
            RequestId::String(s) => Json::string(s.as_str()),
            RequestId::Integer(i) => Json::integer(*i),
        }
    }

    fn from_json(j: &Json) -> (r: Result<RequestId, Error>) {
        match j {
            Json::Str(s) => Ok(RequestId::String(s.clone())),
            Json::Number(n) => match n.as_i64() {
                Some(i) => Ok(RequestId::Integer(i)),
                None => Err(Error::parse("an id must be a string or an integer")),
            },
            _ => Err(Error::parse("an id must be a string or an integer")),
        }
    }
}

impl ProgressToken {
    /// A copy of the token.
    pub fn duplicate(&self) -> (t: ProgressToken)
        ensures
            t@ == self@,
    {
        match self {
            ProgressToken::String(s) => ProgressToken::String(s.clone()),
            ProgressToken::Integer(i) => ProgressToken::Integer(*i),
        }
    }

    /// The request id with the same value as this token.
    pub fn to_request_id(&self) -> (id: RequestId)
        ensures
            id@ == self@,
    {
        match self {
            ProgressToken::String(s) => RequestId::String(s.clone()),
            ProgressToken::Integer(i) => RequestId::Integer(*i),
        }
    }
}

impl Wire for ProgressToken {
    open spec fn encode(v: IdView) -> JsonValue {
        v.encode()
    }

    open spec fn decode(j: JsonValue) -> Option<IdView> {
        IdView::decode(j)
    }

    open spec fn lossless(v: IdView) -> bool {
        true
    }

    proof fn lemma_round_trip(v: IdView) {
        lemma_id_round_trip(v);
    }

    fn to_json(&self) -> (j: Json) {
        match self {
            ProgressToken::String(s) => Json::string(s.as_str()),
            ProgressToken::Integer(i) => Json::integer(*i),
        }
    }

    fn from_json(j: &Json) -> (r: Result<ProgressToken, Error>) {
        match j {
            Json::Str(s) => Ok(ProgressToken::String(s.clone())),
            Json::Number(n) => match n.as_i64() {
                Some(i) => Ok(ProgressToken::Integer(i)),
                None => Err(Error::parse("a token must be a string or an integer")),
            },
            _ => Err(Error::parse("a token must be a string or an integer")),
        }
    }
}

} // verus!
