//! Protocol types and definitions for MCP roots.

use crate::error::Error;
use crate::json::{
    duplicate_opt, lemma_lookup_empty, lemma_lookup_push, lemma_lookup_push_opt, members_view,
    opt_view, push_opt, put_str, Json, JsonValue,
};
use crate::protocol::wire::{
    all_lossless, encode_list, encode_opt, lemma_list_member, lemma_member, lemma_opt_member,
    list_member, member, opt_lossless, opt_member, optional, put_list, put_opt_value, required,
    required_list, view_opt, views, Wire,
};
use crate::protocol::messages::{MessageResult, Notification, Request};
use crate::utils::text::starts_with;
use vstd::prelude::*;

verus! {

/// Represents a root directory or file that the server can operate on.
#[derive(Debug, Clone, PartialEq)]
pub struct Root {
    /// The URI identifying the root. This must start with `file://`.
    pub uri: String,
    /// An optional name for the root, for display.
    pub name: Option<String>,
}

/// The mathematical value of a [`Root`].
pub struct RootView {
    pub uri: Seq<char>,
    pub name: Option<Seq<char>>,
}

impl View for Root {
    type V = RootView;

    open spec fn view(&self) -> RootView {
        RootView {
            uri: self.uri@,
            name: view_opt(self.name),
        }
    }
}

impl Root {
    /// Create a new root with a URI.
    pub fn new(uri: &str) -> (r: Root)
        ensures
            r@ == (RootView {
                uri: uri@,
                name: None,
            }),
    {
        Root {
            uri: uri.to_owned(),
            name: None,
        }
    }

    /// Create a new root with a URI and name.
    pub fn with_name(uri: &str, name: &str) -> (r: Root)
        ensures
            r@ == (RootView {
                uri: uri@,
                name: Some(name@),
            }),
    {
        Root {
            uri: uri.to_owned(),
            name: Some(name.to_owned()),
        }
    }

    /// Verify if the root URI is valid (currently must start with file://).
    pub fn is_valid(&self) -> (r: bool)
        ensures
            r == self@.valid(),
    {
        starts_with(self.uri.as_str(), "file://")
    }
}

impl Wire for Root {
    open spec fn encode(v: RootView) -> JsonValue {
        let m = Seq::empty();
        let m = m.push(("uri"@, JsonValue::Str(v.uri)));
        let m = push_opt(m, "name"@, encode_opt::<String>(v.name));
        JsonValue::Object(m)
    }

    open spec fn decode(j: JsonValue) -> Option<RootView> {
        match (
            member::<String>(j, "uri"@),
            opt_member::<String>(j, "name"@),
        ) {
            (Some(uri), Some(name)) => Some(
                RootView { uri, name },
            ),
            _ => None,
        }
    }

    open spec fn lossless(v: RootView) -> bool {
        true
    }

    proof fn lemma_round_trip(v: RootView) {
        reveal_strlit("uri");
        reveal_strlit("name");
        assert("uri"@.len() == 3);
        assert("name"@.len() == 4);
        let m0 = Seq::<(Seq<char>, JsonValue)>::empty();
        let m1 = m0.push(("uri"@, JsonValue::Str(v.uri)));
        let m2 = push_opt(m1, "name"@, encode_opt::<String>(v.name));
        lemma_lookup_empty("uri"@);
        lemma_lookup_push(m0, "uri"@, JsonValue::Str(v.uri), "uri"@);
        lemma_lookup_push_opt(m1, "name"@, encode_opt::<String>(v.name), "uri"@);
        lemma_lookup_empty("name"@);
        lemma_lookup_push(m0, "uri"@, JsonValue::Str(v.uri), "name"@);
        lemma_lookup_push_opt(m1, "name"@, encode_opt::<String>(v.name), "name"@);
        let j = JsonValue::Object(m2);
        lemma_member::<String>(j, "uri"@, v.uri);
        lemma_opt_member::<String>(j, "name"@, v.name);
    }

    fn to_json(&self) -> (j: Json) {
        let mut members: Vec<(String, Json)> = Vec::new();
        assert(members_view(members@) =~= Seq::empty());
        put_str(&mut members, "uri", self.uri.as_str());
        put_opt_value(&mut members, "name", &self.name);
        Json::object(members)
    }

    fn from_json(j: &Json) -> (r: Result<Root, Error>) {
        let uri = required::<String>(j, "uri")?;
        let name = optional::<String>(j, "name")?;
        Ok(Root { uri, name })
    }
}

impl RootView {
    /// A root is valid when its URI begins with `file://`.
    pub open spec fn valid(self) -> bool {
        "file://"@.is_prefix_of(self.uri)
    }
}

/// Sent from the server to request a list of root URIs from the client.
#[derive(Debug, Clone, PartialEq)]
pub struct ListRootsRequest {
    /// The method name, always "roots/list".
    pub method: String,
    /// The request parameters.
    pub params: Option<Json>,
}

/// The mathematical value of a [`ListRootsRequest`].
pub struct ListRootsRequestView {
    pub method: Seq<char>,
    pub params: Option<JsonValue>,
}

impl View for ListRootsRequest {
    type V = ListRootsRequestView;

    open spec fn view(&self) -> ListRootsRequestView {
        ListRootsRequestView {
            method: self.method@,
            params: view_opt(self.params),
        }
    }
}

impl ListRootsRequest {
    /// Create a new list roots request.
    pub fn new() -> (r: ListRootsRequest)
        ensures
            r@ == (ListRootsRequestView {
                method: "roots/list"@,
                params: None,
            }),
    {
        ListRootsRequest {
            method: "roots/list".to_owned(),
            params: None,
        }
    }
}

impl Wire for ListRootsRequest {
    open spec fn encode(v: ListRootsRequestView) -> JsonValue {
        let m = Seq::empty();
        let m = m.push(("method"@, JsonValue::Str(v.method)));
        let m = push_opt(m, "params"@, encode_opt::<Json>(v.params));
        JsonValue::Object(m)
    }

    open spec fn decode(j: JsonValue) -> Option<ListRootsRequestView> {
        match (
            member::<String>(j, "method"@),
            opt_member::<Json>(j, "params"@),
        ) {
            (Some(method), Some(params)) => Some(
                ListRootsRequestView { method, params },
            ),
            _ => None,
        }
    }

    open spec fn lossless(v: ListRootsRequestView) -> bool {
        opt_lossless::<Json>(v.params)
    }

    proof fn lemma_round_trip(v: ListRootsRequestView) {
        reveal_strlit("method");
        reveal_strlit("params");
        assert("method"@.len() == 6);
        assert("params"@.len() == 6);
        assert("method"@[0] != "params"@[0]);
        let m0 = Seq::<(Seq<char>, JsonValue)>::empty();
        let m1 = m0.push(("method"@, JsonValue::Str(v.method)));
        let m2 = push_opt(m1, "params"@, encode_opt::<Json>(v.params));
        lemma_lookup_empty("method"@);
        lemma_lookup_push(m0, "method"@, JsonValue::Str(v.method), "method"@);
        lemma_lookup_push_opt(m1, "params"@, encode_opt::<Json>(v.params), "method"@);
        lemma_lookup_empty("params"@);
        lemma_lookup_push(m0, "method"@, JsonValue::Str(v.method), "params"@);
        lemma_lookup_push_opt(m1, "params"@, encode_opt::<Json>(v.params), "params"@);
        let j = JsonValue::Object(m2);
        lemma_member::<String>(j, "method"@, v.method);
        lemma_opt_member::<Json>(j, "params"@, v.params);
    }

    fn to_json(&self) -> (j: Json) {
        let mut members: Vec<(String, Json)> = Vec::new();
        assert(members_view(members@) =~= Seq::empty());
        put_str(&mut members, "method", self.method.as_str());
        put_opt_value(&mut members, "params", &self.params);
        Json::object(members)
    }

    fn from_json(j: &Json) -> (r: Result<ListRootsRequest, Error>) {
        let method = required::<String>(j, "method")?;
        let params = optional::<Json>(j, "params")?;
        Ok(ListRootsRequest { method, params })
    }
}

impl Request for ListRootsRequest {
    open spec fn method_name(&self) -> Seq<char> {
        self.method@
    }

    open spec fn params_value(&self) -> Option<JsonValue> {
        opt_view(self.params)
    }

    fn method(&self) -> (m: &str) {
        self.method.as_str()
    }

    fn params(&self) -> (p: Option<Json>) {
        duplicate_opt(&self.params)
    }
}

/// The client's response to a roots/list request from the server.
#[derive(Debug, Clone, PartialEq)]
pub struct ListRootsResult {
    /// The available roots.
    pub roots: Vec<Root>,
    /// Optional metadata.
    pub meta: Option<Json>,
}

/// The mathematical value of a [`ListRootsResult`].
pub struct ListRootsResultView {
    pub roots: Seq<RootView>,
    pub meta: Option<JsonValue>,
}

impl View for ListRootsResult {
    type V = ListRootsResultView;

    open spec fn view(&self) -> ListRootsResultView {
        ListRootsResultView {
            roots: views(self.roots@),
            meta: view_opt(self.meta),
        }
    }
}

impl ListRootsResult {
    /// Create a new list roots result.
    pub fn new(roots: Vec<Root>) -> (r: ListRootsResult)
        ensures
            r@ == (ListRootsResultView {
                roots: views(roots@),
                meta: None,
            }),
    {
        ListRootsResult {
            roots,
            meta: None,
        }
    }

    /// Create a new list roots result with a single root.
    pub fn with_single_root(uri: &str) -> (r: ListRootsResult)
        ensures
            r@ == (ListRootsResultView {
                roots: Seq::empty().push(RootView { uri: uri@, name: None }),
                meta: None,
            }),
    {
        let mut roots: Vec<Root> = Vec::new();
        roots.push(Root::new(uri));
        assert(views(roots@) =~= Seq::empty().push(RootView { uri: uri@, name: None }));
        ListRootsResult { roots, meta: None }
    }
}

impl Wire for ListRootsResult {
    open spec fn encode(v: ListRootsResultView) -> JsonValue {
        let m = Seq::empty();
        let m = m.push(("roots"@, encode_list::<Root>(v.roots)));
        let m = push_opt(m, "_meta"@, encode_opt::<Json>(v.meta));
        JsonValue::Object(m)
    }

    open spec fn decode(j: JsonValue) -> Option<ListRootsResultView> {
        match (
            list_member::<Root>(j, "roots"@),
            opt_member::<Json>(j, "_meta"@),
        ) {
            (Some(roots), Some(meta)) => Some(
                ListRootsResultView { roots, meta },
            ),
            _ => None,
        }
    }

    open spec fn lossless(v: ListRootsResultView) -> bool {
        &&& all_lossless::<Root>(v.roots)
        &&& opt_lossless::<Json>(v.meta)
    }

    proof fn lemma_round_trip(v: ListRootsResultView) {
        reveal_strlit("roots");
        reveal_strlit("_meta");
        assert("roots"@.len() == 5);
        assert("_meta"@.len() == 5);
        assert("roots"@[0] != "_meta"@[0]);
        let m0 = Seq::<(Seq<char>, JsonValue)>::empty();
        let m1 = m0.push(("roots"@, encode_list::<Root>(v.roots)));
        let m2 = push_opt(m1, "_meta"@, encode_opt::<Json>(v.meta));
        lemma_lookup_empty("roots"@);
        lemma_lookup_push(m0, "roots"@, encode_list::<Root>(v.roots), "roots"@);
        lemma_lookup_push_opt(m1, "_meta"@, encode_opt::<Json>(v.meta), "roots"@);
        lemma_lookup_empty("_meta"@);
        lemma_lookup_push(m0, "roots"@, encode_list::<Root>(v.roots), "_meta"@);
        lemma_lookup_push_opt(m1, "_meta"@, encode_opt::<Json>(v.meta), "_meta"@);
        let j = JsonValue::Object(m2);
        lemma_list_member::<Root>(j, "roots"@, v.roots);
        lemma_opt_member::<Json>(j, "_meta"@, v.meta);
    }

    fn to_json(&self) -> (j: Json) {
        let mut members: Vec<(String, Json)> = Vec::new();
        assert(members_view(members@) =~= Seq::empty());
        put_list(&mut members, "roots", &self.roots);
        put_opt_value(&mut members, "_meta", &self.meta);
        Json::object(members)
    }

    fn from_json(j: &Json) -> (r: Result<ListRootsResult, Error>) {
        let roots = required_list::<Root>(j, "roots")?;
        let meta = optional::<Json>(j, "_meta")?;
        Ok(ListRootsResult { roots, meta })
    }
}

impl MessageResult for ListRootsResult {
}

/// A notification from the client to the server, informing it that the list of
/// roots has changed.
#[derive(Debug, Clone, PartialEq)]
pub struct RootsListChangedNotification {
    /// Method is always "notifications/roots/list_changed".
    pub method: String,
    /// Optional notification parameters.
    pub params: Option<Json>,
}

/// The mathematical value of a [`RootsListChangedNotification`].
pub struct RootsListChangedNotificationView {
    pub method: Seq<char>,
    pub params: Option<JsonValue>,
}

impl View for RootsListChangedNotification {
    type V = RootsListChangedNotificationView;

    open spec fn view(&self) -> RootsListChangedNotificationView {
        RootsListChangedNotificationView {
            method: self.method@,
            params: view_opt(self.params),
        }
    }
}

impl RootsListChangedNotification {
    /// Create a new roots list changed notification.
    pub fn new() -> (r: RootsListChangedNotification)
        ensures
            r@ == (RootsListChangedNotificationView {
                method: "notifications/roots/list_changed"@,
                params: None,
            }),
    {
        RootsListChangedNotification {
            method: "notifications/roots/list_changed".to_owned(),
            params: None,
        }
    }
}

impl Wire for RootsListChangedNotification {
    open spec fn encode(v: RootsListChangedNotificationView) -> JsonValue {
        let m = Seq::empty();
        let m = m.push(("method"@, JsonValue::Str(v.method)));
        let m = push_opt(m, "params"@, encode_opt::<Json>(v.params));
        JsonValue::Object(m)
    }

    open spec fn decode(j: JsonValue) -> Option<RootsListChangedNotificationView> {
        match (
            member::<String>(j, "method"@),
            opt_member::<Json>(j, "params"@),
        ) {
            (Some(method), Some(params)) => Some(
                RootsListChangedNotificationView { method, params },
            ),
            _ => None,
        }
    }

    open spec fn lossless(v: RootsListChangedNotificationView) -> bool {
        opt_lossless::<Json>(v.params)
    }

    proof fn lemma_round_trip(v: RootsListChangedNotificationView) {
        reveal_strlit("method");
        reveal_strlit("params");
        assert("method"@.len() == 6);
        assert("params"@.len() == 6);
        assert("method"@[0] != "params"@[0]);
        let m0 = Seq::<(Seq<char>, JsonValue)>::empty();
        let m1 = m0.push(("method"@, JsonValue::Str(v.method)));
        let m2 = push_opt(m1, "params"@, encode_opt::<Json>(v.params));
        lemma_lookup_empty("method"@);
        lemma_lookup_push(m0, "method"@, JsonValue::Str(v.method), "method"@);
        lemma_lookup_push_opt(m1, "params"@, encode_opt::<Json>(v.params), "method"@);
        lemma_lookup_empty("params"@);
        lemma_lookup_push(m0, "method"@, JsonValue::Str(v.method), "params"@);
        lemma_lookup_push_opt(m1, "params"@, encode_opt::<Json>(v.params), "params"@);
        let j = JsonValue::Object(m2);
        lemma_member::<String>(j, "method"@, v.method);
        lemma_opt_member::<Json>(j, "params"@, v.params);
    }

    fn to_json(&self) -> (j: Json) {
        let mut members: Vec<(String, Json)> = Vec::new();
        assert(members_view(members@) =~= Seq::empty());
        put_str(&mut members, "method", self.method.as_str());
        put_opt_value(&mut members, "params", &self.params);
        Json::object(members)
    }

    fn from_json(j: &Json) -> (r: Result<RootsListChangedNotification, Error>) {
        let method = required::<String>(j, "method")?;
        let params = optional::<Json>(j, "params")?;
        Ok(RootsListChangedNotification { method, params })
    }
}

impl Notification for RootsListChangedNotification {
    open spec fn method_name(&self) -> Seq<char> {
        self.method@
    }

    open spec fn params_value(&self) -> Option<JsonValue> {
        opt_view(self.params)
    }

    fn method(&self) -> (m: &str) {
        self.method.as_str()
    }

    fn params(&self) -> (p: Option<Json>) {
        duplicate_opt(&self.params)
    }
}

} // verus!
