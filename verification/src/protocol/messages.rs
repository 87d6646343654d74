//! Basic message types for the MCP protocol.

use crate::error::Error;
use crate::json::{
    duplicate_members, duplicate_opt, lemma_lookup_absent, lemma_lookup_append, lemma_lookup_empty,
    lemma_lookup_push, lemma_lookup_push_opt, lemma_without_key_absent, lemma_without_key_append,
    lemma_without_key_empty, lemma_without_key_push_opt, members_view, opt_view, push_opt, put_all,
    put_str, strip_key, without_key, Json, JsonValue,
};
use crate::protocol::wire::{
    encode_opt, lemma_member, lemma_opt_member, member, opt_lossless, opt_member, optional,
    put_opt_value, put_value, required, view_opt, Wire,
};
use crate::json::{insert_member, set_member, Number};
use crate::protocol::{IdView, ProgressToken, RequestId};
use vstd::prelude::*;

verus! {

/// A request that expects a response.
pub trait Request {
    /// The method that the request calls.
    spec fn method_name(&self) -> Seq<char>;

    /// The parameters that the request puts on the wire.
    spec fn params_value(&self) -> Option<JsonValue>;

    /// Get the method name.
    fn method(&self) -> (m: &str)
        ensures
            m@ == self.method_name(),
    ;

    /// Get the parameters.
    fn params(&self) -> (p: Option<Json>)
        ensures
            opt_view(p) == self.params_value(),
    ;
}

/// A notification that does not expect a response.
pub trait Notification {
    /// The method that the notification announces.
    spec fn method_name(&self) -> Seq<char>;

    /// The parameters that the notification puts on the wire.
    spec fn params_value(&self) -> Option<JsonValue>;

    /// Get the method name.
    fn method(&self) -> (m: &str)
        ensures
            m@ == self.method_name(),
    ;

    /// Get the parameters.
    fn params(&self) -> (p: Option<Json>)
        ensures
            opt_view(p) == self.params_value(),
    ;
}

/// A result returned by a request handler.
pub trait MessageResult {

}

/// A concrete request: a method name and its parameters.
#[derive(Debug, Clone, PartialEq)]
pub struct RequestImpl {
    /// Method name.
    pub method: String,
    /// Optional parameters.
    pub params: Option<Json>,
}

/// The mathematical value of a [`RequestImpl`].
pub struct RequestImplView {
    pub method: Seq<char>,
    pub params: Option<JsonValue>,
}

impl View for RequestImpl {
    type V = RequestImplView;

    open spec fn view(&self) -> RequestImplView {
        RequestImplView {
            method: self.method@,
            params: view_opt(self.params),
        }
    }
}

impl RequestImpl {
    /// Create a new request.
    pub fn new(method: &str) -> (r: RequestImpl)
        ensures
            r@ == (RequestImplView {
                method: method@,
                params: None,
            }),
    {
        RequestImpl {
            method: method.to_owned(),
            params: None,
        }
    }

    /// Create a new request with parameters.
    pub fn with_params(method: &str, params: Json) -> (r: RequestImpl)
        ensures
            r@ == (RequestImplView {
                method: method@,
                params: Some(params@),
            }),
    {
        RequestImpl {
            method: method.to_owned(),
            params: Some(params),
        }
    }

    /// Create a new request with a progress token.
    pub fn with_progress_token(method: &str, progress_token: ProgressToken) -> (r: RequestImpl)
        ensures
            r@ == (RequestImplView {
                method: method@,
                params: Some(
                    JsonValue::Object(
                        Seq::empty().push(("progressToken"@, progress_token@.encode())),
                    ),
                ),
            }),
    {
        let mut members: Vec<(String, Json)> = Vec::new();
        assert(members_view(members@) =~= Seq::empty());
        put_value(&mut members, "progressToken", &progress_token);
        RequestImpl { method: method.to_owned(), params: Some(Json::object(members)) }
    }
}

impl Wire for RequestImpl {
    open spec fn encode(v: RequestImplView) -> JsonValue {
        let m = Seq::empty();
        let m = m.push(("method"@, JsonValue::Str(v.method)));
        let m = push_opt(m, "params"@, encode_opt::<Json>(v.params));
        JsonValue::Object(m)
    }

    open spec fn decode(j: JsonValue) -> Option<RequestImplView> {
        match (
            member::<String>(j, "method"@),
            opt_member::<Json>(j, "params"@),
        ) {
            (Some(method), Some(params)) => Some(
                RequestImplView { method, params },
            ),
            _ => None,
        }
    }

    open spec fn lossless(v: RequestImplView) -> bool {
        opt_lossless::<Json>(v.params)
    }

    proof fn lemma_round_trip(v: RequestImplView) {
        reveal_strlit("method");
        reveal_strlit("params");
        assert("method"@.len() == 6);
        assert("params"@.len() == 6);
        assert("method"@[0] != "params"@[0]);
        let m0 = Seq::<(Seq<char>, JsonValue)>::empty();
        let m1 = m0.push(("method"@, JsonValue::Str(v.method)));
        let m2 = push_opt(m1, "params"@, encode_opt::<Json>(v.params));
        lemma_lookup_empty("method"@);
        lemma_lookup_push(m0, "method"@, JsonValue::Str(v.method), "method"@);
        lemma_lookup_push_opt(m1, "params"@, encode_opt::<Json>(v.params), "method"@);
        lemma_lookup_empty("params"@);
        lemma_lookup_push(m0, "method"@, JsonValue::Str(v.method), "params"@);
        lemma_lookup_push_opt(m1, "params"@, encode_opt::<Json>(v.params), "params"@);
        let j = JsonValue::Object(m2);
        lemma_member::<String>(j, "method"@, v.method);
        lemma_opt_member::<Json>(j, "params"@, v.params);
    }

    fn to_json(&self) -> (j: Json) {
        let mut members: Vec<(String, Json)> = Vec::new();
        assert(members_view(members@) =~= Seq::empty());
        put_str(&mut members, "method", self.method.as_str());
        put_opt_value(&mut members, "params", &self.params);
        Json::object(members)
    }

    fn from_json(j: &Json) -> (r: Result<RequestImpl, Error>) {
        let method = required::<String>(j, "method")?;
        let params = optional::<Json>(j, "params")?;
        Ok(RequestImpl { method, params })
    }
}

impl Request for RequestImpl {
    open spec fn method_name(&self) -> Seq<char> {
        self.method@
    }

    open spec fn params_value(&self) -> Option<JsonValue> {
        opt_view(self.params)
    }

    fn method(&self) -> (m: &str) {
        self.method.as_str()
    }

    fn params(&self) -> (p: Option<Json>) {
        duplicate_opt(&self.params)
    }
}

/// A concrete notification: a method name and its parameters.
#[derive(Debug, Clone, PartialEq)]
pub struct NotificationImpl {
    /// Method name.
    pub method: String,
    /// Optional parameters.
    pub params: Option<Json>,
}

/// The mathematical value of a [`NotificationImpl`].
pub struct NotificationImplView {
    pub method: Seq<char>,
    pub params: Option<JsonValue>,
}

impl View for NotificationImpl {
    type V = NotificationImplView;

    open spec fn view(&self) -> NotificationImplView {
        NotificationImplView {
            method: self.method@,
            params: view_opt(self.params),
        }
    }
}

impl NotificationImpl {
    /// Create a new notification.
    pub fn new(method: &str) -> (r: NotificationImpl)
        ensures
            r@ == (NotificationImplView {
                method: method@,
                params: None,
            }),
    {
        NotificationImpl {
            method: method.to_owned(),
            params: None,
        }
    }

    /// Create a new notification with parameters.
    pub fn with_params(method: &str, params: Json) -> (r: NotificationImpl)
        ensures
            r@ == (NotificationImplView {
                method: method@,
                params: Some(params@),
            }),
    {
        NotificationImpl {
            method: method.to_owned(),
            params: Some(params),
        }
    }
}

impl Wire for NotificationImpl {
    open spec fn encode(v: NotificationImplView) -> JsonValue {
        let m = Seq::empty();
        let m = m.push(("method"@, JsonValue::Str(v.method)));
        let m = push_opt(m, "params"@, encode_opt::<Json>(v.params));
        JsonValue::Object(m)
    }

    open spec fn decode(j: JsonValue) -> Option<NotificationImplView> {
        match (
            member::<String>(j, "method"@),
            opt_member::<Json>(j, "params"@),
        ) {
            (Some(method), Some(params)) => Some(
                NotificationImplView { method, params },
            ),
            _ => None,
        }
    }

    open spec fn lossless(v: NotificationImplView) -> bool {
        opt_lossless::<Json>(v.params)
    }

    proof fn lemma_round_trip(v: NotificationImplView) {
        reveal_strlit("method");
        reveal_strlit("params");
        assert("method"@.len() == 6);
        assert("params"@.len() == 6);
        assert("method"@[0] != "params"@[0]);
        let m0 = Seq::<(Seq<char>, JsonValue)>::empty();
        let m1 = m0.push(("method"@, JsonValue::Str(v.method)));
        let m2 = push_opt(m1, "params"@, encode_opt::<Json>(v.params));
        lemma_lookup_empty("method"@);
        lemma_lookup_push(m0, "method"@, JsonValue::Str(v.method), "method"@);
        lemma_lookup_push_opt(m1, "params"@, encode_opt::<Json>(v.params), "method"@);
        lemma_lookup_empty("params"@);
        lemma_lookup_push(m0, "method"@, JsonValue::Str(v.method), "params"@);
        lemma_lookup_push_opt(m1, "params"@, encode_opt::<Json>(v.params), "params"@);
        let j = JsonValue::Object(m2);
        lemma_member::<String>(j, "method"@, v.method);
        lemma_opt_member::<Json>(j, "params"@, v.params);
    }

    fn to_json(&self) -> (j: Json) {
        let mut members: Vec<(String, Json)> = Vec::new();
        assert(members_view(members@) =~= Seq::empty());
        put_str(&mut members, "method", self.method.as_str());
        put_opt_value(&mut members, "params", &self.params);
        Json::object(members)
    }

    fn from_json(j: &Json) -> (r: Result<NotificationImpl, Error>) {
        let method = required::<String>(j, "method")?;
        let params = optional::<Json>(j, "params")?;
        Ok(NotificationImpl { method, params })
    }
}

impl Notification for NotificationImpl {
    open spec fn method_name(&self) -> Seq<char> {
        self.method@
    }

    open spec fn params_value(&self) -> Option<JsonValue> {
        opt_view(self.params)
    }

    fn method(&self) -> (m: &str) {
        self.method.as_str()
    }

    fn params(&self) -> (p: Option<Json>) {
        duplicate_opt(&self.params)
    }
}

/// Metadata for a request.
#[derive(Debug, Clone, PartialEq)]
pub struct RequestMeta {
    /// Progress token for the request.
    pub progress_token: Option<ProgressToken>,
}

/// The mathematical value of a [`RequestMeta`].
pub struct RequestMetaView {
    pub progress_token: Option<IdView>,
}

impl View for RequestMeta {
    type V = RequestMetaView;

    open spec fn view(&self) -> RequestMetaView {
        RequestMetaView {
            progress_token: view_opt(self.progress_token),
        }
    }
}

impl Wire for RequestMeta {
    open spec fn encode(v: RequestMetaView) -> JsonValue {
        let m = Seq::empty();
        let m = push_opt(m, "progressToken"@, encode_opt::<ProgressToken>(v.progress_token));
        JsonValue::Object(m)
    }

    /// Every member is optional, but the document must be an object.
    open spec fn decode(j: JsonValue) -> Option<RequestMetaView> {
        if !(j is Object) {
            None
        } else {
            match opt_member::<ProgressToken>(j, "progressToken"@) {
                Some(progress_token) => Some(RequestMetaView { progress_token }),
                None => None,
            }
        }
    }

    open spec fn lossless(v: RequestMetaView) -> bool {
        true
    }

    proof fn lemma_round_trip(v: RequestMetaView) {
        reveal_strlit("progressToken");
        let m0 = Seq::<(Seq<char>, JsonValue)>::empty();
        let m1 = push_opt(m0, "progressToken"@, encode_opt::<ProgressToken>(v.progress_token));
        lemma_lookup_empty("progressToken"@);
        lemma_lookup_push_opt(m0, "progressToken"@, encode_opt::<ProgressToken>(v.progress_token), "progressToken"@);
        let j = JsonValue::Object(m1);
        lemma_opt_member::<ProgressToken>(j, "progressToken"@, v.progress_token);
    }

    fn to_json(&self) -> (j: Json) {
        let mut members: Vec<(String, Json)> = Vec::new();
        assert(members_view(members@) =~= Seq::empty());
        put_opt_value(&mut members, "progressToken", &self.progress_token);
        Json::object(members)
    }

    fn from_json(j: &Json) -> (r: Result<RequestMeta, Error>) {
        if !j.is_object() {
            return Err(Error::parse("expected an object"));
        }
        let progress_token = optional::<ProgressToken>(j, "progressToken")?;
        Ok(RequestMeta { progress_token })
    }
}

/// Parameters for a request.
#[derive(Debug, Clone, PartialEq)]
pub struct RequestParams {
    /// Metadata for the request.
    pub meta: Option<RequestMeta>,
    /// Additional parameters (method-specific).
    pub additional: Vec<(String, Json)>,
}

/// The mathematical value of a [`RequestParams`].
pub struct RequestParamsView {
    pub meta: Option<RequestMetaView>,
    pub additional: Seq<(Seq<char>, JsonValue)>,
}

impl View for RequestParams {
    type V = RequestParamsView;

    open spec fn view(&self) -> RequestParamsView {
        RequestParamsView {
            meta: view_opt(self.meta),
            additional: members_view(self.additional@),
        }
    }
}

impl RequestParams {
    /// Create empty request parameters.
    pub fn new() -> (r: RequestParams)
        ensures
            r@ == (RequestParamsView {
                meta: None,
                additional: Seq::empty(),
            }),
    {
        let r = RequestParams {
            meta: None,
            additional: Vec::new(),
        };
        assert(members_view(r.additional@) =~= Seq::empty());
        r
    }

    /// Add a progress token to the request parameters.
    pub fn set_progress_token(&mut self, token: ProgressToken)
        ensures
            final(self)@ == (RequestParamsView {
                meta: Some(RequestMetaView { progress_token: Some(token@) }),
                ..old(self)@
            }),
    {
        self.meta = Some(RequestMeta { progress_token: Some(token) });
    }

    /// Add a parameter to the request. The value is kept under the name,
    /// in place of one that was kept there.
    pub fn add<T: Wire>(&mut self, name: &str, value: &T)
        ensures
            final(self)@ == (RequestParamsView {
                additional: insert_member(old(self)@.additional, name@, T::encode(value@)),
                ..old(self)@
            }),
    {
        set_member(&mut self.additional, name, value.to_json());
    }
}

impl Wire for RequestParams {
    open spec fn encode(v: RequestParamsView) -> JsonValue {
        let m = Seq::empty();
        let m = push_opt(m, "_meta"@, encode_opt::<RequestMeta>(v.meta));
        let m = m + v.additional;
        JsonValue::Object(m)
    }

    open spec fn decode(j: JsonValue) -> Option<RequestParamsView> {
        match (
            opt_member::<RequestMeta>(j, "_meta"@),
            match j {
                JsonValue::Object(members) => Some(without_key(members, "_meta"@)),
                _ => None,
            },
        ) {
            (Some(meta), Some(additional)) => Some(
                RequestParamsView { meta, additional },
            ),
            _ => None,
        }
    }

    open spec fn lossless(v: RequestParamsView) -> bool {
        &&& opt_lossless::<RequestMeta>(v.meta)
        &&& forall|i: int| 0 <= i < v.additional.len() ==> (#[trigger] v.additional[i]).0 != "_meta"@
    }

    proof fn lemma_round_trip(v: RequestParamsView) {
        reveal_strlit("_meta");
        let m0 = Seq::<(Seq<char>, JsonValue)>::empty();
        let m1 = push_opt(m0, "_meta"@, encode_opt::<RequestMeta>(v.meta));
        lemma_lookup_empty("_meta"@);
        lemma_lookup_push_opt(m0, "_meta"@, encode_opt::<RequestMeta>(v.meta), "_meta"@);
        lemma_lookup_append(m1, v.additional, "_meta"@);
        lemma_lookup_absent(v.additional, "_meta"@);
        let j = JsonValue::Object(m1 + v.additional);
        lemma_opt_member::<RequestMeta>(j, "_meta"@, v.meta);
        lemma_without_key_append(push_opt(m0, "_meta"@, encode_opt::<RequestMeta>(v.meta)), v.additional, "_meta"@);
        lemma_without_key_absent(v.additional, "_meta"@);
        lemma_without_key_empty("_meta"@);
        lemma_without_key_push_opt(m0, "_meta"@, encode_opt::<RequestMeta>(v.meta), "_meta"@);
        assert(m0 + v.additional =~= v.additional);
    }

    fn to_json(&self) -> (j: Json) {
        let mut members: Vec<(String, Json)> = Vec::new();
        assert(members_view(members@) =~= Seq::empty());
        put_opt_value(&mut members, "_meta", &self.meta);
        put_all(&mut members, &self.additional);
        Json::object(members)
    }

    fn from_json(j: &Json) -> (r: Result<RequestParams, Error>) {
        let meta = optional::<RequestMeta>(j, "_meta")?;
        let additional = match j.as_object() {
            Some(members) => strip_key(members, "_meta"),
            None => {
                return Err(Error::parse("expected an object"));
            },
        };
        Ok(RequestParams { meta, additional })
    }
}

/// Metadata for a notification.
#[derive(Debug, Clone, PartialEq)]
pub struct NotificationMeta {
    /// Additional metadata (method-specific).
    pub additional: Vec<(String, Json)>,
}

/// The mathematical value of a [`NotificationMeta`].
pub struct NotificationMetaView {
    pub additional: Seq<(Seq<char>, JsonValue)>,
}

impl View for NotificationMeta {
    type V = NotificationMetaView;

    open spec fn view(&self) -> NotificationMetaView {
        NotificationMetaView {
            additional: members_view(self.additional@),
        }
    }
}

impl NotificationMeta {
    /// Create empty notification metadata.
    pub fn new() -> (r: NotificationMeta)
        ensures
            r@ == (NotificationMetaView {
                additional: Seq::empty(),
            }),
    {
        let r = NotificationMeta {
            additional: Vec::new(),
        };
        assert(members_view(r.additional@) =~= Seq::empty());
        r
    }

    /// Add a metadata field to the notification. The value is kept under the name,
    /// in place of one that was kept there.
    pub fn add<T: Wire>(&mut self, name: &str, value: &T)
        ensures
            final(self)@ == (NotificationMetaView {
                additional: insert_member(old(self)@.additional, name@, T::encode(value@)),
                ..old(self)@
            }),
    {
        set_member(&mut self.additional, name, value.to_json());
    }
}

impl Wire for NotificationMeta {
    open spec fn encode(v: NotificationMetaView) -> JsonValue {
        let m = Seq::empty();
        let m = m + v.additional;
        JsonValue::Object(m)
    }

    open spec fn decode(j: JsonValue) -> Option<NotificationMetaView> {
        match match j {
                JsonValue::Object(members) => Some(members),
                _ => None,
            } {
            Some(additional) => Some(NotificationMetaView { additional }),
            None => None,
        }
    }

    open spec fn lossless(v: NotificationMetaView) -> bool {
        true
    }

    proof fn lemma_round_trip(v: NotificationMetaView) {
        let m0 = Seq::<(Seq<char>, JsonValue)>::empty();
        let j = JsonValue::Object(m0 + v.additional);
        assert(m0 + v.additional =~= v.additional);
    }

    fn to_json(&self) -> (j: Json) {
        let mut members: Vec<(String, Json)> = Vec::new();
        assert(members_view(members@) =~= Seq::empty());
        put_all(&mut members, &self.additional);
        Json::object(members)
    }

    fn from_json(j: &Json) -> (r: Result<NotificationMeta, Error>) {
        let additional = match j.as_object() {
            Some(members) => duplicate_members(members),
            None => {
                return Err(Error::parse("expected an object"));
            },
        };
        Ok(NotificationMeta { additional })
    }
}

/// Parameters for a notification.
#[derive(Debug, Clone, PartialEq)]
pub struct NotificationParams {
    /// Metadata for the notification.
    pub meta: Option<NotificationMeta>,
    /// Additional parameters (method-specific).
    pub additional: Vec<(String, Json)>,
}

/// The mathematical value of a [`NotificationParams`].
pub struct NotificationParamsView {
    pub meta: Option<NotificationMetaView>,
    pub additional: Seq<(Seq<char>, JsonValue)>,
}

impl View for NotificationParams {
    type V = NotificationParamsView;

    open spec fn view(&self) -> NotificationParamsView {
        NotificationParamsView {
            meta: view_opt(self.meta),
            additional: members_view(self.additional@),
        }
    }
}

impl NotificationParams {
    /// Create empty notification parameters.
    pub fn new() -> (r: NotificationParams)
        ensures
            r@ == (NotificationParamsView {
                meta: None,
                additional: Seq::empty(),
            }),
    {
        let r = NotificationParams {
            meta: None,
            additional: Vec::new(),
        };
        assert(members_view(r.additional@) =~= Seq::empty());
        r
    }

    /// Add a parameter to the notification. The value is kept under the name,
    /// in place of one that was kept there.
    pub fn add<T: Wire>(&mut self, name: &str, value: &T)
        ensures
            final(self)@ == (NotificationParamsView {
                additional: insert_member(old(self)@.additional, name@, T::encode(value@)),
                ..old(self)@
            }),
    {
        set_member(&mut self.additional, name, value.to_json());
    }
}

impl Wire for NotificationParams {
    open spec fn encode(v: NotificationParamsView) -> JsonValue {
        let m = Seq::empty();
        let m = push_opt(m, "_meta"@, encode_opt::<NotificationMeta>(v.meta));
        let m = m + v.additional;
        JsonValue::Object(m)
    }

    open spec fn decode(j: JsonValue) -> Option<NotificationParamsView> {
        match (
            opt_member::<NotificationMeta>(j, "_meta"@),
            match j {
                JsonValue::Object(members) => Some(without_key(members, "_meta"@)),
                _ => None,
            },
        ) {
            (Some(meta), Some(additional)) => Some(
                NotificationParamsView { meta, additional },
            ),
            _ => None,
        }
    }

    open spec fn lossless(v: NotificationParamsView) -> bool {
        &&& opt_lossless::<NotificationMeta>(v.meta)
        &&& forall|i: int| 0 <= i < v.additional.len() ==> (#[trigger] v.additional[i]).0 != "_meta"@
    }

    proof fn lemma_round_trip(v: NotificationParamsView) {
        reveal_strlit("_meta");
        let m0 = Seq::<(Seq<char>, JsonValue)>::empty();
        let m1 = push_opt(m0, "_meta"@, encode_opt::<NotificationMeta>(v.meta));
        lemma_lookup_empty("_meta"@);
        lemma_lookup_push_opt(m0, "_meta"@, encode_opt::<NotificationMeta>(v.meta), "_meta"@);
        lemma_lookup_append(m1, v.additional, "_meta"@);
        lemma_lookup_absent(v.additional, "_meta"@);
        let j = JsonValue::Object(m1 + v.additional);
        lemma_opt_member::<NotificationMeta>(j, "_meta"@, v.meta);
        lemma_without_key_append(push_opt(m0, "_meta"@, encode_opt::<NotificationMeta>(v.meta)), v.additional, "_meta"@);
        lemma_without_key_absent(v.additional, "_meta"@);
        lemma_without_key_empty("_meta"@);
        lemma_without_key_push_opt(m0, "_meta"@, encode_opt::<NotificationMeta>(v.meta), "_meta"@);
        assert(m0 + v.additional =~= v.additional);
    }

    fn to_json(&self) -> (j: Json) {
        let mut members: Vec<(String, Json)> = Vec::new();
        assert(members_view(members@) =~= Seq::empty());
        put_opt_value(&mut members, "_meta", &self.meta);
        put_all(&mut members, &self.additional);
        Json::object(members)
    }

    fn from_json(j: &Json) -> (r: Result<NotificationParams, Error>) {
        let meta = optional::<NotificationMeta>(j, "_meta")?;
        let additional = match j.as_object() {
            Some(members) => strip_key(members, "_meta"),
            None => {
                return Err(Error::parse("expected an object"));
            },
        };
        Ok(NotificationParams { meta, additional })
    }
}

/// Metadata for a result.
#[derive(Debug, Clone, PartialEq)]
pub struct ResultMeta {
    /// Additional metadata (method-specific).
    pub additional: Vec<(String, Json)>,
}

/// The mathematical value of a [`ResultMeta`].
pub struct ResultMetaView {
    pub additional: Seq<(Seq<char>, JsonValue)>,
}

impl View for ResultMeta {
    type V = ResultMetaView;

    open spec fn view(&self) -> ResultMetaView {
        ResultMetaView {
            additional: members_view(self.additional@),
        }
    }
}

impl ResultMeta {
    /// Create empty result metadata.
    pub fn new() -> (r: ResultMeta)
        ensures
            r@ == (ResultMetaView {
                additional: Seq::empty(),
            }),
    {
        let r = ResultMeta {
            additional: Vec::new(),
        };
        assert(members_view(r.additional@) =~= Seq::empty());
        r
    }

    /// Add a metadata field to the result. The value is kept under the name,
    /// in place of one that was kept there.
    pub fn add<T: Wire>(&mut self, name: &str, value: &T)
        ensures
            final(self)@ == (ResultMetaView {
                additional: insert_member(old(self)@.additional, name@, T::encode(value@)),
                ..old(self)@
            }),
    {
        set_member(&mut self.additional, name, value.to_json());
    }
}

impl Wire for ResultMeta {
    open spec fn encode(v: ResultMetaView) -> JsonValue {
        let m = Seq::empty();
        let m = m + v.additional;
        JsonValue::Object(m)
    }

    open spec fn decode(j: JsonValue) -> Option<ResultMetaView> {
        match match j {
                JsonValue::Object(members) => Some(members),
                _ => None,
            } {
            Some(additional) => Some(ResultMetaView { additional }),
            None => None,
        }
    }

    open spec fn lossless(v: ResultMetaView) -> bool {
        true
    }

    proof fn lemma_round_trip(v: ResultMetaView) {
        let m0 = Seq::<(Seq<char>, JsonValue)>::empty();
        let j = JsonValue::Object(m0 + v.additional);
        assert(m0 + v.additional =~= v.additional);
    }

    fn to_json(&self) -> (j: Json) {
        let mut members: Vec<(String, Json)> = Vec::new();
        assert(members_view(members@) =~= Seq::empty());
        put_all(&mut members, &self.additional);
        Json::object(members)
    }

    fn from_json(j: &Json) -> (r: Result<ResultMeta, Error>) {
        let additional = match j.as_object() {
            Some(members) => duplicate_members(members),
            None => {
                return Err(Error::parse("expected an object"));
            },
        };
        Ok(ResultMeta { additional })
    }
}

/// A concrete result: metadata and the fields of the method. Without fields it
/// is the empty result.
#[derive(Debug, Clone, PartialEq)]
pub struct EmptyResult {
    /// Metadata for the result.
    pub meta: Option<ResultMeta>,
    /// Additional fields (method-specific).
    pub additional: Vec<(String, Json)>,
}

/// The mathematical value of a [`EmptyResult`].
pub struct EmptyResultView {
    pub meta: Option<ResultMetaView>,
    pub additional: Seq<(Seq<char>, JsonValue)>,
}

impl View for EmptyResult {
    type V = EmptyResultView;

    open spec fn view(&self) -> EmptyResultView {
        EmptyResultView {
            meta: view_opt(self.meta),
            additional: members_view(self.additional@),
        }
    }
}

impl EmptyResult {
    /// Create an empty result.
    pub fn new() -> (r: EmptyResult)
        ensures
            r@ == (EmptyResultView {
                meta: None,
                additional: Seq::empty(),
            }),
    {
        let r = EmptyResult {
            meta: None,
            additional: Vec::new(),
        };
        assert(members_view(r.additional@) =~= Seq::empty());
        r
    }

    /// Add a field to the result. The value is kept under the name,
    /// in place of one that was kept there.
    pub fn add<T: Wire>(&mut self, name: &str, value: &T)
        ensures
            final(self)@ == (EmptyResultView {
                additional: insert_member(old(self)@.additional, name@, T::encode(value@)),
                ..old(self)@
            }),
    {
        set_member(&mut self.additional, name, value.to_json());
    }
}

impl Wire for EmptyResult {
    open spec fn encode(v: EmptyResultView) -> JsonValue {
        let m = Seq::empty();
        let m = push_opt(m, "_meta"@, encode_opt::<ResultMeta>(v.meta));
        let m = m + v.additional;
        JsonValue::Object(m)
    }

    open spec fn decode(j: JsonValue) -> Option<EmptyResultView> {
        match (
            opt_member::<ResultMeta>(j, "_meta"@),
            match j {
                JsonValue::Object(members) => Some(without_key(members, "_meta"@)),
                _ => None,
            },
        ) {
            (Some(meta), Some(additional)) => Some(
                EmptyResultView { meta, additional },
            ),
            _ => None,
        }
    }

    open spec fn lossless(v: EmptyResultView) -> bool {
        &&& opt_lossless::<ResultMeta>(v.meta)
        &&& forall|i: int| 0 <= i < v.additional.len() ==> (#[trigger] v.additional[i]).0 != "_meta"@
    }

    proof fn lemma_round_trip(v: EmptyResultView) {
        reveal_strlit("_meta");
        let m0 = Seq::<(Seq<char>, JsonValue)>::empty();
        let m1 = push_opt(m0, "_meta"@, encode_opt::<ResultMeta>(v.meta));
        lemma_lookup_empty("_meta"@);
        lemma_lookup_push_opt(m0, "_meta"@, encode_opt::<ResultMeta>(v.meta), "_meta"@);
        lemma_lookup_append(m1, v.additional, "_meta"@);
        lemma_lookup_absent(v.additional, "_meta"@);
        let j = JsonValue::Object(m1 + v.additional);
        lemma_opt_member::<ResultMeta>(j, "_meta"@, v.meta);
        lemma_without_key_append(push_opt(m0, "_meta"@, encode_opt::<ResultMeta>(v.meta)), v.additional, "_meta"@);
        lemma_without_key_absent(v.additional, "_meta"@);
        lemma_without_key_empty("_meta"@);
        lemma_without_key_push_opt(m0, "_meta"@, encode_opt::<ResultMeta>(v.meta), "_meta"@);
        assert(m0 + v.additional =~= v.additional);
    }

    fn to_json(&self) -> (j: Json) {
        let mut members: Vec<(String, Json)> = Vec::new();
        assert(members_view(members@) =~= Seq::empty());
        put_opt_value(&mut members, "_meta", &self.meta);
        put_all(&mut members, &self.additional);
        Json::object(members)
    }

    fn from_json(j: &Json) -> (r: Result<EmptyResult, Error>) {
        let meta = optional::<ResultMeta>(j, "_meta")?;
        let additional = match j.as_object() {
            Some(members) => strip_key(members, "_meta"),
            None => {
                return Err(Error::parse("expected an object"));
            },
        };
        Ok(EmptyResult { meta, additional })
    }
}

impl MessageResult for EmptyResult {
}

/// Parameters for a paginated request.
#[derive(Debug, Clone, PartialEq)]
pub struct PaginatedRequestParams {
    /// Cursor for pagination.
    pub cursor: Option<String>,
    /// Metadata for the request.
    pub meta: Option<RequestMeta>,
    /// Additional parameters (method-specific).
    pub additional: Vec<(String, Json)>,
}

/// The mathematical value of a [`PaginatedRequestParams`].
pub struct PaginatedRequestParamsView {
    pub cursor: Option<Seq<char>>,
    pub meta: Option<RequestMetaView>,
    pub additional: Seq<(Seq<char>, JsonValue)>,
}

impl View for PaginatedRequestParams {
    type V = PaginatedRequestParamsView;

    open spec fn view(&self) -> PaginatedRequestParamsView {
        PaginatedRequestParamsView {
            cursor: view_opt(self.cursor),
            meta: view_opt(self.meta),
            additional: members_view(self.additional@),
        }
    }
}

impl Wire for PaginatedRequestParams {
    open spec fn encode(v: PaginatedRequestParamsView) -> JsonValue {
        let m = Seq::empty();
        let m = push_opt(m, "cursor"@, encode_opt::<String>(v.cursor));
        let m = push_opt(m, "_meta"@, encode_opt::<RequestMeta>(v.meta));
        let m = m + v.additional;
        JsonValue::Object(m)
    }

    open spec fn decode(j: JsonValue) -> Option<PaginatedRequestParamsView> {
        match (
            opt_member::<String>(j, "cursor"@),
            opt_member::<RequestMeta>(j, "_meta"@),
            match j {
                JsonValue::Object(members) => Some(without_key(without_key(members, "cursor"@), "_meta"@)),
                _ => None,
            },
        ) {
            (Some(cursor), Some(meta), Some(additional)) => Some(
                PaginatedRequestParamsView { cursor, meta, additional },
            ),
            _ => None,
        }
    }

    open spec fn lossless(v: PaginatedRequestParamsView) -> bool {
        &&& opt_lossless::<RequestMeta>(v.meta)
        &&& forall|i: int|
            0 <= i < v.additional.len() ==> {
                &&& (#[trigger] v.additional[i]).0 != "cursor"@
                &&& v.additional[i].0 != "_meta"@
            }
    }

    proof fn lemma_round_trip(v: PaginatedRequestParamsView) {
        reveal_strlit("cursor");
        reveal_strlit("_meta");
        assert("cursor"@.len() == 6);
        assert("_meta"@.len() == 5);
        let m0 = Seq::<(Seq<char>, JsonValue)>::empty();
        let m1 = push_opt(m0, "cursor"@, encode_opt::<String>(v.cursor));
        let m2 = push_opt(m1, "_meta"@, encode_opt::<RequestMeta>(v.meta));
        lemma_lookup_empty("cursor"@);
        lemma_lookup_push_opt(m0, "cursor"@, encode_opt::<String>(v.cursor), "cursor"@);
        lemma_lookup_push_opt(m1, "_meta"@, encode_opt::<RequestMeta>(v.meta), "cursor"@);
        lemma_lookup_append(m2, v.additional, "cursor"@);
        lemma_lookup_absent(v.additional, "cursor"@);
        lemma_lookup_empty("_meta"@);
        lemma_lookup_push_opt(m0, "cursor"@, encode_opt::<String>(v.cursor), "_meta"@);
        lemma_lookup_push_opt(m1, "_meta"@, encode_opt::<RequestMeta>(v.meta), "_meta"@);
        lemma_lookup_append(m2, v.additional, "_meta"@);
        lemma_lookup_absent(v.additional, "_meta"@);
        let j = JsonValue::Object(m2 + v.additional);
        lemma_opt_member::<String>(j, "cursor"@, v.cursor);
        lemma_opt_member::<RequestMeta>(j, "_meta"@, v.meta);
        lemma_without_key_append(push_opt(push_opt(m0, "cursor"@, encode_opt::<String>(v.cursor)), "_meta"@, encode_opt::<RequestMeta>(v.meta)), v.additional, "cursor"@);
        lemma_without_key_absent(v.additional, "cursor"@);
        lemma_without_key_empty("cursor"@);
        lemma_without_key_push_opt(m0, "cursor"@, encode_opt::<String>(v.cursor), "cursor"@);
        lemma_without_key_push_opt(push_opt(m0, "cursor"@, encode_opt::<String>(v.cursor)), "_meta"@, encode_opt::<RequestMeta>(v.meta), "cursor"@);
        lemma_without_key_append(push_opt(m0, "_meta"@, encode_opt::<RequestMeta>(v.meta)), v.additional, "_meta"@);
        lemma_without_key_absent(v.additional, "_meta"@);
        lemma_without_key_empty("_meta"@);
        lemma_without_key_push_opt(m0, "_meta"@, encode_opt::<RequestMeta>(v.meta), "_meta"@);
        assert(m0 + v.additional =~= v.additional);
    }

    fn to_json(&self) -> (j: Json) {
        let mut members: Vec<(String, Json)> = Vec::new();
        assert(members_view(members@) =~= Seq::empty());
        put_opt_value(&mut members, "cursor", &self.cursor);
        put_opt_value(&mut members, "_meta", &self.meta);
        put_all(&mut members, &self.additional);
        Json::object(members)
    }

    fn from_json(j: &Json) -> (r: Result<PaginatedRequestParams, Error>) {
        let cursor = optional::<String>(j, "cursor")?;
        let meta = optional::<RequestMeta>(j, "_meta")?;
        let additional = match j.as_object() {
            Some(members) => {
                let rest = strip_key(members, "cursor");
                let rest = strip_key(&rest, "_meta");
                rest
            },
            None => {
                return Err(Error::parse("expected an object"));
            },
        };
        Ok(PaginatedRequestParams { cursor, meta, additional })
    }
}

/// A paginated request with a cursor parameter.
#[derive(Debug, Clone, PartialEq)]
pub struct PaginatedRequest {
    /// Method name.
    pub method: String,
    /// Optional parameters.
    pub params: Option<PaginatedRequestParams>,
}

/// The mathematical value of a [`PaginatedRequest`].
pub struct PaginatedRequestView {
    pub method: Seq<char>,
    pub params: Option<PaginatedRequestParamsView>,
}

impl View for PaginatedRequest {
    type V = PaginatedRequestView;

    open spec fn view(&self) -> PaginatedRequestView {
        PaginatedRequestView {
            method: self.method@,
            params: view_opt(self.params),
        }
    }
}

impl PaginatedRequest {
    /// Create a new paginated request.
    pub fn new(method: &str) -> (r: PaginatedRequest)
        ensures
            r@ == (PaginatedRequestView {
                method: method@,
                params: None,
            }),
    {
        PaginatedRequest {
            method: method.to_owned(),
            params: None,
        }
    }

    /// Create a new paginated request with a cursor.
    pub fn with_cursor(method: &str, cursor: &str) -> (r: PaginatedRequest)
        ensures
            r@ == (PaginatedRequestView {
                method: method@,
                params: Some(
                    PaginatedRequestParamsView {
                        cursor: Some(cursor@),
                        meta: None,
                        additional: Seq::empty(),
                    },
                ),
            }),
    {
        let params = PaginatedRequestParams {
            cursor: Some(cursor.to_owned()),
            meta: None,
            additional: Vec::new(),
        };
        assert(members_view(params.additional@) =~= Seq::empty());
        PaginatedRequest { method: method.to_owned(), params: Some(params) }
    }
}

impl Wire for PaginatedRequest {
    open spec fn encode(v: PaginatedRequestView) -> JsonValue {
        let m = Seq::empty();
        let m = m.push(("method"@, JsonValue::Str(v.method)));
        let m = push_opt(m, "params"@, encode_opt::<PaginatedRequestParams>(v.params));
        JsonValue::Object(m)
    }

    open spec fn decode(j: JsonValue) -> Option<PaginatedRequestView> {
        match (
            member::<String>(j, "method"@),
            opt_member::<PaginatedRequestParams>(j, "params"@),
        ) {
            (Some(method), Some(params)) => Some(
                PaginatedRequestView { method, params },
            ),
            _ => None,
        }
    }

    open spec fn lossless(v: PaginatedRequestView) -> bool {
        opt_lossless::<PaginatedRequestParams>(v.params)
    }

    proof fn lemma_round_trip(v: PaginatedRequestView) {
        reveal_strlit("method");
        reveal_strlit("params");
        assert("method"@.len() == 6);
        assert("params"@.len() == 6);
        assert("method"@[0] != "params"@[0]);
        let m0 = Seq::<(Seq<char>, JsonValue)>::empty();
        let m1 = m0.push(("method"@, JsonValue::Str(v.method)));
        let m2 = push_opt(m1, "params"@, encode_opt::<PaginatedRequestParams>(v.params));
        lemma_lookup_empty("method"@);
        lemma_lookup_push(m0, "method"@, JsonValue::Str(v.method), "method"@);
        lemma_lookup_push_opt(m1, "params"@, encode_opt::<PaginatedRequestParams>(v.params), "method"@);
        lemma_lookup_empty("params"@);
        lemma_lookup_push(m0, "method"@, JsonValue::Str(v.method), "params"@);
        lemma_lookup_push_opt(m1, "params"@, encode_opt::<PaginatedRequestParams>(v.params), "params"@);
        let j = JsonValue::Object(m2);
        lemma_member::<String>(j, "method"@, v.method);
        lemma_opt_member::<PaginatedRequestParams>(j, "params"@, v.params);
    }

    fn to_json(&self) -> (j: Json) {
        let mut members: Vec<(String, Json)> = Vec::new();
        assert(members_view(members@) =~= Seq::empty());
        put_str(&mut members, "method", self.method.as_str());
        put_opt_value(&mut members, "params", &self.params);
        Json::object(members)
    }

    fn from_json(j: &Json) -> (r: Result<PaginatedRequest, Error>) {
        let method = required::<String>(j, "method")?;
        let params = optional::<PaginatedRequestParams>(j, "params")?;
        Ok(PaginatedRequest { method, params })
    }
}

impl Request for PaginatedRequest {
    open spec fn method_name(&self) -> Seq<char> {
        self.method@
    }

    open spec fn params_value(&self) -> Option<JsonValue> {
        encode_opt::<PaginatedRequestParams>(view_opt(self.params))
    }

    fn method(&self) -> (m: &str) {
        self.method.as_str()
    }

    fn params(&self) -> (p: Option<Json>) {
        match &self.params {
            Some(p) => Some(p.to_json()),
            None => None,
        }
    }
}

/// A paginated result with a next cursor.
#[derive(Debug, Clone, PartialEq)]
pub struct PaginatedResult {
    /// Cursor for the next page, if any.
    pub next_cursor: Option<String>,
    /// Metadata for the result.
    pub meta: Option<ResultMeta>,
    /// Additional fields (method-specific).
    pub additional: Vec<(String, Json)>,
}

/// The mathematical value of a [`PaginatedResult`].
pub struct PaginatedResultView {
    pub next_cursor: Option<Seq<char>>,
    pub meta: Option<ResultMetaView>,
    pub additional: Seq<(Seq<char>, JsonValue)>,
}

impl View for PaginatedResult {
    type V = PaginatedResultView;

    open spec fn view(&self) -> PaginatedResultView {
        PaginatedResultView {
            next_cursor: view_opt(self.next_cursor),
            meta: view_opt(self.meta),
            additional: members_view(self.additional@),
        }
    }
}

impl PaginatedResult {
    /// Create a new paginated result.
    pub fn new() -> (r: PaginatedResult)
        ensures
            r@ == (PaginatedResultView {
                next_cursor: None,
                meta: None,
                additional: Seq::empty(),
            }),
    {
        let r = PaginatedResult {
            next_cursor: None,
            meta: None,
            additional: Vec::new(),
        };
        assert(members_view(r.additional@) =~= Seq::empty());
        r
    }

    /// Create a new paginated result with a next cursor.
    pub fn with_next_cursor(next_cursor: &str) -> (r: PaginatedResult)
        ensures
            r@ == (PaginatedResultView {
                next_cursor: Some(next_cursor@),
                meta: None,
                additional: Seq::empty(),
            }),
    {
        let r = PaginatedResult {
            next_cursor: Some(next_cursor.to_owned()),
            meta: None,
            additional: Vec::new(),
        };
        assert(members_view(r.additional@) =~= Seq::empty());
        r
    }

    /// Add a field to the result. The value is kept under the name,
    /// in place of one that was kept there.
    pub fn add<T: Wire>(&mut self, name: &str, value: &T)
        ensures
            final(self)@ == (PaginatedResultView {
                additional: insert_member(old(self)@.additional, name@, T::encode(value@)),
                ..old(self)@
            }),
    {
        set_member(&mut self.additional, name, value.to_json());
    }
}

impl Wire for PaginatedResult {
    open spec fn encode(v: PaginatedResultView) -> JsonValue {
        let m = Seq::empty();
        let m = push_opt(m, "nextCursor"@, encode_opt::<String>(v.next_cursor));
        let m = push_opt(m, "_meta"@, encode_opt::<ResultMeta>(v.meta));
        let m = m + v.additional;
        JsonValue::Object(m)
    }

    open spec fn decode(j: JsonValue) -> Option<PaginatedResultView> {
        match (
            opt_member::<String>(j, "nextCursor"@),
            opt_member::<ResultMeta>(j, "_meta"@),
            match j {
                JsonValue::Object(members) => Some(without_key(without_key(members, "nextCursor"@), "_meta"@)),
                _ => None,
            },
        ) {
            (Some(next_cursor), Some(meta), Some(additional)) => Some(
                PaginatedResultView { next_cursor, meta, additional },
            ),
            _ => None,
        }
    }

    open spec fn lossless(v: PaginatedResultView) -> bool {
        &&& opt_lossless::<ResultMeta>(v.meta)
        &&& forall|i: int|
            0 <= i < v.additional.len() ==> {
                &&& (#[trigger] v.additional[i]).0 != "nextCursor"@
                &&& v.additional[i].0 != "_meta"@
            }
    }

    proof fn lemma_round_trip(v: PaginatedResultView) {
        reveal_strlit("nextCursor");
        reveal_strlit("_meta");
        assert("nextCursor"@.len() == 10);
        assert("_meta"@.len() == 5);
        let m0 = Seq::<(Seq<char>, JsonValue)>::empty();
        let m1 = push_opt(m0, "nextCursor"@, encode_opt::<String>(v.next_cursor));
        let m2 = push_opt(m1, "_meta"@, encode_opt::<ResultMeta>(v.meta));
        lemma_lookup_empty("nextCursor"@);
        lemma_lookup_push_opt(m0, "nextCursor"@, encode_opt::<String>(v.next_cursor), "nextCursor"@);
        lemma_lookup_push_opt(m1, "_meta"@, encode_opt::<ResultMeta>(v.meta), "nextCursor"@);
        lemma_lookup_append(m2, v.additional, "nextCursor"@);
        lemma_lookup_absent(v.additional, "nextCursor"@);
        lemma_lookup_empty("_meta"@);
        lemma_lookup_push_opt(m0, "nextCursor"@, encode_opt::<String>(v.next_cursor), "_meta"@);
        lemma_lookup_push_opt(m1, "_meta"@, encode_opt::<ResultMeta>(v.meta), "_meta"@);
        lemma_lookup_append(m2, v.additional, "_meta"@);
        lemma_lookup_absent(v.additional, "_meta"@);
        let j = JsonValue::Object(m2 + v.additional);
        lemma_opt_member::<String>(j, "nextCursor"@, v.next_cursor);
        lemma_opt_member::<ResultMeta>(j, "_meta"@, v.meta);
        lemma_without_key_append(push_opt(push_opt(m0, "nextCursor"@, encode_opt::<String>(v.next_cursor)), "_meta"@, encode_opt::<ResultMeta>(v.meta)), v.additional, "nextCursor"@);
        lemma_without_key_absent(v.additional, "nextCursor"@);
        lemma_without_key_empty("nextCursor"@);
        lemma_without_key_push_opt(m0, "nextCursor"@, encode_opt::<String>(v.next_cursor), "nextCursor"@);
        lemma_without_key_push_opt(push_opt(m0, "nextCursor"@, encode_opt::<String>(v.next_cursor)), "_meta"@, encode_opt::<ResultMeta>(v.meta), "nextCursor"@);
        lemma_without_key_append(push_opt(m0, "_meta"@, encode_opt::<ResultMeta>(v.meta)), v.additional, "_meta"@);
        lemma_without_key_absent(v.additional, "_meta"@);
        lemma_without_key_empty("_meta"@);
        lemma_without_key_push_opt(m0, "_meta"@, encode_opt::<ResultMeta>(v.meta), "_meta"@);
        assert(m0 + v.additional =~= v.additional);
    }

    fn to_json(&self) -> (j: Json) {
        let mut members: Vec<(String, Json)> = Vec::new();
        assert(members_view(members@) =~= Seq::empty());
        put_opt_value(&mut members, "nextCursor", &self.next_cursor);
        put_opt_value(&mut members, "_meta", &self.meta);
        put_all(&mut members, &self.additional);
        Json::object(members)
    }

    fn from_json(j: &Json) -> (r: Result<PaginatedResult, Error>) {
        let next_cursor = optional::<String>(j, "nextCursor")?;
        let meta = optional::<ResultMeta>(j, "_meta")?;
        let additional = match j.as_object() {
            Some(members) => {
                let rest = strip_key(members, "nextCursor");
                let rest = strip_key(&rest, "_meta");
                rest
            },
            None => {
                return Err(Error::parse("expected an object"));
            },
        };
        Ok(PaginatedResult { next_cursor, meta, additional })
    }
}

impl MessageResult for PaginatedResult {
}

/// Parameters for a cancel notification.
#[derive(Debug, Clone, PartialEq)]
pub struct CancelledParams {
    /// The ID of the request to cancel.
    pub request_id: RequestId,
    /// Optional reason for cancellation.
    pub reason: Option<String>,
}

/// The mathematical value of a [`CancelledParams`].
pub struct CancelledParamsView {
    pub request_id: IdView,
    pub reason: Option<Seq<char>>,
}

impl View for CancelledParams {
    type V = CancelledParamsView;

    open spec fn view(&self) -> CancelledParamsView {
        CancelledParamsView {
            request_id: self.request_id@,
            reason: view_opt(self.reason),
        }
    }
}

impl Wire for CancelledParams {
    open spec fn encode(v: CancelledParamsView) -> JsonValue {
        let m = Seq::empty();
        let m = m.push(("requestId"@, RequestId::encode(v.request_id)));
        let m = push_opt(m, "reason"@, encode_opt::<String>(v.reason));
        JsonValue::Object(m)
    }

    open spec fn decode(j: JsonValue) -> Option<CancelledParamsView> {
        match (
            member::<RequestId>(j, "requestId"@),
            opt_member::<String>(j, "reason"@),
        ) {
            (Some(request_id), Some(reason)) => Some(
                CancelledParamsView { request_id, reason },
            ),
            _ => None,
        }
    }

    open spec fn lossless(v: CancelledParamsView) -> bool {
        true
    }

    proof fn lemma_round_trip(v: CancelledParamsView) {
        reveal_strlit("requestId");
        reveal_strlit("reason");
        assert("requestId"@.len() == 9);
        assert("reason"@.len() == 6);
        let m0 = Seq::<(Seq<char>, JsonValue)>::empty();
        let m1 = m0.push(("requestId"@, RequestId::encode(v.request_id)));
        let m2 = push_opt(m1, "reason"@, encode_opt::<String>(v.reason));
        lemma_lookup_empty("requestId"@);
        lemma_lookup_push(m0, "requestId"@, RequestId::encode(v.request_id), "requestId"@);
        lemma_lookup_push_opt(m1, "reason"@, encode_opt::<String>(v.reason), "requestId"@);
        lemma_lookup_empty("reason"@);
        lemma_lookup_push(m0, "requestId"@, RequestId::encode(v.request_id), "reason"@);
        lemma_lookup_push_opt(m1, "reason"@, encode_opt::<String>(v.reason), "reason"@);
        let j = JsonValue::Object(m2);
        lemma_member::<RequestId>(j, "requestId"@, v.request_id);
        lemma_opt_member::<String>(j, "reason"@, v.reason);
    }

    fn to_json(&self) -> (j: Json) {
        let mut members: Vec<(String, Json)> = Vec::new();
        assert(members_view(members@) =~= Seq::empty());
        put_value(&mut members, "requestId", &self.request_id);
        put_opt_value(&mut members, "reason", &self.reason);
        Json::object(members)
    }

    fn from_json(j: &Json) -> (r: Result<CancelledParams, Error>) {
        let request_id = required::<RequestId>(j, "requestId")?;
        let reason = optional::<String>(j, "reason")?;
        Ok(CancelledParams { request_id, reason })
    }
}

/// Standard MCP cancel notification.
#[derive(Debug, Clone, PartialEq)]
pub struct CancelledNotification {
    /// Method is always "notifications/cancelled".
    pub method: String,
    /// Parameters for the cancellation.
    pub params: CancelledParams,
}

/// The mathematical value of a [`CancelledNotification`].
pub struct CancelledNotificationView {
    pub method: Seq<char>,
    pub params: CancelledParamsView,
}

impl View for CancelledNotification {
    type V = CancelledNotificationView;

    open spec fn view(&self) -> CancelledNotificationView {
        CancelledNotificationView {
            method: self.method@,
            params: self.params@,
        }
    }
}

impl CancelledNotification {
    /// Create a new cancelled notification.
    pub fn new(request_id: RequestId) -> (r: CancelledNotification)
        ensures
            r@ == (CancelledNotificationView {
                method: "notifications/cancelled"@,
                params: CancelledParamsView { request_id: request_id@, reason: None },
            }),
    {
        CancelledNotification {
            method: "notifications/cancelled".to_owned(),
            params: CancelledParams { request_id, reason: None },
        }
    }

    /// Create a new cancelled notification with a reason.
    pub fn with_reason(request_id: RequestId, reason: &str) -> (r: CancelledNotification)
        ensures
            r@ == (CancelledNotificationView {
                method: "notifications/cancelled"@,
                params: CancelledParamsView { request_id: request_id@, reason: Some(reason@) },
            }),
    {
        CancelledNotification {
            method: "notifications/cancelled".to_owned(),
            params: CancelledParams { request_id, reason: Some(reason.to_owned()) },
        }
    }
}

impl Wire for CancelledNotification {
    open spec fn encode(v: CancelledNotificationView) -> JsonValue {
        let m = Seq::empty();
        let m = m.push(("method"@, JsonValue::Str(v.method)));
        let m = m.push(("params"@, CancelledParams::encode(v.params)));
        JsonValue::Object(m)
    }

    open spec fn decode(j: JsonValue) -> Option<CancelledNotificationView> {
        match (
            member::<String>(j, "method"@),
            member::<CancelledParams>(j, "params"@),
        ) {
            (Some(method), Some(params)) => Some(
                CancelledNotificationView { method, params },
            ),
            _ => None,
        }
    }

    open spec fn lossless(v: CancelledNotificationView) -> bool {
        CancelledParams::lossless(v.params)
    }

    proof fn lemma_round_trip(v: CancelledNotificationView) {
        reveal_strlit("method");
        reveal_strlit("params");
        assert("method"@.len() == 6);
        assert("params"@.len() == 6);
        assert("method"@[0] != "params"@[0]);
        let m0 = Seq::<(Seq<char>, JsonValue)>::empty();
        let m1 = m0.push(("method"@, JsonValue::Str(v.method)));
        let m2 = m1.push(("params"@, CancelledParams::encode(v.params)));
        lemma_lookup_empty("method"@);
        lemma_lookup_push(m0, "method"@, JsonValue::Str(v.method), "method"@);
        lemma_lookup_push(m1, "params"@, CancelledParams::encode(v.params), "method"@);
        lemma_lookup_empty("params"@);
        lemma_lookup_push(m0, "method"@, JsonValue::Str(v.method), "params"@);
        lemma_lookup_push(m1, "params"@, CancelledParams::encode(v.params), "params"@);
        let j = JsonValue::Object(m2);
        lemma_member::<String>(j, "method"@, v.method);
        lemma_member::<CancelledParams>(j, "params"@, v.params);
    }

    fn to_json(&self) -> (j: Json) {
        let mut members: Vec<(String, Json)> = Vec::new();
        assert(members_view(members@) =~= Seq::empty());
        put_str(&mut members, "method", self.method.as_str());
        put_value(&mut members, "params", &self.params);
        Json::object(members)
    }

    fn from_json(j: &Json) -> (r: Result<CancelledNotification, Error>) {
        let method = required::<String>(j, "method")?;
        let params = required::<CancelledParams>(j, "params")?;
        Ok(CancelledNotification { method, params })
    }
}

impl Notification for CancelledNotification {
    open spec fn method_name(&self) -> Seq<char> {
        self.method@
    }

    open spec fn params_value(&self) -> Option<JsonValue> {
        Some(CancelledParams::encode(self.params@))
    }

    fn method(&self) -> (m: &str) {
        self.method.as_str()
    }

    fn params(&self) -> (p: Option<Json>) {
        Some(self.params.to_json())
    }
}

/// Parameters for a progress notification. Progress and total are numbers kept
/// as they came.
#[derive(Debug, Clone, PartialEq)]
pub struct ProgressParams {
    /// Progress token of the request whose progress is reported.
    pub progress_token: ProgressToken,
    /// Current progress value.
    pub progress: Number,
    /// Total progress value, if known.
    pub total: Option<Number>,
    /// Optional progress message.
    pub message: Option<String>,
}

/// The mathematical value of a [`ProgressParams`].
pub struct ProgressParamsView {
    pub progress_token: IdView,
    pub progress: Number,
    pub total: Option<Number>,
    pub message: Option<Seq<char>>,
}

impl View for ProgressParams {
    type V = ProgressParamsView;

    open spec fn view(&self) -> ProgressParamsView {
        ProgressParamsView {
            progress_token: self.progress_token@,
            progress: self.progress@,
            total: view_opt(self.total),
            message: view_opt(self.message),
        }
    }
}

impl Wire for ProgressParams {
    open spec fn encode(v: ProgressParamsView) -> JsonValue {
        let m = Seq::empty();
        let m = m.push(("progressToken"@, ProgressToken::encode(v.progress_token)));
        let m = m.push(("progress"@, JsonValue::Number(v.progress)));
        let m = push_opt(m, "total"@, encode_opt::<Number>(v.total));
        let m = push_opt(m, "message"@, encode_opt::<String>(v.message));
        JsonValue::Object(m)
    }

    open spec fn decode(j: JsonValue) -> Option<ProgressParamsView> {
        match (
            member::<ProgressToken>(j, "progressToken"@),
            member::<Number>(j, "progress"@),
            opt_member::<Number>(j, "total"@),
            opt_member::<String>(j, "message"@),
        ) {
            (Some(progress_token), Some(progress), Some(total), Some(message)) => Some(
                ProgressParamsView { progress_token, progress, total, message },
            ),
            _ => None,
        }
    }

    open spec fn lossless(v: ProgressParamsView) -> bool {
        true
    }

    proof fn lemma_round_trip(v: ProgressParamsView) {
        reveal_strlit("progressToken");
        reveal_strlit("progress");
        reveal_strlit("total");
        reveal_strlit("message");
        assert("progressToken"@.len() == 13);
        assert("progress"@.len() == 8);
        assert("total"@.len() == 5);
        assert("message"@.len() == 7);
        let m0 = Seq::<(Seq<char>, JsonValue)>::empty();
        let m1 = m0.push(("progressToken"@, ProgressToken::encode(v.progress_token)));
        let m2 = m1.push(("progress"@, JsonValue::Number(v.progress)));
        let m3 = push_opt(m2, "total"@, encode_opt::<Number>(v.total));
        let m4 = push_opt(m3, "message"@, encode_opt::<String>(v.message));
        lemma_lookup_empty("progressToken"@);
        lemma_lookup_push(m0, "progressToken"@, ProgressToken::encode(v.progress_token), "progressToken"@);
        lemma_lookup_push(m1, "progress"@, JsonValue::Number(v.progress), "progressToken"@);
        lemma_lookup_push_opt(m2, "total"@, encode_opt::<Number>(v.total), "progressToken"@);
        lemma_lookup_push_opt(m3, "message"@, encode_opt::<String>(v.message), "progressToken"@);
        lemma_lookup_empty("progress"@);
        lemma_lookup_push(m0, "progressToken"@, ProgressToken::encode(v.progress_token), "progress"@);
        lemma_lookup_push(m1, "progress"@, JsonValue::Number(v.progress), "progress"@);
        lemma_lookup_push_opt(m2, "total"@, encode_opt::<Number>(v.total), "progress"@);
        lemma_lookup_push_opt(m3, "message"@, encode_opt::<String>(v.message), "progress"@);
        lemma_lookup_empty("total"@);
        lemma_lookup_push(m0, "progressToken"@, ProgressToken::encode(v.progress_token), "total"@);
        lemma_lookup_push(m1, "progress"@, JsonValue::Number(v.progress), "total"@);
        lemma_lookup_push_opt(m2, "total"@, encode_opt::<Number>(v.total), "total"@);
        lemma_lookup_push_opt(m3, "message"@, encode_opt::<String>(v.message), "total"@);
        lemma_lookup_empty("message"@);
        lemma_lookup_push(m0, "progressToken"@, ProgressToken::encode(v.progress_token), "message"@);
        lemma_lookup_push(m1, "progress"@, JsonValue::Number(v.progress), "message"@);
        lemma_lookup_push_opt(m2, "total"@, encode_opt::<Number>(v.total), "message"@);
        lemma_lookup_push_opt(m3, "message"@, encode_opt::<String>(v.message), "message"@);
        let j = JsonValue::Object(m4);
        lemma_member::<ProgressToken>(j, "progressToken"@, v.progress_token);
        lemma_member::<Number>(j, "progress"@, v.progress);
        lemma_opt_member::<Number>(j, "total"@, v.total);
        lemma_opt_member::<String>(j, "message"@, v.message);
    }

    fn to_json(&self) -> (j: Json) {
        let mut members: Vec<(String, Json)> = Vec::new();
        assert(members_view(members@) =~= Seq::empty());
        put_value(&mut members, "progressToken", &self.progress_token);
        put_value(&mut members, "progress", &self.progress);
        put_opt_value(&mut members, "total", &self.total);
        put_opt_value(&mut members, "message", &self.message);
        Json::object(members)
    }

    fn from_json(j: &Json) -> (r: Result<ProgressParams, Error>) {
        let progress_token = required::<ProgressToken>(j, "progressToken")?;
        let progress = required::<Number>(j, "progress")?;
        let total = optional::<Number>(j, "total")?;
        let message = optional::<String>(j, "message")?;
        Ok(ProgressParams { progress_token, progress, total, message })
    }
}

/// Standard MCP progress notification.
#[derive(Debug, Clone, PartialEq)]
pub struct ProgressNotification {
    /// Method is always "notifications/progress".
    pub method: String,
    /// Parameters for the progress notification.
    pub params: ProgressParams,
}

/// The mathematical value of a [`ProgressNotification`].
pub struct ProgressNotificationView {
    pub method: Seq<char>,
    pub params: ProgressParamsView,
}

impl View for ProgressNotification {
    type V = ProgressNotificationView;

    open spec fn view(&self) -> ProgressNotificationView {
        ProgressNotificationView {
            method: self.method@,
            params: self.params@,
        }
    }
}

impl ProgressNotification {
    /// Create a new progress notification.
    pub fn new(progress_token: ProgressToken, progress: Number) -> (r: ProgressNotification)
        ensures
            r@ == (ProgressNotificationView {
                method: "notifications/progress"@,
                params: ProgressParamsView {
                    progress_token: progress_token@,
                    progress,
                    total: None,
                    message: None,
                },
            }),
    {
        ProgressNotification {
            method: "notifications/progress".to_owned(),
            params: ProgressParams { progress_token, progress, total: None, message: None },
        }
    }

    /// Create a new progress notification with a total.
    pub fn with_total(progress_token: ProgressToken, progress: Number, total: Number) -> (r: ProgressNotification)
        ensures
            r@ == (ProgressNotificationView {
                method: "notifications/progress"@,
                params: ProgressParamsView {
                    progress_token: progress_token@,
                    progress,
                    total: Some(total),
                    message: None,
                },
            }),
    {
        ProgressNotification {
            method: "notifications/progress".to_owned(),
            params: ProgressParams { progress_token, progress, total: Some(total), message: None },
        }
    }

    /// Create a new progress notification with a message.
    pub fn with_message(progress_token: ProgressToken, progress: Number, message: &str) -> (r: ProgressNotification)
        ensures
            r@ == (ProgressNotificationView {
                method: "notifications/progress"@,
                params: ProgressParamsView {
                    progress_token: progress_token@,
                    progress,
                    total: None,
                    message: Some(message@),
                },
            }),
    {
        ProgressNotification {
            method: "notifications/progress".to_owned(),
            params: ProgressParams {
                progress_token,
                progress,
                total: None,
                message: Some(message.to_owned()),
            },
        }
    }

    /// Create a new progress notification with a total and message.
    pub fn with_total_and_message(progress_token: ProgressToken, progress: Number, total: Number, message: &str) -> (r: ProgressNotification)
        ensures
            r@ == (ProgressNotificationView {
                method: "notifications/progress"@,
                params: ProgressParamsView {
                    progress_token: progress_token@,
                    progress,
                    total: Some(total),
                    message: Some(message@),
                },
            }),
    {
        ProgressNotification {
            method: "notifications/progress".to_owned(),
            params: ProgressParams {
                progress_token,
                progress,
                total: Some(total),
                message: Some(message.to_owned()),
            },
        }
    }
}

impl Wire for ProgressNotification {
    open spec fn encode(v: ProgressNotificationView) -> JsonValue {
        let m = Seq::empty();
        let m = m.push(("method"@, JsonValue::Str(v.method)));
        let m = m.push(("params"@, ProgressParams::encode(v.params)));
        JsonValue::Object(m)
    }

    open spec fn decode(j: JsonValue) -> Option<ProgressNotificationView> {
        match (
            member::<String>(j, "method"@),
            member::<ProgressParams>(j, "params"@),
        ) {
            (Some(method), Some(params)) => Some(
                ProgressNotificationView { method, params },
            ),
            _ => None,
        }
    }

    open spec fn lossless(v: ProgressNotificationView) -> bool {
        ProgressParams::lossless(v.params)
    }

    proof fn lemma_round_trip(v: ProgressNotificationView) {
        reveal_strlit("method");
        reveal_strlit("params");
        assert("method"@.len() == 6);
        assert("params"@.len() == 6);
        assert("method"@[0] != "params"@[0]);
        let m0 = Seq::<(Seq<char>, JsonValue)>::empty();
        let m1 = m0.push(("method"@, JsonValue::Str(v.method)));
        let m2 = m1.push(("params"@, ProgressParams::encode(v.params)));
        lemma_lookup_empty("method"@);
        lemma_lookup_push(m0, "method"@, JsonValue::Str(v.method), "method"@);
        lemma_lookup_push(m1, "params"@, ProgressParams::encode(v.params), "method"@);
        lemma_lookup_empty("params"@);
        lemma_lookup_push(m0, "method"@, JsonValue::Str(v.method), "params"@);
        lemma_lookup_push(m1, "params"@, ProgressParams::encode(v.params), "params"@);
        let j = JsonValue::Object(m2);
        lemma_member::<String>(j, "method"@, v.method);
        lemma_member::<ProgressParams>(j, "params"@, v.params);
    }

    fn to_json(&self) -> (j: Json) {
        let mut members: Vec<(String, Json)> = Vec::new();
        assert(members_view(members@) =~= Seq::empty());
        put_str(&mut members, "method", self.method.as_str());
        put_value(&mut members, "params", &self.params);
        Json::object(members)
    }

    fn from_json(j: &Json) -> (r: Result<ProgressNotification, Error>) {
        let method = required::<String>(j, "method")?;
        let params = required::<ProgressParams>(j, "params")?;
        Ok(ProgressNotification { method, params })
    }
}

impl Notification for ProgressNotification {
    open spec fn method_name(&self) -> Seq<char> {
        self.method@
    }

    open spec fn params_value(&self) -> Option<JsonValue> {
        Some(ProgressParams::encode(self.params@))
    }

    fn method(&self) -> (m: &str) {
        self.method.as_str()
    }

    fn params(&self) -> (p: Option<Json>) {
        Some(self.params.to_json())
    }
}

} // verus!
