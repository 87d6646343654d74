//! Protocol types and definitions for MCP completion suggestions.

use crate::error::Error;
use crate::json::{
    lemma_lookup_empty, lemma_lookup_push, lemma_lookup_push_opt, members_view, push_opt, put_str,
    Json, JsonValue,
};
use crate::protocol::wire::{
    encode_list, encode_opt, lemma_list_member, lemma_member, lemma_opt_member, list_member,
    member, opt_lossless, opt_member, optional, put_list, put_opt_value, put_value, required,
    required_list, view_opt, views, Wire,
};
use crate::protocol::messages::{MessageResult, Request};
use crate::json::str_eq;
use crate::protocol::prompts::{PromptReference, PromptReferenceView};
use crate::protocol::resources::{ResourceReference, ResourceReferenceView};
use vstd::prelude::*;

verus! {

/// The argument information for a completion request.
#[derive(Debug, Clone, PartialEq)]
pub struct CompletionArgument {
    /// The name of the argument.
    pub name: String,
    /// The value of the argument to use for completion matching.
    pub value: String,
}

/// The mathematical value of a [`CompletionArgument`].
pub struct CompletionArgumentView {
    pub name: Seq<char>,
    pub value: Seq<char>,
}

impl View for CompletionArgument {
    type V = CompletionArgumentView;

    open spec fn view(&self) -> CompletionArgumentView {
        CompletionArgumentView {
            name: self.name@,
            value: self.value@,
        }
    }
}

impl Wire for CompletionArgument {
    open spec fn encode(v: CompletionArgumentView) -> JsonValue {
        let m = Seq::empty();
        let m = m.push(("name"@, JsonValue::Str(v.name)));
        let m = m.push(("value"@, JsonValue::Str(v.value)));
        JsonValue::Object(m)
    }

    open spec fn decode(j: JsonValue) -> Option<CompletionArgumentView> {
        match (
            member::<String>(j, "name"@),
            member::<String>(j, "value"@),
        ) {
            (Some(name), Some(value)) => Some(
                CompletionArgumentView { name, value },
            ),
            _ => None,
        }
    }

    open spec fn lossless(v: CompletionArgumentView) -> bool {
        true
    }

    proof fn lemma_round_trip(v: CompletionArgumentView) {
        reveal_strlit("name");
        reveal_strlit("value");
        assert("name"@.len() == 4);
        assert("value"@.len() == 5);
        let m0 = Seq::<(Seq<char>, JsonValue)>::empty();
        let m1 = m0.push(("name"@, JsonValue::Str(v.name)));
        let m2 = m1.push(("value"@, JsonValue::Str(v.value)));
        lemma_lookup_empty("name"@);
        lemma_lookup_push(m0, "name"@, JsonValue::Str(v.name), "name"@);
        lemma_lookup_push(m1, "value"@, JsonValue::Str(v.value), "name"@);
        lemma_lookup_empty("value"@);
        lemma_lookup_push(m0, "name"@, JsonValue::Str(v.name), "value"@);
        lemma_lookup_push(m1, "value"@, JsonValue::Str(v.value), "value"@);
        let j = JsonValue::Object(m2);
        lemma_member::<String>(j, "name"@, v.name);
        lemma_member::<String>(j, "value"@, v.value);
    }

    fn to_json(&self) -> (j: Json) {
        let mut members: Vec<(String, Json)> = Vec::new();
        assert(members_view(members@) =~= Seq::empty());
        put_str(&mut members, "name", self.name.as_str());
        put_str(&mut members, "value", self.value.as_str());
        Json::object(members)
    }

    fn from_json(j: &Json) -> (r: Result<CompletionArgument, Error>) {
        let name = required::<String>(j, "name")?;
        let value = required::<String>(j, "value")?;
        Ok(CompletionArgument { name, value })
    }
}

/// Reference to a prompt or resource for completion.
#[derive(Debug, Clone, PartialEq)]
pub enum CompletionReference {
    /// Reference to a prompt.
    Prompt(PromptReference),
    /// Reference to a resource.
    Resource(ResourceReference),
}

/// The mathematical value of a [`CompletionReference`].
pub enum CompletionReferenceView {
    Prompt(PromptReferenceView),
    Resource(ResourceReferenceView),
}

impl View for CompletionReference {
    type V = CompletionReferenceView;

    open spec fn view(&self) -> CompletionReferenceView {
        match self {
            CompletionReference::Prompt(p) => CompletionReferenceView::Prompt(p@),
            CompletionReference::Resource(r) => CompletionReferenceView::Resource(r@),
        }
    }
}

impl Wire for CompletionReference {
    open spec fn encode(v: CompletionReferenceView) -> JsonValue {
        match v {
            CompletionReferenceView::Prompt(p) => PromptReference::encode(p),
            CompletionReferenceView::Resource(r) => ResourceReference::encode(r),
        }
    }

    /// The `type` member tells the two apart: `ref/prompt` or `ref/resource`.
    open spec fn decode(j: JsonValue) -> Option<CompletionReferenceView> {
        match j.get_str("type"@) {
            Some(t) => {
                if t == "ref/prompt"@ {
                    match PromptReference::decode(j) {
                        Some(p) => Some(CompletionReferenceView::Prompt(p)),
                        None => None,
                    }
                } else if t == "ref/resource"@ {
                    match ResourceReference::decode(j) {
                        Some(r) => Some(CompletionReferenceView::Resource(r)),
                        None => None,
                    }
                } else {
                    None
                }
            },
            None => None,
        }
    }

    /// A reference whose `type` member names its kind.
    open spec fn lossless(v: CompletionReferenceView) -> bool {
        match v {
            CompletionReferenceView::Prompt(p) => p.kind == "ref/prompt"@,
            CompletionReferenceView::Resource(r) => r.kind == "ref/resource"@,
        }
    }

    proof fn lemma_round_trip(v: CompletionReferenceView) {
        reveal_strlit("ref/prompt");
        reveal_strlit("ref/resource");
        assert("ref/prompt"@.len() == 10);
        assert("ref/resource"@.len() == 12);
        match v {
            CompletionReferenceView::Prompt(p) => PromptReference::lemma_round_trip(p),
            CompletionReferenceView::Resource(r) => ResourceReference::lemma_round_trip(r),
        }
    }

    fn to_json(&self) -> (j: Json) {
        match self {
            CompletionReference::Prompt(p) => p.to_json(),
            CompletionReference::Resource(r) => r.to_json(),
        }
    }

    fn from_json(j: &Json) -> (r: Result<CompletionReference, Error>) {
        match j.get_str("type") {
            Some(t) => {
                if str_eq(t, "ref/prompt") {
                    Ok(CompletionReference::Prompt(PromptReference::from_json(j)?))
                } else if str_eq(t, "ref/resource") {
                    Ok(CompletionReference::Resource(ResourceReference::from_json(j)?))
                } else {
                    Err(Error::parse("unknown reference type"))
                }
            },
            None => Err(Error::parse("a reference without a type")),
        }
    }
}

/// Parameters for the complete request.
#[derive(Debug, Clone, PartialEq)]
pub struct CompleteParams {
    /// Reference to a prompt or resource for completion.
    pub ref_type: CompletionReference,
    /// The argument's information.
    pub argument: CompletionArgument,
}

/// The mathematical value of a [`CompleteParams`].
pub struct CompleteParamsView {
    pub ref_type: CompletionReferenceView,
    pub argument: CompletionArgumentView,
}

impl View for CompleteParams {
    type V = CompleteParamsView;

    open spec fn view(&self) -> CompleteParamsView {
        CompleteParamsView {
            ref_type: self.ref_type@,
            argument: self.argument@,
        }
    }
}

impl Wire for CompleteParams {
    open spec fn encode(v: CompleteParamsView) -> JsonValue {
        let m = Seq::empty();
        let m = m.push(("ref"@, CompletionReference::encode(v.ref_type)));
        let m = m.push(("argument"@, CompletionArgument::encode(v.argument)));
        JsonValue::Object(m)
    }

    open spec fn decode(j: JsonValue) -> Option<CompleteParamsView> {
        match (
            member::<CompletionReference>(j, "ref"@),
            member::<CompletionArgument>(j, "argument"@),
        ) {
            (Some(ref_type), Some(argument)) => Some(
                CompleteParamsView { ref_type, argument },
            ),
            _ => None,
        }
    }

    open spec fn lossless(v: CompleteParamsView) -> bool {
        &&& CompletionReference::lossless(v.ref_type)
        &&& CompletionArgument::lossless(v.argument)
    }

    proof fn lemma_round_trip(v: CompleteParamsView) {
        reveal_strlit("ref");
        reveal_strlit("argument");
        assert("ref"@.len() == 3);
        assert("argument"@.len() == 8);
        let m0 = Seq::<(Seq<char>, JsonValue)>::empty();
        let m1 = m0.push(("ref"@, CompletionReference::encode(v.ref_type)));
        let m2 = m1.push(("argument"@, CompletionArgument::encode(v.argument)));
        lemma_lookup_empty("ref"@);
        lemma_lookup_push(m0, "ref"@, CompletionReference::encode(v.ref_type), "ref"@);
        lemma_lookup_push(m1, "argument"@, CompletionArgument::encode(v.argument), "ref"@);
        lemma_lookup_empty("argument"@);
        lemma_lookup_push(m0, "ref"@, CompletionReference::encode(v.ref_type), "argument"@);
        lemma_lookup_push(m1, "argument"@, CompletionArgument::encode(v.argument), "argument"@);
        let j = JsonValue::Object(m2);
        lemma_member::<CompletionReference>(j, "ref"@, v.ref_type);
        lemma_member::<CompletionArgument>(j, "argument"@, v.argument);
    }

    fn to_json(&self) -> (j: Json) {
        let mut members: Vec<(String, Json)> = Vec::new();
        assert(members_view(members@) =~= Seq::empty());
        put_value(&mut members, "ref", &self.ref_type);
        put_value(&mut members, "argument", &self.argument);
        Json::object(members)
    }

    fn from_json(j: &Json) -> (r: Result<CompleteParams, Error>) {
        let ref_type = required::<CompletionReference>(j, "ref")?;
        let argument = required::<CompletionArgument>(j, "argument")?;
        Ok(CompleteParams { ref_type, argument })
    }
}

/// A request from the client to the server, to ask for completion options.
#[derive(Debug, Clone, PartialEq)]
pub struct CompleteRequest {
    /// The method name, always "completion/complete".
    pub method: String,
    /// The request parameters.
    pub params: CompleteParams,
}

/// The mathematical value of a [`CompleteRequest`].
pub struct CompleteRequestView {
    pub method: Seq<char>,
    pub params: CompleteParamsView,
}

impl View for CompleteRequest {
    type V = CompleteRequestView;

    open spec fn view(&self) -> CompleteRequestView {
        CompleteRequestView {
            method: self.method@,
            params: self.params@,
        }
    }
}

impl CompleteRequest {
    /// Create a new completion request for a prompt.
    pub fn for_prompt(prompt_name: &str, argument_name: &str, argument_value: &str) -> (r: CompleteRequest)
        ensures
            r@ == (CompleteRequestView {
                method: "completion/complete"@,
                params: CompleteParamsView {
                    ref_type: CompletionReferenceView::Prompt(
                        PromptReferenceView { kind: "ref/prompt"@, name: prompt_name@ },
                    ),
                    argument: CompletionArgumentView { name: argument_name@, value: argument_value@ },
                },
            }),
    {
        CompleteRequest {
            method: "completion/complete".to_owned(),
            params: CompleteParams {
                ref_type: CompletionReference::Prompt(PromptReference::new(prompt_name)),
                argument: CompletionArgument {
                    name: argument_name.to_owned(),
                    value: argument_value.to_owned(),
                },
            },
        }
    }

    /// Create a new completion request for a resource.
    pub fn for_resource(resource_uri: &str, argument_name: &str, argument_value: &str) -> (r: CompleteRequest)
        ensures
            r@ == (CompleteRequestView {
                method: "completion/complete"@,
                params: CompleteParamsView {
                    ref_type: CompletionReferenceView::Resource(
                        ResourceReferenceView { kind: "ref/resource"@, uri: resource_uri@ },
                    ),
                    argument: CompletionArgumentView { name: argument_name@, value: argument_value@ },
                },
            }),
    {
        CompleteRequest {
            method: "completion/complete".to_owned(),
            params: CompleteParams {
                ref_type: CompletionReference::Resource(ResourceReference::new(resource_uri)),
                argument: CompletionArgument {
                    name: argument_name.to_owned(),
                    value: argument_value.to_owned(),
                },
            },
        }
    }
}

impl Wire for CompleteRequest {
    open spec fn encode(v: CompleteRequestView) -> JsonValue {
        let m = Seq::empty();
        let m = m.push(("method"@, JsonValue::Str(v.method)));
        let m = m.push(("params"@, CompleteParams::encode(v.params)));
        JsonValue::Object(m)
    }

    open spec fn decode(j: JsonValue) -> Option<CompleteRequestView> {
        match (
            member::<String>(j, "method"@),
            member::<CompleteParams>(j, "params"@),
        ) {
            (Some(method), Some(params)) => Some(
                CompleteRequestView { method, params },
            ),
            _ => None,
        }
    }

    open spec fn lossless(v: CompleteRequestView) -> bool {
        CompleteParams::lossless(v.params)
    }

    proof fn lemma_round_trip(v: CompleteRequestView) {
        reveal_strlit("method");
        reveal_strlit("params");
        assert("method"@.len() == 6);
        assert("params"@.len() == 6);
        assert("method"@[0] != "params"@[0]);
        let m0 = Seq::<(Seq<char>, JsonValue)>::empty();
        let m1 = m0.push(("method"@, JsonValue::Str(v.method)));
        let m2 = m1.push(("params"@, CompleteParams::encode(v.params)));
        lemma_lookup_empty("method"@);
        lemma_lookup_push(m0, "method"@, JsonValue::Str(v.method), "method"@);
        lemma_lookup_push(m1, "params"@, CompleteParams::encode(v.params), "method"@);
        lemma_lookup_empty("params"@);
        lemma_lookup_push(m0, "method"@, JsonValue::Str(v.method), "params"@);
        lemma_lookup_push(m1, "params"@, CompleteParams::encode(v.params), "params"@);
        let j = JsonValue::Object(m2);
        lemma_member::<String>(j, "method"@, v.method);
        lemma_member::<CompleteParams>(j, "params"@, v.params);
    }

    fn to_json(&self) -> (j: Json) {
        let mut members: Vec<(String, Json)> = Vec::new();
        assert(members_view(members@) =~= Seq::empty());
        put_str(&mut members, "method", self.method.as_str());
        put_value(&mut members, "params", &self.params);
        Json::object(members)
    }

    fn from_json(j: &Json) -> (r: Result<CompleteRequest, Error>) {
        let method = required::<String>(j, "method")?;
        let params = required::<CompleteParams>(j, "params")?;
        Ok(CompleteRequest { method, params })
    }
}

impl Request for CompleteRequest {
    open spec fn method_name(&self) -> Seq<char> {
        self.method@
    }

    open spec fn params_value(&self) -> Option<JsonValue> {
        Some(CompleteParams::encode(self.params@))
    }

    fn method(&self) -> (m: &str) {
        self.method.as_str()
    }

    fn params(&self) -> (p: Option<Json>) {
        Some(self.params.to_json())
    }
}

/// The completion results.
#[derive(Debug, Clone, PartialEq)]
pub struct CompletionResults {
    /// An array of completion values. Must not exceed 100 items.
    pub values: Vec<String>,
    /// The total number of completion options available. This can exceed the
    /// number of values actually sent in the response.
    pub total: Option<i64>,
    /// Indicates whether there are additional completion options beyond those
    /// provided in the current response.
    pub has_more: Option<bool>,
}

/// The mathematical value of a [`CompletionResults`].
pub struct CompletionResultsView {
    pub values: Seq<Seq<char>>,
    pub total: Option<i64>,
    pub has_more: Option<bool>,
}

impl View for CompletionResults {
    type V = CompletionResultsView;

    open spec fn view(&self) -> CompletionResultsView {
        CompletionResultsView {
            values: views(self.values@),
            total: view_opt(self.total),
            has_more: view_opt(self.has_more),
        }
    }
}

impl Wire for CompletionResults {
    open spec fn encode(v: CompletionResultsView) -> JsonValue {
        let m = Seq::empty();
        let m = m.push(("values"@, encode_list::<String>(v.values)));
        let m = push_opt(m, "total"@, encode_opt::<i64>(v.total));
        let m = push_opt(m, "hasMore"@, encode_opt::<bool>(v.has_more));
        JsonValue::Object(m)
    }

    open spec fn decode(j: JsonValue) -> Option<CompletionResultsView> {
        match (
            list_member::<String>(j, "values"@),
            opt_member::<i64>(j, "total"@),
            opt_member::<bool>(j, "hasMore"@),
        ) {
            (Some(values), Some(total), Some(has_more)) => Some(
                CompletionResultsView { values, total, has_more },
            ),
            _ => None,
        }
    }

    open spec fn lossless(v: CompletionResultsView) -> bool {
        true
    }

    proof fn lemma_round_trip(v: CompletionResultsView) {
        reveal_strlit("values");
        reveal_strlit("total");
        reveal_strlit("hasMore");
        assert("values"@.len() == 6);
        assert("total"@.len() == 5);
        assert("hasMore"@.len() == 7);
        let m0 = Seq::<(Seq<char>, JsonValue)>::empty();
        let m1 = m0.push(("values"@, encode_list::<String>(v.values)));
        let m2 = push_opt(m1, "total"@, encode_opt::<i64>(v.total));
        let m3 = push_opt(m2, "hasMore"@, encode_opt::<bool>(v.has_more));
        lemma_lookup_empty("values"@);
        lemma_lookup_push(m0, "values"@, encode_list::<String>(v.values), "values"@);
        lemma_lookup_push_opt(m1, "total"@, encode_opt::<i64>(v.total), "values"@);
        lemma_lookup_push_opt(m2, "hasMore"@, encode_opt::<bool>(v.has_more), "values"@);
        lemma_lookup_empty("total"@);
        lemma_lookup_push(m0, "values"@, encode_list::<String>(v.values), "total"@);
        lemma_lookup_push_opt(m1, "total"@, encode_opt::<i64>(v.total), "total"@);
        lemma_lookup_push_opt(m2, "hasMore"@, encode_opt::<bool>(v.has_more), "total"@);
        lemma_lookup_empty("hasMore"@);
        lemma_lookup_push(m0, "values"@, encode_list::<String>(v.values), "hasMore"@);
        lemma_lookup_push_opt(m1, "total"@, encode_opt::<i64>(v.total), "hasMore"@);
        lemma_lookup_push_opt(m2, "hasMore"@, encode_opt::<bool>(v.has_more), "hasMore"@);
        let j = JsonValue::Object(m3);
        lemma_list_member::<String>(j, "values"@, v.values);
        lemma_opt_member::<i64>(j, "total"@, v.total);
        lemma_opt_member::<bool>(j, "hasMore"@, v.has_more);
    }

    fn to_json(&self) -> (j: Json) {
        let mut members: Vec<(String, Json)> = Vec::new();
        assert(members_view(members@) =~= Seq::empty());
        put_list(&mut members, "values", &self.values);
        put_opt_value(&mut members, "total", &self.total);
        put_opt_value(&mut members, "hasMore", &self.has_more);
        Json::object(members)
    }

    fn from_json(j: &Json) -> (r: Result<CompletionResults, Error>) {
        let values = required_list::<String>(j, "values")?;
        let total = optional::<i64>(j, "total")?;
        let has_more = optional::<bool>(j, "hasMore")?;
        Ok(CompletionResults { values, total, has_more })
    }
}

/// The server's response to a completion/complete request.
#[derive(Debug, Clone, PartialEq)]
pub struct CompleteResult {
    /// The completion suggestions.
    pub completion: CompletionResults,
    /// Optional metadata.
    pub meta: Option<Json>,
}

/// The mathematical value of a [`CompleteResult`].
pub struct CompleteResultView {
    pub completion: CompletionResultsView,
    pub meta: Option<JsonValue>,
}

impl View for CompleteResult {
    type V = CompleteResultView;

    open spec fn view(&self) -> CompleteResultView {
        CompleteResultView {
            completion: self.completion@,
            meta: view_opt(self.meta),
        }
    }
}

impl CompleteResult {
    /// Create a new completion result with values.
    pub fn new(values: Vec<String>) -> (r: CompleteResult)
        ensures
            r@ == (CompleteResultView {
                completion: CompletionResultsView {
                    values: views(values@),
                    total: None,
                    has_more: None,
                },
                meta: None,
            }),
    {
        CompleteResult {
            completion: CompletionResults { values, total: None, has_more: None },
            meta: None,
        }
    }

    /// Create a new completion result with values and pagination info.
    pub fn with_pagination(values: Vec<String>, total: i64, has_more: bool) -> (r: CompleteResult)
        ensures
            r@ == (CompleteResultView {
                completion: CompletionResultsView {
                    values: views(values@),
                    total: Some(total),
                    has_more: Some(has_more),
                },
                meta: None,
            }),
    {
        CompleteResult {
            completion: CompletionResults { values, total: Some(total), has_more: Some(has_more) },
            meta: None,
        }
    }
}

impl Wire for CompleteResult {
    open spec fn encode(v: CompleteResultView) -> JsonValue {
        let m = Seq::empty();
        let m = m.push(("completion"@, CompletionResults::encode(v.completion)));
        let m = push_opt(m, "_meta"@, encode_opt::<Json>(v.meta));
        JsonValue::Object(m)
    }

    open spec fn decode(j: JsonValue) -> Option<CompleteResultView> {
        match (
            member::<CompletionResults>(j, "completion"@),
            opt_member::<Json>(j, "_meta"@),
        ) {
            (Some(completion), Some(meta)) => Some(
                CompleteResultView { completion, meta },
            ),
            _ => None,
        }
    }

    open spec fn lossless(v: CompleteResultView) -> bool {
        &&& CompletionResults::lossless(v.completion)
        &&& opt_lossless::<Json>(v.meta)
    }

    proof fn lemma_round_trip(v: CompleteResultView) {
        reveal_strlit("completion");
        reveal_strlit("_meta");
        assert("completion"@.len() == 10);
        assert("_meta"@.len() == 5);
        let m0 = Seq::<(Seq<char>, JsonValue)>::empty();
        let m1 = m0.push(("completion"@, CompletionResults::encode(v.completion)));
        let m2 = push_opt(m1, "_meta"@, encode_opt::<Json>(v.meta));
        lemma_lookup_empty("completion"@);
        lemma_lookup_push(m0, "completion"@, CompletionResults::encode(v.completion), "completion"@);
        lemma_lookup_push_opt(m1, "_meta"@, encode_opt::<Json>(v.meta), "completion"@);
        lemma_lookup_empty("_meta"@);
        lemma_lookup_push(m0, "completion"@, CompletionResults::encode(v.completion), "_meta"@);
        lemma_lookup_push_opt(m1, "_meta"@, encode_opt::<Json>(v.meta), "_meta"@);
        let j = JsonValue::Object(m2);
        lemma_member::<CompletionResults>(j, "completion"@, v.completion);
        lemma_opt_member::<Json>(j, "_meta"@, v.meta);
    }

    fn to_json(&self) -> (j: Json) {
        let mut members: Vec<(String, Json)> = Vec::new();
        assert(members_view(members@) =~= Seq::empty());
        put_value(&mut members, "completion", &self.completion);
        put_opt_value(&mut members, "_meta", &self.meta);
        Json::object(members)
    }

    fn from_json(j: &Json) -> (r: Result<CompleteResult, Error>) {
        let completion = required::<CompletionResults>(j, "completion")?;
        let meta = optional::<Json>(j, "_meta")?;
        Ok(CompleteResult { completion, meta })
    }
}

impl MessageResult for CompleteResult {
}

} // verus!
