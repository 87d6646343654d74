//! Protocol types and definitions for MCP prompts: prompt templates,
//! arguments, and messages.

use crate::error::Error;
use crate::json::{
    duplicate_opt, lemma_lookup_empty, lemma_lookup_push, lemma_lookup_push_opt, members_view,
    opt_view, push_opt, put_str, Json, JsonValue,
};
use crate::protocol::wire::{
    all_lossless, encode_list, encode_opt, encode_opt_list, lemma_list_member, lemma_member,
    lemma_opt_list_member, lemma_opt_member, list_member, member, opt_all_lossless,
    opt_list_member, opt_lossless, opt_member, optional, optional_list, put_list, put_opt_list,
    put_opt_value, put_value, required, required_list, view_opt, views, views_opt, Wire,
};
use crate::protocol::messages::{MessageResult, Notification, Request};
use crate::json::str_eq;
use crate::protocol::resources::{EmbeddedResource, EmbeddedResourceView, ResourceContent};
use crate::protocol::sampling::{
    AudioContent, AudioContentView, ImageContent, ImageContentView, TextContent, TextContentView,
};
use crate::protocol::Role;
use vstd::prelude::*;

verus! {

/// Describes an argument that a prompt can accept.
#[derive(Debug, Clone, PartialEq)]
pub struct PromptArgument {
    /// The name of the argument.
    pub name: String,
    /// A human-readable description of the argument.
    pub description: Option<String>,
    /// Whether this argument must be provided.
    pub required: Option<bool>,
}

/// The mathematical value of a [`PromptArgument`].
pub struct PromptArgumentView {
    pub name: Seq<char>,
    pub description: Option<Seq<char>>,
    pub required: Option<bool>,
}

impl View for PromptArgument {
    type V = PromptArgumentView;

    open spec fn view(&self) -> PromptArgumentView {
        PromptArgumentView {
            name: self.name@,
            description: view_opt(self.description),
            required: view_opt(self.required),
        }
    }
}

impl Wire for PromptArgument {
    open spec fn encode(v: PromptArgumentView) -> JsonValue {
        let m = Seq::empty();
        let m = m.push(("name"@, JsonValue::Str(v.name)));
        let m = push_opt(m, "description"@, encode_opt::<String>(v.description));
        let m = push_opt(m, "required"@, encode_opt::<bool>(v.required));
        JsonValue::Object(m)
    }

    open spec fn decode(j: JsonValue) -> Option<PromptArgumentView> {
        match (
            member::<String>(j, "name"@),
            opt_member::<String>(j, "description"@),
            opt_member::<bool>(j, "required"@),
        ) {
            (Some(name), Some(description), Some(required)) => Some(
                PromptArgumentView { name, description, required },
            ),
            _ => None,
        }
    }

    open spec fn lossless(v: PromptArgumentView) -> bool {
        true
    }

    proof fn lemma_round_trip(v: PromptArgumentView) {
        reveal_strlit("name");
        reveal_strlit("description");
        reveal_strlit("required");
        assert("name"@.len() == 4);
        assert("description"@.len() == 11);
        assert("required"@.len() == 8);
        let m0 = Seq::<(Seq<char>, JsonValue)>::empty();
        let m1 = m0.push(("name"@, JsonValue::Str(v.name)));
        let m2 = push_opt(m1, "description"@, encode_opt::<String>(v.description));
        let m3 = push_opt(m2, "required"@, encode_opt::<bool>(v.required));
        lemma_lookup_empty("name"@);
        lemma_lookup_push(m0, "name"@, JsonValue::Str(v.name), "name"@);
        lemma_lookup_push_opt(m1, "description"@, encode_opt::<String>(v.description), "name"@);
        lemma_lookup_push_opt(m2, "required"@, encode_opt::<bool>(v.required), "name"@);
        lemma_lookup_empty("description"@);
        lemma_lookup_push(m0, "name"@, JsonValue::Str(v.name), "description"@);
        lemma_lookup_push_opt(m1, "description"@, encode_opt::<String>(v.description), "description"@);
        lemma_lookup_push_opt(m2, "required"@, encode_opt::<bool>(v.required), "description"@);
        lemma_lookup_empty("required"@);
        lemma_lookup_push(m0, "name"@, JsonValue::Str(v.name), "required"@);
        lemma_lookup_push_opt(m1, "description"@, encode_opt::<String>(v.description), "required"@);
        lemma_lookup_push_opt(m2, "required"@, encode_opt::<bool>(v.required), "required"@);
        let j = JsonValue::Object(m3);
        lemma_member::<String>(j, "name"@, v.name);
        lemma_opt_member::<String>(j, "description"@, v.description);
        lemma_opt_member::<bool>(j, "required"@, v.required);
    }

    fn to_json(&self) -> (j: Json) {
        let mut members: Vec<(String, Json)> = Vec::new();
        assert(members_view(members@) =~= Seq::empty());
        put_str(&mut members, "name", self.name.as_str());
        put_opt_value(&mut members, "description", &self.description);
        put_opt_value(&mut members, "required", &self.required);
        Json::object(members)
    }

    fn from_json(j: &Json) -> (r: Result<PromptArgument, Error>) {
        let name = required::<String>(j, "name")?;
        let description = optional::<String>(j, "description")?;
        let required = optional::<bool>(j, "required")?;
        Ok(PromptArgument { name, description, required })
    }
}

/// A prompt or prompt template that the server offers.
#[derive(Debug, Clone, PartialEq)]
pub struct Prompt {
    /// The name of the prompt or prompt template.
    pub name: String,
    /// An optional description of what this prompt provides.
    pub description: Option<String>,
    /// A list of arguments to use for templating the prompt.
    pub arguments: Option<Vec<PromptArgument>>,
}

/// The mathematical value of a [`Prompt`].
pub struct PromptView {
    pub name: Seq<char>,
    pub description: Option<Seq<char>>,
    pub arguments: Option<Seq<PromptArgumentView>>,
}

impl View for Prompt {
    type V = PromptView;

    open spec fn view(&self) -> PromptView {
        PromptView {
            name: self.name@,
            description: view_opt(self.description),
            arguments: views_opt(self.arguments),
        }
    }
}

impl Wire for Prompt {
    open spec fn encode(v: PromptView) -> JsonValue {
        let m = Seq::empty();
        let m = m.push(("name"@, JsonValue::Str(v.name)));
        let m = push_opt(m, "description"@, encode_opt::<String>(v.description));
        let m = push_opt(m, "arguments"@, encode_opt_list::<PromptArgument>(v.arguments));
        JsonValue::Object(m)
    }

    open spec fn decode(j: JsonValue) -> Option<PromptView> {
        match (
            member::<String>(j, "name"@),
            opt_member::<String>(j, "description"@),
            opt_list_member::<PromptArgument>(j, "arguments"@),
        ) {
            (Some(name), Some(description), Some(arguments)) => Some(
                PromptView { name, description, arguments },
            ),
            _ => None,
        }
    }

    open spec fn lossless(v: PromptView) -> bool {
        opt_all_lossless::<PromptArgument>(v.arguments)
    }

    proof fn lemma_round_trip(v: PromptView) {
        reveal_strlit("name");
        reveal_strlit("description");
        reveal_strlit("arguments");
        assert("name"@.len() == 4);
        assert("description"@.len() == 11);
        assert("arguments"@.len() == 9);
        let m0 = Seq::<(Seq<char>, JsonValue)>::empty();
        let m1 = m0.push(("name"@, JsonValue::Str(v.name)));
        let m2 = push_opt(m1, "description"@, encode_opt::<String>(v.description));
        let m3 = push_opt(m2, "arguments"@, encode_opt_list::<PromptArgument>(v.arguments));
        lemma_lookup_empty("name"@);
        lemma_lookup_push(m0, "name"@, JsonValue::Str(v.name), "name"@);
        lemma_lookup_push_opt(m1, "description"@, encode_opt::<String>(v.description), "name"@);
        lemma_lookup_push_opt(m2, "arguments"@, encode_opt_list::<PromptArgument>(v.arguments), "name"@);
        lemma_lookup_empty("description"@);
        lemma_lookup_push(m0, "name"@, JsonValue::Str(v.name), "description"@);
        lemma_lookup_push_opt(m1, "description"@, encode_opt::<String>(v.description), "description"@);
        lemma_lookup_push_opt(m2, "arguments"@, encode_opt_list::<PromptArgument>(v.arguments), "description"@);
        lemma_lookup_empty("arguments"@);
        lemma_lookup_push(m0, "name"@, JsonValue::Str(v.name), "arguments"@);
        lemma_lookup_push_opt(m1, "description"@, encode_opt::<String>(v.description), "arguments"@);
        lemma_lookup_push_opt(m2, "arguments"@, encode_opt_list::<PromptArgument>(v.arguments), "arguments"@);
        let j = JsonValue::Object(m3);
        lemma_member::<String>(j, "name"@, v.name);
        lemma_opt_member::<String>(j, "description"@, v.description);
        lemma_opt_list_member::<PromptArgument>(j, "arguments"@, v.arguments);
    }

    fn to_json(&self) -> (j: Json) {
        let mut members: Vec<(String, Json)> = Vec::new();
        assert(members_view(members@) =~= Seq::empty());
        put_str(&mut members, "name", self.name.as_str());
        put_opt_value(&mut members, "description", &self.description);
        put_opt_list(&mut members, "arguments", &self.arguments);
        Json::object(members)
    }

    fn from_json(j: &Json) -> (r: Result<Prompt, Error>) {
        let name = required::<String>(j, "name")?;
        let description = optional::<String>(j, "description")?;
        let arguments = optional_list::<PromptArgument>(j, "arguments")?;
        Ok(Prompt { name, description, arguments })
    }
}

/// The contents of a message in a prompt template or of a tool call result.
#[derive(Debug, Clone, PartialEq)]
pub enum PromptContent {
    /// Text content.
    Text(TextContent),
    /// Image content.
    Image(ImageContent),
    /// Audio content.
    Audio(AudioContent),
    /// Embedded resource.
    Resource(EmbeddedResource),
    /// Content of a kind this library does not know, kept as it came.
    Opaque(Json),
}

/// The mathematical value of a [`PromptContent`].
pub enum PromptContentView {
    Text(TextContentView),
    Image(ImageContentView),
    Audio(AudioContentView),
    Resource(EmbeddedResourceView),
    Opaque(JsonValue),
}

impl View for PromptContent {
    type V = PromptContentView;

    open spec fn view(&self) -> PromptContentView {
        match self {
            PromptContent::Text(c) => PromptContentView::Text(c@),
            PromptContent::Image(c) => PromptContentView::Image(c@),
            PromptContent::Audio(c) => PromptContentView::Audio(c@),
            PromptContent::Resource(c) => PromptContentView::Resource(c@),
            PromptContent::Opaque(j) => PromptContentView::Opaque(j@),
        }
    }
}

impl PromptContent {
    /// Reads content leniently: a document whose `type` is missing or
    /// unknown is kept as opaque content; one of a known type must be well
    /// formed.
    pub open spec fn decode_lenient(j: JsonValue) -> Option<PromptContentView> {
        match j.get_str("type"@) {
            Some(t) => {
                if t == "text"@ {
                    match TextContent::decode(j) {
                        Some(c) => Some(PromptContentView::Text(c)),
                        None => None,
                    }
                } else if t == "image"@ {
                    match ImageContent::decode(j) {
                        Some(c) => Some(PromptContentView::Image(c)),
                        None => None,
                    }
                } else if t == "audio"@ {
                    match AudioContent::decode(j) {
                        Some(c) => Some(PromptContentView::Audio(c)),
                        None => None,
                    }
                } else if t == "resource"@ {
                    match EmbeddedResource::decode(j) {
                        Some(c) => Some(PromptContentView::Resource(c)),
                        None => None,
                    }
                } else {
                    Some(PromptContentView::Opaque(j))
                }
            },
            None => Some(PromptContentView::Opaque(j)),
        }
    }

    /// Reads content leniently.
    pub fn from_json_lenient(j: &Json) -> (r: Result<PromptContent, Error>)
        ensures
            match r {
                Ok(v) => PromptContent::decode_lenient(j@) == Some(v@),
                Err(e) => PromptContent::decode_lenient(j@) is None && e is ParseError,
            },
    {
        match j.get_str("type") {
            Some(t) => {
                if str_eq(t, "text") {
                    Ok(PromptContent::Text(TextContent::from_json(j)?))
                } else if str_eq(t, "image") {
                    Ok(PromptContent::Image(ImageContent::from_json(j)?))
                } else if str_eq(t, "audio") {
                    Ok(PromptContent::Audio(AudioContent::from_json(j)?))
                } else if str_eq(t, "resource") {
                    Ok(PromptContent::Resource(EmbeddedResource::from_json(j)?))
                } else {
                    Ok(PromptContent::Opaque(j.duplicate()))
                }
            },
            None => Ok(PromptContent::Opaque(j.duplicate())),
        }
    }
}

impl Wire for PromptContent {
    open spec fn encode(v: PromptContentView) -> JsonValue {
        match v {
            PromptContentView::Text(c) => TextContent::encode(c),
            PromptContentView::Image(c) => ImageContent::encode(c),
            PromptContentView::Audio(c) => AudioContent::encode(c),
            PromptContentView::Resource(c) => EmbeddedResource::encode(c),
            PromptContentView::Opaque(j) => j,
        }
    }

    /// Reads content strictly: the `type` member names the kind, and an
    /// unknown kind is refused.
    open spec fn decode(j: JsonValue) -> Option<PromptContentView> {
        match j.get_str("type"@) {
            Some(t) => {
                if t == "text"@ {
                    match TextContent::decode(j) {
                        Some(c) => Some(PromptContentView::Text(c)),
                        None => None,
                    }
                } else if t == "image"@ {
                    match ImageContent::decode(j) {
                        Some(c) => Some(PromptContentView::Image(c)),
                        None => None,
                    }
                } else if t == "audio"@ {
                    match AudioContent::decode(j) {
                        Some(c) => Some(PromptContentView::Audio(c)),
                        None => None,
                    }
                } else if t == "resource"@ {
                    match EmbeddedResource::decode(j) {
                        Some(c) => Some(PromptContentView::Resource(c)),
                        None => None,
                    }
                } else {
                    None
                }
            },
            None => None,
        }
    }

    /// Content of a known kind whose `type` member names that kind.
    open spec fn lossless(v: PromptContentView) -> bool {
        match v {
            PromptContentView::Text(c) => TextContent::lossless(c) && c.kind == "text"@,
            PromptContentView::Image(c) => ImageContent::lossless(c) && c.kind == "image"@,
            PromptContentView::Audio(c) => AudioContent::lossless(c) && c.kind == "audio"@,
            PromptContentView::Resource(c) => EmbeddedResource::lossless(c) && c.kind == "resource"@,
            PromptContentView::Opaque(_) => false,
        }
    }

    proof fn lemma_round_trip(v: PromptContentView) {
        reveal_strlit("text");
        reveal_strlit("image");
        reveal_strlit("audio");
        reveal_strlit("resource");
        assert("text"@.len() == 4);
        assert("image"@.len() == 5);
        assert("audio"@.len() == 5);
        assert("resource"@.len() == 8);
        assert("image"@[0] != "audio"@[0]);
        match v {
            PromptContentView::Text(c) => TextContent::lemma_round_trip(c),
            PromptContentView::Image(c) => ImageContent::lemma_round_trip(c),
            PromptContentView::Audio(c) => AudioContent::lemma_round_trip(c),
            PromptContentView::Resource(c) => EmbeddedResource::lemma_round_trip(c),
            PromptContentView::Opaque(_) => {},
        }
    }

    fn to_json(&self) -> (j: Json) {
        match self {
            PromptContent::Text(c) => c.to_json(),
            PromptContent::Image(c) => c.to_json(),
            PromptContent::Audio(c) => c.to_json(),
            PromptContent::Resource(c) => c.to_json(),
            PromptContent::Opaque(j) => j.duplicate(),
        }
    }

    fn from_json(j: &Json) -> (r: Result<PromptContent, Error>) {
        match j.get_str("type") {
            Some(t) => {
                if str_eq(t, "text") {
                    Ok(PromptContent::Text(TextContent::from_json(j)?))
                } else if str_eq(t, "image") {
                    Ok(PromptContent::Image(ImageContent::from_json(j)?))
                } else if str_eq(t, "audio") {
                    Ok(PromptContent::Audio(AudioContent::from_json(j)?))
                } else if str_eq(t, "resource") {
                    Ok(PromptContent::Resource(EmbeddedResource::from_json(j)?))
                } else {
                    Err(Error::parse("unknown content type"))
                }
            },
            None => Err(Error::parse("content without a type")),
        }
    }
}

/// Lenient reading gives back what was written: content of a known kind
/// that strict reading gives back, and opaque content whose `type` member
/// is missing or names no known kind.
pub proof fn lemma_lenient_round_trip(v: PromptContentView)
    requires
        match v {
            PromptContentView::Opaque(j) => match j.get_str("type"@) {
                Some(t) => t != "text"@ && t != "image"@ && t != "audio"@ && t != "resource"@,
                None => true,
            },
            _ => PromptContent::lossless(v),
        },
    ensures
        PromptContent::decode_lenient(PromptContent::encode(v)) == Some(v),
{
    if !(v is Opaque) {
        PromptContent::lemma_round_trip(v);
    }
}

/// Describes a message returned as part of a prompt. This is similar to
/// `SamplingMessage`, but also supports the embedding of resources from the MCP
/// server.
#[derive(Debug, Clone, PartialEq)]
pub struct PromptMessage {
    /// The role of the message sender (user or assistant).
    pub role: Role,
    /// The content of the message.
    pub content: PromptContent,
}

/// The mathematical value of a [`PromptMessage`].
pub struct PromptMessageView {
    pub role: Role,
    pub content: PromptContentView,
}

impl View for PromptMessage {
    type V = PromptMessageView;

    open spec fn view(&self) -> PromptMessageView {
        PromptMessageView {
            role: self.role@,
            content: self.content@,
        }
    }
}

impl Wire for PromptMessage {
    open spec fn encode(v: PromptMessageView) -> JsonValue {
        let m = Seq::empty();
        let m = m.push(("role"@, Role::encode(v.role)));
        let m = m.push(("content"@, PromptContent::encode(v.content)));
        JsonValue::Object(m)
    }

    open spec fn decode(j: JsonValue) -> Option<PromptMessageView> {
        match (
            member::<Role>(j, "role"@),
            member::<PromptContent>(j, "content"@),
        ) {
            (Some(role), Some(content)) => Some(
                PromptMessageView { role, content },
            ),
            _ => None,
        }
    }

    open spec fn lossless(v: PromptMessageView) -> bool {
        PromptContent::lossless(v.content)
    }

    proof fn lemma_round_trip(v: PromptMessageView) {
        reveal_strlit("role");
        reveal_strlit("content");
        assert("role"@.len() == 4);
        assert("content"@.len() == 7);
        let m0 = Seq::<(Seq<char>, JsonValue)>::empty();
        let m1 = m0.push(("role"@, Role::encode(v.role)));
        let m2 = m1.push(("content"@, PromptContent::encode(v.content)));
        lemma_lookup_empty("role"@);
        lemma_lookup_push(m0, "role"@, Role::encode(v.role), "role"@);
        lemma_lookup_push(m1, "content"@, PromptContent::encode(v.content), "role"@);
        lemma_lookup_empty("content"@);
        lemma_lookup_push(m0, "role"@, Role::encode(v.role), "content"@);
        lemma_lookup_push(m1, "content"@, PromptContent::encode(v.content), "content"@);
        let j = JsonValue::Object(m2);
        lemma_member::<Role>(j, "role"@, v.role);
        lemma_member::<PromptContent>(j, "content"@, v.content);
    }

    fn to_json(&self) -> (j: Json) {
        let mut members: Vec<(String, Json)> = Vec::new();
        assert(members_view(members@) =~= Seq::empty());
        put_value(&mut members, "role", &self.role);
        put_value(&mut members, "content", &self.content);
        Json::object(members)
    }

    fn from_json(j: &Json) -> (r: Result<PromptMessage, Error>) {
        let role = required::<Role>(j, "role")?;
        let content = required::<PromptContent>(j, "content")?;
        Ok(PromptMessage { role, content })
    }
}

/// Identifies a prompt.
#[derive(Debug, Clone, PartialEq)]
pub struct PromptReference {
    /// Type identifier for the reference, always "ref/prompt".
    pub kind: String,
    /// The name of the prompt or prompt template.
    pub name: String,
}

/// The mathematical value of a [`PromptReference`].
pub struct PromptReferenceView {
    pub kind: Seq<char>,
    pub name: Seq<char>,
}

impl View for PromptReference {
    type V = PromptReferenceView;

    open spec fn view(&self) -> PromptReferenceView {
        PromptReferenceView {
            kind: self.kind@,
            name: self.name@,
        }
    }
}

impl PromptReference {
    /// Create a new prompt reference.
    pub fn new(name: &str) -> (r: PromptReference)
        ensures
            r@ == (PromptReferenceView {
                kind: "ref/prompt"@,
                name: name@,
            }),
    {
        PromptReference {
            kind: "ref/prompt".to_owned(),
            name: name.to_owned(),
        }
    }
}

impl Wire for PromptReference {
    open spec fn encode(v: PromptReferenceView) -> JsonValue {
        let m = Seq::empty();
        let m = m.push(("type"@, JsonValue::Str(v.kind)));
        let m = m.push(("name"@, JsonValue::Str(v.name)));
        JsonValue::Object(m)
    }

    open spec fn decode(j: JsonValue) -> Option<PromptReferenceView> {
        match (
            member::<String>(j, "type"@),
            member::<String>(j, "name"@),
        ) {
            (Some(kind), Some(name)) => Some(
                PromptReferenceView { kind, name },
            ),
            _ => None,
        }
    }

    open spec fn lossless(v: PromptReferenceView) -> bool {
        true
    }

    proof fn lemma_round_trip(v: PromptReferenceView) {
        reveal_strlit("type");
        reveal_strlit("name");
        assert("type"@.len() == 4);
        assert("name"@.len() == 4);
        assert("type"@[0] != "name"@[0]);
        let m0 = Seq::<(Seq<char>, JsonValue)>::empty();
        let m1 = m0.push(("type"@, JsonValue::Str(v.kind)));
        let m2 = m1.push(("name"@, JsonValue::Str(v.name)));
        lemma_lookup_empty("type"@);
        lemma_lookup_push(m0, "type"@, JsonValue::Str(v.kind), "type"@);
        lemma_lookup_push(m1, "name"@, JsonValue::Str(v.name), "type"@);
        lemma_lookup_empty("name"@);
        lemma_lookup_push(m0, "type"@, JsonValue::Str(v.kind), "name"@);
        lemma_lookup_push(m1, "name"@, JsonValue::Str(v.name), "name"@);
        let j = JsonValue::Object(m2);
        lemma_member::<String>(j, "type"@, v.kind);
        lemma_member::<String>(j, "name"@, v.name);
    }

    fn to_json(&self) -> (j: Json) {
        let mut members: Vec<(String, Json)> = Vec::new();
        assert(members_view(members@) =~= Seq::empty());
        put_str(&mut members, "type", self.kind.as_str());
        put_str(&mut members, "name", self.name.as_str());
        Json::object(members)
    }

    fn from_json(j: &Json) -> (r: Result<PromptReference, Error>) {
        let kind = required::<String>(j, "type")?;
        let name = required::<String>(j, "name")?;
        Ok(PromptReference { kind, name })
    }
}

/// Parameters for the list prompts request.
#[derive(Debug, Clone, PartialEq)]
pub struct ListPromptsParams {
    /// An opaque token representing the current pagination position.
    pub cursor: Option<String>,
}

/// The mathematical value of a [`ListPromptsParams`].
pub struct ListPromptsParamsView {
    pub cursor: Option<Seq<char>>,
}

impl View for ListPromptsParams {
    type V = ListPromptsParamsView;

    open spec fn view(&self) -> ListPromptsParamsView {
        ListPromptsParamsView {
            cursor: view_opt(self.cursor),
        }
    }
}

impl Wire for ListPromptsParams {
    open spec fn encode(v: ListPromptsParamsView) -> JsonValue {
        let m = Seq::empty();
        let m = push_opt(m, "cursor"@, encode_opt::<String>(v.cursor));
        JsonValue::Object(m)
    }

    /// Every member is optional, but the document must be an object.
    open spec fn decode(j: JsonValue) -> Option<ListPromptsParamsView> {
        if !(j is Object) {
            None
        } else {
            match opt_member::<String>(j, "cursor"@) {
                Some(cursor) => Some(ListPromptsParamsView { cursor }),
                None => None,
            }
        }
    }

    open spec fn lossless(v: ListPromptsParamsView) -> bool {
        true
    }

    proof fn lemma_round_trip(v: ListPromptsParamsView) {
        reveal_strlit("cursor");
        let m0 = Seq::<(Seq<char>, JsonValue)>::empty();
        let m1 = push_opt(m0, "cursor"@, encode_opt::<String>(v.cursor));
        lemma_lookup_empty("cursor"@);
        lemma_lookup_push_opt(m0, "cursor"@, encode_opt::<String>(v.cursor), "cursor"@);
        let j = JsonValue::Object(m1);
        lemma_opt_member::<String>(j, "cursor"@, v.cursor);
    }

    fn to_json(&self) -> (j: Json) {
        let mut members: Vec<(String, Json)> = Vec::new();
        assert(members_view(members@) =~= Seq::empty());
        put_opt_value(&mut members, "cursor", &self.cursor);
        Json::object(members)
    }

    fn from_json(j: &Json) -> (r: Result<ListPromptsParams, Error>) {
        if !j.is_object() {
            return Err(Error::parse("expected an object"));
        }
        let cursor = optional::<String>(j, "cursor")?;
        Ok(ListPromptsParams { cursor })
    }
}

/// Sent from the client to request a list of prompts and prompt templates the
/// server has.
#[derive(Debug, Clone, PartialEq)]
pub struct ListPromptsRequest {
    /// Method is always "prompts/list".
    pub method: String,
    /// Optional request parameters.
    pub params: Option<ListPromptsParams>,
}

/// The mathematical value of a [`ListPromptsRequest`].
pub struct ListPromptsRequestView {
    pub method: Seq<char>,
    pub params: Option<ListPromptsParamsView>,
}

impl View for ListPromptsRequest {
    type V = ListPromptsRequestView;

    open spec fn view(&self) -> ListPromptsRequestView {
        ListPromptsRequestView {
            method: self.method@,
            params: view_opt(self.params),
        }
    }
}

impl ListPromptsRequest {
    /// Create a new list prompts request.
    pub fn new() -> (r: ListPromptsRequest)
        ensures
            r@ == (ListPromptsRequestView {
                method: "prompts/list"@,
                params: None,
            }),
    {
        ListPromptsRequest {
            method: "prompts/list".to_owned(),
            params: None,
        }
    }

    /// Create a new list prompts request with pagination.
    pub fn with_cursor(cursor: &str) -> (r: ListPromptsRequest)
        ensures
            r@ == (ListPromptsRequestView {
                method: "prompts/list"@,
                params: Some(ListPromptsParamsView { cursor: Some(cursor@) }),
            }),
    {
        ListPromptsRequest {
            method: "prompts/list".to_owned(),
            params: Some(ListPromptsParams { cursor: Some(cursor.to_owned()) }),
        }
    }
}

impl Wire for ListPromptsRequest {
    open spec fn encode(v: ListPromptsRequestView) -> JsonValue {
        let m = Seq::empty();
        let m = m.push(("method"@, JsonValue::Str(v.method)));
        let m = push_opt(m, "params"@, encode_opt::<ListPromptsParams>(v.params));
        JsonValue::Object(m)
    }

    open spec fn decode(j: JsonValue) -> Option<ListPromptsRequestView> {
        match (
            member::<String>(j, "method"@),
            opt_member::<ListPromptsParams>(j, "params"@),
        ) {
            (Some(method), Some(params)) => Some(
                ListPromptsRequestView { method, params },
            ),
            _ => None,
        }
    }

    open spec fn lossless(v: ListPromptsRequestView) -> bool {
        opt_lossless::<ListPromptsParams>(v.params)
    }

    proof fn lemma_round_trip(v: ListPromptsRequestView) {
        reveal_strlit("method");
        reveal_strlit("params");
        assert("method"@.len() == 6);
        assert("params"@.len() == 6);
        assert("method"@[0] != "params"@[0]);
        let m0 = Seq::<(Seq<char>, JsonValue)>::empty();
        let m1 = m0.push(("method"@, JsonValue::Str(v.method)));
        let m2 = push_opt(m1, "params"@, encode_opt::<ListPromptsParams>(v.params));
        lemma_lookup_empty("method"@);
        lemma_lookup_push(m0, "method"@, JsonValue::Str(v.method), "method"@);
        lemma_lookup_push_opt(m1, "params"@, encode_opt::<ListPromptsParams>(v.params), "method"@);
        lemma_lookup_empty("params"@);
        lemma_lookup_push(m0, "method"@, JsonValue::Str(v.method), "params"@);
        lemma_lookup_push_opt(m1, "params"@, encode_opt::<ListPromptsParams>(v.params), "params"@);
        let j = JsonValue::Object(m2);
        lemma_member::<String>(j, "method"@, v.method);
        lemma_opt_member::<ListPromptsParams>(j, "params"@, v.params);
    }

    fn to_json(&self) -> (j: Json) {
        let mut members: Vec<(String, Json)> = Vec::new();
        assert(members_view(members@) =~= Seq::empty());
        put_str(&mut members, "method", self.method.as_str());
        put_opt_value(&mut members, "params", &self.params);
        Json::object(members)
    }

    fn from_json(j: &Json) -> (r: Result<ListPromptsRequest, Error>) {
        let method = required::<String>(j, "method")?;
        let params = optional::<ListPromptsParams>(j, "params")?;
        Ok(ListPromptsRequest { method, params })
    }
}

impl Request for ListPromptsRequest {
    open spec fn method_name(&self) -> Seq<char> {
        self.method@
    }

    open spec fn params_value(&self) -> Option<JsonValue> {
        encode_opt::<ListPromptsParams>(view_opt(self.params))
    }

    fn method(&self) -> (m: &str) {
        self.method.as_str()
    }

    fn params(&self) -> (p: Option<Json>) {
        match &self.params {
            Some(p) => Some(p.to_json()),
            None => None,
        }
    }
}

/// The server's response to a prompts/list request from the client.
#[derive(Debug, Clone, PartialEq)]
pub struct ListPromptsResult {
    /// Available prompts.
    pub prompts: Vec<Prompt>,
    /// An opaque token representing the pagination position after the last
    /// returned result.
    pub next_cursor: Option<String>,
    /// Optional metadata.
    pub meta: Option<Json>,
}

/// The mathematical value of a [`ListPromptsResult`].
pub struct ListPromptsResultView {
    pub prompts: Seq<PromptView>,
    pub next_cursor: Option<Seq<char>>,
    pub meta: Option<JsonValue>,
}

impl View for ListPromptsResult {
    type V = ListPromptsResultView;

    open spec fn view(&self) -> ListPromptsResultView {
        ListPromptsResultView {
            prompts: views(self.prompts@),
            next_cursor: view_opt(self.next_cursor),
            meta: view_opt(self.meta),
        }
    }
}

impl Wire for ListPromptsResult {
    open spec fn encode(v: ListPromptsResultView) -> JsonValue {
        let m = Seq::empty();
        let m = m.push(("prompts"@, encode_list::<Prompt>(v.prompts)));
        let m = push_opt(m, "nextCursor"@, encode_opt::<String>(v.next_cursor));
        let m = push_opt(m, "_meta"@, encode_opt::<Json>(v.meta));
        JsonValue::Object(m)
    }

    open spec fn decode(j: JsonValue) -> Option<ListPromptsResultView> {
        match (
            list_member::<Prompt>(j, "prompts"@),
            opt_member::<String>(j, "nextCursor"@),
            opt_member::<Json>(j, "_meta"@),
        ) {
            (Some(prompts), Some(next_cursor), Some(meta)) => Some(
                ListPromptsResultView { prompts, next_cursor, meta },
            ),
            _ => None,
        }
    }

    open spec fn lossless(v: ListPromptsResultView) -> bool {
        &&& all_lossless::<Prompt>(v.prompts)
        &&& opt_lossless::<Json>(v.meta)
    }

    proof fn lemma_round_trip(v: ListPromptsResultView) {
        reveal_strlit("prompts");
        reveal_strlit("nextCursor");
        reveal_strlit("_meta");
        assert("prompts"@.len() == 7);
        assert("nextCursor"@.len() == 10);
        assert("_meta"@.len() == 5);
        let m0 = Seq::<(Seq<char>, JsonValue)>::empty();
        let m1 = m0.push(("prompts"@, encode_list::<Prompt>(v.prompts)));
        let m2 = push_opt(m1, "nextCursor"@, encode_opt::<String>(v.next_cursor));
        let m3 = push_opt(m2, "_meta"@, encode_opt::<Json>(v.meta));
        lemma_lookup_empty("prompts"@);
        lemma_lookup_push(m0, "prompts"@, encode_list::<Prompt>(v.prompts), "prompts"@);
        lemma_lookup_push_opt(m1, "nextCursor"@, encode_opt::<String>(v.next_cursor), "prompts"@);
        lemma_lookup_push_opt(m2, "_meta"@, encode_opt::<Json>(v.meta), "prompts"@);
        lemma_lookup_empty("nextCursor"@);
        lemma_lookup_push(m0, "prompts"@, encode_list::<Prompt>(v.prompts), "nextCursor"@);
        lemma_lookup_push_opt(m1, "nextCursor"@, encode_opt::<String>(v.next_cursor), "nextCursor"@);
        lemma_lookup_push_opt(m2, "_meta"@, encode_opt::<Json>(v.meta), "nextCursor"@);
        lemma_lookup_empty("_meta"@);
        lemma_lookup_push(m0, "prompts"@, encode_list::<Prompt>(v.prompts), "_meta"@);
        lemma_lookup_push_opt(m1, "nextCursor"@, encode_opt::<String>(v.next_cursor), "_meta"@);
        lemma_lookup_push_opt(m2, "_meta"@, encode_opt::<Json>(v.meta), "_meta"@);
        let j = JsonValue::Object(m3);
        lemma_list_member::<Prompt>(j, "prompts"@, v.prompts);
        lemma_opt_member::<String>(j, "nextCursor"@, v.next_cursor);
        lemma_opt_member::<Json>(j, "_meta"@, v.meta);
    }

    fn to_json(&self) -> (j: Json) {
        let mut members: Vec<(String, Json)> = Vec::new();
        assert(members_view(members@) =~= Seq::empty());
        put_list(&mut members, "prompts", &self.prompts);
        put_opt_value(&mut members, "nextCursor", &self.next_cursor);
        put_opt_value(&mut members, "_meta", &self.meta);
        Json::object(members)
    }

    fn from_json(j: &Json) -> (r: Result<ListPromptsResult, Error>) {
        let prompts = required_list::<Prompt>(j, "prompts")?;
        let next_cursor = optional::<String>(j, "nextCursor")?;
        let meta = optional::<Json>(j, "_meta")?;
        Ok(ListPromptsResult { prompts, next_cursor, meta })
    }
}

impl MessageResult for ListPromptsResult {
}

/// One argument given to a prompt: its name and its value.
#[derive(Debug, Clone, PartialEq)]
pub struct PromptArgumentValue {
    /// The name of the argument.
    pub name: String,
    /// The value of the argument.
    pub value: String,
}

/// The mathematical value of a [`PromptArgumentValue`].
pub struct PromptArgumentValueView {
    pub name: Seq<char>,
    pub value: Seq<char>,
}

impl View for PromptArgumentValue {
    type V = PromptArgumentValueView;

    open spec fn view(&self) -> PromptArgumentValueView {
        PromptArgumentValueView {
            name: self.name@,
            value: self.value@,
        }
    }
}

impl PromptArgumentValue {
    /// Create a new argument value.
    pub fn new(name: &str, value: &str) -> (r: PromptArgumentValue)
        ensures
            r@ == (PromptArgumentValueView {
                name: name@,
                value: value@,
            }),
    {
        PromptArgumentValue {
            name: name.to_owned(),
            value: value.to_owned(),
        }
    }
}

impl Wire for PromptArgumentValue {
    open spec fn encode(v: PromptArgumentValueView) -> JsonValue {
        let m = Seq::empty();
        let m = m.push(("name"@, JsonValue::Str(v.name)));
        let m = m.push(("value"@, JsonValue::Str(v.value)));
        JsonValue::Object(m)
    }

    open spec fn decode(j: JsonValue) -> Option<PromptArgumentValueView> {
        match (
            member::<String>(j, "name"@),
            member::<String>(j, "value"@),
        ) {
            (Some(name), Some(value)) => Some(
                PromptArgumentValueView { name, value },
            ),
            _ => None,
        }
    }

    open spec fn lossless(v: PromptArgumentValueView) -> bool {
        true
    }

    proof fn lemma_round_trip(v: PromptArgumentValueView) {
        reveal_strlit("name");
        reveal_strlit("value");
        assert("name"@.len() == 4);
        assert("value"@.len() == 5);
        let m0 = Seq::<(Seq<char>, JsonValue)>::empty();
        let m1 = m0.push(("name"@, JsonValue::Str(v.name)));
        let m2 = m1.push(("value"@, JsonValue::Str(v.value)));
        lemma_lookup_empty("name"@);
        lemma_lookup_push(m0, "name"@, JsonValue::Str(v.name), "name"@);
        lemma_lookup_push(m1, "value"@, JsonValue::Str(v.value), "name"@);
        lemma_lookup_empty("value"@);
        lemma_lookup_push(m0, "name"@, JsonValue::Str(v.name), "value"@);
        lemma_lookup_push(m1, "value"@, JsonValue::Str(v.value), "value"@);
        let j = JsonValue::Object(m2);
        lemma_member::<String>(j, "name"@, v.name);
        lemma_member::<String>(j, "value"@, v.value);
    }

    fn to_json(&self) -> (j: Json) {
        let mut members: Vec<(String, Json)> = Vec::new();
        assert(members_view(members@) =~= Seq::empty());
        put_str(&mut members, "name", self.name.as_str());
        put_str(&mut members, "value", self.value.as_str());
        Json::object(members)
    }

    fn from_json(j: &Json) -> (r: Result<PromptArgumentValue, Error>) {
        let name = required::<String>(j, "name")?;
        let value = required::<String>(j, "value")?;
        Ok(PromptArgumentValue { name, value })
    }
}

/// Parameters for the get prompt request.
#[derive(Debug, Clone, PartialEq)]
pub struct GetPromptParams {
    /// The name of the prompt or prompt template.
    pub name: String,
    /// Arguments to use for templating the prompt: an object of strings.
    pub arguments: Option<Json>,
}

/// The mathematical value of a [`GetPromptParams`].
pub struct GetPromptParamsView {
    pub name: Seq<char>,
    pub arguments: Option<JsonValue>,
}

impl View for GetPromptParams {
    type V = GetPromptParamsView;

    open spec fn view(&self) -> GetPromptParamsView {
        GetPromptParamsView {
            name: self.name@,
            arguments: view_opt(self.arguments),
        }
    }
}

impl Wire for GetPromptParams {
    open spec fn encode(v: GetPromptParamsView) -> JsonValue {
        let m = Seq::empty();
        let m = m.push(("name"@, JsonValue::Str(v.name)));
        let m = push_opt(m, "arguments"@, encode_opt::<Json>(v.arguments));
        JsonValue::Object(m)
    }

    open spec fn decode(j: JsonValue) -> Option<GetPromptParamsView> {
        match (
            member::<String>(j, "name"@),
            opt_member::<Json>(j, "arguments"@),
        ) {
            (Some(name), Some(arguments)) => Some(
                GetPromptParamsView { name, arguments },
            ),
            _ => None,
        }
    }

    open spec fn lossless(v: GetPromptParamsView) -> bool {
        opt_lossless::<Json>(v.arguments)
    }

    proof fn lemma_round_trip(v: GetPromptParamsView) {
        reveal_strlit("name");
        reveal_strlit("arguments");
        assert("name"@.len() == 4);
        assert("arguments"@.len() == 9);
        let m0 = Seq::<(Seq<char>, JsonValue)>::empty();
        let m1 = m0.push(("name"@, JsonValue::Str(v.name)));
        let m2 = push_opt(m1, "arguments"@, encode_opt::<Json>(v.arguments));
        lemma_lookup_empty("name"@);
        lemma_lookup_push(m0, "name"@, JsonValue::Str(v.name), "name"@);
        lemma_lookup_push_opt(m1, "arguments"@, encode_opt::<Json>(v.arguments), "name"@);
        lemma_lookup_empty("arguments"@);
        lemma_lookup_push(m0, "name"@, JsonValue::Str(v.name), "arguments"@);
        lemma_lookup_push_opt(m1, "arguments"@, encode_opt::<Json>(v.arguments), "arguments"@);
        let j = JsonValue::Object(m2);
        lemma_member::<String>(j, "name"@, v.name);
        lemma_opt_member::<Json>(j, "arguments"@, v.arguments);
    }

    fn to_json(&self) -> (j: Json) {
        let mut members: Vec<(String, Json)> = Vec::new();
        assert(members_view(members@) =~= Seq::empty());
        put_str(&mut members, "name", self.name.as_str());
        put_opt_value(&mut members, "arguments", &self.arguments);
        Json::object(members)
    }

    fn from_json(j: &Json) -> (r: Result<GetPromptParams, Error>) {
        let name = required::<String>(j, "name")?;
        let arguments = optional::<Json>(j, "arguments")?;
        Ok(GetPromptParams { name, arguments })
    }
}

/// Used by the client to get a prompt provided by the server.
#[derive(Debug, Clone, PartialEq)]
pub struct GetPromptRequest {
    /// The method name, always "prompts/get".
    pub method: String,
    /// The request parameters.
    pub params: GetPromptParams,
}

/// The mathematical value of a [`GetPromptRequest`].
pub struct GetPromptRequestView {
    pub method: Seq<char>,
    pub params: GetPromptParamsView,
}

impl View for GetPromptRequest {
    type V = GetPromptRequestView;

    open spec fn view(&self) -> GetPromptRequestView {
        GetPromptRequestView {
            method: self.method@,
            params: self.params@,
        }
    }
}

impl GetPromptRequest {
    /// Create a new get prompt request.
    pub fn new(name: &str) -> (r: GetPromptRequest)
        ensures
            r@ == (GetPromptRequestView {
                method: "prompts/get"@,
                params: GetPromptParamsView { name: name@, arguments: None },
            }),
    {
        GetPromptRequest {
            method: "prompts/get".to_owned(),
            params: GetPromptParams { name: name.to_owned(), arguments: None },
        }
    }

    /// Create a new get prompt request with arguments.
    pub fn with_arguments(name: &str, arguments: &Vec<(String, String)>) -> (r: GetPromptRequest)
        ensures
            r@ == (GetPromptRequestView {
                method: "prompts/get"@,
                params: GetPromptParamsView {
                    name: name@,
                    arguments: Some(string_map_value(arguments@)),
                },
            }),
    {
        GetPromptRequest {
            method: "prompts/get".to_owned(),
            params: GetPromptParams {
                name: name.to_owned(),
                arguments: Some(string_map_to_json(arguments)),
            },
        }
    }
}

impl Wire for GetPromptRequest {
    open spec fn encode(v: GetPromptRequestView) -> JsonValue {
        let m = Seq::empty();
        let m = m.push(("method"@, JsonValue::Str(v.method)));
        let m = m.push(("params"@, GetPromptParams::encode(v.params)));
        JsonValue::Object(m)
    }

    open spec fn decode(j: JsonValue) -> Option<GetPromptRequestView> {
        match (
            member::<String>(j, "method"@),
            member::<GetPromptParams>(j, "params"@),
        ) {
            (Some(method), Some(params)) => Some(
                GetPromptRequestView { method, params },
            ),
            _ => None,
        }
    }

    open spec fn lossless(v: GetPromptRequestView) -> bool {
        GetPromptParams::lossless(v.params)
    }

    proof fn lemma_round_trip(v: GetPromptRequestView) {
        reveal_strlit("method");
        reveal_strlit("params");
        assert("method"@.len() == 6);
        assert("params"@.len() == 6);
        assert("method"@[0] != "params"@[0]);
        let m0 = Seq::<(Seq<char>, JsonValue)>::empty();
        let m1 = m0.push(("method"@, JsonValue::Str(v.method)));
        let m2 = m1.push(("params"@, GetPromptParams::encode(v.params)));
        lemma_lookup_empty("method"@);
        lemma_lookup_push(m0, "method"@, JsonValue::Str(v.method), "method"@);
        lemma_lookup_push(m1, "params"@, GetPromptParams::encode(v.params), "method"@);
        lemma_lookup_empty("params"@);
        lemma_lookup_push(m0, "method"@, JsonValue::Str(v.method), "params"@);
        lemma_lookup_push(m1, "params"@, GetPromptParams::encode(v.params), "params"@);
        let j = JsonValue::Object(m2);
        lemma_member::<String>(j, "method"@, v.method);
        lemma_member::<GetPromptParams>(j, "params"@, v.params);
    }

    fn to_json(&self) -> (j: Json) {
        let mut members: Vec<(String, Json)> = Vec::new();
        assert(members_view(members@) =~= Seq::empty());
        put_str(&mut members, "method", self.method.as_str());
        put_value(&mut members, "params", &self.params);
        Json::object(members)
    }

    fn from_json(j: &Json) -> (r: Result<GetPromptRequest, Error>) {
        let method = required::<String>(j, "method")?;
        let params = required::<GetPromptParams>(j, "params")?;
        Ok(GetPromptRequest { method, params })
    }
}

impl Request for GetPromptRequest {
    open spec fn method_name(&self) -> Seq<char> {
        self.method@
    }

    open spec fn params_value(&self) -> Option<JsonValue> {
        Some(GetPromptParams::encode(self.params@))
    }

    fn method(&self) -> (m: &str) {
        self.method.as_str()
    }

    fn params(&self) -> (p: Option<Json>) {
        Some(self.params.to_json())
    }
}

/// The server's response to a prompts/get request from the client.
#[derive(Debug, Clone, PartialEq)]
pub struct GetPromptResult {
    /// An optional description for the prompt.
    pub description: Option<String>,
    /// The prompt messages.
    pub messages: Vec<PromptMessage>,
    /// Optional metadata.
    pub meta: Option<Json>,
}

/// The mathematical value of a [`GetPromptResult`].
pub struct GetPromptResultView {
    pub description: Option<Seq<char>>,
    pub messages: Seq<PromptMessageView>,
    pub meta: Option<JsonValue>,
}

impl View for GetPromptResult {
    type V = GetPromptResultView;

    open spec fn view(&self) -> GetPromptResultView {
        GetPromptResultView {
            description: view_opt(self.description),
            messages: views(self.messages@),
            meta: view_opt(self.meta),
        }
    }
}

impl Wire for GetPromptResult {
    open spec fn encode(v: GetPromptResultView) -> JsonValue {
        let m = Seq::empty();
        let m = push_opt(m, "description"@, encode_opt::<String>(v.description));
        let m = m.push(("messages"@, encode_list::<PromptMessage>(v.messages)));
        let m = push_opt(m, "_meta"@, encode_opt::<Json>(v.meta));
        JsonValue::Object(m)
    }

    open spec fn decode(j: JsonValue) -> Option<GetPromptResultView> {
        match (
            opt_member::<String>(j, "description"@),
            list_member::<PromptMessage>(j, "messages"@),
            opt_member::<Json>(j, "_meta"@),
        ) {
            (Some(description), Some(messages), Some(meta)) => Some(
                GetPromptResultView { description, messages, meta },
            ),
            _ => None,
        }
    }

    open spec fn lossless(v: GetPromptResultView) -> bool {
        &&& all_lossless::<PromptMessage>(v.messages)
        &&& opt_lossless::<Json>(v.meta)
    }

    proof fn lemma_round_trip(v: GetPromptResultView) {
        reveal_strlit("description");
        reveal_strlit("messages");
        reveal_strlit("_meta");
        assert("description"@.len() == 11);
        assert("messages"@.len() == 8);
        assert("_meta"@.len() == 5);
        let m0 = Seq::<(Seq<char>, JsonValue)>::empty();
        let m1 = push_opt(m0, "description"@, encode_opt::<String>(v.description));
        let m2 = m1.push(("messages"@, encode_list::<PromptMessage>(v.messages)));
        let m3 = push_opt(m2, "_meta"@, encode_opt::<Json>(v.meta));
        lemma_lookup_empty("description"@);
        lemma_lookup_push_opt(m0, "description"@, encode_opt::<String>(v.description), "description"@);
        lemma_lookup_push(m1, "messages"@, encode_list::<PromptMessage>(v.messages), "description"@);
        lemma_lookup_push_opt(m2, "_meta"@, encode_opt::<Json>(v.meta), "description"@);
        lemma_lookup_empty("messages"@);
        lemma_lookup_push_opt(m0, "description"@, encode_opt::<String>(v.description), "messages"@);
        lemma_lookup_push(m1, "messages"@, encode_list::<PromptMessage>(v.messages), "messages"@);
        lemma_lookup_push_opt(m2, "_meta"@, encode_opt::<Json>(v.meta), "messages"@);
        lemma_lookup_empty("_meta"@);
        lemma_lookup_push_opt(m0, "description"@, encode_opt::<String>(v.description), "_meta"@);
        lemma_lookup_push(m1, "messages"@, encode_list::<PromptMessage>(v.messages), "_meta"@);
        lemma_lookup_push_opt(m2, "_meta"@, encode_opt::<Json>(v.meta), "_meta"@);
        let j = JsonValue::Object(m3);
        lemma_opt_member::<String>(j, "description"@, v.description);
        lemma_list_member::<PromptMessage>(j, "messages"@, v.messages);
        lemma_opt_member::<Json>(j, "_meta"@, v.meta);
    }

    fn to_json(&self) -> (j: Json) {
        let mut members: Vec<(String, Json)> = Vec::new();
        assert(members_view(members@) =~= Seq::empty());
        put_opt_value(&mut members, "description", &self.description);
        put_list(&mut members, "messages", &self.messages);
        put_opt_value(&mut members, "_meta", &self.meta);
        Json::object(members)
    }

    fn from_json(j: &Json) -> (r: Result<GetPromptResult, Error>) {
        let description = optional::<String>(j, "description")?;
        let messages = required_list::<PromptMessage>(j, "messages")?;
        let meta = optional::<Json>(j, "_meta")?;
        Ok(GetPromptResult { description, messages, meta })
    }
}

impl MessageResult for GetPromptResult {
}

/// An optional notification from the server to the client, informing it that
/// the list of prompts it offers has changed.
#[derive(Debug, Clone, PartialEq)]
pub struct PromptListChangedNotification {
    /// Method is always "notifications/prompts/list_changed".
    pub method: String,
    /// Optional notification parameters.
    pub params: Option<Json>,
}

/// The mathematical value of a [`PromptListChangedNotification`].
pub struct PromptListChangedNotificationView {
    pub method: Seq<char>,
    pub params: Option<JsonValue>,
}

impl View for PromptListChangedNotification {
    type V = PromptListChangedNotificationView;

    open spec fn view(&self) -> PromptListChangedNotificationView {
        PromptListChangedNotificationView {
            method: self.method@,
            params: view_opt(self.params),
        }
    }
}

impl PromptListChangedNotification {
    /// Create a new prompt list changed notification.
    pub fn new() -> (r: PromptListChangedNotification)
        ensures
            r@ == (PromptListChangedNotificationView {
                method: "notifications/prompts/list_changed"@,
                params: None,
            }),
    {
        PromptListChangedNotification {
            method: "notifications/prompts/list_changed".to_owned(),
            params: None,
        }
    }
}

impl Wire for PromptListChangedNotification {
    open spec fn encode(v: PromptListChangedNotificationView) -> JsonValue {
        let m = Seq::empty();
        let m = m.push(("method"@, JsonValue::Str(v.method)));
        let m = push_opt(m, "params"@, encode_opt::<Json>(v.params));
        JsonValue::Object(m)
    }

    open spec fn decode(j: JsonValue) -> Option<PromptListChangedNotificationView> {
        match (
            member::<String>(j, "method"@),
            opt_member::<Json>(j, "params"@),
        ) {
            (Some(method), Some(params)) => Some(
                PromptListChangedNotificationView { method, params },
            ),
            _ => None,
        }
    }

    open spec fn lossless(v: PromptListChangedNotificationView) -> bool {
        opt_lossless::<Json>(v.params)
    }

    proof fn lemma_round_trip(v: PromptListChangedNotificationView) {
        reveal_strlit("method");
        reveal_strlit("params");
        assert("method"@.len() == 6);
        assert("params"@.len() == 6);
        assert("method"@[0] != "params"@[0]);
        let m0 = Seq::<(Seq<char>, JsonValue)>::empty();
        let m1 = m0.push(("method"@, JsonValue::Str(v.method)));
        let m2 = push_opt(m1, "params"@, encode_opt::<Json>(v.params));
        lemma_lookup_empty("method"@);
        lemma_lookup_push(m0, "method"@, JsonValue::Str(v.method), "method"@);
        lemma_lookup_push_opt(m1, "params"@, encode_opt::<Json>(v.params), "method"@);
        lemma_lookup_empty("params"@);
        lemma_lookup_push(m0, "method"@, JsonValue::Str(v.method), "params"@);
        lemma_lookup_push_opt(m1, "params"@, encode_opt::<Json>(v.params), "params"@);
        let j = JsonValue::Object(m2);
        lemma_member::<String>(j, "method"@, v.method);
        lemma_opt_member::<Json>(j, "params"@, v.params);
    }

    fn to_json(&self) -> (j: Json) {
        let mut members: Vec<(String, Json)> = Vec::new();
        assert(members_view(members@) =~= Seq::empty());
        put_str(&mut members, "method", self.method.as_str());
        put_opt_value(&mut members, "params", &self.params);
        Json::object(members)
    }

    fn from_json(j: &Json) -> (r: Result<PromptListChangedNotification, Error>) {
        let method = required::<String>(j, "method")?;
        let params = optional::<Json>(j, "params")?;
        Ok(PromptListChangedNotification { method, params })
    }
}

impl Notification for PromptListChangedNotification {
    open spec fn method_name(&self) -> Seq<char> {
        self.method@
    }

    open spec fn params_value(&self) -> Option<JsonValue> {
        opt_view(self.params)
    }

    fn method(&self) -> (m: &str) {
        self.method.as_str()
    }

    fn params(&self) -> (p: Option<Json>) {
        duplicate_opt(&self.params)
    }
}

/// The contents of a resource, embedded into a prompt or tool call result.
pub type ResourceContents = ResourceContent;

/// The JSON object that holds one string member per pair.
pub open spec fn string_map_value(pairs: Seq<(String, String)>) -> JsonValue {
    JsonValue::Object(Seq::new(pairs.len(), |i: int| (pairs[i].0@, JsonValue::Str(pairs[i].1@))))
}

/// Writes a list of name and value pairs as an object of strings.
pub fn string_map_to_json(pairs: &Vec<(String, String)>) -> (j: Json)
    ensures
        j@ == string_map_value(pairs@),
{
    let mut members: Vec<(String, Json)> = Vec::new();
    let mut i: usize = 0;
    while i < pairs.len()
        invariant
            i <= pairs.len(),
            members.len() == i,
            forall|k: int|
                0 <= k < i ==> members@[k].0@ == pairs@[k].0@ && members@[k].1@ == JsonValue::Str(
                    pairs@[k].1@,
                ),
        decreases pairs.len() - i,
    {
        members.push((pairs[i].0.clone(), Json::string(pairs[i].1.as_str())));
        i += 1;
    }
    assert(members_view(members@) =~= string_map_value(pairs@)->Object_0);
    Json::object(members)
}

} // verus!
