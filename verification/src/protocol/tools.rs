//! Protocol types and definitions for MCP tools: tool definitions,
//! arguments, and call results.

use crate::error::Error;
use crate::json::{
    duplicate_opt, lemma_lookup_empty, lemma_lookup_push, lemma_lookup_push_opt, members_view,
    opt_view, push_opt, put_str, Json, JsonValue,
};
use crate::protocol::wire::{
    all_lossless, encode_list, encode_opt, encode_opt_list, lemma_list_member, lemma_member,
    lemma_opt_list_member, lemma_opt_member, list_member, member, opt_list_member, opt_lossless,
    opt_member, optional, optional_list, put_list, put_opt_list, put_opt_value, put_value,
    required, required_list, view_opt, views, views_opt, Wire,
};
use crate::protocol::messages::{MessageResult, Notification, Request};
use crate::protocol::prompts::{PromptContent, PromptContentView};
use crate::protocol::sampling::{TextContent, TextContentView};
use vstd::prelude::*;

verus! {

/// Input schema for a tool, defining the expected parameters.
#[derive(Debug, Clone, PartialEq)]
pub struct ToolInputSchema {
    /// The schema type (always "object").
    pub kind: String,
    /// Properties the tool accepts: an object of schemas.
    pub properties: Option<Json>,
    /// Required properties.
    pub required: Option<Vec<String>>,
}

/// The mathematical value of a [`ToolInputSchema`].
pub struct ToolInputSchemaView {
    pub kind: Seq<char>,
    pub properties: Option<JsonValue>,
    pub required: Option<Seq<Seq<char>>>,
}

impl View for ToolInputSchema {
    type V = ToolInputSchemaView;

    open spec fn view(&self) -> ToolInputSchemaView {
        ToolInputSchemaView {
            kind: self.kind@,
            properties: view_opt(self.properties),
            required: views_opt(self.required),
        }
    }
}

impl Wire for ToolInputSchema {
    open spec fn encode(v: ToolInputSchemaView) -> JsonValue {
        let m = Seq::empty();
        let m = m.push(("type"@, JsonValue::Str(v.kind)));
        let m = push_opt(m, "properties"@, encode_opt::<Json>(v.properties));
        let m = push_opt(m, "required"@, encode_opt_list::<String>(v.required));
        JsonValue::Object(m)
    }

    open spec fn decode(j: JsonValue) -> Option<ToolInputSchemaView> {
        match (
            member::<String>(j, "type"@),
            opt_member::<Json>(j, "properties"@),
            opt_list_member::<String>(j, "required"@),
        ) {
            (Some(kind), Some(properties), Some(required)) => Some(
                ToolInputSchemaView { kind, properties, required },
            ),
            _ => None,
        }
    }

    open spec fn lossless(v: ToolInputSchemaView) -> bool {
        opt_lossless::<Json>(v.properties)
    }

    proof fn lemma_round_trip(v: ToolInputSchemaView) {
        reveal_strlit("type");
        reveal_strlit("properties");
        reveal_strlit("required");
        assert("type"@.len() == 4);
        assert("properties"@.len() == 10);
        assert("required"@.len() == 8);
        let m0 = Seq::<(Seq<char>, JsonValue)>::empty();
        let m1 = m0.push(("type"@, JsonValue::Str(v.kind)));
        let m2 = push_opt(m1, "properties"@, encode_opt::<Json>(v.properties));
        let m3 = push_opt(m2, "required"@, encode_opt_list::<String>(v.required));
        lemma_lookup_empty("type"@);
        lemma_lookup_push(m0, "type"@, JsonValue::Str(v.kind), "type"@);
        lemma_lookup_push_opt(m1, "properties"@, encode_opt::<Json>(v.properties), "type"@);
        lemma_lookup_push_opt(m2, "required"@, encode_opt_list::<String>(v.required), "type"@);
        lemma_lookup_empty("properties"@);
        lemma_lookup_push(m0, "type"@, JsonValue::Str(v.kind), "properties"@);
        lemma_lookup_push_opt(m1, "properties"@, encode_opt::<Json>(v.properties), "properties"@);
        lemma_lookup_push_opt(m2, "required"@, encode_opt_list::<String>(v.required), "properties"@);
        lemma_lookup_empty("required"@);
        lemma_lookup_push(m0, "type"@, JsonValue::Str(v.kind), "required"@);
        lemma_lookup_push_opt(m1, "properties"@, encode_opt::<Json>(v.properties), "required"@);
        lemma_lookup_push_opt(m2, "required"@, encode_opt_list::<String>(v.required), "required"@);
        let j = JsonValue::Object(m3);
        lemma_member::<String>(j, "type"@, v.kind);
        lemma_opt_member::<Json>(j, "properties"@, v.properties);
        lemma_opt_list_member::<String>(j, "required"@, v.required);
    }

    fn to_json(&self) -> (j: Json) {
        let mut members: Vec<(String, Json)> = Vec::new();
        assert(members_view(members@) =~= Seq::empty());
        put_str(&mut members, "type", self.kind.as_str());
        put_opt_value(&mut members, "properties", &self.properties);
        put_opt_list(&mut members, "required", &self.required);
        Json::object(members)
    }

    fn from_json(j: &Json) -> (r: Result<ToolInputSchema, Error>) {
        let kind = required::<String>(j, "type")?;
        let properties = optional::<Json>(j, "properties")?;
        let required = optional_list::<String>(j, "required")?;
        Ok(ToolInputSchema { kind, properties, required })
    }
}

/// Additional properties describing a Tool to clients. All properties are
/// hints: clients should never make tool use decisions based on annotations
/// received from untrusted servers.
#[derive(Debug, Clone, PartialEq)]
pub struct ToolAnnotations {
    /// A human-readable title for the tool.
    pub title: Option<String>,
    /// If true, the tool does not modify its environment.
    pub read_only_hint: Option<bool>,
    /// If true, the tool may perform destructive updates to its environment.
    pub destructive_hint: Option<bool>,
    /// If true, calling the tool repeatedly with the same arguments has no
    /// additional effect.
    pub idempotent_hint: Option<bool>,
    /// If true, this tool may interact with an open world of external entities.
    pub open_world_hint: Option<bool>,
}

/// The mathematical value of a [`ToolAnnotations`].
pub struct ToolAnnotationsView {
    pub title: Option<Seq<char>>,
    pub read_only_hint: Option<bool>,
    pub destructive_hint: Option<bool>,
    pub idempotent_hint: Option<bool>,
    pub open_world_hint: Option<bool>,
}

impl View for ToolAnnotations {
    type V = ToolAnnotationsView;

    open spec fn view(&self) -> ToolAnnotationsView {
        ToolAnnotationsView {
            title: view_opt(self.title),
            read_only_hint: view_opt(self.read_only_hint),
            destructive_hint: view_opt(self.destructive_hint),
            idempotent_hint: view_opt(self.idempotent_hint),
            open_world_hint: view_opt(self.open_world_hint),
        }
    }
}

impl ToolAnnotations {
    /// Create new tool annotations.
    pub fn new() -> (r: ToolAnnotations)
        ensures
            r@ == (ToolAnnotationsView {
                title: None,
                read_only_hint: None,
                destructive_hint: None,
                idempotent_hint: None,
                open_world_hint: None,
            }),
    {
        ToolAnnotations {
            title: None,
            read_only_hint: None,
            destructive_hint: None,
            idempotent_hint: None,
            open_world_hint: None,
        }
    }

    /// Set the title.
    pub fn with_title(self, title: &str) -> (r: ToolAnnotations)
        ensures
            r@ == (ToolAnnotationsView { title: Some(title@), ..self@ }),
    {
        let mut r = self;
        r.title = Some(title.to_owned());
        r
    }

    /// Mark the tool as read-only.
    pub fn read_only(self) -> (r: ToolAnnotations)
        ensures
            r@ == (ToolAnnotationsView { read_only_hint: Some(true), ..self@ }),
    {
        let mut r = self;
        r.read_only_hint = Some(true);
        r
    }

    /// Set whether the tool is destructive.
    pub fn destructive(self, is_destructive: bool) -> (r: ToolAnnotations)
        ensures
            r@ == (ToolAnnotationsView { destructive_hint: Some(is_destructive), ..self@ }),
    {
        let mut r = self;
        r.destructive_hint = Some(is_destructive);
        r
    }

    /// Set whether the tool is idempotent.
    pub fn idempotent(self, is_idempotent: bool) -> (r: ToolAnnotations)
        ensures
            r@ == (ToolAnnotationsView { idempotent_hint: Some(is_idempotent), ..self@ }),
    {
        let mut r = self;
        r.idempotent_hint = Some(is_idempotent);
        r
    }

    /// Set whether the tool interacts with an open world.
    pub fn open_world(self, is_open_world: bool) -> (r: ToolAnnotations)
        ensures
            r@ == (ToolAnnotationsView { open_world_hint: Some(is_open_world), ..self@ }),
    {
        let mut r = self;
        r.open_world_hint = Some(is_open_world);
        r
    }
}

impl Wire for ToolAnnotations {
    open spec fn encode(v: ToolAnnotationsView) -> JsonValue {
        let m = Seq::empty();
        let m = push_opt(m, "title"@, encode_opt::<String>(v.title));
        let m = push_opt(m, "readOnlyHint"@, encode_opt::<bool>(v.read_only_hint));
        let m = push_opt(m, "destructiveHint"@, encode_opt::<bool>(v.destructive_hint));
        let m = push_opt(m, "idempotentHint"@, encode_opt::<bool>(v.idempotent_hint));
        let m = push_opt(m, "openWorldHint"@, encode_opt::<bool>(v.open_world_hint));
        JsonValue::Object(m)
    }

    /// Every member is optional, but the document must be an object.
    open spec fn decode(j: JsonValue) -> Option<ToolAnnotationsView> {
        if !(j is Object) {
            None
        } else {
            match (
                opt_member::<String>(j, "title"@),
                opt_member::<bool>(j, "readOnlyHint"@),
                opt_member::<bool>(j, "destructiveHint"@),
                opt_member::<bool>(j, "idempotentHint"@),
                opt_member::<bool>(j, "openWorldHint"@),
            ) {
                (
                    Some(title),
                    Some(read_only_hint),
                    Some(destructive_hint),
                    Some(idempotent_hint),
                    Some(open_world_hint),
                ) => Some(
                    ToolAnnotationsView {
                        title,
                        read_only_hint,
                        destructive_hint,
                        idempotent_hint,
                        open_world_hint,
                    },
                ),
                _ => None,
            }
        }
    }

    open spec fn lossless(v: ToolAnnotationsView) -> bool {
        true
    }

    proof fn lemma_round_trip(v: ToolAnnotationsView) {
        reveal_strlit("title");
        reveal_strlit("readOnlyHint");
        reveal_strlit("destructiveHint");
        reveal_strlit("idempotentHint");
        reveal_strlit("openWorldHint");
        assert("title"@.len() == 5);
        assert("readOnlyHint"@.len() == 12);
        assert("destructiveHint"@.len() == 15);
        assert("idempotentHint"@.len() == 14);
        assert("openWorldHint"@.len() == 13);
        let m0 = Seq::<(Seq<char>, JsonValue)>::empty();
        let m1 = push_opt(m0, "title"@, encode_opt::<String>(v.title));
        let m2 = push_opt(m1, "readOnlyHint"@, encode_opt::<bool>(v.read_only_hint));
        let m3 = push_opt(m2, "destructiveHint"@, encode_opt::<bool>(v.destructive_hint));
        let m4 = push_opt(m3, "idempotentHint"@, encode_opt::<bool>(v.idempotent_hint));
        let m5 = push_opt(m4, "openWorldHint"@, encode_opt::<bool>(v.open_world_hint));
        lemma_lookup_empty("title"@);
        lemma_lookup_push_opt(m0, "title"@, encode_opt::<String>(v.title), "title"@);
        lemma_lookup_push_opt(m1, "readOnlyHint"@, encode_opt::<bool>(v.read_only_hint), "title"@);
        lemma_lookup_push_opt(m2, "destructiveHint"@, encode_opt::<bool>(v.destructive_hint), "title"@);
        lemma_lookup_push_opt(m3, "idempotentHint"@, encode_opt::<bool>(v.idempotent_hint), "title"@);
        lemma_lookup_push_opt(m4, "openWorldHint"@, encode_opt::<bool>(v.open_world_hint), "title"@);
        lemma_lookup_empty("readOnlyHint"@);
        lemma_lookup_push_opt(m0, "title"@, encode_opt::<String>(v.title), "readOnlyHint"@);
        lemma_lookup_push_opt(m1, "readOnlyHint"@, encode_opt::<bool>(v.read_only_hint), "readOnlyHint"@);
        lemma_lookup_push_opt(m2, "destructiveHint"@, encode_opt::<bool>(v.destructive_hint), "readOnlyHint"@);
        lemma_lookup_push_opt(m3, "idempotentHint"@, encode_opt::<bool>(v.idempotent_hint), "readOnlyHint"@);
        lemma_lookup_push_opt(m4, "openWorldHint"@, encode_opt::<bool>(v.open_world_hint), "readOnlyHint"@);
        lemma_lookup_empty("destructiveHint"@);
        lemma_lookup_push_opt(m0, "title"@, encode_opt::<String>(v.title), "destructiveHint"@);
        lemma_lookup_push_opt(m1, "readOnlyHint"@, encode_opt::<bool>(v.read_only_hint), "destructiveHint"@);
        lemma_lookup_push_opt(m2, "destructiveHint"@, encode_opt::<bool>(v.destructive_hint), "destructiveHint"@);
        lemma_lookup_push_opt(m3, "idempotentHint"@, encode_opt::<bool>(v.idempotent_hint), "destructiveHint"@);
        lemma_lookup_push_opt(m4, "openWorldHint"@, encode_opt::<bool>(v.open_world_hint), "destructiveHint"@);
        lemma_lookup_empty("idempotentHint"@);
        lemma_lookup_push_opt(m0, "title"@, encode_opt::<String>(v.title), "idempotentHint"@);
        lemma_lookup_push_opt(m1, "readOnlyHint"@, encode_opt::<bool>(v.read_only_hint), "idempotentHint"@);
        lemma_lookup_push_opt(m2, "destructiveHint"@, encode_opt::<bool>(v.destructive_hint), "idempotentHint"@);
        lemma_lookup_push_opt(m3, "idempotentHint"@, encode_opt::<bool>(v.idempotent_hint), "idempotentHint"@);
        lemma_lookup_push_opt(m4, "openWorldHint"@, encode_opt::<bool>(v.open_world_hint), "idempotentHint"@);
        lemma_lookup_empty("openWorldHint"@);
        lemma_lookup_push_opt(m0, "title"@, encode_opt::<String>(v.title), "openWorldHint"@);
        lemma_lookup_push_opt(m1, "readOnlyHint"@, encode_opt::<bool>(v.read_only_hint), "openWorldHint"@);
        lemma_lookup_push_opt(m2, "destructiveHint"@, encode_opt::<bool>(v.destructive_hint), "openWorldHint"@);
        lemma_lookup_push_opt(m3, "idempotentHint"@, encode_opt::<bool>(v.idempotent_hint), "openWorldHint"@);
        lemma_lookup_push_opt(m4, "openWorldHint"@, encode_opt::<bool>(v.open_world_hint), "openWorldHint"@);
        let j = JsonValue::Object(m5);
        lemma_opt_member::<String>(j, "title"@, v.title);
        lemma_opt_member::<bool>(j, "readOnlyHint"@, v.read_only_hint);
        lemma_opt_member::<bool>(j, "destructiveHint"@, v.destructive_hint);
        lemma_opt_member::<bool>(j, "idempotentHint"@, v.idempotent_hint);
        lemma_opt_member::<bool>(j, "openWorldHint"@, v.open_world_hint);
    }

    fn to_json(&self) -> (j: Json) {
        let mut members: Vec<(String, Json)> = Vec::new();
        assert(members_view(members@) =~= Seq::empty());
        put_opt_value(&mut members, "title", &self.title);
        put_opt_value(&mut members, "readOnlyHint", &self.read_only_hint);
        put_opt_value(&mut members, "destructiveHint", &self.destructive_hint);
        put_opt_value(&mut members, "idempotentHint", &self.idempotent_hint);
        put_opt_value(&mut members, "openWorldHint", &self.open_world_hint);
        Json::object(members)
    }

    fn from_json(j: &Json) -> (r: Result<ToolAnnotations, Error>) {
        if !j.is_object() {
            return Err(Error::parse("expected an object"));
        }
        let title = optional::<String>(j, "title")?;
        let read_only_hint = optional::<bool>(j, "readOnlyHint")?;
        let destructive_hint = optional::<bool>(j, "destructiveHint")?;
        let idempotent_hint = optional::<bool>(j, "idempotentHint")?;
        let open_world_hint = optional::<bool>(j, "openWorldHint")?;
        Ok(
            ToolAnnotations {
                title,
                read_only_hint,
                destructive_hint,
                idempotent_hint,
                open_world_hint,
            },
        )
    }
}

/// Definition for a tool the client can call.
#[derive(Debug, Clone, PartialEq)]
pub struct Tool {
    /// The name of the tool.
    pub name: String,
    /// A human-readable description of the tool.
    pub description: Option<String>,
    /// A JSON Schema object defining the expected parameters for the tool.
    pub input_schema: ToolInputSchema,
    /// Optional additional tool information.
    pub annotations: Option<ToolAnnotations>,
}

/// The mathematical value of a [`Tool`].
pub struct ToolView {
    pub name: Seq<char>,
    pub description: Option<Seq<char>>,
    pub input_schema: ToolInputSchemaView,
    pub annotations: Option<ToolAnnotationsView>,
}

impl View for Tool {
    type V = ToolView;

    open spec fn view(&self) -> ToolView {
        ToolView {
            name: self.name@,
            description: view_opt(self.description),
            input_schema: self.input_schema@,
            annotations: view_opt(self.annotations),
        }
    }
}

impl Tool {
    /// Create a new tool with basic properties.
    pub fn new(name: &str, description: &str) -> (r: Tool)
        ensures
            r@ == (ToolView {
                name: name@,
                description: Some(description@),
                input_schema: ToolInputSchemaView {
                    kind: "object"@,
                    properties: None,
                    required: None,
                },
                annotations: None,
            }),
    {
        Tool {
            name: name.to_owned(),
            description: Some(description.to_owned()),
            input_schema: ToolInputSchema {
                kind: "object".to_owned(),
                properties: None,
                required: None,
            },
            annotations: None,
        }
    }

    /// Set the input schema for the tool: the properties, an object of schemas,
    /// and the names of the required ones.
    pub fn with_schema(self, properties: Json, required: Vec<String>) -> (r: Tool)
        ensures
            r@ == (ToolView {
                input_schema: ToolInputSchemaView {
                    kind: "object"@,
                    properties: Some(properties@),
                    required: Some(views(required@)),
                },
                ..self@
            }),
    {
        let mut r = self;
        r.input_schema = ToolInputSchema {
            kind: "object".to_owned(),
            properties: Some(properties),
            required: Some(required),
        };
        r
    }

    /// Add annotations to the tool.
    pub fn with_annotations(self, annotations: ToolAnnotations) -> (r: Tool)
        ensures
            r@ == (ToolView { annotations: Some(annotations@), ..self@ }),
    {
        let mut r = self;
        r.annotations = Some(annotations);
        r
    }
}

impl Wire for Tool {
    open spec fn encode(v: ToolView) -> JsonValue {
        let m = Seq::empty();
        let m = m.push(("name"@, JsonValue::Str(v.name)));
        let m = push_opt(m, "description"@, encode_opt::<String>(v.description));
        let m = m.push(("inputSchema"@, ToolInputSchema::encode(v.input_schema)));
        let m = push_opt(m, "annotations"@, encode_opt::<ToolAnnotations>(v.annotations));
        JsonValue::Object(m)
    }

    open spec fn decode(j: JsonValue) -> Option<ToolView> {
        match (
            member::<String>(j, "name"@),
            opt_member::<String>(j, "description"@),
            member::<ToolInputSchema>(j, "inputSchema"@),
            opt_member::<ToolAnnotations>(j, "annotations"@),
        ) {
            (Some(name), Some(description), Some(input_schema), Some(annotations)) => Some(
                ToolView { name, description, input_schema, annotations },
            ),
            _ => None,
        }
    }

    open spec fn lossless(v: ToolView) -> bool {
        &&& ToolInputSchema::lossless(v.input_schema)
        &&& opt_lossless::<ToolAnnotations>(v.annotations)
    }

    proof fn lemma_round_trip(v: ToolView) {
        reveal_strlit("name");
        reveal_strlit("description");
        reveal_strlit("inputSchema");
        reveal_strlit("annotations");
        assert("name"@.len() == 4);
        assert("description"@.len() == 11);
        assert("inputSchema"@.len() == 11);
        assert("annotations"@.len() == 11);
        assert("description"@[0] != "inputSchema"@[0]);
        assert("description"@[0] != "annotations"@[0]);
        assert("inputSchema"@[0] != "annotations"@[0]);
        let m0 = Seq::<(Seq<char>, JsonValue)>::empty();
        let m1 = m0.push(("name"@, JsonValue::Str(v.name)));
        let m2 = push_opt(m1, "description"@, encode_opt::<String>(v.description));
        let m3 = m2.push(("inputSchema"@, ToolInputSchema::encode(v.input_schema)));
        let m4 = push_opt(m3, "annotations"@, encode_opt::<ToolAnnotations>(v.annotations));
        lemma_lookup_empty("name"@);
        lemma_lookup_push(m0, "name"@, JsonValue::Str(v.name), "name"@);
        lemma_lookup_push_opt(m1, "description"@, encode_opt::<String>(v.description), "name"@);
        lemma_lookup_push(m2, "inputSchema"@, ToolInputSchema::encode(v.input_schema), "name"@);
        lemma_lookup_push_opt(m3, "annotations"@, encode_opt::<ToolAnnotations>(v.annotations), "name"@);
        lemma_lookup_empty("description"@);
        lemma_lookup_push(m0, "name"@, JsonValue::Str(v.name), "description"@);
        lemma_lookup_push_opt(m1, "description"@, encode_opt::<String>(v.description), "description"@);
        lemma_lookup_push(m2, "inputSchema"@, ToolInputSchema::encode(v.input_schema), "description"@);
        lemma_lookup_push_opt(m3, "annotations"@, encode_opt::<ToolAnnotations>(v.annotations), "description"@);
        lemma_lookup_empty("inputSchema"@);
        lemma_lookup_push(m0, "name"@, JsonValue::Str(v.name), "inputSchema"@);
        lemma_lookup_push_opt(m1, "description"@, encode_opt::<String>(v.description), "inputSchema"@);
        lemma_lookup_push(m2, "inputSchema"@, ToolInputSchema::encode(v.input_schema), "inputSchema"@);
        lemma_lookup_push_opt(m3, "annotations"@, encode_opt::<ToolAnnotations>(v.annotations), "inputSchema"@);
        lemma_lookup_empty("annotations"@);
        lemma_lookup_push(m0, "name"@, JsonValue::Str(v.name), "annotations"@);
        lemma_lookup_push_opt(m1, "description"@, encode_opt::<String>(v.description), "annotations"@);
        lemma_lookup_push(m2, "inputSchema"@, ToolInputSchema::encode(v.input_schema), "annotations"@);
        lemma_lookup_push_opt(m3, "annotations"@, encode_opt::<ToolAnnotations>(v.annotations), "annotations"@);
        let j = JsonValue::Object(m4);
        lemma_member::<String>(j, "name"@, v.name);
        lemma_opt_member::<String>(j, "description"@, v.description);
        lemma_member::<ToolInputSchema>(j, "inputSchema"@, v.input_schema);
        lemma_opt_member::<ToolAnnotations>(j, "annotations"@, v.annotations);
    }

    fn to_json(&self) -> (j: Json) {
        let mut members: Vec<(String, Json)> = Vec::new();
        assert(members_view(members@) =~= Seq::empty());
        put_str(&mut members, "name", self.name.as_str());
        put_opt_value(&mut members, "description", &self.description);
        put_value(&mut members, "inputSchema", &self.input_schema);
        put_opt_value(&mut members, "annotations", &self.annotations);
        Json::object(members)
    }

    fn from_json(j: &Json) -> (r: Result<Tool, Error>) {
        let name = required::<String>(j, "name")?;
        let description = optional::<String>(j, "description")?;
        let input_schema = required::<ToolInputSchema>(j, "inputSchema")?;
        let annotations = optional::<ToolAnnotations>(j, "annotations")?;
        Ok(Tool { name, description, input_schema, annotations })
    }
}

/// Parameters for the list tools request.
#[derive(Debug, Clone, PartialEq)]
pub struct ListToolsParams {
    /// An opaque token representing the current pagination position.
    pub cursor: Option<String>,
}

/// The mathematical value of a [`ListToolsParams`].
pub struct ListToolsParamsView {
    pub cursor: Option<Seq<char>>,
}

impl View for ListToolsParams {
    type V = ListToolsParamsView;

    open spec fn view(&self) -> ListToolsParamsView {
        ListToolsParamsView {
            cursor: view_opt(self.cursor),
        }
    }
}

impl Wire for ListToolsParams {
    open spec fn encode(v: ListToolsParamsView) -> JsonValue {
        let m = Seq::empty();
        let m = push_opt(m, "cursor"@, encode_opt::<String>(v.cursor));
        JsonValue::Object(m)
    }

    /// Every member is optional, but the document must be an object.
    open spec fn decode(j: JsonValue) -> Option<ListToolsParamsView> {
        if !(j is Object) {
            None
        } else {
            match opt_member::<String>(j, "cursor"@) {
                Some(cursor) => Some(ListToolsParamsView { cursor }),
                None => None,
            }
        }
    }

    open spec fn lossless(v: ListToolsParamsView) -> bool {
        true
    }

    proof fn lemma_round_trip(v: ListToolsParamsView) {
        reveal_strlit("cursor");
        let m0 = Seq::<(Seq<char>, JsonValue)>::empty();
        let m1 = push_opt(m0, "cursor"@, encode_opt::<String>(v.cursor));
        lemma_lookup_empty("cursor"@);
        lemma_lookup_push_opt(m0, "cursor"@, encode_opt::<String>(v.cursor), "cursor"@);
        let j = JsonValue::Object(m1);
        lemma_opt_member::<String>(j, "cursor"@, v.cursor);
    }

    fn to_json(&self) -> (j: Json) {
        let mut members: Vec<(String, Json)> = Vec::new();
        assert(members_view(members@) =~= Seq::empty());
        put_opt_value(&mut members, "cursor", &self.cursor);
        Json::object(members)
    }

    fn from_json(j: &Json) -> (r: Result<ListToolsParams, Error>) {
        if !j.is_object() {
            return Err(Error::parse("expected an object"));
        }
        let cursor = optional::<String>(j, "cursor")?;
        Ok(ListToolsParams { cursor })
    }
}

/// Sent from the client to request a list of tools the server has.
#[derive(Debug, Clone, PartialEq)]
pub struct ListToolsRequest {
    /// Method is always "tools/list".
    pub method: String,
    /// Optional request parameters.
    pub params: Option<ListToolsParams>,
}

/// The mathematical value of a [`ListToolsRequest`].
pub struct ListToolsRequestView {
    pub method: Seq<char>,
    pub params: Option<ListToolsParamsView>,
}

impl View for ListToolsRequest {
    type V = ListToolsRequestView;

    open spec fn view(&self) -> ListToolsRequestView {
        ListToolsRequestView {
            method: self.method@,
            params: view_opt(self.params),
        }
    }
}

impl ListToolsRequest {
    /// Create a new list tools request.
    pub fn new() -> (r: ListToolsRequest)
        ensures
            r@ == (ListToolsRequestView {
                method: "tools/list"@,
                params: None,
            }),
    {
        ListToolsRequest {
            method: "tools/list".to_owned(),
            params: None,
        }
    }

    /// Create a new list tools request with pagination.
    pub fn with_cursor(cursor: &str) -> (r: ListToolsRequest)
        ensures
            r@ == (ListToolsRequestView {
                method: "tools/list"@,
                params: Some(ListToolsParamsView { cursor: Some(cursor@) }),
            }),
    {
        ListToolsRequest {
            method: "tools/list".to_owned(),
            params: Some(ListToolsParams { cursor: Some(cursor.to_owned()) }),
        }
    }
}

impl Wire for ListToolsRequest {
    open spec fn encode(v: ListToolsRequestView) -> JsonValue {
        let m = Seq::empty();
        let m = m.push(("method"@, JsonValue::Str(v.method)));
        let m = push_opt(m, "params"@, encode_opt::<ListToolsParams>(v.params));
        JsonValue::Object(m)
    }

    open spec fn decode(j: JsonValue) -> Option<ListToolsRequestView> {
        match (
            member::<String>(j, "method"@),
            opt_member::<ListToolsParams>(j, "params"@),
        ) {
            (Some(method), Some(params)) => Some(
                ListToolsRequestView { method, params },
            ),
            _ => None,
        }
    }

    open spec fn lossless(v: ListToolsRequestView) -> bool {
        opt_lossless::<ListToolsParams>(v.params)
    }

    proof fn lemma_round_trip(v: ListToolsRequestView) {
        reveal_strlit("method");
        reveal_strlit("params");
        assert("method"@.len() == 6);
        assert("params"@.len() == 6);
        assert("method"@[0] != "params"@[0]);
        let m0 = Seq::<(Seq<char>, JsonValue)>::empty();
        let m1 = m0.push(("method"@, JsonValue::Str(v.method)));
        let m2 = push_opt(m1, "params"@, encode_opt::<ListToolsParams>(v.params));
        lemma_lookup_empty("method"@);
        lemma_lookup_push(m0, "method"@, JsonValue::Str(v.method), "method"@);
        lemma_lookup_push_opt(m1, "params"@, encode_opt::<ListToolsParams>(v.params), "method"@);
        lemma_lookup_empty("params"@);
        lemma_lookup_push(m0, "method"@, JsonValue::Str(v.method), "params"@);
        lemma_lookup_push_opt(m1, "params"@, encode_opt::<ListToolsParams>(v.params), "params"@);
        let j = JsonValue::Object(m2);
        lemma_member::<String>(j, "method"@, v.method);
        lemma_opt_member::<ListToolsParams>(j, "params"@, v.params);
    }

    fn to_json(&self) -> (j: Json) {
        let mut members: Vec<(String, Json)> = Vec::new();
        assert(members_view(members@) =~= Seq::empty());
        put_str(&mut members, "method", self.method.as_str());
        put_opt_value(&mut members, "params", &self.params);
        Json::object(members)
    }

    fn from_json(j: &Json) -> (r: Result<ListToolsRequest, Error>) {
        let method = required::<String>(j, "method")?;
        let params = optional::<ListToolsParams>(j, "params")?;
        Ok(ListToolsRequest { method, params })
    }
}

impl Request for ListToolsRequest {
    open spec fn method_name(&self) -> Seq<char> {
        self.method@
    }

    open spec fn params_value(&self) -> Option<JsonValue> {
        encode_opt::<ListToolsParams>(view_opt(self.params))
    }

    fn method(&self) -> (m: &str) {
        self.method.as_str()
    }

    fn params(&self) -> (p: Option<Json>) {
        match &self.params {
            Some(p) => Some(p.to_json()),
            None => None,
        }
    }
}

/// The server's response to a tools/list request from the client.
#[derive(Debug, Clone, PartialEq)]
pub struct ListToolsResult {
    /// Available tools.
    pub tools: Vec<Tool>,
    /// An opaque token representing the pagination position after the last
    /// returned result.
    pub next_cursor: Option<String>,
    /// Optional metadata.
    pub meta: Option<Json>,
}

/// The mathematical value of a [`ListToolsResult`].
pub struct ListToolsResultView {
    pub tools: Seq<ToolView>,
    pub next_cursor: Option<Seq<char>>,
    pub meta: Option<JsonValue>,
}

impl View for ListToolsResult {
    type V = ListToolsResultView;

    open spec fn view(&self) -> ListToolsResultView {
        ListToolsResultView {
            tools: views(self.tools@),
            next_cursor: view_opt(self.next_cursor),
            meta: view_opt(self.meta),
        }
    }
}

impl Wire for ListToolsResult {
    open spec fn encode(v: ListToolsResultView) -> JsonValue {
        let m = Seq::empty();
        let m = m.push(("tools"@, encode_list::<Tool>(v.tools)));
        let m = push_opt(m, "nextCursor"@, encode_opt::<String>(v.next_cursor));
        let m = push_opt(m, "_meta"@, encode_opt::<Json>(v.meta));
        JsonValue::Object(m)
    }

    open spec fn decode(j: JsonValue) -> Option<ListToolsResultView> {
        match (
            list_member::<Tool>(j, "tools"@),
            opt_member::<String>(j, "nextCursor"@),
            opt_member::<Json>(j, "_meta"@),
        ) {
            (Some(tools), Some(next_cursor), Some(meta)) => Some(
                ListToolsResultView { tools, next_cursor, meta },
            ),
            _ => None,
        }
    }

    open spec fn lossless(v: ListToolsResultView) -> bool {
        &&& all_lossless::<Tool>(v.tools)
        &&& opt_lossless::<Json>(v.meta)
    }

    proof fn lemma_round_trip(v: ListToolsResultView) {
        reveal_strlit("tools");
        reveal_strlit("nextCursor");
        reveal_strlit("_meta");
        assert("tools"@.len() == 5);
        assert("nextCursor"@.len() == 10);
        assert("_meta"@.len() == 5);
        assert("tools"@[0] != "_meta"@[0]);
        let m0 = Seq::<(Seq<char>, JsonValue)>::empty();
        let m1 = m0.push(("tools"@, encode_list::<Tool>(v.tools)));
        let m2 = push_opt(m1, "nextCursor"@, encode_opt::<String>(v.next_cursor));
        let m3 = push_opt(m2, "_meta"@, encode_opt::<Json>(v.meta));
        lemma_lookup_empty("tools"@);
        lemma_lookup_push(m0, "tools"@, encode_list::<Tool>(v.tools), "tools"@);
        lemma_lookup_push_opt(m1, "nextCursor"@, encode_opt::<String>(v.next_cursor), "tools"@);
        lemma_lookup_push_opt(m2, "_meta"@, encode_opt::<Json>(v.meta), "tools"@);
        lemma_lookup_empty("nextCursor"@);
        lemma_lookup_push(m0, "tools"@, encode_list::<Tool>(v.tools), "nextCursor"@);
        lemma_lookup_push_opt(m1, "nextCursor"@, encode_opt::<String>(v.next_cursor), "nextCursor"@);
        lemma_lookup_push_opt(m2, "_meta"@, encode_opt::<Json>(v.meta), "nextCursor"@);
        lemma_lookup_empty("_meta"@);
        lemma_lookup_push(m0, "tools"@, encode_list::<Tool>(v.tools), "_meta"@);
        lemma_lookup_push_opt(m1, "nextCursor"@, encode_opt::<String>(v.next_cursor), "_meta"@);
        lemma_lookup_push_opt(m2, "_meta"@, encode_opt::<Json>(v.meta), "_meta"@);
        let j = JsonValue::Object(m3);
        lemma_list_member::<Tool>(j, "tools"@, v.tools);
        lemma_opt_member::<String>(j, "nextCursor"@, v.next_cursor);
        lemma_opt_member::<Json>(j, "_meta"@, v.meta);
    }

    fn to_json(&self) -> (j: Json) {
        let mut members: Vec<(String, Json)> = Vec::new();
        assert(members_view(members@) =~= Seq::empty());
        put_list(&mut members, "tools", &self.tools);
        put_opt_value(&mut members, "nextCursor", &self.next_cursor);
        put_opt_value(&mut members, "_meta", &self.meta);
        Json::object(members)
    }

    fn from_json(j: &Json) -> (r: Result<ListToolsResult, Error>) {
        let tools = required_list::<Tool>(j, "tools")?;
        let next_cursor = optional::<String>(j, "nextCursor")?;
        let meta = optional::<Json>(j, "_meta")?;
        Ok(ListToolsResult { tools, next_cursor, meta })
    }
}

impl MessageResult for ListToolsResult {
}

/// Parameters for the call tool request.
#[derive(Debug, Clone, PartialEq)]
pub struct CallToolParams {
    /// The name of the tool to call.
    pub name: String,
    /// Arguments to pass to the tool.
    pub arguments: Option<Json>,
}

/// The mathematical value of a [`CallToolParams`].
pub struct CallToolParamsView {
    pub name: Seq<char>,
    pub arguments: Option<JsonValue>,
}

impl View for CallToolParams {
    type V = CallToolParamsView;

    open spec fn view(&self) -> CallToolParamsView {
        CallToolParamsView {
            name: self.name@,
            arguments: view_opt(self.arguments),
        }
    }
}

impl Wire for CallToolParams {
    open spec fn encode(v: CallToolParamsView) -> JsonValue {
        let m = Seq::empty();
        let m = m.push(("name"@, JsonValue::Str(v.name)));
        let m = push_opt(m, "arguments"@, encode_opt::<Json>(v.arguments));
        JsonValue::Object(m)
    }

    open spec fn decode(j: JsonValue) -> Option<CallToolParamsView> {
        match (
            member::<String>(j, "name"@),
            opt_member::<Json>(j, "arguments"@),
        ) {
            (Some(name), Some(arguments)) => Some(
                CallToolParamsView { name, arguments },
            ),
            _ => None,
        }
    }

    open spec fn lossless(v: CallToolParamsView) -> bool {
        opt_lossless::<Json>(v.arguments)
    }

    proof fn lemma_round_trip(v: CallToolParamsView) {
        reveal_strlit("name");
        reveal_strlit("arguments");
        assert("name"@.len() == 4);
        assert("arguments"@.len() == 9);
        let m0 = Seq::<(Seq<char>, JsonValue)>::empty();
        let m1 = m0.push(("name"@, JsonValue::Str(v.name)));
        let m2 = push_opt(m1, "arguments"@, encode_opt::<Json>(v.arguments));
        lemma_lookup_empty("name"@);
        lemma_lookup_push(m0, "name"@, JsonValue::Str(v.name), "name"@);
        lemma_lookup_push_opt(m1, "arguments"@, encode_opt::<Json>(v.arguments), "name"@);
        lemma_lookup_empty("arguments"@);
        lemma_lookup_push(m0, "name"@, JsonValue::Str(v.name), "arguments"@);
        lemma_lookup_push_opt(m1, "arguments"@, encode_opt::<Json>(v.arguments), "arguments"@);
        let j = JsonValue::Object(m2);
        lemma_member::<String>(j, "name"@, v.name);
        lemma_opt_member::<Json>(j, "arguments"@, v.arguments);
    }

    fn to_json(&self) -> (j: Json) {
        let mut members: Vec<(String, Json)> = Vec::new();
        assert(members_view(members@) =~= Seq::empty());
        put_str(&mut members, "name", self.name.as_str());
        put_opt_value(&mut members, "arguments", &self.arguments);
        Json::object(members)
    }

    fn from_json(j: &Json) -> (r: Result<CallToolParams, Error>) {
        let name = required::<String>(j, "name")?;
        let arguments = optional::<Json>(j, "arguments")?;
        Ok(CallToolParams { name, arguments })
    }
}

/// Used by the client to invoke a tool provided by the server.
#[derive(Debug, Clone, PartialEq)]
pub struct CallToolRequest {
    /// The method name, always "tools/call".
    pub method: String,
    /// The request parameters.
    pub params: CallToolParams,
}

/// The mathematical value of a [`CallToolRequest`].
pub struct CallToolRequestView {
    pub method: Seq<char>,
    pub params: CallToolParamsView,
}

impl View for CallToolRequest {
    type V = CallToolRequestView;

    open spec fn view(&self) -> CallToolRequestView {
        CallToolRequestView {
            method: self.method@,
            params: self.params@,
        }
    }
}

impl CallToolRequest {
    /// Create a new call tool request.
    pub fn new(name: &str) -> (r: CallToolRequest)
        ensures
            r@ == (CallToolRequestView {
                method: "tools/call"@,
                params: CallToolParamsView { name: name@, arguments: None },
            }),
    {
        CallToolRequest {
            method: "tools/call".to_owned(),
            params: CallToolParams { name: name.to_owned(), arguments: None },
        }
    }

    /// Create a new call tool request with arguments.
    pub fn with_arguments(name: &str, arguments: Json) -> (r: CallToolRequest)
        ensures
            r@ == (CallToolRequestView {
                method: "tools/call"@,
                params: CallToolParamsView { name: name@, arguments: Some(arguments@) },
            }),
    {
        CallToolRequest {
            method: "tools/call".to_owned(),
            params: CallToolParams { name: name.to_owned(), arguments: Some(arguments) },
        }
    }
}

impl Wire for CallToolRequest {
    open spec fn encode(v: CallToolRequestView) -> JsonValue {
        let m = Seq::empty();
        let m = m.push(("method"@, JsonValue::Str(v.method)));
        let m = m.push(("params"@, CallToolParams::encode(v.params)));
        JsonValue::Object(m)
    }

    open spec fn decode(j: JsonValue) -> Option<CallToolRequestView> {
        match (
            member::<String>(j, "method"@),
            member::<CallToolParams>(j, "params"@),
        ) {
            (Some(method), Some(params)) => Some(
                CallToolRequestView { method, params },
            ),
            _ => None,
        }
    }

    open spec fn lossless(v: CallToolRequestView) -> bool {
        CallToolParams::lossless(v.params)
    }

    proof fn lemma_round_trip(v: CallToolRequestView) {
        reveal_strlit("method");
        reveal_strlit("params");
        assert("method"@.len() == 6);
        assert("params"@.len() == 6);
        assert("method"@[0] != "params"@[0]);
        let m0 = Seq::<(Seq<char>, JsonValue)>::empty();
        let m1 = m0.push(("method"@, JsonValue::Str(v.method)));
        let m2 = m1.push(("params"@, CallToolParams::encode(v.params)));
        lemma_lookup_empty("method"@);
        lemma_lookup_push(m0, "method"@, JsonValue::Str(v.method), "method"@);
        lemma_lookup_push(m1, "params"@, CallToolParams::encode(v.params), "method"@);
        lemma_lookup_empty("params"@);
        lemma_lookup_push(m0, "method"@, JsonValue::Str(v.method), "params"@);
        lemma_lookup_push(m1, "params"@, CallToolParams::encode(v.params), "params"@);
        let j = JsonValue::Object(m2);
        lemma_member::<String>(j, "method"@, v.method);
        lemma_member::<CallToolParams>(j, "params"@, v.params);
    }

    fn to_json(&self) -> (j: Json) {
        let mut members: Vec<(String, Json)> = Vec::new();
        assert(members_view(members@) =~= Seq::empty());
        put_str(&mut members, "method", self.method.as_str());
        put_value(&mut members, "params", &self.params);
        Json::object(members)
    }

    fn from_json(j: &Json) -> (r: Result<CallToolRequest, Error>) {
        let method = required::<String>(j, "method")?;
        let params = required::<CallToolParams>(j, "params")?;
        Ok(CallToolRequest { method, params })
    }
}

impl Request for CallToolRequest {
    open spec fn method_name(&self) -> Seq<char> {
        self.method@
    }

    open spec fn params_value(&self) -> Option<JsonValue> {
        Some(CallToolParams::encode(self.params@))
    }

    fn method(&self) -> (m: &str) {
        self.method.as_str()
    }

    fn params(&self) -> (p: Option<Json>) {
        Some(self.params.to_json())
    }
}

/// The server's response to a tool call. An error that originates from the tool
/// is reported inside the result, with `is_error` set to true, not as a
/// protocol-level error response: otherwise the model could not see that an
/// error occurred.
#[derive(Debug, Clone, PartialEq)]
pub struct CallToolResult {
    /// The content returned from the tool call.
    pub content: Vec<ToolCallContent>,
    /// Whether the tool call ended in an error. If not set, the call was
    /// successful.
    pub is_error: Option<bool>,
    /// Optional metadata.
    pub meta: Option<Json>,
}

/// The mathematical value of a [`CallToolResult`].
pub struct CallToolResultView {
    pub content: Seq<ToolCallContentView>,
    pub is_error: Option<bool>,
    pub meta: Option<JsonValue>,
}

impl View for CallToolResult {
    type V = CallToolResultView;

    open spec fn view(&self) -> CallToolResultView {
        CallToolResultView {
            content: views(self.content@),
            is_error: view_opt(self.is_error),
            meta: view_opt(self.meta),
        }
    }
}

impl CallToolResult {
    /// The result of a tool call that failed in the tool itself: the text of
    /// the failure as content, and `is_error` set, so that the model can see
    /// what went wrong.
    pub fn failure(text: &str) -> (r: CallToolResult)
        ensures
            r@ == (CallToolResultView {
                content: Seq::empty().push(
                    PromptContentView::Text(
                        TextContentView { kind: "text"@, text: text@, annotations: None },
                    ),
                ),
                is_error: Some(true),
                meta: None,
            }),
    {
        let mut content: Vec<ToolCallContent> = Vec::new();
        content.push(PromptContent::Text(TextContent::new(text)));
        assert(views(content@) =~= Seq::empty().push(
            PromptContentView::Text(
                TextContentView { kind: "text"@, text: text@, annotations: None },
            ),
        ));
        CallToolResult { content, is_error: Some(true), meta: None }
    }
}

impl Wire for CallToolResult {
    open spec fn encode(v: CallToolResultView) -> JsonValue {
        let m = Seq::empty();
        let m = m.push(("content"@, encode_list::<ToolCallContent>(v.content)));
        let m = push_opt(m, "isError"@, encode_opt::<bool>(v.is_error));
        let m = push_opt(m, "_meta"@, encode_opt::<Json>(v.meta));
        JsonValue::Object(m)
    }

    open spec fn decode(j: JsonValue) -> Option<CallToolResultView> {
        match (
            list_member::<ToolCallContent>(j, "content"@),
            opt_member::<bool>(j, "isError"@),
            opt_member::<Json>(j, "_meta"@),
        ) {
            (Some(content), Some(is_error), Some(meta)) => Some(
                CallToolResultView { content, is_error, meta },
            ),
            _ => None,
        }
    }

    open spec fn lossless(v: CallToolResultView) -> bool {
        &&& all_lossless::<ToolCallContent>(v.content)
        &&& opt_lossless::<Json>(v.meta)
    }

    proof fn lemma_round_trip(v: CallToolResultView) {
        reveal_strlit("content");
        reveal_strlit("isError");
        reveal_strlit("_meta");
        assert("content"@.len() == 7);
        assert("isError"@.len() == 7);
        assert("_meta"@.len() == 5);
        assert("content"@[0] != "isError"@[0]);
        let m0 = Seq::<(Seq<char>, JsonValue)>::empty();
        let m1 = m0.push(("content"@, encode_list::<ToolCallContent>(v.content)));
        let m2 = push_opt(m1, "isError"@, encode_opt::<bool>(v.is_error));
        let m3 = push_opt(m2, "_meta"@, encode_opt::<Json>(v.meta));
        lemma_lookup_empty("content"@);
        lemma_lookup_push(m0, "content"@, encode_list::<ToolCallContent>(v.content), "content"@);
        lemma_lookup_push_opt(m1, "isError"@, encode_opt::<bool>(v.is_error), "content"@);
        lemma_lookup_push_opt(m2, "_meta"@, encode_opt::<Json>(v.meta), "content"@);
        lemma_lookup_empty("isError"@);
        lemma_lookup_push(m0, "content"@, encode_list::<ToolCallContent>(v.content), "isError"@);
        lemma_lookup_push_opt(m1, "isError"@, encode_opt::<bool>(v.is_error), "isError"@);
        lemma_lookup_push_opt(m2, "_meta"@, encode_opt::<Json>(v.meta), "isError"@);
        lemma_lookup_empty("_meta"@);
        lemma_lookup_push(m0, "content"@, encode_list::<ToolCallContent>(v.content), "_meta"@);
        lemma_lookup_push_opt(m1, "isError"@, encode_opt::<bool>(v.is_error), "_meta"@);
        lemma_lookup_push_opt(m2, "_meta"@, encode_opt::<Json>(v.meta), "_meta"@);
        let j = JsonValue::Object(m3);
        lemma_list_member::<ToolCallContent>(j, "content"@, v.content);
        lemma_opt_member::<bool>(j, "isError"@, v.is_error);
        lemma_opt_member::<Json>(j, "_meta"@, v.meta);
    }

    fn to_json(&self) -> (j: Json) {
        let mut members: Vec<(String, Json)> = Vec::new();
        assert(members_view(members@) =~= Seq::empty());
        put_list(&mut members, "content", &self.content);
        put_opt_value(&mut members, "isError", &self.is_error);
        put_opt_value(&mut members, "_meta", &self.meta);
        Json::object(members)
    }

    fn from_json(j: &Json) -> (r: Result<CallToolResult, Error>) {
        let content = required_list::<ToolCallContent>(j, "content")?;
        let is_error = optional::<bool>(j, "isError")?;
        let meta = optional::<Json>(j, "_meta")?;
        Ok(CallToolResult { content, is_error, meta })
    }
}

impl MessageResult for CallToolResult {
}

/// An optional notification from the server to the client, informing it that
/// the list of tools it offers has changed.
#[derive(Debug, Clone, PartialEq)]
pub struct ToolListChangedNotification {
    /// Method is always "notifications/tools/list_changed".
    pub method: String,
    /// Optional notification parameters.
    pub params: Option<Json>,
}

/// The mathematical value of a [`ToolListChangedNotification`].
pub struct ToolListChangedNotificationView {
    pub method: Seq<char>,
    pub params: Option<JsonValue>,
}

impl View for ToolListChangedNotification {
    type V = ToolListChangedNotificationView;

    open spec fn view(&self) -> ToolListChangedNotificationView {
        ToolListChangedNotificationView {
            method: self.method@,
            params: view_opt(self.params),
        }
    }
}

impl ToolListChangedNotification {
    /// Create a new tool list changed notification.
    pub fn new() -> (r: ToolListChangedNotification)
        ensures
            r@ == (ToolListChangedNotificationView {
                method: "notifications/tools/list_changed"@,
                params: None,
            }),
    {
        ToolListChangedNotification {
            method: "notifications/tools/list_changed".to_owned(),
            params: None,
        }
    }
}

impl Wire for ToolListChangedNotification {
    open spec fn encode(v: ToolListChangedNotificationView) -> JsonValue {
        let m = Seq::empty();
        let m = m.push(("method"@, JsonValue::Str(v.method)));
        let m = push_opt(m, "params"@, encode_opt::<Json>(v.params));
        JsonValue::Object(m)
    }

    open spec fn decode(j: JsonValue) -> Option<ToolListChangedNotificationView> {
        match (
            member::<String>(j, "method"@),
            opt_member::<Json>(j, "params"@),
        ) {
            (Some(method), Some(params)) => Some(
                ToolListChangedNotificationView { method, params },
            ),
            _ => None,
        }
    }

    open spec fn lossless(v: ToolListChangedNotificationView) -> bool {
        opt_lossless::<Json>(v.params)
    }

    proof fn lemma_round_trip(v: ToolListChangedNotificationView) {
        reveal_strlit("method");
        reveal_strlit("params");
        assert("method"@.len() == 6);
        assert("params"@.len() == 6);
        assert("method"@[0] != "params"@[0]);
        let m0 = Seq::<(Seq<char>, JsonValue)>::empty();
        let m1 = m0.push(("method"@, JsonValue::Str(v.method)));
        let m2 = push_opt(m1, "params"@, encode_opt::<Json>(v.params));
        lemma_lookup_empty("method"@);
        lemma_lookup_push(m0, "method"@, JsonValue::Str(v.method), "method"@);
        lemma_lookup_push_opt(m1, "params"@, encode_opt::<Json>(v.params), "method"@);
        lemma_lookup_empty("params"@);
        lemma_lookup_push(m0, "method"@, JsonValue::Str(v.method), "params"@);
        lemma_lookup_push_opt(m1, "params"@, encode_opt::<Json>(v.params), "params"@);
        let j = JsonValue::Object(m2);
        lemma_member::<String>(j, "method"@, v.method);
        lemma_opt_member::<Json>(j, "params"@, v.params);
    }

    fn to_json(&self) -> (j: Json) {
        let mut members: Vec<(String, Json)> = Vec::new();
        assert(members_view(members@) =~= Seq::empty());
        put_str(&mut members, "method", self.method.as_str());
        put_opt_value(&mut members, "params", &self.params);
        Json::object(members)
    }

    fn from_json(j: &Json) -> (r: Result<ToolListChangedNotification, Error>) {
        let method = required::<String>(j, "method")?;
        let params = optional::<Json>(j, "params")?;
        Ok(ToolListChangedNotification { method, params })
    }
}

impl Notification for ToolListChangedNotification {
    open spec fn method_name(&self) -> Seq<char> {
        self.method@
    }

    open spec fn params_value(&self) -> Option<JsonValue> {
        opt_view(self.params)
    }

    fn method(&self) -> (m: &str) {
        self.method.as_str()
    }

    fn params(&self) -> (p: Option<Json>) {
        duplicate_opt(&self.params)
    }
}

/// Content that can be returned from a tool call.
pub type ToolCallContent = PromptContent;

/// The mathematical value of a [`ToolCallContent`].
pub type ToolCallContentView = PromptContentView;

} // verus!
