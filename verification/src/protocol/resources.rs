//! Resource types for the MCP protocol.

use crate::error::Error;
use crate::json::{
    lemma_lookup_empty, lemma_lookup_push, lemma_lookup_push_opt, members_view, push_opt, put_str,
    Json, JsonValue,
};
use crate::protocol::wire::{
    all_lossless, encode_list, encode_opt, lemma_list_member, lemma_member, lemma_opt_member,
    list_member, member, opt_lossless, opt_member, optional, put_list, put_opt_value, put_value,
    required, required_list, view_opt, views, Wire,
};
use crate::protocol::annotations::{Annotations, AnnotationsView};
use crate::protocol::messages::{
    MessageResult, Notification, NotificationParams, NotificationParamsView, Request, ResultMeta,
    ResultMetaView,
};
use vstd::prelude::*;

verus! {

/// A known resource that the server is capable of reading.
#[derive(Debug, Clone, PartialEq)]
pub struct Resource {
    /// The URI of this resource.
    pub uri: String,
    /// A human-readable name for this resource.
    pub name: String,
    /// A description of what this resource represents.
    pub description: Option<String>,
    /// The MIME type of this resource, if known.
    pub mime_type: Option<String>,
    /// Optional annotations for the client.
    pub annotations: Option<Annotations>,
    /// The size of the raw resource content in bytes, if known.
    pub size: Option<i64>,
}

/// The mathematical value of a [`Resource`].
pub struct ResourceView {
    pub uri: Seq<char>,
    pub name: Seq<char>,
    pub description: Option<Seq<char>>,
    pub mime_type: Option<Seq<char>>,
    pub annotations: Option<AnnotationsView>,
    pub size: Option<i64>,
}

impl View for Resource {
    type V = ResourceView;

    open spec fn view(&self) -> ResourceView {
        ResourceView {
            uri: self.uri@,
            name: self.name@,
            description: view_opt(self.description),
            mime_type: view_opt(self.mime_type),
            annotations: view_opt(self.annotations),
            size: view_opt(self.size),
        }
    }
}

impl Resource {
    /// Create a new resource.
    pub fn new(uri: &str, name: &str) -> (r: Resource)
        ensures
            r@ == (ResourceView {
                uri: uri@,
                name: name@,
                description: None,
                mime_type: None,
                annotations: None,
                size: None,
            }),
    {
        Resource {
            uri: uri.to_owned(),
            name: name.to_owned(),
            description: None,
            mime_type: None,
            annotations: None,
            size: None,
        }
    }

    /// Create a new resource with description.
    pub fn with_description(uri: &str, name: &str, description: &str) -> (r: Resource)
        ensures
            r@ == (ResourceView {
                uri: uri@,
                name: name@,
                description: Some(description@),
                mime_type: None,
                annotations: None,
                size: None,
            }),
    {
        Resource {
            uri: uri.to_owned(),
            name: name.to_owned(),
            description: Some(description.to_owned()),
            mime_type: None,
            annotations: None,
            size: None,
        }
    }

    /// Set the MIME type for the resource.
    pub fn with_mime_type(self, mime_type: &str) -> (r: Resource)
        ensures
            r@ == (ResourceView { mime_type: Some(mime_type@), ..self@ }),
    {
        let mut r = self;
        r.mime_type = Some(mime_type.to_owned());
        r
    }

    /// Set the annotations for the resource.
    pub fn with_annotations(self, annotations: Annotations) -> (r: Resource)
        ensures
            r@ == (ResourceView { annotations: Some(annotations@), ..self@ }),
    {
        let mut r = self;
        r.annotations = Some(annotations);
        r
    }

    /// Set the size for the resource.
    pub fn with_size(self, size: i64) -> (r: Resource)
        ensures
            r@ == (ResourceView { size: Some(size), ..self@ }),
    {
        let mut r = self;
        r.size = Some(size);
        r
    }
}

impl Wire for Resource {
    open spec fn encode(v: ResourceView) -> JsonValue {
        let m = Seq::empty();
        let m = m.push(("uri"@, JsonValue::Str(v.uri)));
        let m = m.push(("name"@, JsonValue::Str(v.name)));
        let m = push_opt(m, "description"@, encode_opt::<String>(v.description));
        let m = push_opt(m, "mimeType"@, encode_opt::<String>(v.mime_type));
        let m = push_opt(m, "annotations"@, encode_opt::<Annotations>(v.annotations));
        let m = push_opt(m, "size"@, encode_opt::<i64>(v.size));
        JsonValue::Object(m)
    }

    open spec fn decode(j: JsonValue) -> Option<ResourceView> {
        match (
            member::<String>(j, "uri"@),
            member::<String>(j, "name"@),
            opt_member::<String>(j, "description"@),
            opt_member::<String>(j, "mimeType"@),
            opt_member::<Annotations>(j, "annotations"@),
            opt_member::<i64>(j, "size"@),
        ) {
            (
                Some(uri),
                Some(name),
                Some(description),
                Some(mime_type),
                Some(annotations),
                Some(size),
            ) => Some(
                ResourceView { uri, name, description, mime_type, annotations, size },
            ),
            _ => None,
        }
    }

    open spec fn lossless(v: ResourceView) -> bool {
        opt_lossless::<Annotations>(v.annotations)
    }

    proof fn lemma_round_trip(v: ResourceView) {
        reveal_strlit("uri");
        reveal_strlit("name");
        reveal_strlit("description");
        reveal_strlit("mimeType");
        reveal_strlit("annotations");
        reveal_strlit("size");
        assert("uri"@.len() == 3);
        assert("name"@.len() == 4);
        assert("description"@.len() == 11);
        assert("mimeType"@.len() == 8);
        assert("annotations"@.len() == 11);
        assert("size"@.len() == 4);
        assert("name"@[0] != "size"@[0]);
        assert("description"@[0] != "annotations"@[0]);
        let m0 = Seq::<(Seq<char>, JsonValue)>::empty();
        let m1 = m0.push(("uri"@, JsonValue::Str(v.uri)));
        let m2 = m1.push(("name"@, JsonValue::Str(v.name)));
        let m3 = push_opt(m2, "description"@, encode_opt::<String>(v.description));
        let m4 = push_opt(m3, "mimeType"@, encode_opt::<String>(v.mime_type));
        let m5 = push_opt(m4, "annotations"@, encode_opt::<Annotations>(v.annotations));
        let m6 = push_opt(m5, "size"@, encode_opt::<i64>(v.size));
        lemma_lookup_empty("uri"@);
        lemma_lookup_push(m0, "uri"@, JsonValue::Str(v.uri), "uri"@);
        lemma_lookup_push(m1, "name"@, JsonValue::Str(v.name), "uri"@);
        lemma_lookup_push_opt(m2, "description"@, encode_opt::<String>(v.description), "uri"@);
        lemma_lookup_push_opt(m3, "mimeType"@, encode_opt::<String>(v.mime_type), "uri"@);
        lemma_lookup_push_opt(m4, "annotations"@, encode_opt::<Annotations>(v.annotations), "uri"@);
        lemma_lookup_push_opt(m5, "size"@, encode_opt::<i64>(v.size), "uri"@);
        lemma_lookup_empty("name"@);
        lemma_lookup_push(m0, "uri"@, JsonValue::Str(v.uri), "name"@);
        lemma_lookup_push(m1, "name"@, JsonValue::Str(v.name), "name"@);
        lemma_lookup_push_opt(m2, "description"@, encode_opt::<String>(v.description), "name"@);
        lemma_lookup_push_opt(m3, "mimeType"@, encode_opt::<String>(v.mime_type), "name"@);
        lemma_lookup_push_opt(m4, "annotations"@, encode_opt::<Annotations>(v.annotations), "name"@);
        lemma_lookup_push_opt(m5, "size"@, encode_opt::<i64>(v.size), "name"@);
        lemma_lookup_empty("description"@);
        lemma_lookup_push(m0, "uri"@, JsonValue::Str(v.uri), "description"@);
        lemma_lookup_push(m1, "name"@, JsonValue::Str(v.name), "description"@);
        lemma_lookup_push_opt(m2, "description"@, encode_opt::<String>(v.description), "description"@);
        lemma_lookup_push_opt(m3, "mimeType"@, encode_opt::<String>(v.mime_type), "description"@);
        lemma_lookup_push_opt(m4, "annotations"@, encode_opt::<Annotations>(v.annotations), "description"@);
        lemma_lookup_push_opt(m5, "size"@, encode_opt::<i64>(v.size), "description"@);
        lemma_lookup_empty("mimeType"@);
        lemma_lookup_push(m0, "uri"@, JsonValue::Str(v.uri), "mimeType"@);
        lemma_lookup_push(m1, "name"@, JsonValue::Str(v.name), "mimeType"@);
        lemma_lookup_push_opt(m2, "description"@, encode_opt::<String>(v.description), "mimeType"@);
        lemma_lookup_push_opt(m3, "mimeType"@, encode_opt::<String>(v.mime_type), "mimeType"@);
        lemma_lookup_push_opt(m4, "annotations"@, encode_opt::<Annotations>(v.annotations), "mimeType"@);
        lemma_lookup_push_opt(m5, "size"@, encode_opt::<i64>(v.size), "mimeType"@);
        lemma_lookup_empty("annotations"@);
        lemma_lookup_push(m0, "uri"@, JsonValue::Str(v.uri), "annotations"@);
        lemma_lookup_push(m1, "name"@, JsonValue::Str(v.name), "annotations"@);
        lemma_lookup_push_opt(m2, "description"@, encode_opt::<String>(v.description), "annotations"@);
        lemma_lookup_push_opt(m3, "mimeType"@, encode_opt::<String>(v.mime_type), "annotations"@);
        lemma_lookup_push_opt(m4, "annotations"@, encode_opt::<Annotations>(v.annotations), "annotations"@);
        lemma_lookup_push_opt(m5, "size"@, encode_opt::<i64>(v.size), "annotations"@);
        lemma_lookup_empty("size"@);
        lemma_lookup_push(m0, "uri"@, JsonValue::Str(v.uri), "size"@);
        lemma_lookup_push(m1, "name"@, JsonValue::Str(v.name), "size"@);
        lemma_lookup_push_opt(m2, "description"@, encode_opt::<String>(v.description), "size"@);
        lemma_lookup_push_opt(m3, "mimeType"@, encode_opt::<String>(v.mime_type), "size"@);
        lemma_lookup_push_opt(m4, "annotations"@, encode_opt::<Annotations>(v.annotations), "size"@);
        lemma_lookup_push_opt(m5, "size"@, encode_opt::<i64>(v.size), "size"@);
        let j = JsonValue::Object(m6);
        lemma_member::<String>(j, "uri"@, v.uri);
        lemma_member::<String>(j, "name"@, v.name);
        lemma_opt_member::<String>(j, "description"@, v.description);
        lemma_opt_member::<String>(j, "mimeType"@, v.mime_type);
        lemma_opt_member::<Annotations>(j, "annotations"@, v.annotations);
        lemma_opt_member::<i64>(j, "size"@, v.size);
    }

    fn to_json(&self) -> (j: Json) {
        let mut members: Vec<(String, Json)> = Vec::new();
        assert(members_view(members@) =~= Seq::empty());
        put_str(&mut members, "uri", self.uri.as_str());
        put_str(&mut members, "name", self.name.as_str());
        put_opt_value(&mut members, "description", &self.description);
        put_opt_value(&mut members, "mimeType", &self.mime_type);
        put_opt_value(&mut members, "annotations", &self.annotations);
        put_opt_value(&mut members, "size", &self.size);
        Json::object(members)
    }

    fn from_json(j: &Json) -> (r: Result<Resource, Error>) {
        let uri = required::<String>(j, "uri")?;
        let name = required::<String>(j, "name")?;
        let description = optional::<String>(j, "description")?;
        let mime_type = optional::<String>(j, "mimeType")?;
        let annotations = optional::<Annotations>(j, "annotations")?;
        let size = optional::<i64>(j, "size")?;
        Ok(Resource { uri, name, description, mime_type, annotations, size })
    }
}

impl Default for Resource {
    fn default() -> (r: Resource)
        ensures
            r@ == (ResourceView {
                uri: Seq::empty(),
                name: Seq::empty(),
                description: None,
                mime_type: None,
                annotations: None,
                size: None,
            }),
    {
        Resource {
            uri: String::new(),
            name: String::new(),
            description: None,
            mime_type: None,
            annotations: None,
            size: None,
        }
    }
}

/// A template description for resources available on the server.
#[derive(Debug, Clone, PartialEq)]
pub struct ResourceTemplate {
    /// A URI template (RFC 6570) that can be used to construct resource URIs.
    pub uri_template: String,
    /// A human-readable name for the type of resource this template refers to.
    pub name: String,
    /// A description of what this template is for.
    pub description: Option<String>,
    /// The MIME type for all resources that match this template.
    pub mime_type: Option<String>,
    /// Optional annotations for the client.
    pub annotations: Option<Annotations>,
}

/// The mathematical value of a [`ResourceTemplate`].
pub struct ResourceTemplateView {
    pub uri_template: Seq<char>,
    pub name: Seq<char>,
    pub description: Option<Seq<char>>,
    pub mime_type: Option<Seq<char>>,
    pub annotations: Option<AnnotationsView>,
}

impl View for ResourceTemplate {
    type V = ResourceTemplateView;

    open spec fn view(&self) -> ResourceTemplateView {
        ResourceTemplateView {
            uri_template: self.uri_template@,
            name: self.name@,
            description: view_opt(self.description),
            mime_type: view_opt(self.mime_type),
            annotations: view_opt(self.annotations),
        }
    }
}

impl ResourceTemplate {
    /// Create a new resource template.
    pub fn new(uri_template: &str, name: &str) -> (r: ResourceTemplate)
        ensures
            r@ == (ResourceTemplateView {
                uri_template: uri_template@,
                name: name@,
                description: None,
                mime_type: None,
                annotations: None,
            }),
    {
        ResourceTemplate {
            uri_template: uri_template.to_owned(),
            name: name.to_owned(),
            description: None,
            mime_type: None,
            annotations: None,
        }
    }

    /// Create a new resource template with description.
    pub fn with_description(uri_template: &str, name: &str, description: &str) -> (r: ResourceTemplate)
        ensures
            r@ == (ResourceTemplateView {
                uri_template: uri_template@,
                name: name@,
                description: Some(description@),
                mime_type: None,
                annotations: None,
            }),
    {
        ResourceTemplate {
            uri_template: uri_template.to_owned(),
            name: name.to_owned(),
            description: Some(description.to_owned()),
            mime_type: None,
            annotations: None,
        }
    }

    /// Set the MIME type for the resource template.
    pub fn with_mime_type(self, mime_type: &str) -> (r: ResourceTemplate)
        ensures
            r@ == (ResourceTemplateView { mime_type: Some(mime_type@), ..self@ }),
    {
        let mut r = self;
        r.mime_type = Some(mime_type.to_owned());
        r
    }

    /// Set the annotations for the resource template.
    pub fn with_annotations(self, annotations: Annotations) -> (r: ResourceTemplate)
        ensures
            r@ == (ResourceTemplateView { annotations: Some(annotations@), ..self@ }),
    {
        let mut r = self;
        r.annotations = Some(annotations);
        r
    }
}

impl Wire for ResourceTemplate {
    open spec fn encode(v: ResourceTemplateView) -> JsonValue {
        let m = Seq::empty();
        let m = m.push(("uriTemplate"@, JsonValue::Str(v.uri_template)));
        let m = m.push(("name"@, JsonValue::Str(v.name)));
        let m = push_opt(m, "description"@, encode_opt::<String>(v.description));
        let m = push_opt(m, "mimeType"@, encode_opt::<String>(v.mime_type));
        let m = push_opt(m, "annotations"@, encode_opt::<Annotations>(v.annotations));
        JsonValue::Object(m)
    }

    open spec fn decode(j: JsonValue) -> Option<ResourceTemplateView> {
        match (
            member::<String>(j, "uriTemplate"@),
            member::<String>(j, "name"@),
            opt_member::<String>(j, "description"@),
            opt_member::<String>(j, "mimeType"@),
            opt_member::<Annotations>(j, "annotations"@),
        ) {
            (
                Some(uri_template),
                Some(name),
                Some(description),
                Some(mime_type),
                Some(annotations),
            ) => Some(
                ResourceTemplateView { uri_template, name, description, mime_type, annotations },
            ),
            _ => None,
        }
    }

    open spec fn lossless(v: ResourceTemplateView) -> bool {
        opt_lossless::<Annotations>(v.annotations)
    }

    proof fn lemma_round_trip(v: ResourceTemplateView) {
        reveal_strlit("uriTemplate");
        reveal_strlit("name");
        reveal_strlit("description");
        reveal_strlit("mimeType");
        reveal_strlit("annotations");
        assert("uriTemplate"@.len() == 11);
        assert("name"@.len() == 4);
        assert("description"@.len() == 11);
        assert("mimeType"@.len() == 8);
        assert("annotations"@.len() == 11);
        assert("uriTemplate"@[0] != "description"@[0]);
        assert("uriTemplate"@[0] != "annotations"@[0]);
        assert("description"@[0] != "annotations"@[0]);
        let m0 = Seq::<(Seq<char>, JsonValue)>::empty();
        let m1 = m0.push(("uriTemplate"@, JsonValue::Str(v.uri_template)));
        let m2 = m1.push(("name"@, JsonValue::Str(v.name)));
        let m3 = push_opt(m2, "description"@, encode_opt::<String>(v.description));
        let m4 = push_opt(m3, "mimeType"@, encode_opt::<String>(v.mime_type));
        let m5 = push_opt(m4, "annotations"@, encode_opt::<Annotations>(v.annotations));
        lemma_lookup_empty("uriTemplate"@);
        lemma_lookup_push(m0, "uriTemplate"@, JsonValue::Str(v.uri_template), "uriTemplate"@);
        lemma_lookup_push(m1, "name"@, JsonValue::Str(v.name), "uriTemplate"@);
        lemma_lookup_push_opt(m2, "description"@, encode_opt::<String>(v.description), "uriTemplate"@);
        lemma_lookup_push_opt(m3, "mimeType"@, encode_opt::<String>(v.mime_type), "uriTemplate"@);
        lemma_lookup_push_opt(m4, "annotations"@, encode_opt::<Annotations>(v.annotations), "uriTemplate"@);
        lemma_lookup_empty("name"@);
        lemma_lookup_push(m0, "uriTemplate"@, JsonValue::Str(v.uri_template), "name"@);
        lemma_lookup_push(m1, "name"@, JsonValue::Str(v.name), "name"@);
        lemma_lookup_push_opt(m2, "description"@, encode_opt::<String>(v.description), "name"@);
        lemma_lookup_push_opt(m3, "mimeType"@, encode_opt::<String>(v.mime_type), "name"@);
        lemma_lookup_push_opt(m4, "annotations"@, encode_opt::<Annotations>(v.annotations), "name"@);
        lemma_lookup_empty("description"@);
        lemma_lookup_push(m0, "uriTemplate"@, JsonValue::Str(v.uri_template), "description"@);
        lemma_lookup_push(m1, "name"@, JsonValue::Str(v.name), "description"@);
        lemma_lookup_push_opt(m2, "description"@, encode_opt::<String>(v.description), "description"@);
        lemma_lookup_push_opt(m3, "mimeType"@, encode_opt::<String>(v.mime_type), "description"@);
        lemma_lookup_push_opt(m4, "annotations"@, encode_opt::<Annotations>(v.annotations), "description"@);
        lemma_lookup_empty("mimeType"@);
        lemma_lookup_push(m0, "uriTemplate"@, JsonValue::Str(v.uri_template), "mimeType"@);
        lemma_lookup_push(m1, "name"@, JsonValue::Str(v.name), "mimeType"@);
        lemma_lookup_push_opt(m2, "description"@, encode_opt::<String>(v.description), "mimeType"@);
        lemma_lookup_push_opt(m3, "mimeType"@, encode_opt::<String>(v.mime_type), "mimeType"@);
        lemma_lookup_push_opt(m4, "annotations"@, encode_opt::<Annotations>(v.annotations), "mimeType"@);
        lemma_lookup_empty("annotations"@);
        lemma_lookup_push(m0, "uriTemplate"@, JsonValue::Str(v.uri_template), "annotations"@);
        lemma_lookup_push(m1, "name"@, JsonValue::Str(v.name), "annotations"@);
        lemma_lookup_push_opt(m2, "description"@, encode_opt::<String>(v.description), "annotations"@);
        lemma_lookup_push_opt(m3, "mimeType"@, encode_opt::<String>(v.mime_type), "annotations"@);
        lemma_lookup_push_opt(m4, "annotations"@, encode_opt::<Annotations>(v.annotations), "annotations"@);
        let j = JsonValue::Object(m5);
        lemma_member::<String>(j, "uriTemplate"@, v.uri_template);
        lemma_member::<String>(j, "name"@, v.name);
        lemma_opt_member::<String>(j, "description"@, v.description);
        lemma_opt_member::<String>(j, "mimeType"@, v.mime_type);
        lemma_opt_member::<Annotations>(j, "annotations"@, v.annotations);
    }

    fn to_json(&self) -> (j: Json) {
        let mut members: Vec<(String, Json)> = Vec::new();
        assert(members_view(members@) =~= Seq::empty());
        put_str(&mut members, "uriTemplate", self.uri_template.as_str());
        put_str(&mut members, "name", self.name.as_str());
        put_opt_value(&mut members, "description", &self.description);
        put_opt_value(&mut members, "mimeType", &self.mime_type);
        put_opt_value(&mut members, "annotations", &self.annotations);
        Json::object(members)
    }

    fn from_json(j: &Json) -> (r: Result<ResourceTemplate, Error>) {
        let uri_template = required::<String>(j, "uriTemplate")?;
        let name = required::<String>(j, "name")?;
        let description = optional::<String>(j, "description")?;
        let mime_type = optional::<String>(j, "mimeType")?;
        let annotations = optional::<Annotations>(j, "annotations")?;
        Ok(ResourceTemplate { uri_template, name, description, mime_type, annotations })
    }
}

/// The contents of a specific resource or sub-resource.
#[derive(Debug, Clone, PartialEq)]
pub struct ResourceContents {
    /// The URI of this resource.
    pub uri: String,
    /// The MIME type of this resource, if known.
    pub mime_type: Option<String>,
}

/// The mathematical value of a [`ResourceContents`].
pub struct ResourceContentsView {
    pub uri: Seq<char>,
    pub mime_type: Option<Seq<char>>,
}

impl View for ResourceContents {
    type V = ResourceContentsView;

    open spec fn view(&self) -> ResourceContentsView {
        ResourceContentsView {
            uri: self.uri@,
            mime_type: view_opt(self.mime_type),
        }
    }
}

impl ResourceContents {
    /// Create new resource contents.
    pub fn new(uri: &str) -> (r: ResourceContents)
        ensures
            r@ == (ResourceContentsView {
                uri: uri@,
                mime_type: None,
            }),
    {
        ResourceContents {
            uri: uri.to_owned(),
            mime_type: None,
        }
    }

    /// Create new resource contents with MIME type.
    pub fn with_mime_type(uri: &str, mime_type: &str) -> (r: ResourceContents)
        ensures
            r@ == (ResourceContentsView {
                uri: uri@,
                mime_type: Some(mime_type@),
            }),
    {
        ResourceContents {
            uri: uri.to_owned(),
            mime_type: Some(mime_type.to_owned()),
        }
    }
}

impl Wire for ResourceContents {
    open spec fn encode(v: ResourceContentsView) -> JsonValue {
        let m = Seq::empty();
        let m = m.push(("uri"@, JsonValue::Str(v.uri)));
        let m = push_opt(m, "mimeType"@, encode_opt::<String>(v.mime_type));
        JsonValue::Object(m)
    }

    open spec fn decode(j: JsonValue) -> Option<ResourceContentsView> {
        match (
            member::<String>(j, "uri"@),
            opt_member::<String>(j, "mimeType"@),
        ) {
            (Some(uri), Some(mime_type)) => Some(
                ResourceContentsView { uri, mime_type },
            ),
            _ => None,
        }
    }

    open spec fn lossless(v: ResourceContentsView) -> bool {
        true
    }

    proof fn lemma_round_trip(v: ResourceContentsView) {
        reveal_strlit("uri");
        reveal_strlit("mimeType");
        assert("uri"@.len() == 3);
        assert("mimeType"@.len() == 8);
        let m0 = Seq::<(Seq<char>, JsonValue)>::empty();
        let m1 = m0.push(("uri"@, JsonValue::Str(v.uri)));
        let m2 = push_opt(m1, "mimeType"@, encode_opt::<String>(v.mime_type));
        lemma_lookup_empty("uri"@);
        lemma_lookup_push(m0, "uri"@, JsonValue::Str(v.uri), "uri"@);
        lemma_lookup_push_opt(m1, "mimeType"@, encode_opt::<String>(v.mime_type), "uri"@);
        lemma_lookup_empty("mimeType"@);
        lemma_lookup_push(m0, "uri"@, JsonValue::Str(v.uri), "mimeType"@);
        lemma_lookup_push_opt(m1, "mimeType"@, encode_opt::<String>(v.mime_type), "mimeType"@);
        let j = JsonValue::Object(m2);
        lemma_member::<String>(j, "uri"@, v.uri);
        lemma_opt_member::<String>(j, "mimeType"@, v.mime_type);
    }

    fn to_json(&self) -> (j: Json) {
        let mut members: Vec<(String, Json)> = Vec::new();
        assert(members_view(members@) =~= Seq::empty());
        put_str(&mut members, "uri", self.uri.as_str());
        put_opt_value(&mut members, "mimeType", &self.mime_type);
        Json::object(members)
    }

    fn from_json(j: &Json) -> (r: Result<ResourceContents, Error>) {
        let uri = required::<String>(j, "uri")?;
        let mime_type = optional::<String>(j, "mimeType")?;
        Ok(ResourceContents { uri, mime_type })
    }
}

/// Text contents of a resource.
#[derive(Debug, Clone, PartialEq)]
pub struct TextResourceContents {
    /// The URI of this resource.
    pub uri: String,
    /// The MIME type of this resource, if known.
    pub mime_type: Option<String>,
    /// The text of the item.
    pub text: String,
}

/// The mathematical value of a [`TextResourceContents`].
pub struct TextResourceContentsView {
    pub uri: Seq<char>,
    pub mime_type: Option<Seq<char>>,
    pub text: Seq<char>,
}

impl View for TextResourceContents {
    type V = TextResourceContentsView;

    open spec fn view(&self) -> TextResourceContentsView {
        TextResourceContentsView {
            uri: self.uri@,
            mime_type: view_opt(self.mime_type),
            text: self.text@,
        }
    }
}

impl TextResourceContents {
    /// Create new text resource contents.
    pub fn new(uri: &str, text: &str) -> (r: TextResourceContents)
        ensures
            r@ == (TextResourceContentsView {
                uri: uri@,
                mime_type: None,
                text: text@,
            }),
    {
        TextResourceContents {
            uri: uri.to_owned(),
            mime_type: None,
            text: text.to_owned(),
        }
    }

    /// Create new text resource contents with MIME type.
    pub fn with_mime_type(uri: &str, text: &str, mime_type: &str) -> (r: TextResourceContents)
        ensures
            r@ == (TextResourceContentsView {
                uri: uri@,
                mime_type: Some(mime_type@),
                text: text@,
            }),
    {
        TextResourceContents {
            uri: uri.to_owned(),
            mime_type: Some(mime_type.to_owned()),
            text: text.to_owned(),
        }
    }
}

impl Wire for TextResourceContents {
    open spec fn encode(v: TextResourceContentsView) -> JsonValue {
        let m = Seq::empty();
        let m = m.push(("uri"@, JsonValue::Str(v.uri)));
        let m = push_opt(m, "mimeType"@, encode_opt::<String>(v.mime_type));
        let m = m.push(("text"@, JsonValue::Str(v.text)));
        JsonValue::Object(m)
    }

    open spec fn decode(j: JsonValue) -> Option<TextResourceContentsView> {
        match (
            member::<String>(j, "uri"@),
            opt_member::<String>(j, "mimeType"@),
            member::<String>(j, "text"@),
        ) {
            (Some(uri), Some(mime_type), Some(text)) => Some(
                TextResourceContentsView { uri, mime_type, text },
            ),
            _ => None,
        }
    }

    open spec fn lossless(v: TextResourceContentsView) -> bool {
        true
    }

    proof fn lemma_round_trip(v: TextResourceContentsView) {
        reveal_strlit("uri");
        reveal_strlit("mimeType");
        reveal_strlit("text");
        assert("uri"@.len() == 3);
        assert("mimeType"@.len() == 8);
        assert("text"@.len() == 4);
        let m0 = Seq::<(Seq<char>, JsonValue)>::empty();
        let m1 = m0.push(("uri"@, JsonValue::Str(v.uri)));
        let m2 = push_opt(m1, "mimeType"@, encode_opt::<String>(v.mime_type));
        let m3 = m2.push(("text"@, JsonValue::Str(v.text)));
        lemma_lookup_empty("uri"@);
        lemma_lookup_push(m0, "uri"@, JsonValue::Str(v.uri), "uri"@);
        lemma_lookup_push_opt(m1, "mimeType"@, encode_opt::<String>(v.mime_type), "uri"@);
        lemma_lookup_push(m2, "text"@, JsonValue::Str(v.text), "uri"@);
        lemma_lookup_empty("mimeType"@);
        lemma_lookup_push(m0, "uri"@, JsonValue::Str(v.uri), "mimeType"@);
        lemma_lookup_push_opt(m1, "mimeType"@, encode_opt::<String>(v.mime_type), "mimeType"@);
        lemma_lookup_push(m2, "text"@, JsonValue::Str(v.text), "mimeType"@);
        lemma_lookup_empty("text"@);
        lemma_lookup_push(m0, "uri"@, JsonValue::Str(v.uri), "text"@);
        lemma_lookup_push_opt(m1, "mimeType"@, encode_opt::<String>(v.mime_type), "text"@);
        lemma_lookup_push(m2, "text"@, JsonValue::Str(v.text), "text"@);
        let j = JsonValue::Object(m3);
        lemma_member::<String>(j, "uri"@, v.uri);
        lemma_opt_member::<String>(j, "mimeType"@, v.mime_type);
        lemma_member::<String>(j, "text"@, v.text);
    }

    fn to_json(&self) -> (j: Json) {
        let mut members: Vec<(String, Json)> = Vec::new();
        assert(members_view(members@) =~= Seq::empty());
        put_str(&mut members, "uri", self.uri.as_str());
        put_opt_value(&mut members, "mimeType", &self.mime_type);
        put_str(&mut members, "text", self.text.as_str());
        Json::object(members)
    }

    fn from_json(j: &Json) -> (r: Result<TextResourceContents, Error>) {
        let uri = required::<String>(j, "uri")?;
        let mime_type = optional::<String>(j, "mimeType")?;
        let text = required::<String>(j, "text")?;
        Ok(TextResourceContents { uri, mime_type, text })
    }
}

/// Binary contents of a resource.
#[derive(Debug, Clone, PartialEq)]
pub struct BlobResourceContents {
    /// The URI of this resource.
    pub uri: String,
    /// The MIME type of this resource, if known.
    pub mime_type: Option<String>,
    /// The base64-encoded binary data of the item.
    pub blob: String,
}

/// The mathematical value of a [`BlobResourceContents`].
pub struct BlobResourceContentsView {
    pub uri: Seq<char>,
    pub mime_type: Option<Seq<char>>,
    pub blob: Seq<char>,
}

impl View for BlobResourceContents {
    type V = BlobResourceContentsView;

    open spec fn view(&self) -> BlobResourceContentsView {
        BlobResourceContentsView {
            uri: self.uri@,
            mime_type: view_opt(self.mime_type),
            blob: self.blob@,
        }
    }
}

impl BlobResourceContents {
    /// Create new blob resource contents.
    pub fn new(uri: &str, blob: &str) -> (r: BlobResourceContents)
        ensures
            r@ == (BlobResourceContentsView {
                uri: uri@,
                mime_type: None,
                blob: blob@,
            }),
    {
        BlobResourceContents {
            uri: uri.to_owned(),
            mime_type: None,
            blob: blob.to_owned(),
        }
    }

    /// Create new blob resource contents with MIME type.
    pub fn with_mime_type(uri: &str, blob: &str, mime_type: &str) -> (r: BlobResourceContents)
        ensures
            r@ == (BlobResourceContentsView {
                uri: uri@,
                mime_type: Some(mime_type@),
                blob: blob@,
            }),
    {
        BlobResourceContents {
            uri: uri.to_owned(),
            mime_type: Some(mime_type.to_owned()),
            blob: blob.to_owned(),
        }
    }
}

impl Wire for BlobResourceContents {
    open spec fn encode(v: BlobResourceContentsView) -> JsonValue {
        let m = Seq::empty();
        let m = m.push(("uri"@, JsonValue::Str(v.uri)));
        let m = push_opt(m, "mimeType"@, encode_opt::<String>(v.mime_type));
        let m = m.push(("blob"@, JsonValue::Str(v.blob)));
        JsonValue::Object(m)
    }

    open spec fn decode(j: JsonValue) -> Option<BlobResourceContentsView> {
        match (
            member::<String>(j, "uri"@),
            opt_member::<String>(j, "mimeType"@),
            member::<String>(j, "blob"@),
        ) {
            (Some(uri), Some(mime_type), Some(blob)) => Some(
                BlobResourceContentsView { uri, mime_type, blob },
            ),
            _ => None,
        }
    }

    open spec fn lossless(v: BlobResourceContentsView) -> bool {
        true
    }

    proof fn lemma_round_trip(v: BlobResourceContentsView) {
        reveal_strlit("uri");
        reveal_strlit("mimeType");
        reveal_strlit("blob");
        assert("uri"@.len() == 3);
        assert("mimeType"@.len() == 8);
        assert("blob"@.len() == 4);
        let m0 = Seq::<(Seq<char>, JsonValue)>::empty();
        let m1 = m0.push(("uri"@, JsonValue::Str(v.uri)));
        let m2 = push_opt(m1, "mimeType"@, encode_opt::<String>(v.mime_type));
        let m3 = m2.push(("blob"@, JsonValue::Str(v.blob)));
        lemma_lookup_empty("uri"@);
        lemma_lookup_push(m0, "uri"@, JsonValue::Str(v.uri), "uri"@);
        lemma_lookup_push_opt(m1, "mimeType"@, encode_opt::<String>(v.mime_type), "uri"@);
        lemma_lookup_push(m2, "blob"@, JsonValue::Str(v.blob), "uri"@);
        lemma_lookup_empty("mimeType"@);
        lemma_lookup_push(m0, "uri"@, JsonValue::Str(v.uri), "mimeType"@);
        lemma_lookup_push_opt(m1, "mimeType"@, encode_opt::<String>(v.mime_type), "mimeType"@);
        lemma_lookup_push(m2, "blob"@, JsonValue::Str(v.blob), "mimeType"@);
        lemma_lookup_empty("blob"@);
        lemma_lookup_push(m0, "uri"@, JsonValue::Str(v.uri), "blob"@);
        lemma_lookup_push_opt(m1, "mimeType"@, encode_opt::<String>(v.mime_type), "blob"@);
        lemma_lookup_push(m2, "blob"@, JsonValue::Str(v.blob), "blob"@);
        let j = JsonValue::Object(m3);
        lemma_member::<String>(j, "uri"@, v.uri);
        lemma_opt_member::<String>(j, "mimeType"@, v.mime_type);
        lemma_member::<String>(j, "blob"@, v.blob);
    }

    fn to_json(&self) -> (j: Json) {
        let mut members: Vec<(String, Json)> = Vec::new();
        assert(members_view(members@) =~= Seq::empty());
        put_str(&mut members, "uri", self.uri.as_str());
        put_opt_value(&mut members, "mimeType", &self.mime_type);
        put_str(&mut members, "blob", self.blob.as_str());
        Json::object(members)
    }

    fn from_json(j: &Json) -> (r: Result<BlobResourceContents, Error>) {
        let uri = required::<String>(j, "uri")?;
        let mime_type = optional::<String>(j, "mimeType")?;
        let blob = required::<String>(j, "blob")?;
        Ok(BlobResourceContents { uri, mime_type, blob })
    }
}

/// Content of a resource, either text or binary.
#[derive(Debug, Clone, PartialEq)]
pub enum ResourceContent {
    /// Text content.
    Text(TextResourceContents),
    /// Binary content.
    Blob(BlobResourceContents),
}

/// The mathematical value of a [`ResourceContent`].
pub enum ResourceContentView {
    Text(TextResourceContentsView),
    Blob(BlobResourceContentsView),
}

impl View for ResourceContent {
    type V = ResourceContentView;

    open spec fn view(&self) -> ResourceContentView {
        match self {
            ResourceContent::Text(t) => ResourceContentView::Text(t@),
            ResourceContent::Blob(b) => ResourceContentView::Blob(b@),
        }
    }
}

impl Wire for ResourceContent {
    open spec fn encode(v: ResourceContentView) -> JsonValue {
        match v {
            ResourceContentView::Text(t) => TextResourceContents::encode(t),
            ResourceContentView::Blob(b) => BlobResourceContents::encode(b),
        }
    }

    /// A document with a `text` member is text content, one with a `blob`
    /// member binary content, and any other is refused.
    open spec fn decode(j: JsonValue) -> Option<ResourceContentView> {
        if j.get("text"@) is Some {
            match TextResourceContents::decode(j) {
                Some(t) => Some(ResourceContentView::Text(t)),
                None => None,
            }
        } else if j.get("blob"@) is Some {
            match BlobResourceContents::decode(j) {
                Some(b) => Some(ResourceContentView::Blob(b)),
                None => None,
            }
        } else {
            None
        }
    }

    open spec fn lossless(v: ResourceContentView) -> bool {
        true
    }

    proof fn lemma_round_trip(v: ResourceContentView) {
        match v {
            ResourceContentView::Text(t) => TextResourceContents::lemma_round_trip(t),
            ResourceContentView::Blob(b) => {
                BlobResourceContents::lemma_round_trip(b);
                reveal_strlit("text");
                reveal_strlit("uri");
                reveal_strlit("mimeType");
                reveal_strlit("blob");
                assert("text"@.len() == 4);
                assert("uri"@.len() == 3);
                assert("mimeType"@.len() == 8);
                assert("text"@[0] != "blob"@[0]);
                let m0 = Seq::<(Seq<char>, JsonValue)>::empty();
                let m1 = m0.push(("uri"@, JsonValue::Str(b.uri)));
                let m2 = push_opt(m1, "mimeType"@, encode_opt::<String>(b.mime_type));
                lemma_lookup_empty("text"@);
                lemma_lookup_push(m0, "uri"@, JsonValue::Str(b.uri), "text"@);
                lemma_lookup_push_opt(m1, "mimeType"@, encode_opt::<String>(b.mime_type), "text"@);
                lemma_lookup_push(m2, "blob"@, JsonValue::Str(b.blob), "text"@);
            },
        }
    }

    fn to_json(&self) -> (j: Json) {
        match self {
            ResourceContent::Text(t) => t.to_json(),
            ResourceContent::Blob(b) => b.to_json(),
        }
    }

    fn from_json(j: &Json) -> (r: Result<ResourceContent, Error>) {
        if j.get("text").is_some() {
            Ok(ResourceContent::Text(TextResourceContents::from_json(j)?))
        } else if j.get("blob").is_some() {
            Ok(ResourceContent::Blob(BlobResourceContents::from_json(j)?))
        } else {
            Err(Error::parse("Unknown resource content type"))
        }
    }
}

/// Parameters for list resources request.
#[derive(Debug, Clone, PartialEq)]
pub struct ListResourcesParams {
    /// An opaque token representing the current pagination position.
    pub cursor: Option<String>,
}

/// The mathematical value of a [`ListResourcesParams`].
pub struct ListResourcesParamsView {
    pub cursor: Option<Seq<char>>,
}

impl View for ListResourcesParams {
    type V = ListResourcesParamsView;

    open spec fn view(&self) -> ListResourcesParamsView {
        ListResourcesParamsView {
            cursor: view_opt(self.cursor),
        }
    }
}

impl Wire for ListResourcesParams {
    open spec fn encode(v: ListResourcesParamsView) -> JsonValue {
        let m = Seq::empty();
        let m = push_opt(m, "cursor"@, encode_opt::<String>(v.cursor));
        JsonValue::Object(m)
    }

    /// Every member is optional, but the document must be an object.
    open spec fn decode(j: JsonValue) -> Option<ListResourcesParamsView> {
        if !(j is Object) {
            None
        } else {
            match opt_member::<String>(j, "cursor"@) {
                Some(cursor) => Some(ListResourcesParamsView { cursor }),
                None => None,
            }
        }
    }

    open spec fn lossless(v: ListResourcesParamsView) -> bool {
        true
    }

    proof fn lemma_round_trip(v: ListResourcesParamsView) {
        reveal_strlit("cursor");
        let m0 = Seq::<(Seq<char>, JsonValue)>::empty();
        let m1 = push_opt(m0, "cursor"@, encode_opt::<String>(v.cursor));
        lemma_lookup_empty("cursor"@);
        lemma_lookup_push_opt(m0, "cursor"@, encode_opt::<String>(v.cursor), "cursor"@);
        let j = JsonValue::Object(m1);
        lemma_opt_member::<String>(j, "cursor"@, v.cursor);
    }

    fn to_json(&self) -> (j: Json) {
        let mut members: Vec<(String, Json)> = Vec::new();
        assert(members_view(members@) =~= Seq::empty());
        put_opt_value(&mut members, "cursor", &self.cursor);
        Json::object(members)
    }

    fn from_json(j: &Json) -> (r: Result<ListResourcesParams, Error>) {
        if !j.is_object() {
            return Err(Error::parse("expected an object"));
        }
        let cursor = optional::<String>(j, "cursor")?;
        Ok(ListResourcesParams { cursor })
    }
}

/// Request to list resources.
#[derive(Debug, Clone, PartialEq)]
pub struct ListResourcesRequest {
    /// Method is always "resources/list".
    pub method: String,
    /// Optional request parameters.
    pub params: Option<ListResourcesParams>,
}

/// The mathematical value of a [`ListResourcesRequest`].
pub struct ListResourcesRequestView {
    pub method: Seq<char>,
    pub params: Option<ListResourcesParamsView>,
}

impl View for ListResourcesRequest {
    type V = ListResourcesRequestView;

    open spec fn view(&self) -> ListResourcesRequestView {
        ListResourcesRequestView {
            method: self.method@,
            params: view_opt(self.params),
        }
    }
}

impl ListResourcesRequest {
    /// Create a new list resources request.
    pub fn new() -> (r: ListResourcesRequest)
        ensures
            r@ == (ListResourcesRequestView {
                method: "resources/list"@,
                params: None,
            }),
    {
        ListResourcesRequest {
            method: "resources/list".to_owned(),
            params: None,
        }
    }

    /// Create a new list resources request with a cursor.
    pub fn with_cursor(cursor: &str) -> (r: ListResourcesRequest)
        ensures
            r@ == (ListResourcesRequestView {
                method: "resources/list"@,
                params: Some(ListResourcesParamsView { cursor: Some(cursor@) }),
            }),
    {
        ListResourcesRequest {
            method: "resources/list".to_owned(),
            params: Some(ListResourcesParams { cursor: Some(cursor.to_owned()) }),
        }
    }
}

impl Wire for ListResourcesRequest {
    open spec fn encode(v: ListResourcesRequestView) -> JsonValue {
        let m = Seq::empty();
        let m = m.push(("method"@, JsonValue::Str(v.method)));
        let m = push_opt(m, "params"@, encode_opt::<ListResourcesParams>(v.params));
        JsonValue::Object(m)
    }

    open spec fn decode(j: JsonValue) -> Option<ListResourcesRequestView> {
        match (
            member::<String>(j, "method"@),
            opt_member::<ListResourcesParams>(j, "params"@),
        ) {
            (Some(method), Some(params)) => Some(
                ListResourcesRequestView { method, params },
            ),
            _ => None,
        }
    }

    open spec fn lossless(v: ListResourcesRequestView) -> bool {
        opt_lossless::<ListResourcesParams>(v.params)
    }

    proof fn lemma_round_trip(v: ListResourcesRequestView) {
        reveal_strlit("method");
        reveal_strlit("params");
        assert("method"@.len() == 6);
        assert("params"@.len() == 6);
        assert("method"@[0] != "params"@[0]);
        let m0 = Seq::<(Seq<char>, JsonValue)>::empty();
        let m1 = m0.push(("method"@, JsonValue::Str(v.method)));
        let m2 = push_opt(m1, "params"@, encode_opt::<ListResourcesParams>(v.params));
        lemma_lookup_empty("method"@);
        lemma_lookup_push(m0, "method"@, JsonValue::Str(v.method), "method"@);
        lemma_lookup_push_opt(m1, "params"@, encode_opt::<ListResourcesParams>(v.params), "method"@);
        lemma_lookup_empty("params"@);
        lemma_lookup_push(m0, "method"@, JsonValue::Str(v.method), "params"@);
        lemma_lookup_push_opt(m1, "params"@, encode_opt::<ListResourcesParams>(v.params), "params"@);
        let j = JsonValue::Object(m2);
        lemma_member::<String>(j, "method"@, v.method);
        lemma_opt_member::<ListResourcesParams>(j, "params"@, v.params);
    }

    fn to_json(&self) -> (j: Json) {
        let mut members: Vec<(String, Json)> = Vec::new();
        assert(members_view(members@) =~= Seq::empty());
        put_str(&mut members, "method", self.method.as_str());
        put_opt_value(&mut members, "params", &self.params);
        Json::object(members)
    }

    fn from_json(j: &Json) -> (r: Result<ListResourcesRequest, Error>) {
        let method = required::<String>(j, "method")?;
        let params = optional::<ListResourcesParams>(j, "params")?;
        Ok(ListResourcesRequest { method, params })
    }
}

impl Request for ListResourcesRequest {
    open spec fn method_name(&self) -> Seq<char> {
        self.method@
    }

    open spec fn params_value(&self) -> Option<JsonValue> {
        encode_opt::<ListResourcesParams>(view_opt(self.params))
    }

    fn method(&self) -> (m: &str) {
        self.method.as_str()
    }

    fn params(&self) -> (p: Option<Json>) {
        match &self.params {
            Some(p) => Some(p.to_json()),
            None => None,
        }
    }
}

/// Result of listing resources.
#[derive(Debug, Clone, PartialEq)]
pub struct ListResourcesResult {
    /// The list of resources.
    pub resources: Vec<Resource>,
    /// An opaque token representing the pagination position after the last
    /// returned result.
    pub next_cursor: Option<String>,
    /// Metadata for the result.
    pub meta: Option<ResultMeta>,
}

/// The mathematical value of a [`ListResourcesResult`].
pub struct ListResourcesResultView {
    pub resources: Seq<ResourceView>,
    pub next_cursor: Option<Seq<char>>,
    pub meta: Option<ResultMetaView>,
}

impl View for ListResourcesResult {
    type V = ListResourcesResultView;

    open spec fn view(&self) -> ListResourcesResultView {
        ListResourcesResultView {
            resources: views(self.resources@),
            next_cursor: view_opt(self.next_cursor),
            meta: view_opt(self.meta),
        }
    }
}

impl ListResourcesResult {
    /// Create a new list resources result.
    pub fn new(resources: Vec<Resource>) -> (r: ListResourcesResult)
        ensures
            r@ == (ListResourcesResultView {
                resources: views(resources@),
                next_cursor: None,
                meta: None,
            }),
    {
        ListResourcesResult {
            resources,
            next_cursor: None,
            meta: None,
        }
    }

    /// Create a new list resources result with a next cursor.
    pub fn with_next_cursor(resources: Vec<Resource>, next_cursor: &str) -> (r: ListResourcesResult)
        ensures
            r@ == (ListResourcesResultView {
                resources: views(resources@),
                next_cursor: Some(next_cursor@),
                meta: None,
            }),
    {
        ListResourcesResult {
            resources,
            next_cursor: Some(next_cursor.to_owned()),
            meta: None,
        }
    }
}

impl Wire for ListResourcesResult {
    open spec fn encode(v: ListResourcesResultView) -> JsonValue {
        let m = Seq::empty();
        let m = m.push(("resources"@, encode_list::<Resource>(v.resources)));
        let m = push_opt(m, "nextCursor"@, encode_opt::<String>(v.next_cursor));
        let m = push_opt(m, "_meta"@, encode_opt::<ResultMeta>(v.meta));
        JsonValue::Object(m)
    }

    open spec fn decode(j: JsonValue) -> Option<ListResourcesResultView> {
        match (
            list_member::<Resource>(j, "resources"@),
            opt_member::<String>(j, "nextCursor"@),
            opt_member::<ResultMeta>(j, "_meta"@),
        ) {
            (Some(resources), Some(next_cursor), Some(meta)) => Some(
                ListResourcesResultView { resources, next_cursor, meta },
            ),
            _ => None,
        }
    }

    open spec fn lossless(v: ListResourcesResultView) -> bool {
        &&& all_lossless::<Resource>(v.resources)
        &&& opt_lossless::<ResultMeta>(v.meta)
    }

    proof fn lemma_round_trip(v: ListResourcesResultView) {
        reveal_strlit("resources");
        reveal_strlit("nextCursor");
        reveal_strlit("_meta");
        assert("resources"@.len() == 9);
        assert("nextCursor"@.len() == 10);
        assert("_meta"@.len() == 5);
        let m0 = Seq::<(Seq<char>, JsonValue)>::empty();
        let m1 = m0.push(("resources"@, encode_list::<Resource>(v.resources)));
        let m2 = push_opt(m1, "nextCursor"@, encode_opt::<String>(v.next_cursor));
        let m3 = push_opt(m2, "_meta"@, encode_opt::<ResultMeta>(v.meta));
        lemma_lookup_empty("resources"@);
        lemma_lookup_push(m0, "resources"@, encode_list::<Resource>(v.resources), "resources"@);
        lemma_lookup_push_opt(m1, "nextCursor"@, encode_opt::<String>(v.next_cursor), "resources"@);
        lemma_lookup_push_opt(m2, "_meta"@, encode_opt::<ResultMeta>(v.meta), "resources"@);
        lemma_lookup_empty("nextCursor"@);
        lemma_lookup_push(m0, "resources"@, encode_list::<Resource>(v.resources), "nextCursor"@);
        lemma_lookup_push_opt(m1, "nextCursor"@, encode_opt::<String>(v.next_cursor), "nextCursor"@);
        lemma_lookup_push_opt(m2, "_meta"@, encode_opt::<ResultMeta>(v.meta), "nextCursor"@);
        lemma_lookup_empty("_meta"@);
        lemma_lookup_push(m0, "resources"@, encode_list::<Resource>(v.resources), "_meta"@);
        lemma_lookup_push_opt(m1, "nextCursor"@, encode_opt::<String>(v.next_cursor), "_meta"@);
        lemma_lookup_push_opt(m2, "_meta"@, encode_opt::<ResultMeta>(v.meta), "_meta"@);
        let j = JsonValue::Object(m3);
        lemma_list_member::<Resource>(j, "resources"@, v.resources);
        lemma_opt_member::<String>(j, "nextCursor"@, v.next_cursor);
        lemma_opt_member::<ResultMeta>(j, "_meta"@, v.meta);
    }

    fn to_json(&self) -> (j: Json) {
        let mut members: Vec<(String, Json)> = Vec::new();
        assert(members_view(members@) =~= Seq::empty());
        put_list(&mut members, "resources", &self.resources);
        put_opt_value(&mut members, "nextCursor", &self.next_cursor);
        put_opt_value(&mut members, "_meta", &self.meta);
        Json::object(members)
    }

    fn from_json(j: &Json) -> (r: Result<ListResourcesResult, Error>) {
        let resources = required_list::<Resource>(j, "resources")?;
        let next_cursor = optional::<String>(j, "nextCursor")?;
        let meta = optional::<ResultMeta>(j, "_meta")?;
        Ok(ListResourcesResult { resources, next_cursor, meta })
    }
}

impl MessageResult for ListResourcesResult {
}

/// Parameters for read resource request.
#[derive(Debug, Clone, PartialEq)]
pub struct ReadResourceParams {
    /// The URI of the resource.
    pub uri: String,
}

/// The mathematical value of a [`ReadResourceParams`].
pub struct ReadResourceParamsView {
    pub uri: Seq<char>,
}

impl View for ReadResourceParams {
    type V = ReadResourceParamsView;

    open spec fn view(&self) -> ReadResourceParamsView {
        ReadResourceParamsView {
            uri: self.uri@,
        }
    }
}

impl Wire for ReadResourceParams {
    open spec fn encode(v: ReadResourceParamsView) -> JsonValue {
        let m = Seq::empty();
        let m = m.push(("uri"@, JsonValue::Str(v.uri)));
        JsonValue::Object(m)
    }

    open spec fn decode(j: JsonValue) -> Option<ReadResourceParamsView> {
        match member::<String>(j, "uri"@) {
            Some(uri) => Some(ReadResourceParamsView { uri }),
            None => None,
        }
    }

    open spec fn lossless(v: ReadResourceParamsView) -> bool {
        true
    }

    proof fn lemma_round_trip(v: ReadResourceParamsView) {
        reveal_strlit("uri");
        let m0 = Seq::<(Seq<char>, JsonValue)>::empty();
        let m1 = m0.push(("uri"@, JsonValue::Str(v.uri)));
        lemma_lookup_empty("uri"@);
        lemma_lookup_push(m0, "uri"@, JsonValue::Str(v.uri), "uri"@);
        let j = JsonValue::Object(m1);
        lemma_member::<String>(j, "uri"@, v.uri);
    }

    fn to_json(&self) -> (j: Json) {
        let mut members: Vec<(String, Json)> = Vec::new();
        assert(members_view(members@) =~= Seq::empty());
        put_str(&mut members, "uri", self.uri.as_str());
        Json::object(members)
    }

    fn from_json(j: &Json) -> (r: Result<ReadResourceParams, Error>) {
        let uri = required::<String>(j, "uri")?;
        Ok(ReadResourceParams { uri })
    }
}

/// Request to read a resource.
#[derive(Debug, Clone, PartialEq)]
pub struct ReadResourceRequest {
    /// Method is always "resources/read".
    pub method: String,
    /// Request parameters.
    pub params: ReadResourceParams,
}

/// The mathematical value of a [`ReadResourceRequest`].
pub struct ReadResourceRequestView {
    pub method: Seq<char>,
    pub params: ReadResourceParamsView,
}

impl View for ReadResourceRequest {
    type V = ReadResourceRequestView;

    open spec fn view(&self) -> ReadResourceRequestView {
        ReadResourceRequestView {
            method: self.method@,
            params: self.params@,
        }
    }
}

impl ReadResourceRequest {
    /// Create a new read resource request.
    pub fn new(uri: &str) -> (r: ReadResourceRequest)
        ensures
            r@ == (ReadResourceRequestView {
                method: "resources/read"@,
                params: ReadResourceParamsView { uri: uri@ },
            }),
    {
        ReadResourceRequest {
            method: "resources/read".to_owned(),
            params: ReadResourceParams { uri: uri.to_owned() },
        }
    }
}

impl Wire for ReadResourceRequest {
    open spec fn encode(v: ReadResourceRequestView) -> JsonValue {
        let m = Seq::empty();
        let m = m.push(("method"@, JsonValue::Str(v.method)));
        let m = m.push(("params"@, ReadResourceParams::encode(v.params)));
        JsonValue::Object(m)
    }

    open spec fn decode(j: JsonValue) -> Option<ReadResourceRequestView> {
        match (
            member::<String>(j, "method"@),
            member::<ReadResourceParams>(j, "params"@),
        ) {
            (Some(method), Some(params)) => Some(
                ReadResourceRequestView { method, params },
            ),
            _ => None,
        }
    }

    open spec fn lossless(v: ReadResourceRequestView) -> bool {
        ReadResourceParams::lossless(v.params)
    }

    proof fn lemma_round_trip(v: ReadResourceRequestView) {
        reveal_strlit("method");
        reveal_strlit("params");
        assert("method"@.len() == 6);
        assert("params"@.len() == 6);
        assert("method"@[0] != "params"@[0]);
        let m0 = Seq::<(Seq<char>, JsonValue)>::empty();
        let m1 = m0.push(("method"@, JsonValue::Str(v.method)));
        let m2 = m1.push(("params"@, ReadResourceParams::encode(v.params)));
        lemma_lookup_empty("method"@);
        lemma_lookup_push(m0, "method"@, JsonValue::Str(v.method), "method"@);
        lemma_lookup_push(m1, "params"@, ReadResourceParams::encode(v.params), "method"@);
        lemma_lookup_empty("params"@);
        lemma_lookup_push(m0, "method"@, JsonValue::Str(v.method), "params"@);
        lemma_lookup_push(m1, "params"@, ReadResourceParams::encode(v.params), "params"@);
        let j = JsonValue::Object(m2);
        lemma_member::<String>(j, "method"@, v.method);
        lemma_member::<ReadResourceParams>(j, "params"@, v.params);
    }

    fn to_json(&self) -> (j: Json) {
        let mut members: Vec<(String, Json)> = Vec::new();
        assert(members_view(members@) =~= Seq::empty());
        put_str(&mut members, "method", self.method.as_str());
        put_value(&mut members, "params", &self.params);
        Json::object(members)
    }

    fn from_json(j: &Json) -> (r: Result<ReadResourceRequest, Error>) {
        let method = required::<String>(j, "method")?;
        let params = required::<ReadResourceParams>(j, "params")?;
        Ok(ReadResourceRequest { method, params })
    }
}

impl Request for ReadResourceRequest {
    open spec fn method_name(&self) -> Seq<char> {
        self.method@
    }

    open spec fn params_value(&self) -> Option<JsonValue> {
        Some(ReadResourceParams::encode(self.params@))
    }

    fn method(&self) -> (m: &str) {
        self.method.as_str()
    }

    fn params(&self) -> (p: Option<Json>) {
        Some(self.params.to_json())
    }
}

/// Result of reading a resource.
#[derive(Debug, Clone, PartialEq)]
pub struct ReadResourceResult {
    /// The contents of the resource.
    pub contents: Vec<ResourceContent>,
    /// Metadata for the result.
    pub meta: Option<ResultMeta>,
}

/// The mathematical value of a [`ReadResourceResult`].
pub struct ReadResourceResultView {
    pub contents: Seq<ResourceContentView>,
    pub meta: Option<ResultMetaView>,
}

impl View for ReadResourceResult {
    type V = ReadResourceResultView;

    open spec fn view(&self) -> ReadResourceResultView {
        ReadResourceResultView {
            contents: views(self.contents@),
            meta: view_opt(self.meta),
        }
    }
}

impl ReadResourceResult {
    /// Create a new read resource result.
    pub fn new(contents: Vec<ResourceContent>) -> (r: ReadResourceResult)
        ensures
            r@ == (ReadResourceResultView {
                contents: views(contents@),
                meta: None,
            }),
    {
        ReadResourceResult {
            contents,
            meta: None,
        }
    }
}

impl Wire for ReadResourceResult {
    open spec fn encode(v: ReadResourceResultView) -> JsonValue {
        let m = Seq::empty();
        let m = m.push(("contents"@, encode_list::<ResourceContent>(v.contents)));
        let m = push_opt(m, "_meta"@, encode_opt::<ResultMeta>(v.meta));
        JsonValue::Object(m)
    }

    open spec fn decode(j: JsonValue) -> Option<ReadResourceResultView> {
        match (
            list_member::<ResourceContent>(j, "contents"@),
            opt_member::<ResultMeta>(j, "_meta"@),
        ) {
            (Some(contents), Some(meta)) => Some(
                ReadResourceResultView { contents, meta },
            ),
            _ => None,
        }
    }

    open spec fn lossless(v: ReadResourceResultView) -> bool {
        &&& all_lossless::<ResourceContent>(v.contents)
        &&& opt_lossless::<ResultMeta>(v.meta)
    }

    proof fn lemma_round_trip(v: ReadResourceResultView) {
        reveal_strlit("contents");
        reveal_strlit("_meta");
        assert("contents"@.len() == 8);
        assert("_meta"@.len() == 5);
        let m0 = Seq::<(Seq<char>, JsonValue)>::empty();
        let m1 = m0.push(("contents"@, encode_list::<ResourceContent>(v.contents)));
        let m2 = push_opt(m1, "_meta"@, encode_opt::<ResultMeta>(v.meta));
        lemma_lookup_empty("contents"@);
        lemma_lookup_push(m0, "contents"@, encode_list::<ResourceContent>(v.contents), "contents"@);
        lemma_lookup_push_opt(m1, "_meta"@, encode_opt::<ResultMeta>(v.meta), "contents"@);
        lemma_lookup_empty("_meta"@);
        lemma_lookup_push(m0, "contents"@, encode_list::<ResourceContent>(v.contents), "_meta"@);
        lemma_lookup_push_opt(m1, "_meta"@, encode_opt::<ResultMeta>(v.meta), "_meta"@);
        let j = JsonValue::Object(m2);
        lemma_list_member::<ResourceContent>(j, "contents"@, v.contents);
        lemma_opt_member::<ResultMeta>(j, "_meta"@, v.meta);
    }

    fn to_json(&self) -> (j: Json) {
        let mut members: Vec<(String, Json)> = Vec::new();
        assert(members_view(members@) =~= Seq::empty());
        put_list(&mut members, "contents", &self.contents);
        put_opt_value(&mut members, "_meta", &self.meta);
        Json::object(members)
    }

    fn from_json(j: &Json) -> (r: Result<ReadResourceResult, Error>) {
        let contents = required_list::<ResourceContent>(j, "contents")?;
        let meta = optional::<ResultMeta>(j, "_meta")?;
        Ok(ReadResourceResult { contents, meta })
    }
}

impl MessageResult for ReadResourceResult {
}

/// Parameters for subscribe request.
#[derive(Debug, Clone, PartialEq)]
pub struct SubscribeParams {
    /// The URI of the resource.
    pub uri: String,
}

/// The mathematical value of a [`SubscribeParams`].
pub struct SubscribeParamsView {
    pub uri: Seq<char>,
}

impl View for SubscribeParams {
    type V = SubscribeParamsView;

    open spec fn view(&self) -> SubscribeParamsView {
        SubscribeParamsView {
            uri: self.uri@,
        }
    }
}

impl Wire for SubscribeParams {
    open spec fn encode(v: SubscribeParamsView) -> JsonValue {
        let m = Seq::empty();
        let m = m.push(("uri"@, JsonValue::Str(v.uri)));
        JsonValue::Object(m)
    }

    open spec fn decode(j: JsonValue) -> Option<SubscribeParamsView> {
        match member::<String>(j, "uri"@) {
            Some(uri) => Some(SubscribeParamsView { uri }),
            None => None,
        }
    }

    open spec fn lossless(v: SubscribeParamsView) -> bool {
        true
    }

    proof fn lemma_round_trip(v: SubscribeParamsView) {
        reveal_strlit("uri");
        let m0 = Seq::<(Seq<char>, JsonValue)>::empty();
        let m1 = m0.push(("uri"@, JsonValue::Str(v.uri)));
        lemma_lookup_empty("uri"@);
        lemma_lookup_push(m0, "uri"@, JsonValue::Str(v.uri), "uri"@);
        let j = JsonValue::Object(m1);
        lemma_member::<String>(j, "uri"@, v.uri);
    }

    fn to_json(&self) -> (j: Json) {
        let mut members: Vec<(String, Json)> = Vec::new();
        assert(members_view(members@) =~= Seq::empty());
        put_str(&mut members, "uri", self.uri.as_str());
        Json::object(members)
    }

    fn from_json(j: &Json) -> (r: Result<SubscribeParams, Error>) {
        let uri = required::<String>(j, "uri")?;
        Ok(SubscribeParams { uri })
    }
}

/// Request to subscribe to resource updates.
#[derive(Debug, Clone, PartialEq)]
pub struct SubscribeRequest {
    /// Method is always "resources/subscribe".
    pub method: String,
    /// Request parameters.
    pub params: SubscribeParams,
}

/// The mathematical value of a [`SubscribeRequest`].
pub struct SubscribeRequestView {
    pub method: Seq<char>,
    pub params: SubscribeParamsView,
}

impl View for SubscribeRequest {
    type V = SubscribeRequestView;

    open spec fn view(&self) -> SubscribeRequestView {
        SubscribeRequestView {
            method: self.method@,
            params: self.params@,
        }
    }
}

impl SubscribeRequest {
    /// Create a new subscribe request.
    pub fn new(uri: &str) -> (r: SubscribeRequest)
        ensures
            r@ == (SubscribeRequestView {
                method: "resources/subscribe"@,
                params: SubscribeParamsView { uri: uri@ },
            }),
    {
        SubscribeRequest {
            method: "resources/subscribe".to_owned(),
            params: SubscribeParams { uri: uri.to_owned() },
        }
    }
}

impl Wire for SubscribeRequest {
    open spec fn encode(v: SubscribeRequestView) -> JsonValue {
        let m = Seq::empty();
        let m = m.push(("method"@, JsonValue::Str(v.method)));
        let m = m.push(("params"@, SubscribeParams::encode(v.params)));
        JsonValue::Object(m)
    }

    open spec fn decode(j: JsonValue) -> Option<SubscribeRequestView> {
        match (
            member::<String>(j, "method"@),
            member::<SubscribeParams>(j, "params"@),
        ) {
            (Some(method), Some(params)) => Some(
                SubscribeRequestView { method, params },
            ),
            _ => None,
        }
    }

    open spec fn lossless(v: SubscribeRequestView) -> bool {
        SubscribeParams::lossless(v.params)
    }

    proof fn lemma_round_trip(v: SubscribeRequestView) {
        reveal_strlit("method");
        reveal_strlit("params");
        assert("method"@.len() == 6);
        assert("params"@.len() == 6);
        assert("method"@[0] != "params"@[0]);
        let m0 = Seq::<(Seq<char>, JsonValue)>::empty();
        let m1 = m0.push(("method"@, JsonValue::Str(v.method)));
        let m2 = m1.push(("params"@, SubscribeParams::encode(v.params)));
        lemma_lookup_empty("method"@);
        lemma_lookup_push(m0, "method"@, JsonValue::Str(v.method), "method"@);
        lemma_lookup_push(m1, "params"@, SubscribeParams::encode(v.params), "method"@);
        lemma_lookup_empty("params"@);
        lemma_lookup_push(m0, "method"@, JsonValue::Str(v.method), "params"@);
        lemma_lookup_push(m1, "params"@, SubscribeParams::encode(v.params), "params"@);
        let j = JsonValue::Object(m2);
        lemma_member::<String>(j, "method"@, v.method);
        lemma_member::<SubscribeParams>(j, "params"@, v.params);
    }

    fn to_json(&self) -> (j: Json) {
        let mut members: Vec<(String, Json)> = Vec::new();
        assert(members_view(members@) =~= Seq::empty());
        put_str(&mut members, "method", self.method.as_str());
        put_value(&mut members, "params", &self.params);
        Json::object(members)
    }

    fn from_json(j: &Json) -> (r: Result<SubscribeRequest, Error>) {
        let method = required::<String>(j, "method")?;
        let params = required::<SubscribeParams>(j, "params")?;
        Ok(SubscribeRequest { method, params })
    }
}

impl Request for SubscribeRequest {
    open spec fn method_name(&self) -> Seq<char> {
        self.method@
    }

    open spec fn params_value(&self) -> Option<JsonValue> {
        Some(SubscribeParams::encode(self.params@))
    }

    fn method(&self) -> (m: &str) {
        self.method.as_str()
    }

    fn params(&self) -> (p: Option<Json>) {
        Some(self.params.to_json())
    }
}

/// Parameters for unsubscribe request.
#[derive(Debug, Clone, PartialEq)]
pub struct UnsubscribeParams {
    /// The URI of the resource.
    pub uri: String,
}

/// The mathematical value of a [`UnsubscribeParams`].
pub struct UnsubscribeParamsView {
    pub uri: Seq<char>,
}

impl View for UnsubscribeParams {
    type V = UnsubscribeParamsView;

    open spec fn view(&self) -> UnsubscribeParamsView {
        UnsubscribeParamsView {
            uri: self.uri@,
        }
    }
}

impl Wire for UnsubscribeParams {
    open spec fn encode(v: UnsubscribeParamsView) -> JsonValue {
        let m = Seq::empty();
        let m = m.push(("uri"@, JsonValue::Str(v.uri)));
        JsonValue::Object(m)
    }

    open spec fn decode(j: JsonValue) -> Option<UnsubscribeParamsView> {
        match member::<String>(j, "uri"@) {
            Some(uri) => Some(UnsubscribeParamsView { uri }),
            None => None,
        }
    }

    open spec fn lossless(v: UnsubscribeParamsView) -> bool {
        true
    }

    proof fn lemma_round_trip(v: UnsubscribeParamsView) {
        reveal_strlit("uri");
        let m0 = Seq::<(Seq<char>, JsonValue)>::empty();
        let m1 = m0.push(("uri"@, JsonValue::Str(v.uri)));
        lemma_lookup_empty("uri"@);
        lemma_lookup_push(m0, "uri"@, JsonValue::Str(v.uri), "uri"@);
        let j = JsonValue::Object(m1);
        lemma_member::<String>(j, "uri"@, v.uri);
    }

    fn to_json(&self) -> (j: Json) {
        let mut members: Vec<(String, Json)> = Vec::new();
        assert(members_view(members@) =~= Seq::empty());
        put_str(&mut members, "uri", self.uri.as_str());
        Json::object(members)
    }

    fn from_json(j: &Json) -> (r: Result<UnsubscribeParams, Error>) {
        let uri = required::<String>(j, "uri")?;
        Ok(UnsubscribeParams { uri })
    }
}

/// Request to unsubscribe from resource updates.
#[derive(Debug, Clone, PartialEq)]
pub struct UnsubscribeRequest {
    /// Method is always "resources/unsubscribe".
    pub method: String,
    /// Request parameters.
    pub params: UnsubscribeParams,
}

/// The mathematical value of a [`UnsubscribeRequest`].
pub struct UnsubscribeRequestView {
    pub method: Seq<char>,
    pub params: UnsubscribeParamsView,
}

impl View for UnsubscribeRequest {
    type V = UnsubscribeRequestView;

    open spec fn view(&self) -> UnsubscribeRequestView {
        UnsubscribeRequestView {
            method: self.method@,
            params: self.params@,
        }
    }
}

impl UnsubscribeRequest {
    /// Create a new unsubscribe request.
    pub fn new(uri: &str) -> (r: UnsubscribeRequest)
        ensures
            r@ == (UnsubscribeRequestView {
                method: "resources/unsubscribe"@,
                params: UnsubscribeParamsView { uri: uri@ },
            }),
    {
        UnsubscribeRequest {
            method: "resources/unsubscribe".to_owned(),
            params: UnsubscribeParams { uri: uri.to_owned() },
        }
    }
}

impl Wire for UnsubscribeRequest {
    open spec fn encode(v: UnsubscribeRequestView) -> JsonValue {
        let m = Seq::empty();
        let m = m.push(("method"@, JsonValue::Str(v.method)));
        let m = m.push(("params"@, UnsubscribeParams::encode(v.params)));
        JsonValue::Object(m)
    }

    open spec fn decode(j: JsonValue) -> Option<UnsubscribeRequestView> {
        match (
            member::<String>(j, "method"@),
            member::<UnsubscribeParams>(j, "params"@),
        ) {
            (Some(method), Some(params)) => Some(
                UnsubscribeRequestView { method, params },
            ),
            _ => None,
        }
    }

    open spec fn lossless(v: UnsubscribeRequestView) -> bool {
        UnsubscribeParams::lossless(v.params)
    }

    proof fn lemma_round_trip(v: UnsubscribeRequestView) {
        reveal_strlit("method");
        reveal_strlit("params");
        assert("method"@.len() == 6);
        assert("params"@.len() == 6);
        assert("method"@[0] != "params"@[0]);
        let m0 = Seq::<(Seq<char>, JsonValue)>::empty();
        let m1 = m0.push(("method"@, JsonValue::Str(v.method)));
        let m2 = m1.push(("params"@, UnsubscribeParams::encode(v.params)));
        lemma_lookup_empty("method"@);
        lemma_lookup_push(m0, "method"@, JsonValue::Str(v.method), "method"@);
        lemma_lookup_push(m1, "params"@, UnsubscribeParams::encode(v.params), "method"@);
        lemma_lookup_empty("params"@);
        lemma_lookup_push(m0, "method"@, JsonValue::Str(v.method), "params"@);
        lemma_lookup_push(m1, "params"@, UnsubscribeParams::encode(v.params), "params"@);
        let j = JsonValue::Object(m2);
        lemma_member::<String>(j, "method"@, v.method);
        lemma_member::<UnsubscribeParams>(j, "params"@, v.params);
    }

    fn to_json(&self) -> (j: Json) {
        let mut members: Vec<(String, Json)> = Vec::new();
        assert(members_view(members@) =~= Seq::empty());
        put_str(&mut members, "method", self.method.as_str());
        put_value(&mut members, "params", &self.params);
        Json::object(members)
    }

    fn from_json(j: &Json) -> (r: Result<UnsubscribeRequest, Error>) {
        let method = required::<String>(j, "method")?;
        let params = required::<UnsubscribeParams>(j, "params")?;
        Ok(UnsubscribeRequest { method, params })
    }
}

impl Request for UnsubscribeRequest {
    open spec fn method_name(&self) -> Seq<char> {
        self.method@
    }

    open spec fn params_value(&self) -> Option<JsonValue> {
        Some(UnsubscribeParams::encode(self.params@))
    }

    fn method(&self) -> (m: &str) {
        self.method.as_str()
    }

    fn params(&self) -> (p: Option<Json>) {
        Some(self.params.to_json())
    }
}

/// Parameters for resource updated notification.
#[derive(Debug, Clone, PartialEq)]
pub struct ResourceUpdatedParams {
    /// The URI of the resource.
    pub uri: String,
}

/// The mathematical value of a [`ResourceUpdatedParams`].
pub struct ResourceUpdatedParamsView {
    pub uri: Seq<char>,
}

impl View for ResourceUpdatedParams {
    type V = ResourceUpdatedParamsView;

    open spec fn view(&self) -> ResourceUpdatedParamsView {
        ResourceUpdatedParamsView {
            uri: self.uri@,
        }
    }
}

impl Wire for ResourceUpdatedParams {
    open spec fn encode(v: ResourceUpdatedParamsView) -> JsonValue {
        let m = Seq::empty();
        let m = m.push(("uri"@, JsonValue::Str(v.uri)));
        JsonValue::Object(m)
    }

    open spec fn decode(j: JsonValue) -> Option<ResourceUpdatedParamsView> {
        match member::<String>(j, "uri"@) {
            Some(uri) => Some(ResourceUpdatedParamsView { uri }),
            None => None,
        }
    }

    open spec fn lossless(v: ResourceUpdatedParamsView) -> bool {
        true
    }

    proof fn lemma_round_trip(v: ResourceUpdatedParamsView) {
        reveal_strlit("uri");
        let m0 = Seq::<(Seq<char>, JsonValue)>::empty();
        let m1 = m0.push(("uri"@, JsonValue::Str(v.uri)));
        lemma_lookup_empty("uri"@);
        lemma_lookup_push(m0, "uri"@, JsonValue::Str(v.uri), "uri"@);
        let j = JsonValue::Object(m1);
        lemma_member::<String>(j, "uri"@, v.uri);
    }

    fn to_json(&self) -> (j: Json) {
        let mut members: Vec<(String, Json)> = Vec::new();
        assert(members_view(members@) =~= Seq::empty());
        put_str(&mut members, "uri", self.uri.as_str());
        Json::object(members)
    }

    fn from_json(j: &Json) -> (r: Result<ResourceUpdatedParams, Error>) {
        let uri = required::<String>(j, "uri")?;
        Ok(ResourceUpdatedParams { uri })
    }
}

/// Notification that a resource has been updated.
#[derive(Debug, Clone, PartialEq)]
pub struct ResourceUpdatedNotification {
    /// Method is always "notifications/resources/updated".
    pub method: String,
    /// Request parameters.
    pub params: ResourceUpdatedParams,
}

/// The mathematical value of a [`ResourceUpdatedNotification`].
pub struct ResourceUpdatedNotificationView {
    pub method: Seq<char>,
    pub params: ResourceUpdatedParamsView,
}

impl View for ResourceUpdatedNotification {
    type V = ResourceUpdatedNotificationView;

    open spec fn view(&self) -> ResourceUpdatedNotificationView {
        ResourceUpdatedNotificationView {
            method: self.method@,
            params: self.params@,
        }
    }
}

impl ResourceUpdatedNotification {
    /// Create a new resource updated notification.
    pub fn new(uri: &str) -> (r: ResourceUpdatedNotification)
        ensures
            r@ == (ResourceUpdatedNotificationView {
                method: "notifications/resources/updated"@,
                params: ResourceUpdatedParamsView { uri: uri@ },
            }),
    {
        ResourceUpdatedNotification {
            method: "notifications/resources/updated".to_owned(),
            params: ResourceUpdatedParams { uri: uri.to_owned() },
        }
    }
}

impl Wire for ResourceUpdatedNotification {
    open spec fn encode(v: ResourceUpdatedNotificationView) -> JsonValue {
        let m = Seq::empty();
        let m = m.push(("method"@, JsonValue::Str(v.method)));
        let m = m.push(("params"@, ResourceUpdatedParams::encode(v.params)));
        JsonValue::Object(m)
    }

    open spec fn decode(j: JsonValue) -> Option<ResourceUpdatedNotificationView> {
        match (
            member::<String>(j, "method"@),
            member::<ResourceUpdatedParams>(j, "params"@),
        ) {
            (Some(method), Some(params)) => Some(
                ResourceUpdatedNotificationView { method, params },
            ),
            _ => None,
        }
    }

    open spec fn lossless(v: ResourceUpdatedNotificationView) -> bool {
        ResourceUpdatedParams::lossless(v.params)
    }

    proof fn lemma_round_trip(v: ResourceUpdatedNotificationView) {
        reveal_strlit("method");
        reveal_strlit("params");
        assert("method"@.len() == 6);
        assert("params"@.len() == 6);
        assert("method"@[0] != "params"@[0]);
        let m0 = Seq::<(Seq<char>, JsonValue)>::empty();
        let m1 = m0.push(("method"@, JsonValue::Str(v.method)));
        let m2 = m1.push(("params"@, ResourceUpdatedParams::encode(v.params)));
        lemma_lookup_empty("method"@);
        lemma_lookup_push(m0, "method"@, JsonValue::Str(v.method), "method"@);
        lemma_lookup_push(m1, "params"@, ResourceUpdatedParams::encode(v.params), "method"@);
        lemma_lookup_empty("params"@);
        lemma_lookup_push(m0, "method"@, JsonValue::Str(v.method), "params"@);
        lemma_lookup_push(m1, "params"@, ResourceUpdatedParams::encode(v.params), "params"@);
        let j = JsonValue::Object(m2);
        lemma_member::<String>(j, "method"@, v.method);
        lemma_member::<ResourceUpdatedParams>(j, "params"@, v.params);
    }

    fn to_json(&self) -> (j: Json) {
        let mut members: Vec<(String, Json)> = Vec::new();
        assert(members_view(members@) =~= Seq::empty());
        put_str(&mut members, "method", self.method.as_str());
        put_value(&mut members, "params", &self.params);
        Json::object(members)
    }

    fn from_json(j: &Json) -> (r: Result<ResourceUpdatedNotification, Error>) {
        let method = required::<String>(j, "method")?;
        let params = required::<ResourceUpdatedParams>(j, "params")?;
        Ok(ResourceUpdatedNotification { method, params })
    }
}

impl Notification for ResourceUpdatedNotification {
    open spec fn method_name(&self) -> Seq<char> {
        self.method@
    }

    open spec fn params_value(&self) -> Option<JsonValue> {
        Some(ResourceUpdatedParams::encode(self.params@))
    }

    fn method(&self) -> (m: &str) {
        self.method.as_str()
    }

    fn params(&self) -> (p: Option<Json>) {
        Some(self.params.to_json())
    }
}

/// Notification that the list of resources has changed.
#[derive(Debug, Clone, PartialEq)]
pub struct ResourceListChangedNotification {
    /// Method is always "notifications/resources/list_changed".
    pub method: String,
    /// Optional notification parameters.
    pub params: Option<NotificationParams>,
}

/// The mathematical value of a [`ResourceListChangedNotification`].
pub struct ResourceListChangedNotificationView {
    pub method: Seq<char>,
    pub params: Option<NotificationParamsView>,
}

impl View for ResourceListChangedNotification {
    type V = ResourceListChangedNotificationView;

    open spec fn view(&self) -> ResourceListChangedNotificationView {
        ResourceListChangedNotificationView {
            method: self.method@,
            params: view_opt(self.params),
        }
    }
}

impl ResourceListChangedNotification {
    /// Create a new resource list changed notification.
    pub fn new() -> (r: ResourceListChangedNotification)
        ensures
            r@ == (ResourceListChangedNotificationView {
                method: "notifications/resources/list_changed"@,
                params: None,
            }),
    {
        ResourceListChangedNotification {
            method: "notifications/resources/list_changed".to_owned(),
            params: None,
        }
    }
}

impl Wire for ResourceListChangedNotification {
    open spec fn encode(v: ResourceListChangedNotificationView) -> JsonValue {
        let m = Seq::empty();
        let m = m.push(("method"@, JsonValue::Str(v.method)));
        let m = push_opt(m, "params"@, encode_opt::<NotificationParams>(v.params));
        JsonValue::Object(m)
    }

    open spec fn decode(j: JsonValue) -> Option<ResourceListChangedNotificationView> {
        match (
            member::<String>(j, "method"@),
            opt_member::<NotificationParams>(j, "params"@),
        ) {
            (Some(method), Some(params)) => Some(
                ResourceListChangedNotificationView { method, params },
            ),
            _ => None,
        }
    }

    open spec fn lossless(v: ResourceListChangedNotificationView) -> bool {
        opt_lossless::<NotificationParams>(v.params)
    }

    proof fn lemma_round_trip(v: ResourceListChangedNotificationView) {
        reveal_strlit("method");
        reveal_strlit("params");
        assert("method"@.len() == 6);
        assert("params"@.len() == 6);
        assert("method"@[0] != "params"@[0]);
        let m0 = Seq::<(Seq<char>, JsonValue)>::empty();
        let m1 = m0.push(("method"@, JsonValue::Str(v.method)));
        let m2 = push_opt(m1, "params"@, encode_opt::<NotificationParams>(v.params));
        lemma_lookup_empty("method"@);
        lemma_lookup_push(m0, "method"@, JsonValue::Str(v.method), "method"@);
        lemma_lookup_push_opt(m1, "params"@, encode_opt::<NotificationParams>(v.params), "method"@);
        lemma_lookup_empty("params"@);
        lemma_lookup_push(m0, "method"@, JsonValue::Str(v.method), "params"@);
        lemma_lookup_push_opt(m1, "params"@, encode_opt::<NotificationParams>(v.params), "params"@);
        let j = JsonValue::Object(m2);
        lemma_member::<String>(j, "method"@, v.method);
        lemma_opt_member::<NotificationParams>(j, "params"@, v.params);
    }

    fn to_json(&self) -> (j: Json) {
        let mut members: Vec<(String, Json)> = Vec::new();
        assert(members_view(members@) =~= Seq::empty());
        put_str(&mut members, "method", self.method.as_str());
        put_opt_value(&mut members, "params", &self.params);
        Json::object(members)
    }

    fn from_json(j: &Json) -> (r: Result<ResourceListChangedNotification, Error>) {
        let method = required::<String>(j, "method")?;
        let params = optional::<NotificationParams>(j, "params")?;
        Ok(ResourceListChangedNotification { method, params })
    }
}

impl Notification for ResourceListChangedNotification {
    open spec fn method_name(&self) -> Seq<char> {
        self.method@
    }

    open spec fn params_value(&self) -> Option<JsonValue> {
        encode_opt::<NotificationParams>(view_opt(self.params))
    }

    fn method(&self) -> (m: &str) {
        self.method.as_str()
    }

    fn params(&self) -> (p: Option<Json>) {
        match &self.params {
            Some(p) => Some(p.to_json()),
            None => None,
        }
    }
}

/// The contents of a resource, embedded into a prompt or tool call result.
#[derive(Debug, Clone, PartialEq)]
pub struct EmbeddedResource {
    /// Type is always "resource".
    pub kind: String,
    /// The resource content.
    pub resource: ResourceContent,
    /// Optional annotations for the client.
    pub annotations: Option<Annotations>,
}

/// The mathematical value of a [`EmbeddedResource`].
pub struct EmbeddedResourceView {
    pub kind: Seq<char>,
    pub resource: ResourceContentView,
    pub annotations: Option<AnnotationsView>,
}

impl View for EmbeddedResource {
    type V = EmbeddedResourceView;

    open spec fn view(&self) -> EmbeddedResourceView {
        EmbeddedResourceView {
            kind: self.kind@,
            resource: self.resource@,
            annotations: view_opt(self.annotations),
        }
    }
}

impl EmbeddedResource {
    /// Create a new embedded resource with text content.
    pub fn text(uri: &str, text: &str) -> (r: EmbeddedResource)
        ensures
            r@ == (EmbeddedResourceView {
                kind: "resource"@,
                resource: ResourceContentView::Text(
                    TextResourceContentsView { uri: uri@, mime_type: None, text: text@ },
                ),
                annotations: None,
            }),
    {
        EmbeddedResource {
            kind: "resource".to_owned(),
            resource: ResourceContent::Text(TextResourceContents::new(uri, text)),
            annotations: None,
        }
    }

    /// Create a new embedded resource with binary content.
    pub fn blob(uri: &str, blob: &str) -> (r: EmbeddedResource)
        ensures
            r@ == (EmbeddedResourceView {
                kind: "resource"@,
                resource: ResourceContentView::Blob(
                    BlobResourceContentsView { uri: uri@, mime_type: None, blob: blob@ },
                ),
                annotations: None,
            }),
    {
        EmbeddedResource {
            kind: "resource".to_owned(),
            resource: ResourceContent::Blob(BlobResourceContents::new(uri, blob)),
            annotations: None,
        }
    }

    /// Set the annotations for the embedded resource.
    pub fn with_annotations(self, annotations: Annotations) -> (r: EmbeddedResource)
        ensures
            r@ == (EmbeddedResourceView { annotations: Some(annotations@), ..self@ }),
    {
        let mut r = self;
        r.annotations = Some(annotations);
        r
    }
}

impl Wire for EmbeddedResource {
    open spec fn encode(v: EmbeddedResourceView) -> JsonValue {
        let m = Seq::empty();
        let m = m.push(("type"@, JsonValue::Str(v.kind)));
        let m = m.push(("resource"@, ResourceContent::encode(v.resource)));
        let m = push_opt(m, "annotations"@, encode_opt::<Annotations>(v.annotations));
        JsonValue::Object(m)
    }

    open spec fn decode(j: JsonValue) -> Option<EmbeddedResourceView> {
        match (
            member::<String>(j, "type"@),
            member::<ResourceContent>(j, "resource"@),
            opt_member::<Annotations>(j, "annotations"@),
        ) {
            (Some(kind), Some(resource), Some(annotations)) => Some(
                EmbeddedResourceView { kind, resource, annotations },
            ),
            _ => None,
        }
    }

    open spec fn lossless(v: EmbeddedResourceView) -> bool {
        &&& ResourceContent::lossless(v.resource)
        &&& opt_lossless::<Annotations>(v.annotations)
    }

    proof fn lemma_round_trip(v: EmbeddedResourceView) {
        reveal_strlit("type");
        reveal_strlit("resource");
        reveal_strlit("annotations");
        assert("type"@.len() == 4);
        assert("resource"@.len() == 8);
        assert("annotations"@.len() == 11);
        let m0 = Seq::<(Seq<char>, JsonValue)>::empty();
        let m1 = m0.push(("type"@, JsonValue::Str(v.kind)));
        let m2 = m1.push(("resource"@, ResourceContent::encode(v.resource)));
        let m3 = push_opt(m2, "annotations"@, encode_opt::<Annotations>(v.annotations));
        lemma_lookup_empty("type"@);
        lemma_lookup_push(m0, "type"@, JsonValue::Str(v.kind), "type"@);
        lemma_lookup_push(m1, "resource"@, ResourceContent::encode(v.resource), "type"@);
        lemma_lookup_push_opt(m2, "annotations"@, encode_opt::<Annotations>(v.annotations), "type"@);
        lemma_lookup_empty("resource"@);
        lemma_lookup_push(m0, "type"@, JsonValue::Str(v.kind), "resource"@);
        lemma_lookup_push(m1, "resource"@, ResourceContent::encode(v.resource), "resource"@);
        lemma_lookup_push_opt(m2, "annotations"@, encode_opt::<Annotations>(v.annotations), "resource"@);
        lemma_lookup_empty("annotations"@);
        lemma_lookup_push(m0, "type"@, JsonValue::Str(v.kind), "annotations"@);
        lemma_lookup_push(m1, "resource"@, ResourceContent::encode(v.resource), "annotations"@);
        lemma_lookup_push_opt(m2, "annotations"@, encode_opt::<Annotations>(v.annotations), "annotations"@);
        let j = JsonValue::Object(m3);
        lemma_member::<String>(j, "type"@, v.kind);
        lemma_member::<ResourceContent>(j, "resource"@, v.resource);
        lemma_opt_member::<Annotations>(j, "annotations"@, v.annotations);
    }

    fn to_json(&self) -> (j: Json) {
        let mut members: Vec<(String, Json)> = Vec::new();
        assert(members_view(members@) =~= Seq::empty());
        put_str(&mut members, "type", self.kind.as_str());
        put_value(&mut members, "resource", &self.resource);
        put_opt_value(&mut members, "annotations", &self.annotations);
        Json::object(members)
    }

    fn from_json(j: &Json) -> (r: Result<EmbeddedResource, Error>) {
        let kind = required::<String>(j, "type")?;
        let resource = required::<ResourceContent>(j, "resource")?;
        let annotations = optional::<Annotations>(j, "annotations")?;
        Ok(EmbeddedResource { kind, resource, annotations })
    }
}

/// A reference to a resource or resource template definition.
#[derive(Debug, Clone, PartialEq)]
pub struct ResourceReference {
    /// Type is always "ref/resource".
    pub kind: String,
    /// The URI or URI template of the resource.
    pub uri: String,
}

/// The mathematical value of a [`ResourceReference`].
pub struct ResourceReferenceView {
    pub kind: Seq<char>,
    pub uri: Seq<char>,
}

impl View for ResourceReference {
    type V = ResourceReferenceView;

    open spec fn view(&self) -> ResourceReferenceView {
        ResourceReferenceView {
            kind: self.kind@,
            uri: self.uri@,
        }
    }
}

impl ResourceReference {
    /// Create a new resource reference.
    pub fn new(uri: &str) -> (r: ResourceReference)
        ensures
            r@ == (ResourceReferenceView {
                kind: "ref/resource"@,
                uri: uri@,
            }),
    {
        ResourceReference {
            kind: "ref/resource".to_owned(),
            uri: uri.to_owned(),
        }
    }
}

impl Wire for ResourceReference {
    open spec fn encode(v: ResourceReferenceView) -> JsonValue {
        let m = Seq::empty();
        let m = m.push(("type"@, JsonValue::Str(v.kind)));
        let m = m.push(("uri"@, JsonValue::Str(v.uri)));
        JsonValue::Object(m)
    }

    open spec fn decode(j: JsonValue) -> Option<ResourceReferenceView> {
        match (
            member::<String>(j, "type"@),
            member::<String>(j, "uri"@),
        ) {
            (Some(kind), Some(uri)) => Some(
                ResourceReferenceView { kind, uri },
            ),
            _ => None,
        }
    }

    open spec fn lossless(v: ResourceReferenceView) -> bool {
        true
    }

    proof fn lemma_round_trip(v: ResourceReferenceView) {
        reveal_strlit("type");
        reveal_strlit("uri");
        assert("type"@.len() == 4);
        assert("uri"@.len() == 3);
        let m0 = Seq::<(Seq<char>, JsonValue)>::empty();
        let m1 = m0.push(("type"@, JsonValue::Str(v.kind)));
        let m2 = m1.push(("uri"@, JsonValue::Str(v.uri)));
        lemma_lookup_empty("type"@);
        lemma_lookup_push(m0, "type"@, JsonValue::Str(v.kind), "type"@);
        lemma_lookup_push(m1, "uri"@, JsonValue::Str(v.uri), "type"@);
        lemma_lookup_empty("uri"@);
        lemma_lookup_push(m0, "type"@, JsonValue::Str(v.kind), "uri"@);
        lemma_lookup_push(m1, "uri"@, JsonValue::Str(v.uri), "uri"@);
        let j = JsonValue::Object(m2);
        lemma_member::<String>(j, "type"@, v.kind);
        lemma_member::<String>(j, "uri"@, v.uri);
    }

    fn to_json(&self) -> (j: Json) {
        let mut members: Vec<(String, Json)> = Vec::new();
        assert(members_view(members@) =~= Seq::empty());
        put_str(&mut members, "type", self.kind.as_str());
        put_str(&mut members, "uri", self.uri.as_str());
        Json::object(members)
    }

    fn from_json(j: &Json) -> (r: Result<ResourceReference, Error>) {
        let kind = required::<String>(j, "type")?;
        let uri = required::<String>(j, "uri")?;
        Ok(ResourceReference { kind, uri })
    }
}

} // verus!
