//! Sampling message types for the MCP protocol.

use crate::error::Error;
use crate::json::{
    lemma_lookup_absent, lemma_lookup_append, lemma_lookup_empty, lemma_lookup_push,
    lemma_lookup_push_opt, lemma_without_key_absent, lemma_without_key_append,
    lemma_without_key_empty, lemma_without_key_push_opt, members_view, push_opt, put_all, put_str,
    strip_key, without_key, Json, JsonValue,
};
use crate::protocol::wire::{
    all_lossless, encode_list, encode_opt, encode_opt_list, lemma_list_member, lemma_member,
    lemma_opt_list_member, lemma_opt_member, list_member, member, opt_all_lossless,
    opt_list_member, opt_lossless, opt_member, optional, optional_list, put_list, put_opt_list,
    put_opt_value, put_value, required, required_list, view_opt, views, views_opt, Wire,
};
use crate::protocol::messages::{MessageResult, Request};
use crate::json::{insert_member, set_member, str_eq, Number};
use crate::protocol::annotations::{Annotations, AnnotationsView};
use crate::protocol::messages::{ResultMeta, ResultMetaView};
use crate::protocol::Role;
use vstd::prelude::*;

verus! {

/// Text content in a message.
#[derive(Debug, Clone, PartialEq)]
pub struct TextContent {
    /// Content type, always "text".
    pub kind: String,
    /// The text content.
    pub text: String,
    /// Optional annotations.
    pub annotations: Option<Annotations>,
}

/// The mathematical value of a [`TextContent`].
pub struct TextContentView {
    pub kind: Seq<char>,
    pub text: Seq<char>,
    pub annotations: Option<AnnotationsView>,
}

impl View for TextContent {
    type V = TextContentView;

    open spec fn view(&self) -> TextContentView {
        TextContentView {
            kind: self.kind@,
            text: self.text@,
            annotations: view_opt(self.annotations),
        }
    }
}

impl TextContent {
    /// Create new text content.
    pub fn new(text: &str) -> (r: TextContent)
        ensures
            r@ == (TextContentView {
                kind: "text"@,
                text: text@,
                annotations: None,
            }),
    {
        TextContent {
            kind: "text".to_owned(),
            text: text.to_owned(),
            annotations: None,
        }
    }

    /// Create new text content with annotations.
    pub fn with_annotations(text: &str, annotations: Annotations) -> (r: TextContent)
        ensures
            r@ == (TextContentView {
                kind: "text"@,
                text: text@,
                annotations: Some(annotations@),
            }),
    {
        TextContent {
            kind: "text".to_owned(),
            text: text.to_owned(),
            annotations: Some(annotations),
        }
    }
}

impl Wire for TextContent {
    open spec fn encode(v: TextContentView) -> JsonValue {
        let m = Seq::empty();
        let m = m.push(("type"@, JsonValue::Str(v.kind)));
        let m = m.push(("text"@, JsonValue::Str(v.text)));
        let m = push_opt(m, "annotations"@, encode_opt::<Annotations>(v.annotations));
        JsonValue::Object(m)
    }

    open spec fn decode(j: JsonValue) -> Option<TextContentView> {
        match (
            member::<String>(j, "type"@),
            member::<String>(j, "text"@),
            opt_member::<Annotations>(j, "annotations"@),
        ) {
            (Some(kind), Some(text), Some(annotations)) => Some(
                TextContentView { kind, text, annotations },
            ),
            _ => None,
        }
    }

    open spec fn lossless(v: TextContentView) -> bool {
        opt_lossless::<Annotations>(v.annotations)
    }

    proof fn lemma_round_trip(v: TextContentView) {
        reveal_strlit("type");
        reveal_strlit("text");
        reveal_strlit("annotations");
        assert("type"@.len() == 4);
        assert("text"@.len() == 4);
        assert("annotations"@.len() == 11);
        assert("type"@[1] != "text"@[1]);
        let m0 = Seq::<(Seq<char>, JsonValue)>::empty();
        let m1 = m0.push(("type"@, JsonValue::Str(v.kind)));
        let m2 = m1.push(("text"@, JsonValue::Str(v.text)));
        let m3 = push_opt(m2, "annotations"@, encode_opt::<Annotations>(v.annotations));
        lemma_lookup_empty("type"@);
        lemma_lookup_push(m0, "type"@, JsonValue::Str(v.kind), "type"@);
        lemma_lookup_push(m1, "text"@, JsonValue::Str(v.text), "type"@);
        lemma_lookup_push_opt(m2, "annotations"@, encode_opt::<Annotations>(v.annotations), "type"@);
        lemma_lookup_empty("text"@);
        lemma_lookup_push(m0, "type"@, JsonValue::Str(v.kind), "text"@);
        lemma_lookup_push(m1, "text"@, JsonValue::Str(v.text), "text"@);
        lemma_lookup_push_opt(m2, "annotations"@, encode_opt::<Annotations>(v.annotations), "text"@);
        lemma_lookup_empty("annotations"@);
        lemma_lookup_push(m0, "type"@, JsonValue::Str(v.kind), "annotations"@);
        lemma_lookup_push(m1, "text"@, JsonValue::Str(v.text), "annotations"@);
        lemma_lookup_push_opt(m2, "annotations"@, encode_opt::<Annotations>(v.annotations), "annotations"@);
        let j = JsonValue::Object(m3);
        lemma_member::<String>(j, "type"@, v.kind);
        lemma_member::<String>(j, "text"@, v.text);
        lemma_opt_member::<Annotations>(j, "annotations"@, v.annotations);
    }

    fn to_json(&self) -> (j: Json) {
        let mut members: Vec<(String, Json)> = Vec::new();
        assert(members_view(members@) =~= Seq::empty());
        put_str(&mut members, "type", self.kind.as_str());
        put_str(&mut members, "text", self.text.as_str());
        put_opt_value(&mut members, "annotations", &self.annotations);
        Json::object(members)
    }

    fn from_json(j: &Json) -> (r: Result<TextContent, Error>) {
        let kind = required::<String>(j, "type")?;
        let text = required::<String>(j, "text")?;
        let annotations = optional::<Annotations>(j, "annotations")?;
        Ok(TextContent { kind, text, annotations })
    }
}

/// Image content in a message.
#[derive(Debug, Clone, PartialEq)]
pub struct ImageContent {
    /// Content type, always "image".
    pub kind: String,
    /// The base64-encoded image data.
    pub data: String,
    /// The MIME type of the image.
    pub mime_type: String,
    /// Optional annotations.
    pub annotations: Option<Annotations>,
}

/// The mathematical value of a [`ImageContent`].
pub struct ImageContentView {
    pub kind: Seq<char>,
    pub data: Seq<char>,
    pub mime_type: Seq<char>,
    pub annotations: Option<AnnotationsView>,
}

impl View for ImageContent {
    type V = ImageContentView;

    open spec fn view(&self) -> ImageContentView {
        ImageContentView {
            kind: self.kind@,
            data: self.data@,
            mime_type: self.mime_type@,
            annotations: view_opt(self.annotations),
        }
    }
}

impl ImageContent {
    /// Create new image content.
    pub fn new(data: &str, mime_type: &str) -> (r: ImageContent)
        ensures
            r@ == (ImageContentView {
                kind: "image"@,
                data: data@,
                mime_type: mime_type@,
                annotations: None,
            }),
    {
        ImageContent {
            kind: "image".to_owned(),
            data: data.to_owned(),
            mime_type: mime_type.to_owned(),
            annotations: None,
        }
    }

    /// Create new image content with annotations.
    pub fn with_annotations(data: &str, mime_type: &str, annotations: Annotations) -> (r: ImageContent)
        ensures
            r@ == (ImageContentView {
                kind: "image"@,
                data: data@,
                mime_type: mime_type@,
                annotations: Some(annotations@),
            }),
    {
        ImageContent {
            kind: "image".to_owned(),
            data: data.to_owned(),
            mime_type: mime_type.to_owned(),
            annotations: Some(annotations),
        }
    }
}

impl Wire for ImageContent {
    open spec fn encode(v: ImageContentView) -> JsonValue {
        let m = Seq::empty();
        let m = m.push(("type"@, JsonValue::Str(v.kind)));
        let m = m.push(("data"@, JsonValue::Str(v.data)));
        let m = m.push(("mimeType"@, JsonValue::Str(v.mime_type)));
        let m = push_opt(m, "annotations"@, encode_opt::<Annotations>(v.annotations));
        JsonValue::Object(m)
    }

    open spec fn decode(j: JsonValue) -> Option<ImageContentView> {
        match (
            member::<String>(j, "type"@),
            member::<String>(j, "data"@),
            member::<String>(j, "mimeType"@),
            opt_member::<Annotations>(j, "annotations"@),
        ) {
            (Some(kind), Some(data), Some(mime_type), Some(annotations)) => Some(
                ImageContentView { kind, data, mime_type, annotations },
            ),
            _ => None,
        }
    }

    open spec fn lossless(v: ImageContentView) -> bool {
        opt_lossless::<Annotations>(v.annotations)
    }

    proof fn lemma_round_trip(v: ImageContentView) {
        reveal_strlit("type");
        reveal_strlit("data");
        reveal_strlit("mimeType");
        reveal_strlit("annotations");
        assert("type"@.len() == 4);
        assert("data"@.len() == 4);
        assert("mimeType"@.len() == 8);
        assert("annotations"@.len() == 11);
        assert("type"@[0] != "data"@[0]);
        let m0 = Seq::<(Seq<char>, JsonValue)>::empty();
        let m1 = m0.push(("type"@, JsonValue::Str(v.kind)));
        let m2 = m1.push(("data"@, JsonValue::Str(v.data)));
        let m3 = m2.push(("mimeType"@, JsonValue::Str(v.mime_type)));
        let m4 = push_opt(m3, "annotations"@, encode_opt::<Annotations>(v.annotations));
        lemma_lookup_empty("type"@);
        lemma_lookup_push(m0, "type"@, JsonValue::Str(v.kind), "type"@);
        lemma_lookup_push(m1, "data"@, JsonValue::Str(v.data), "type"@);
        lemma_lookup_push(m2, "mimeType"@, JsonValue::Str(v.mime_type), "type"@);
        lemma_lookup_push_opt(m3, "annotations"@, encode_opt::<Annotations>(v.annotations), "type"@);
        lemma_lookup_empty("data"@);
        lemma_lookup_push(m0, "type"@, JsonValue::Str(v.kind), "data"@);
        lemma_lookup_push(m1, "data"@, JsonValue::Str(v.data), "data"@);
        lemma_lookup_push(m2, "mimeType"@, JsonValue::Str(v.mime_type), "data"@);
        lemma_lookup_push_opt(m3, "annotations"@, encode_opt::<Annotations>(v.annotations), "data"@);
        lemma_lookup_empty("mimeType"@);
        lemma_lookup_push(m0, "type"@, JsonValue::Str(v.kind), "mimeType"@);
        lemma_lookup_push(m1, "data"@, JsonValue::Str(v.data), "mimeType"@);
        lemma_lookup_push(m2, "mimeType"@, JsonValue::Str(v.mime_type), "mimeType"@);
        lemma_lookup_push_opt(m3, "annotations"@, encode_opt::<Annotations>(v.annotations), "mimeType"@);
        lemma_lookup_empty("annotations"@);
        lemma_lookup_push(m0, "type"@, JsonValue::Str(v.kind), "annotations"@);
        lemma_lookup_push(m1, "data"@, JsonValue::Str(v.data), "annotations"@);
        lemma_lookup_push(m2, "mimeType"@, JsonValue::Str(v.mime_type), "annotations"@);
        lemma_lookup_push_opt(m3, "annotations"@, encode_opt::<Annotations>(v.annotations), "annotations"@);
        let j = JsonValue::Object(m4);
        lemma_member::<String>(j, "type"@, v.kind);
        lemma_member::<String>(j, "data"@, v.data);
        lemma_member::<String>(j, "mimeType"@, v.mime_type);
        lemma_opt_member::<Annotations>(j, "annotations"@, v.annotations);
    }

    fn to_json(&self) -> (j: Json) {
        let mut members: Vec<(String, Json)> = Vec::new();
        assert(members_view(members@) =~= Seq::empty());
        put_str(&mut members, "type", self.kind.as_str());
        put_str(&mut members, "data", self.data.as_str());
        put_str(&mut members, "mimeType", self.mime_type.as_str());
        put_opt_value(&mut members, "annotations", &self.annotations);
        Json::object(members)
    }

    fn from_json(j: &Json) -> (r: Result<ImageContent, Error>) {
        let kind = required::<String>(j, "type")?;
        let data = required::<String>(j, "data")?;
        let mime_type = required::<String>(j, "mimeType")?;
        let annotations = optional::<Annotations>(j, "annotations")?;
        Ok(ImageContent { kind, data, mime_type, annotations })
    }
}

/// Audio content in a message.
#[derive(Debug, Clone, PartialEq)]
pub struct AudioContent {
    /// Content type, always "audio".
    pub kind: String,
    /// The base64-encoded audio data.
    pub data: String,
    /// The MIME type of the audio.
    pub mime_type: String,
    /// Optional annotations.
    pub annotations: Option<Annotations>,
}

/// The mathematical value of a [`AudioContent`].
pub struct AudioContentView {
    pub kind: Seq<char>,
    pub data: Seq<char>,
    pub mime_type: Seq<char>,
    pub annotations: Option<AnnotationsView>,
}

impl View for AudioContent {
    type V = AudioContentView;

    open spec fn view(&self) -> AudioContentView {
        AudioContentView {
            kind: self.kind@,
            data: self.data@,
            mime_type: self.mime_type@,
            annotations: view_opt(self.annotations),
        }
    }
}

impl AudioContent {
    /// Create new audio content.
    pub fn new(data: &str, mime_type: &str) -> (r: AudioContent)
        ensures
            r@ == (AudioContentView {
                kind: "audio"@,
                data: data@,
                mime_type: mime_type@,
                annotations: None,
            }),
    {
        AudioContent {
            kind: "audio".to_owned(),
            data: data.to_owned(),
            mime_type: mime_type.to_owned(),
            annotations: None,
        }
    }

    /// Create new audio content with annotations.
    pub fn with_annotations(data: &str, mime_type: &str, annotations: Annotations) -> (r: AudioContent)
        ensures
            r@ == (AudioContentView {
                kind: "audio"@,
                data: data@,
                mime_type: mime_type@,
                annotations: Some(annotations@),
            }),
    {
        AudioContent {
            kind: "audio".to_owned(),
            data: data.to_owned(),
            mime_type: mime_type.to_owned(),
            annotations: Some(annotations),
        }
    }
}

impl Wire for AudioContent {
    open spec fn encode(v: AudioContentView) -> JsonValue {
        let m = Seq::empty();
        let m = m.push(("type"@, JsonValue::Str(v.kind)));
        let m = m.push(("data"@, JsonValue::Str(v.data)));
        let m = m.push(("mimeType"@, JsonValue::Str(v.mime_type)));
        let m = push_opt(m, "annotations"@, encode_opt::<Annotations>(v.annotations));
        JsonValue::Object(m)
    }

    open spec fn decode(j: JsonValue) -> Option<AudioContentView> {
        match (
            member::<String>(j, "type"@),
            member::<String>(j, "data"@),
            member::<String>(j, "mimeType"@),
            opt_member::<Annotations>(j, "annotations"@),
        ) {
            (Some(kind), Some(data), Some(mime_type), Some(annotations)) => Some(
                AudioContentView { kind, data, mime_type, annotations },
            ),
            _ => None,
        }
    }

    open spec fn lossless(v: AudioContentView) -> bool {
        opt_lossless::<Annotations>(v.annotations)
    }

    proof fn lemma_round_trip(v: AudioContentView) {
        reveal_strlit("type");
        reveal_strlit("data");
        reveal_strlit("mimeType");
        reveal_strlit("annotations");
        assert("type"@.len() == 4);
        assert("data"@.len() == 4);
        assert("mimeType"@.len() == 8);
        assert("annotations"@.len() == 11);
        assert("type"@[0] != "data"@[0]);
        let m0 = Seq::<(Seq<char>, JsonValue)>::empty();
        let m1 = m0.push(("type"@, JsonValue::Str(v.kind)));
        let m2 = m1.push(("data"@, JsonValue::Str(v.data)));
        let m3 = m2.push(("mimeType"@, JsonValue::Str(v.mime_type)));
        let m4 = push_opt(m3, "annotations"@, encode_opt::<Annotations>(v.annotations));
        lemma_lookup_empty("type"@);
        lemma_lookup_push(m0, "type"@, JsonValue::Str(v.kind), "type"@);
        lemma_lookup_push(m1, "data"@, JsonValue::Str(v.data), "type"@);
        lemma_lookup_push(m2, "mimeType"@, JsonValue::Str(v.mime_type), "type"@);
        lemma_lookup_push_opt(m3, "annotations"@, encode_opt::<Annotations>(v.annotations), "type"@);
        lemma_lookup_empty("data"@);
        lemma_lookup_push(m0, "type"@, JsonValue::Str(v.kind), "data"@);
        lemma_lookup_push(m1, "data"@, JsonValue::Str(v.data), "data"@);
        lemma_lookup_push(m2, "mimeType"@, JsonValue::Str(v.mime_type), "data"@);
        lemma_lookup_push_opt(m3, "annotations"@, encode_opt::<Annotations>(v.annotations), "data"@);
        lemma_lookup_empty("mimeType"@);
        lemma_lookup_push(m0, "type"@, JsonValue::Str(v.kind), "mimeType"@);
        lemma_lookup_push(m1, "data"@, JsonValue::Str(v.data), "mimeType"@);
        lemma_lookup_push(m2, "mimeType"@, JsonValue::Str(v.mime_type), "mimeType"@);
        lemma_lookup_push_opt(m3, "annotations"@, encode_opt::<Annotations>(v.annotations), "mimeType"@);
        lemma_lookup_empty("annotations"@);
        lemma_lookup_push(m0, "type"@, JsonValue::Str(v.kind), "annotations"@);
        lemma_lookup_push(m1, "data"@, JsonValue::Str(v.data), "annotations"@);
        lemma_lookup_push(m2, "mimeType"@, JsonValue::Str(v.mime_type), "annotations"@);
        lemma_lookup_push_opt(m3, "annotations"@, encode_opt::<Annotations>(v.annotations), "annotations"@);
        let j = JsonValue::Object(m4);
        lemma_member::<String>(j, "type"@, v.kind);
        lemma_member::<String>(j, "data"@, v.data);
        lemma_member::<String>(j, "mimeType"@, v.mime_type);
        lemma_opt_member::<Annotations>(j, "annotations"@, v.annotations);
    }

    fn to_json(&self) -> (j: Json) {
        let mut members: Vec<(String, Json)> = Vec::new();
        assert(members_view(members@) =~= Seq::empty());
        put_str(&mut members, "type", self.kind.as_str());
        put_str(&mut members, "data", self.data.as_str());
        put_str(&mut members, "mimeType", self.mime_type.as_str());
        put_opt_value(&mut members, "annotations", &self.annotations);
        Json::object(members)
    }

    fn from_json(j: &Json) -> (r: Result<AudioContent, Error>) {
        let kind = required::<String>(j, "type")?;
        let data = required::<String>(j, "data")?;
        let mime_type = required::<String>(j, "mimeType")?;
        let annotations = optional::<Annotations>(j, "annotations")?;
        Ok(AudioContent { kind, data, mime_type, annotations })
    }
}

/// Content type for a message.
#[derive(Debug, Clone, PartialEq)]
pub enum ContentType {
    /// Text content.
    Text(TextContent),
    /// Image content.
    Image(ImageContent),
    /// Audio content.
    Audio(AudioContent),
}

/// The mathematical value of a [`ContentType`].
pub enum ContentTypeView {
    Text(TextContentView),
    Image(ImageContentView),
    Audio(AudioContentView),
}

impl View for ContentType {
    type V = ContentTypeView;

    open spec fn view(&self) -> ContentTypeView {
        match self {
            ContentType::Text(c) => ContentTypeView::Text(c@),
            ContentType::Image(c) => ContentTypeView::Image(c@),
            ContentType::Audio(c) => ContentTypeView::Audio(c@),
        }
    }
}

impl Wire for ContentType {
    open spec fn encode(v: ContentTypeView) -> JsonValue {
        match v {
            ContentTypeView::Text(c) => TextContent::encode(c),
            ContentTypeView::Image(c) => ImageContent::encode(c),
            ContentTypeView::Audio(c) => AudioContent::encode(c),
        }
    }

    /// Reads content strictly: the `type` member names the kind, and an
    /// unknown kind is refused.
    open spec fn decode(j: JsonValue) -> Option<ContentTypeView> {
        match j.get_str("type"@) {
            Some(t) => {
                if t == "text"@ {
                    match TextContent::decode(j) {
                        Some(c) => Some(ContentTypeView::Text(c)),
                        None => None,
                    }
                } else if t == "image"@ {
                    match ImageContent::decode(j) {
                        Some(c) => Some(ContentTypeView::Image(c)),
                        None => None,
                    }
                } else if t == "audio"@ {
                    match AudioContent::decode(j) {
                        Some(c) => Some(ContentTypeView::Audio(c)),
                        None => None,
                    }
                } else {
                    None
                }
            },
            None => None,
        }
    }

    /// Content of a known kind whose `type` member names that kind.
    open spec fn lossless(v: ContentTypeView) -> bool {
        match v {
            ContentTypeView::Text(c) => TextContent::lossless(c) && c.kind == "text"@,
            ContentTypeView::Image(c) => ImageContent::lossless(c) && c.kind == "image"@,
            ContentTypeView::Audio(c) => AudioContent::lossless(c) && c.kind == "audio"@,
        }
    }

    proof fn lemma_round_trip(v: ContentTypeView) {
        reveal_strlit("text");
        reveal_strlit("image");
        reveal_strlit("audio");
        assert("text"@.len() == 4);
        assert("image"@.len() == 5);
        assert("audio"@.len() == 5);
        assert("image"@[0] != "audio"@[0]);
        match v {
            ContentTypeView::Text(c) => TextContent::lemma_round_trip(c),
            ContentTypeView::Image(c) => ImageContent::lemma_round_trip(c),
            ContentTypeView::Audio(c) => AudioContent::lemma_round_trip(c),
        }
    }

    fn to_json(&self) -> (j: Json) {
        match self {
            ContentType::Text(c) => c.to_json(),
            ContentType::Image(c) => c.to_json(),
            ContentType::Audio(c) => c.to_json(),
        }
    }

    fn from_json(j: &Json) -> (r: Result<ContentType, Error>) {
        match j.get_str("type") {
            Some(t) => {
                if str_eq(t, "text") {
                    Ok(ContentType::Text(TextContent::from_json(j)?))
                } else if str_eq(t, "image") {
                    Ok(ContentType::Image(ImageContent::from_json(j)?))
                } else if str_eq(t, "audio") {
                    Ok(ContentType::Audio(AudioContent::from_json(j)?))
                } else {
                    Err(Error::parse("unknown content type"))
                }
            },
            None => Err(Error::parse("content without a type")),
        }
    }
}

/// A message in a sampling conversation.
#[derive(Debug, Clone, PartialEq)]
pub struct SamplingMessage {
    /// The role of the message sender.
    pub role: Role,
    /// The content of the message.
    pub content: ContentType,
}

/// The mathematical value of a [`SamplingMessage`].
pub struct SamplingMessageView {
    pub role: Role,
    pub content: ContentTypeView,
}

impl View for SamplingMessage {
    type V = SamplingMessageView;

    open spec fn view(&self) -> SamplingMessageView {
        SamplingMessageView {
            role: self.role@,
            content: self.content@,
        }
    }
}

impl SamplingMessage {
    /// Create a new message with text content.
    pub fn text(role: Role, text: &str) -> (r: SamplingMessage)
        ensures
            r@ == (SamplingMessageView {
                role: role,
                content: ContentTypeView::Text(
                    TextContentView { kind: "text"@, text: text@, annotations: None },
                ),
            }),
    {
        SamplingMessage {
            role,
            content: ContentType::Text(TextContent::new(text)),
        }
    }

    /// Create a new message with image content.
    pub fn image(role: Role, data: &str, mime_type: &str) -> (r: SamplingMessage)
        ensures
            r@ == (SamplingMessageView {
                role: role,
                content: ContentTypeView::Image(
                    ImageContentView {
                        kind: "image"@,
                        data: data@,
                        mime_type: mime_type@,
                        annotations: None,
                    },
                ),
            }),
    {
        SamplingMessage {
            role,
            content: ContentType::Image(ImageContent::new(data, mime_type)),
        }
    }

    /// Create a new message with audio content.
    pub fn audio(role: Role, data: &str, mime_type: &str) -> (r: SamplingMessage)
        ensures
            r@ == (SamplingMessageView {
                role: role,
                content: ContentTypeView::Audio(
                    AudioContentView {
                        kind: "audio"@,
                        data: data@,
                        mime_type: mime_type@,
                        annotations: None,
                    },
                ),
            }),
    {
        SamplingMessage {
            role,
            content: ContentType::Audio(AudioContent::new(data, mime_type)),
        }
    }
}

impl Wire for SamplingMessage {
    open spec fn encode(v: SamplingMessageView) -> JsonValue {
        let m = Seq::empty();
        let m = m.push(("role"@, Role::encode(v.role)));
        let m = m.push(("content"@, ContentType::encode(v.content)));
        JsonValue::Object(m)
    }

    open spec fn decode(j: JsonValue) -> Option<SamplingMessageView> {
        match (
            member::<Role>(j, "role"@),
            member::<ContentType>(j, "content"@),
        ) {
            (Some(role), Some(content)) => Some(
                SamplingMessageView { role, content },
            ),
            _ => None,
        }
    }

    open spec fn lossless(v: SamplingMessageView) -> bool {
        ContentType::lossless(v.content)
    }

    proof fn lemma_round_trip(v: SamplingMessageView) {
        reveal_strlit("role");
        reveal_strlit("content");
        assert("role"@.len() == 4);
        assert("content"@.len() == 7);
        let m0 = Seq::<(Seq<char>, JsonValue)>::empty();
        let m1 = m0.push(("role"@, Role::encode(v.role)));
        let m2 = m1.push(("content"@, ContentType::encode(v.content)));
        lemma_lookup_empty("role"@);
        lemma_lookup_push(m0, "role"@, Role::encode(v.role), "role"@);
        lemma_lookup_push(m1, "content"@, ContentType::encode(v.content), "role"@);
        lemma_lookup_empty("content"@);
        lemma_lookup_push(m0, "role"@, Role::encode(v.role), "content"@);
        lemma_lookup_push(m1, "content"@, ContentType::encode(v.content), "content"@);
        let j = JsonValue::Object(m2);
        lemma_member::<Role>(j, "role"@, v.role);
        lemma_member::<ContentType>(j, "content"@, v.content);
    }

    fn to_json(&self) -> (j: Json) {
        let mut members: Vec<(String, Json)> = Vec::new();
        assert(members_view(members@) =~= Seq::empty());
        put_value(&mut members, "role", &self.role);
        put_value(&mut members, "content", &self.content);
        Json::object(members)
    }

    fn from_json(j: &Json) -> (r: Result<SamplingMessage, Error>) {
        let role = required::<Role>(j, "role")?;
        let content = required::<ContentType>(j, "content")?;
        Ok(SamplingMessage { role, content })
    }
}

/// The client's response to a sampling/createMessage request from the server.
#[derive(Debug, Clone, PartialEq)]
pub struct CreateMessageResult {
    /// Metadata for the result.
    pub meta: Option<ResultMeta>,
    /// The content of the message.
    pub content: ContentType,
    /// The role that produced the message.
    pub role: Role,
    /// The name of the model that generated the message.
    pub model: String,
    /// The reason why sampling stopped, if known.
    pub stop_reason: Option<String>,
}

/// The mathematical value of a [`CreateMessageResult`].
pub struct CreateMessageResultView {
    pub meta: Option<ResultMetaView>,
    pub content: ContentTypeView,
    pub role: Role,
    pub model: Seq<char>,
    pub stop_reason: Option<Seq<char>>,
}

impl View for CreateMessageResult {
    type V = CreateMessageResultView;

    open spec fn view(&self) -> CreateMessageResultView {
        CreateMessageResultView {
            meta: view_opt(self.meta),
            content: self.content@,
            role: self.role@,
            model: self.model@,
            stop_reason: view_opt(self.stop_reason),
        }
    }
}

impl CreateMessageResult {
    /// Create a new message result.
    pub fn new(role: Role, content: ContentType, model: &str) -> (r: CreateMessageResult)
        ensures
            r@ == (CreateMessageResultView {
                meta: None,
                content: content@,
                role: role,
                model: model@,
                stop_reason: None,
            }),
    {
        CreateMessageResult {
            meta: None,
            content,
            role,
            model: model.to_owned(),
            stop_reason: None,
        }
    }

    /// Create a new message result with a stop reason.
    pub fn with_stop_reason(role: Role, content: ContentType, model: &str, stop_reason: &str) -> (r: CreateMessageResult)
        ensures
            r@ == (CreateMessageResultView {
                meta: None,
                content: content@,
                role: role,
                model: model@,
                stop_reason: Some(stop_reason@),
            }),
    {
        CreateMessageResult {
            meta: None,
            content,
            role,
            model: model.to_owned(),
            stop_reason: Some(stop_reason.to_owned()),
        }
    }
}

impl Wire for CreateMessageResult {
    open spec fn encode(v: CreateMessageResultView) -> JsonValue {
        let m = Seq::empty();
        let m = push_opt(m, "_meta"@, encode_opt::<ResultMeta>(v.meta));
        let m = m.push(("content"@, ContentType::encode(v.content)));
        let m = m.push(("role"@, Role::encode(v.role)));
        let m = m.push(("model"@, JsonValue::Str(v.model)));
        let m = push_opt(m, "stopReason"@, encode_opt::<String>(v.stop_reason));
        JsonValue::Object(m)
    }

    open spec fn decode(j: JsonValue) -> Option<CreateMessageResultView> {
        match (
            opt_member::<ResultMeta>(j, "_meta"@),
            member::<ContentType>(j, "content"@),
            member::<Role>(j, "role"@),
            member::<String>(j, "model"@),
            opt_member::<String>(j, "stopReason"@),
        ) {
            (Some(meta), Some(content), Some(role), Some(model), Some(stop_reason)) => Some(
                CreateMessageResultView { meta, content, role, model, stop_reason },
            ),
            _ => None,
        }
    }

    open spec fn lossless(v: CreateMessageResultView) -> bool {
        &&& opt_lossless::<ResultMeta>(v.meta)
        &&& ContentType::lossless(v.content)
    }

    proof fn lemma_round_trip(v: CreateMessageResultView) {
        reveal_strlit("_meta");
        reveal_strlit("content");
        reveal_strlit("role");
        reveal_strlit("model");
        reveal_strlit("stopReason");
        assert("_meta"@.len() == 5);
        assert("content"@.len() == 7);
        assert("role"@.len() == 4);
        assert("model"@.len() == 5);
        assert("stopReason"@.len() == 10);
        assert("_meta"@[0] != "model"@[0]);
        let m0 = Seq::<(Seq<char>, JsonValue)>::empty();
        let m1 = push_opt(m0, "_meta"@, encode_opt::<ResultMeta>(v.meta));
        let m2 = m1.push(("content"@, ContentType::encode(v.content)));
        let m3 = m2.push(("role"@, Role::encode(v.role)));
        let m4 = m3.push(("model"@, JsonValue::Str(v.model)));
        let m5 = push_opt(m4, "stopReason"@, encode_opt::<String>(v.stop_reason));
        lemma_lookup_empty("_meta"@);
        lemma_lookup_push_opt(m0, "_meta"@, encode_opt::<ResultMeta>(v.meta), "_meta"@);
        lemma_lookup_push(m1, "content"@, ContentType::encode(v.content), "_meta"@);
        lemma_lookup_push(m2, "role"@, Role::encode(v.role), "_meta"@);
        lemma_lookup_push(m3, "model"@, JsonValue::Str(v.model), "_meta"@);
        lemma_lookup_push_opt(m4, "stopReason"@, encode_opt::<String>(v.stop_reason), "_meta"@);
        lemma_lookup_empty("content"@);
        lemma_lookup_push_opt(m0, "_meta"@, encode_opt::<ResultMeta>(v.meta), "content"@);
        lemma_lookup_push(m1, "content"@, ContentType::encode(v.content), "content"@);
        lemma_lookup_push(m2, "role"@, Role::encode(v.role), "content"@);
        lemma_lookup_push(m3, "model"@, JsonValue::Str(v.model), "content"@);
        lemma_lookup_push_opt(m4, "stopReason"@, encode_opt::<String>(v.stop_reason), "content"@);
        lemma_lookup_empty("role"@);
        lemma_lookup_push_opt(m0, "_meta"@, encode_opt::<ResultMeta>(v.meta), "role"@);
        lemma_lookup_push(m1, "content"@, ContentType::encode(v.content), "role"@);
        lemma_lookup_push(m2, "role"@, Role::encode(v.role), "role"@);
        lemma_lookup_push(m3, "model"@, JsonValue::Str(v.model), "role"@);
        lemma_lookup_push_opt(m4, "stopReason"@, encode_opt::<String>(v.stop_reason), "role"@);
        lemma_lookup_empty("model"@);
        lemma_lookup_push_opt(m0, "_meta"@, encode_opt::<ResultMeta>(v.meta), "model"@);
        lemma_lookup_push(m1, "content"@, ContentType::encode(v.content), "model"@);
        lemma_lookup_push(m2, "role"@, Role::encode(v.role), "model"@);
        lemma_lookup_push(m3, "model"@, JsonValue::Str(v.model), "model"@);
        lemma_lookup_push_opt(m4, "stopReason"@, encode_opt::<String>(v.stop_reason), "model"@);
        lemma_lookup_empty("stopReason"@);
        lemma_lookup_push_opt(m0, "_meta"@, encode_opt::<ResultMeta>(v.meta), "stopReason"@);
        lemma_lookup_push(m1, "content"@, ContentType::encode(v.content), "stopReason"@);
        lemma_lookup_push(m2, "role"@, Role::encode(v.role), "stopReason"@);
        lemma_lookup_push(m3, "model"@, JsonValue::Str(v.model), "stopReason"@);
        lemma_lookup_push_opt(m4, "stopReason"@, encode_opt::<String>(v.stop_reason), "stopReason"@);
        let j = JsonValue::Object(m5);
        lemma_opt_member::<ResultMeta>(j, "_meta"@, v.meta);
        lemma_member::<ContentType>(j, "content"@, v.content);
        lemma_member::<Role>(j, "role"@, v.role);
        lemma_member::<String>(j, "model"@, v.model);
        lemma_opt_member::<String>(j, "stopReason"@, v.stop_reason);
    }

    fn to_json(&self) -> (j: Json) {
        let mut members: Vec<(String, Json)> = Vec::new();
        assert(members_view(members@) =~= Seq::empty());
        put_opt_value(&mut members, "_meta", &self.meta);
        put_value(&mut members, "content", &self.content);
        put_value(&mut members, "role", &self.role);
        put_str(&mut members, "model", self.model.as_str());
        put_opt_value(&mut members, "stopReason", &self.stop_reason);
        Json::object(members)
    }

    fn from_json(j: &Json) -> (r: Result<CreateMessageResult, Error>) {
        let meta = optional::<ResultMeta>(j, "_meta")?;
        let content = required::<ContentType>(j, "content")?;
        let role = required::<Role>(j, "role")?;
        let model = required::<String>(j, "model")?;
        let stop_reason = optional::<String>(j, "stopReason")?;
        Ok(CreateMessageResult { meta, content, role, model, stop_reason })
    }
}

impl MessageResult for CreateMessageResult {
}

/// Include context option for sampling.
#[derive(Debug, Clone, Copy, PartialEq, Eq, Hash, Structural)]
pub enum IncludeContext {
    /// Don't include any server context.
    NoServers,
    /// Include context from this server only.
    ThisServer,
    /// Include context from all servers.
    AllServers,
}

impl View for IncludeContext {
    type V = IncludeContext;

    open spec fn view(&self) -> IncludeContext {
        *self
    }
}

impl IncludeContext {
    /// The wire name of the context option.
    pub open spec fn name(self) -> Seq<char> {
        match self {
            IncludeContext::NoServers => "none"@,
            IncludeContext::ThisServer => "thisServer"@,
            IncludeContext::AllServers => "allServers"@,
        }
    }

    /// The context option with the given wire name.
    pub open spec fn named(name: Seq<char>) -> Option<IncludeContext> {
        if name == "none"@ {
            Some(IncludeContext::NoServers)
        } else if name == "thisServer"@ {
            Some(IncludeContext::ThisServer)
        } else if name == "allServers"@ {
            Some(IncludeContext::AllServers)
        } else {
            None
        }
    }

    /// The wire name of the context option.
    pub fn as_str(&self) -> (s: &'static str)
        ensures
            s@ == self.name(),
    {
        match self {
            IncludeContext::NoServers => "none",
            IncludeContext::ThisServer => "thisServer",
            IncludeContext::AllServers => "allServers",
        }
    }

    /// The context option with the given wire name.
    pub fn parse(name: &str) -> (r: Option<IncludeContext>)
        ensures
            r == IncludeContext::named(name@),
    {
        if str_eq(name, "none") {
            Some(IncludeContext::NoServers)
        } else if str_eq(name, "thisServer") {
            Some(IncludeContext::ThisServer)
        } else if str_eq(name, "allServers") {
            Some(IncludeContext::AllServers)
        } else {
            None
        }
    }
}

impl Wire for IncludeContext {
    open spec fn encode(v: IncludeContext) -> JsonValue {
        JsonValue::Str(v.name())
    }

    open spec fn decode(j: JsonValue) -> Option<IncludeContext> {
        match j {
            JsonValue::Str(s) => IncludeContext::named(s),
            _ => None,
        }
    }

    open spec fn lossless(v: IncludeContext) -> bool {
        true
    }

    proof fn lemma_round_trip(v: IncludeContext) {
        reveal_strlit("none");
        reveal_strlit("thisServer");
        reveal_strlit("allServers");
        assert("none"@.len() == 4);
        assert("thisServer"@.len() == 10);
        assert("allServers"@.len() == 10);
        assert("thisServer"@[0] != "allServers"@[0]);
    }

    fn to_json(&self) -> (j: Json) {
        Json::string(self.as_str())
    }

    fn from_json(j: &Json) -> (r: Result<IncludeContext, Error>) {
        match j.as_str() {
            Some(s) => match IncludeContext::parse(s) {
                Some(v) => Ok(v),
                None => Err(Error::parse("unknown context option")),
            },
            None => Err(Error::parse("expected the name of a context option")),
        }
    }
}

/// Hint for model selection.
#[derive(Debug, Clone, PartialEq)]
pub struct ModelHint {
    /// A hint for a model name.
    pub name: Option<String>,
    /// Additional properties for the hint.
    pub additional: Vec<(String, Json)>,
}

/// The mathematical value of a [`ModelHint`].
pub struct ModelHintView {
    pub name: Option<Seq<char>>,
    pub additional: Seq<(Seq<char>, JsonValue)>,
}

impl View for ModelHint {
    type V = ModelHintView;

    open spec fn view(&self) -> ModelHintView {
        ModelHintView {
            name: view_opt(self.name),
            additional: members_view(self.additional@),
        }
    }
}

impl ModelHint {
    /// Create a new model hint with a name.
    pub fn new(name: &str) -> (r: ModelHint)
        ensures
            r@ == (ModelHintView {
                name: Some(name@),
                additional: Seq::empty(),
            }),
    {
        let r = ModelHint {
            name: Some(name.to_owned()),
            additional: Vec::new(),
        };
        assert(members_view(r.additional@) =~= Seq::empty());
        r
    }

    /// Add a custom hint property to the hint. The value is kept under the name,
    /// in place of one that was kept there.
    pub fn add_property<T: Wire>(&mut self, name: &str, value: &T)
        ensures
            final(self)@ == (ModelHintView {
                additional: insert_member(old(self)@.additional, name@, T::encode(value@)),
                ..old(self)@
            }),
    {
        set_member(&mut self.additional, name, value.to_json());
    }
}

impl Wire for ModelHint {
    open spec fn encode(v: ModelHintView) -> JsonValue {
        let m = Seq::empty();
        let m = push_opt(m, "name"@, encode_opt::<String>(v.name));
        let m = m + v.additional;
        JsonValue::Object(m)
    }

    open spec fn decode(j: JsonValue) -> Option<ModelHintView> {
        match (
            opt_member::<String>(j, "name"@),
            match j {
                JsonValue::Object(members) => Some(without_key(members, "name"@)),
                _ => None,
            },
        ) {
            (Some(name), Some(additional)) => Some(
                ModelHintView { name, additional },
            ),
            _ => None,
        }
    }

    open spec fn lossless(v: ModelHintView) -> bool {
        forall|i: int| 0 <= i < v.additional.len() ==> (#[trigger] v.additional[i]).0 != "name"@
    }

    proof fn lemma_round_trip(v: ModelHintView) {
        reveal_strlit("name");
        let m0 = Seq::<(Seq<char>, JsonValue)>::empty();
        let m1 = push_opt(m0, "name"@, encode_opt::<String>(v.name));
        lemma_lookup_empty("name"@);
        lemma_lookup_push_opt(m0, "name"@, encode_opt::<String>(v.name), "name"@);
        lemma_lookup_append(m1, v.additional, "name"@);
        lemma_lookup_absent(v.additional, "name"@);
        let j = JsonValue::Object(m1 + v.additional);
        lemma_opt_member::<String>(j, "name"@, v.name);
        lemma_without_key_append(push_opt(m0, "name"@, encode_opt::<String>(v.name)), v.additional, "name"@);
        lemma_without_key_absent(v.additional, "name"@);
        lemma_without_key_empty("name"@);
        lemma_without_key_push_opt(m0, "name"@, encode_opt::<String>(v.name), "name"@);
        assert(m0 + v.additional =~= v.additional);
    }

    fn to_json(&self) -> (j: Json) {
        let mut members: Vec<(String, Json)> = Vec::new();
        assert(members_view(members@) =~= Seq::empty());
        put_opt_value(&mut members, "name", &self.name);
        put_all(&mut members, &self.additional);
        Json::object(members)
    }

    fn from_json(j: &Json) -> (r: Result<ModelHint, Error>) {
        let name = optional::<String>(j, "name")?;
        let additional = match j.as_object() {
            Some(members) => strip_key(members, "name"),
            None => {
                return Err(Error::parse("expected an object"));
            },
        };
        Ok(ModelHint { name, additional })
    }
}

/// Model preferences for sampling. The three priorities are numbers between 0
/// and 1, kept as they came.
#[derive(Debug, Clone, PartialEq)]
pub struct ModelPreferences {
    /// Optional hints for model selection.
    pub hints: Option<Vec<ModelHint>>,
    /// How much to prioritize cost when selecting a model.
    pub cost_priority: Option<Number>,
    /// How much to prioritize sampling speed when selecting a model.
    pub speed_priority: Option<Number>,
    /// How much to prioritize intelligence when selecting a model.
    pub intelligence_priority: Option<Number>,
}

/// The mathematical value of a [`ModelPreferences`].
pub struct ModelPreferencesView {
    pub hints: Option<Seq<ModelHintView>>,
    pub cost_priority: Option<Number>,
    pub speed_priority: Option<Number>,
    pub intelligence_priority: Option<Number>,
}

impl View for ModelPreferences {
    type V = ModelPreferencesView;

    open spec fn view(&self) -> ModelPreferencesView {
        ModelPreferencesView {
            hints: views_opt(self.hints),
            cost_priority: view_opt(self.cost_priority),
            speed_priority: view_opt(self.speed_priority),
            intelligence_priority: view_opt(self.intelligence_priority),
        }
    }
}

impl ModelPreferences {
    /// Create new empty model preferences.
    pub fn new() -> (r: ModelPreferences)
        ensures
            r@ == (ModelPreferencesView {
                hints: None,
                cost_priority: None,
                speed_priority: None,
                intelligence_priority: None,
            }),
    {
        ModelPreferences {
            hints: None,
            cost_priority: None,
            speed_priority: None,
            intelligence_priority: None,
        }
    }

    /// Add a model hint.
    pub fn add_hint(&mut self, hint: ModelHint)
        ensures
            final(self)@ == (ModelPreferencesView {
                hints: Some(
                    match old(self)@.hints {
                        Some(h) => h.push(hint@),
                        None => Seq::empty().push(hint@),
                    },
                ),
                ..old(self)@
            }),
    {
        let mut hints = match self.hints.take() {
            Some(h) => h,
            None => Vec::new(),
        };
        let ghost before = hints@;
        hints.push(hint);
        assert(views(hints@) =~= views(before).push(hint@));
        assert(before.len() == 0 ==> views(before) =~= Seq::<ModelHintView>::empty());
        self.hints = Some(hints);
    }
}

impl Wire for ModelPreferences {
    open spec fn encode(v: ModelPreferencesView) -> JsonValue {
        let m = Seq::empty();
        let m = push_opt(m, "hints"@, encode_opt_list::<ModelHint>(v.hints));
        let m = push_opt(m, "costPriority"@, encode_opt::<Number>(v.cost_priority));
        let m = push_opt(m, "speedPriority"@, encode_opt::<Number>(v.speed_priority));
        let m = push_opt(m, "intelligencePriority"@, encode_opt::<Number>(v.intelligence_priority));
        JsonValue::Object(m)
    }

    /// Every member is optional, but the document must be an object.
    open spec fn decode(j: JsonValue) -> Option<ModelPreferencesView> {
        if !(j is Object) {
            None
        } else {
            match (
                opt_list_member::<ModelHint>(j, "hints"@),
                opt_member::<Number>(j, "costPriority"@),
                opt_member::<Number>(j, "speedPriority"@),
                opt_member::<Number>(j, "intelligencePriority"@),
            ) {
                (
                    Some(hints),
                    Some(cost_priority),
                    Some(speed_priority),
                    Some(intelligence_priority),
                ) => Some(
                    ModelPreferencesView {
                        hints,
                        cost_priority,
                        speed_priority,
                        intelligence_priority,
                    },
                ),
                _ => None,
            }
        }
    }

    open spec fn lossless(v: ModelPreferencesView) -> bool {
        opt_all_lossless::<ModelHint>(v.hints)
    }

    proof fn lemma_round_trip(v: ModelPreferencesView) {
        reveal_strlit("hints");
        reveal_strlit("costPriority");
        reveal_strlit("speedPriority");
        reveal_strlit("intelligencePriority");
        assert("hints"@.len() == 5);
        assert("costPriority"@.len() == 12);
        assert("speedPriority"@.len() == 13);
        assert("intelligencePriority"@.len() == 20);
        let m0 = Seq::<(Seq<char>, JsonValue)>::empty();
        let m1 = push_opt(m0, "hints"@, encode_opt_list::<ModelHint>(v.hints));
        let m2 = push_opt(m1, "costPriority"@, encode_opt::<Number>(v.cost_priority));
        let m3 = push_opt(m2, "speedPriority"@, encode_opt::<Number>(v.speed_priority));
        let m4 = push_opt(m3, "intelligencePriority"@, encode_opt::<Number>(v.intelligence_priority));
        lemma_lookup_empty("hints"@);
        lemma_lookup_push_opt(m0, "hints"@, encode_opt_list::<ModelHint>(v.hints), "hints"@);
        lemma_lookup_push_opt(m1, "costPriority"@, encode_opt::<Number>(v.cost_priority), "hints"@);
        lemma_lookup_push_opt(m2, "speedPriority"@, encode_opt::<Number>(v.speed_priority), "hints"@);
        lemma_lookup_push_opt(m3, "intelligencePriority"@, encode_opt::<Number>(v.intelligence_priority), "hints"@);
        lemma_lookup_empty("costPriority"@);
        lemma_lookup_push_opt(m0, "hints"@, encode_opt_list::<ModelHint>(v.hints), "costPriority"@);
        lemma_lookup_push_opt(m1, "costPriority"@, encode_opt::<Number>(v.cost_priority), "costPriority"@);
        lemma_lookup_push_opt(m2, "speedPriority"@, encode_opt::<Number>(v.speed_priority), "costPriority"@);
        lemma_lookup_push_opt(m3, "intelligencePriority"@, encode_opt::<Number>(v.intelligence_priority), "costPriority"@);
        lemma_lookup_empty("speedPriority"@);
        lemma_lookup_push_opt(m0, "hints"@, encode_opt_list::<ModelHint>(v.hints), "speedPriority"@);
        lemma_lookup_push_opt(m1, "costPriority"@, encode_opt::<Number>(v.cost_priority), "speedPriority"@);
        lemma_lookup_push_opt(m2, "speedPriority"@, encode_opt::<Number>(v.speed_priority), "speedPriority"@);
        lemma_lookup_push_opt(m3, "intelligencePriority"@, encode_opt::<Number>(v.intelligence_priority), "speedPriority"@);
        lemma_lookup_empty("intelligencePriority"@);
        lemma_lookup_push_opt(m0, "hints"@, encode_opt_list::<ModelHint>(v.hints), "intelligencePriority"@);
        lemma_lookup_push_opt(m1, "costPriority"@, encode_opt::<Number>(v.cost_priority), "intelligencePriority"@);
        lemma_lookup_push_opt(m2, "speedPriority"@, encode_opt::<Number>(v.speed_priority), "intelligencePriority"@);
        lemma_lookup_push_opt(m3, "intelligencePriority"@, encode_opt::<Number>(v.intelligence_priority), "intelligencePriority"@);
        let j = JsonValue::Object(m4);
        lemma_opt_list_member::<ModelHint>(j, "hints"@, v.hints);
        lemma_opt_member::<Number>(j, "costPriority"@, v.cost_priority);
        lemma_opt_member::<Number>(j, "speedPriority"@, v.speed_priority);
        lemma_opt_member::<Number>(j, "intelligencePriority"@, v.intelligence_priority);
    }

    fn to_json(&self) -> (j: Json) {
        let mut members: Vec<(String, Json)> = Vec::new();
        assert(members_view(members@) =~= Seq::empty());
        put_opt_list(&mut members, "hints", &self.hints);
        put_opt_value(&mut members, "costPriority", &self.cost_priority);
        put_opt_value(&mut members, "speedPriority", &self.speed_priority);
        put_opt_value(&mut members, "intelligencePriority", &self.intelligence_priority);
        Json::object(members)
    }

    fn from_json(j: &Json) -> (r: Result<ModelPreferences, Error>) {
        if !j.is_object() {
            return Err(Error::parse("expected an object"));
        }
        let hints = optional_list::<ModelHint>(j, "hints")?;
        let cost_priority = optional::<Number>(j, "costPriority")?;
        let speed_priority = optional::<Number>(j, "speedPriority")?;
        let intelligence_priority = optional::<Number>(j, "intelligencePriority")?;
        Ok(ModelPreferences { hints, cost_priority, speed_priority, intelligence_priority })
    }
}

/// Parameters for a create message request.
#[derive(Debug, Clone, PartialEq)]
pub struct CreateMessageParams {
    /// Messages in the conversation history.
    pub messages: Vec<SamplingMessage>,
    /// The server's preferences for which model to select.
    pub model_preferences: Option<ModelPreferences>,
    /// An optional system prompt.
    pub system_prompt: Option<String>,
    /// A request to include context from one or more MCP servers.
    pub include_context: Option<IncludeContext>,
    /// Sampling temperature, kept as it came.
    pub temperature: Option<Number>,
    /// Maximum number of tokens to sample.
    pub max_tokens: i32,
    /// Optional stop sequences.
    pub stop_sequences: Option<Vec<String>>,
    /// Optional metadata to pass through to the LLM provider.
    pub metadata: Option<Json>,
}

/// The mathematical value of a [`CreateMessageParams`].
pub struct CreateMessageParamsView {
    pub messages: Seq<SamplingMessageView>,
    pub model_preferences: Option<ModelPreferencesView>,
    pub system_prompt: Option<Seq<char>>,
    pub include_context: Option<IncludeContext>,
    pub temperature: Option<Number>,
    pub max_tokens: i32,
    pub stop_sequences: Option<Seq<Seq<char>>>,
    pub metadata: Option<JsonValue>,
}

impl View for CreateMessageParams {
    type V = CreateMessageParamsView;

    open spec fn view(&self) -> CreateMessageParamsView {
        CreateMessageParamsView {
            messages: views(self.messages@),
            model_preferences: view_opt(self.model_preferences),
            system_prompt: view_opt(self.system_prompt),
            include_context: view_opt(self.include_context),
            temperature: view_opt(self.temperature),
            max_tokens: self.max_tokens@,
            stop_sequences: views_opt(self.stop_sequences),
            metadata: view_opt(self.metadata),
        }
    }
}

impl Wire for CreateMessageParams {
    open spec fn encode(v: CreateMessageParamsView) -> JsonValue {
        let m = Seq::empty();
        let m = m.push(("messages"@, encode_list::<SamplingMessage>(v.messages)));
        let m = push_opt(m, "modelPreferences"@, encode_opt::<ModelPreferences>(v.model_preferences));
        let m = push_opt(m, "systemPrompt"@, encode_opt::<String>(v.system_prompt));
        let m = push_opt(m, "includeContext"@, encode_opt::<IncludeContext>(v.include_context));
        let m = push_opt(m, "temperature"@, encode_opt::<Number>(v.temperature));
        let m = m.push(("maxTokens"@, JsonValue::integer(v.max_tokens as i64)));
        let m = push_opt(m, "stopSequences"@, encode_opt_list::<String>(v.stop_sequences));
        let m = push_opt(m, "metadata"@, encode_opt::<Json>(v.metadata));
        JsonValue::Object(m)
    }

    open spec fn decode(j: JsonValue) -> Option<CreateMessageParamsView> {
        match (
            list_member::<SamplingMessage>(j, "messages"@),
            opt_member::<ModelPreferences>(j, "modelPreferences"@),
            opt_member::<String>(j, "systemPrompt"@),
            opt_member::<IncludeContext>(j, "includeContext"@),
            opt_member::<Number>(j, "temperature"@),
            member::<i32>(j, "maxTokens"@),
            opt_list_member::<String>(j, "stopSequences"@),
            opt_member::<Json>(j, "metadata"@),
        ) {
            (
                Some(messages),
                Some(model_preferences),
                Some(system_prompt),
                Some(include_context),
                Some(temperature),
                Some(max_tokens),
                Some(stop_sequences),
                Some(metadata),
            ) => Some(
                CreateMessageParamsView {
                    messages,
                    model_preferences,
                    system_prompt,
                    include_context,
                    temperature,
                    max_tokens,
                    stop_sequences,
                    metadata,
                },
            ),
            _ => None,
        }
    }

    open spec fn lossless(v: CreateMessageParamsView) -> bool {
        &&& all_lossless::<SamplingMessage>(v.messages)
        &&& opt_lossless::<ModelPreferences>(v.model_preferences)
        &&& opt_lossless::<Json>(v.metadata)
    }

    proof fn lemma_round_trip(v: CreateMessageParamsView) {
        reveal_strlit("messages");
        reveal_strlit("modelPreferences");
        reveal_strlit("systemPrompt");
        reveal_strlit("includeContext");
        reveal_strlit("temperature");
        reveal_strlit("maxTokens");
        reveal_strlit("stopSequences");
        reveal_strlit("metadata");
        assert("messages"@.len() == 8);
        assert("modelPreferences"@.len() == 16);
        assert("systemPrompt"@.len() == 12);
        assert("includeContext"@.len() == 14);
        assert("temperature"@.len() == 11);
        assert("maxTokens"@.len() == 9);
        assert("stopSequences"@.len() == 13);
        assert("metadata"@.len() == 8);
        assert("messages"@[2] != "metadata"@[2]);
        let m0 = Seq::<(Seq<char>, JsonValue)>::empty();
        let m1 = m0.push(("messages"@, encode_list::<SamplingMessage>(v.messages)));
        let m2 = push_opt(m1, "modelPreferences"@, encode_opt::<ModelPreferences>(v.model_preferences));
        let m3 = push_opt(m2, "systemPrompt"@, encode_opt::<String>(v.system_prompt));
        let m4 = push_opt(m3, "includeContext"@, encode_opt::<IncludeContext>(v.include_context));
        let m5 = push_opt(m4, "temperature"@, encode_opt::<Number>(v.temperature));
        let m6 = m5.push(("maxTokens"@, JsonValue::integer(v.max_tokens as i64)));
        let m7 = push_opt(m6, "stopSequences"@, encode_opt_list::<String>(v.stop_sequences));
        let m8 = push_opt(m7, "metadata"@, encode_opt::<Json>(v.metadata));
        lemma_lookup_empty("messages"@);
        lemma_lookup_push(m0, "messages"@, encode_list::<SamplingMessage>(v.messages), "messages"@);
        lemma_lookup_push_opt(m1, "modelPreferences"@, encode_opt::<ModelPreferences>(v.model_preferences), "messages"@);
        lemma_lookup_push_opt(m2, "systemPrompt"@, encode_opt::<String>(v.system_prompt), "messages"@);
        lemma_lookup_push_opt(m3, "includeContext"@, encode_opt::<IncludeContext>(v.include_context), "messages"@);
        lemma_lookup_push_opt(m4, "temperature"@, encode_opt::<Number>(v.temperature), "messages"@);
        lemma_lookup_push(m5, "maxTokens"@, JsonValue::integer(v.max_tokens as i64), "messages"@);
        lemma_lookup_push_opt(m6, "stopSequences"@, encode_opt_list::<String>(v.stop_sequences), "messages"@);
        lemma_lookup_push_opt(m7, "metadata"@, encode_opt::<Json>(v.metadata), "messages"@);
        lemma_lookup_empty("modelPreferences"@);
        lemma_lookup_push(m0, "messages"@, encode_list::<SamplingMessage>(v.messages), "modelPreferences"@);
        lemma_lookup_push_opt(m1, "modelPreferences"@, encode_opt::<ModelPreferences>(v.model_preferences), "modelPreferences"@);
        lemma_lookup_push_opt(m2, "systemPrompt"@, encode_opt::<String>(v.system_prompt), "modelPreferences"@);
        lemma_lookup_push_opt(m3, "includeContext"@, encode_opt::<IncludeContext>(v.include_context), "modelPreferences"@);
        lemma_lookup_push_opt(m4, "temperature"@, encode_opt::<Number>(v.temperature), "modelPreferences"@);
        lemma_lookup_push(m5, "maxTokens"@, JsonValue::integer(v.max_tokens as i64), "modelPreferences"@);
        lemma_lookup_push_opt(m6, "stopSequences"@, encode_opt_list::<String>(v.stop_sequences), "modelPreferences"@);
        lemma_lookup_push_opt(m7, "metadata"@, encode_opt::<Json>(v.metadata), "modelPreferences"@);
        lemma_lookup_empty("systemPrompt"@);
        lemma_lookup_push(m0, "messages"@, encode_list::<SamplingMessage>(v.messages), "systemPrompt"@);
        lemma_lookup_push_opt(m1, "modelPreferences"@, encode_opt::<ModelPreferences>(v.model_preferences), "systemPrompt"@);
        lemma_lookup_push_opt(m2, "systemPrompt"@, encode_opt::<String>(v.system_prompt), "systemPrompt"@);
        lemma_lookup_push_opt(m3, "includeContext"@, encode_opt::<IncludeContext>(v.include_context), "systemPrompt"@);
        lemma_lookup_push_opt(m4, "temperature"@, encode_opt::<Number>(v.temperature), "systemPrompt"@);
        lemma_lookup_push(m5, "maxTokens"@, JsonValue::integer(v.max_tokens as i64), "systemPrompt"@);
        lemma_lookup_push_opt(m6, "stopSequences"@, encode_opt_list::<String>(v.stop_sequences), "systemPrompt"@);
        lemma_lookup_push_opt(m7, "metadata"@, encode_opt::<Json>(v.metadata), "systemPrompt"@);
        lemma_lookup_empty("includeContext"@);
        lemma_lookup_push(m0, "messages"@, encode_list::<SamplingMessage>(v.messages), "includeContext"@);
        lemma_lookup_push_opt(m1, "modelPreferences"@, encode_opt::<ModelPreferences>(v.model_preferences), "includeContext"@);
        lemma_lookup_push_opt(m2, "systemPrompt"@, encode_opt::<String>(v.system_prompt), "includeContext"@);
        lemma_lookup_push_opt(m3, "includeContext"@, encode_opt::<IncludeContext>(v.include_context), "includeContext"@);
        lemma_lookup_push_opt(m4, "temperature"@, encode_opt::<Number>(v.temperature), "includeContext"@);
        lemma_lookup_push(m5, "maxTokens"@, JsonValue::integer(v.max_tokens as i64), "includeContext"@);
        lemma_lookup_push_opt(m6, "stopSequences"@, encode_opt_list::<String>(v.stop_sequences), "includeContext"@);
        lemma_lookup_push_opt(m7, "metadata"@, encode_opt::<Json>(v.metadata), "includeContext"@);
        lemma_lookup_empty("temperature"@);
        lemma_lookup_push(m0, "messages"@, encode_list::<SamplingMessage>(v.messages), "temperature"@);
        lemma_lookup_push_opt(m1, "modelPreferences"@, encode_opt::<ModelPreferences>(v.model_preferences), "temperature"@);
        lemma_lookup_push_opt(m2, "systemPrompt"@, encode_opt::<String>(v.system_prompt), "temperature"@);
        lemma_lookup_push_opt(m3, "includeContext"@, encode_opt::<IncludeContext>(v.include_context), "temperature"@);
        lemma_lookup_push_opt(m4, "temperature"@, encode_opt::<Number>(v.temperature), "temperature"@);
        lemma_lookup_push(m5, "maxTokens"@, JsonValue::integer(v.max_tokens as i64), "temperature"@);
        lemma_lookup_push_opt(m6, "stopSequences"@, encode_opt_list::<String>(v.stop_sequences), "temperature"@);
        lemma_lookup_push_opt(m7, "metadata"@, encode_opt::<Json>(v.metadata), "temperature"@);
        lemma_lookup_empty("maxTokens"@);
        lemma_lookup_push(m0, "messages"@, encode_list::<SamplingMessage>(v.messages), "maxTokens"@);
        lemma_lookup_push_opt(m1, "modelPreferences"@, encode_opt::<ModelPreferences>(v.model_preferences), "maxTokens"@);
        lemma_lookup_push_opt(m2, "systemPrompt"@, encode_opt::<String>(v.system_prompt), "maxTokens"@);
        lemma_lookup_push_opt(m3, "includeContext"@, encode_opt::<IncludeContext>(v.include_context), "maxTokens"@);
        lemma_lookup_push_opt(m4, "temperature"@, encode_opt::<Number>(v.temperature), "maxTokens"@);
        lemma_lookup_push(m5, "maxTokens"@, JsonValue::integer(v.max_tokens as i64), "maxTokens"@);
        lemma_lookup_push_opt(m6, "stopSequences"@, encode_opt_list::<String>(v.stop_sequences), "maxTokens"@);
        lemma_lookup_push_opt(m7, "metadata"@, encode_opt::<Json>(v.metadata), "maxTokens"@);
        lemma_lookup_empty("stopSequences"@);
        lemma_lookup_push(m0, "messages"@, encode_list::<SamplingMessage>(v.messages), "stopSequences"@);
        lemma_lookup_push_opt(m1, "modelPreferences"@, encode_opt::<ModelPreferences>(v.model_preferences), "stopSequences"@);
        lemma_lookup_push_opt(m2, "systemPrompt"@, encode_opt::<String>(v.system_prompt), "stopSequences"@);
        lemma_lookup_push_opt(m3, "includeContext"@, encode_opt::<IncludeContext>(v.include_context), "stopSequences"@);
        lemma_lookup_push_opt(m4, "temperature"@, encode_opt::<Number>(v.temperature), "stopSequences"@);
        lemma_lookup_push(m5, "maxTokens"@, JsonValue::integer(v.max_tokens as i64), "stopSequences"@);
        lemma_lookup_push_opt(m6, "stopSequences"@, encode_opt_list::<String>(v.stop_sequences), "stopSequences"@);
        lemma_lookup_push_opt(m7, "metadata"@, encode_opt::<Json>(v.metadata), "stopSequences"@);
        lemma_lookup_empty("metadata"@);
        lemma_lookup_push(m0, "messages"@, encode_list::<SamplingMessage>(v.messages), "metadata"@);
        lemma_lookup_push_opt(m1, "modelPreferences"@, encode_opt::<ModelPreferences>(v.model_preferences), "metadata"@);
        lemma_lookup_push_opt(m2, "systemPrompt"@, encode_opt::<String>(v.system_prompt), "metadata"@);
        lemma_lookup_push_opt(m3, "includeContext"@, encode_opt::<IncludeContext>(v.include_context), "metadata"@);
        lemma_lookup_push_opt(m4, "temperature"@, encode_opt::<Number>(v.temperature), "metadata"@);
        lemma_lookup_push(m5, "maxTokens"@, JsonValue::integer(v.max_tokens as i64), "metadata"@);
        lemma_lookup_push_opt(m6, "stopSequences"@, encode_opt_list::<String>(v.stop_sequences), "metadata"@);
        lemma_lookup_push_opt(m7, "metadata"@, encode_opt::<Json>(v.metadata), "metadata"@);
        let j = JsonValue::Object(m8);
        lemma_list_member::<SamplingMessage>(j, "messages"@, v.messages);
        lemma_opt_member::<ModelPreferences>(j, "modelPreferences"@, v.model_preferences);
        lemma_opt_member::<String>(j, "systemPrompt"@, v.system_prompt);
        lemma_opt_member::<IncludeContext>(j, "includeContext"@, v.include_context);
        lemma_opt_member::<Number>(j, "temperature"@, v.temperature);
        lemma_member::<i32>(j, "maxTokens"@, v.max_tokens);
        lemma_opt_list_member::<String>(j, "stopSequences"@, v.stop_sequences);
        lemma_opt_member::<Json>(j, "metadata"@, v.metadata);
    }

    fn to_json(&self) -> (j: Json) {
        let mut members: Vec<(String, Json)> = Vec::new();
        assert(members_view(members@) =~= Seq::empty());
        put_list(&mut members, "messages", &self.messages);
        put_opt_value(&mut members, "modelPreferences", &self.model_preferences);
        put_opt_value(&mut members, "systemPrompt", &self.system_prompt);
        put_opt_value(&mut members, "includeContext", &self.include_context);
        put_opt_value(&mut members, "temperature", &self.temperature);
        put_value(&mut members, "maxTokens", &self.max_tokens);
        put_opt_list(&mut members, "stopSequences", &self.stop_sequences);
        put_opt_value(&mut members, "metadata", &self.metadata);
        Json::object(members)
    }

    fn from_json(j: &Json) -> (r: Result<CreateMessageParams, Error>) {
        let messages = required_list::<SamplingMessage>(j, "messages")?;
        let model_preferences = optional::<ModelPreferences>(j, "modelPreferences")?;
        let system_prompt = optional::<String>(j, "systemPrompt")?;
        let include_context = optional::<IncludeContext>(j, "includeContext")?;
        let temperature = optional::<Number>(j, "temperature")?;
        let max_tokens = required::<i32>(j, "maxTokens")?;
        let stop_sequences = optional_list::<String>(j, "stopSequences")?;
        let metadata = optional::<Json>(j, "metadata")?;
        Ok(
            CreateMessageParams {
                messages,
                model_preferences,
                system_prompt,
                include_context,
                temperature,
                max_tokens,
                stop_sequences,
                metadata,
            },
        )
    }
}

/// A request from the server to sample an LLM via the client.
#[derive(Debug, Clone, PartialEq)]
pub struct CreateMessageRequest {
    /// Method is always "sampling/createMessage".
    pub method: String,
    /// Parameters for the request.
    pub params: CreateMessageParams,
}

/// The mathematical value of a [`CreateMessageRequest`].
pub struct CreateMessageRequestView {
    pub method: Seq<char>,
    pub params: CreateMessageParamsView,
}

impl View for CreateMessageRequest {
    type V = CreateMessageRequestView;

    open spec fn view(&self) -> CreateMessageRequestView {
        CreateMessageRequestView {
            method: self.method@,
            params: self.params@,
        }
    }
}

impl CreateMessageRequest {
    /// Create a new create message request.
    pub fn new(messages: Vec<SamplingMessage>, max_tokens: i32) -> (r: CreateMessageRequest)
        ensures
            r@ == (CreateMessageRequestView {
                method: "sampling/createMessage"@,
                params: CreateMessageParamsView {
                    messages: views(messages@),
                    model_preferences: None,
                    system_prompt: None,
                    include_context: None,
                    temperature: None,
                    max_tokens,
                    stop_sequences: None,
                    metadata: None,
                },
            }),
    {
        CreateMessageRequest {
            method: "sampling/createMessage".to_owned(),
            params: CreateMessageParams {
                messages,
                model_preferences: None,
                system_prompt: None,
                include_context: None,
                temperature: None,
                max_tokens,
                stop_sequences: None,
                metadata: None,
            },
        }
    }
}

impl Wire for CreateMessageRequest {
    open spec fn encode(v: CreateMessageRequestView) -> JsonValue {
        let m = Seq::empty();
        let m = m.push(("method"@, JsonValue::Str(v.method)));
        let m = m.push(("params"@, CreateMessageParams::encode(v.params)));
        JsonValue::Object(m)
    }

    open spec fn decode(j: JsonValue) -> Option<CreateMessageRequestView> {
        match (
            member::<String>(j, "method"@),
            member::<CreateMessageParams>(j, "params"@),
        ) {
            (Some(method), Some(params)) => Some(
                CreateMessageRequestView { method, params },
            ),
            _ => None,
        }
    }

    open spec fn lossless(v: CreateMessageRequestView) -> bool {
        CreateMessageParams::lossless(v.params)
    }

    proof fn lemma_round_trip(v: CreateMessageRequestView) {
        reveal_strlit("method");
        reveal_strlit("params");
        assert("method"@.len() == 6);
        assert("params"@.len() == 6);
        assert("method"@[0] != "params"@[0]);
        let m0 = Seq::<(Seq<char>, JsonValue)>::empty();
        let m1 = m0.push(("method"@, JsonValue::Str(v.method)));
        let m2 = m1.push(("params"@, CreateMessageParams::encode(v.params)));
        lemma_lookup_empty("method"@);
        lemma_lookup_push(m0, "method"@, JsonValue::Str(v.method), "method"@);
        lemma_lookup_push(m1, "params"@, CreateMessageParams::encode(v.params), "method"@);
        lemma_lookup_empty("params"@);
        lemma_lookup_push(m0, "method"@, JsonValue::Str(v.method), "params"@);
        lemma_lookup_push(m1, "params"@, CreateMessageParams::encode(v.params), "params"@);
        let j = JsonValue::Object(m2);
        lemma_member::<String>(j, "method"@, v.method);
        lemma_member::<CreateMessageParams>(j, "params"@, v.params);
    }

    fn to_json(&self) -> (j: Json) {
        let mut members: Vec<(String, Json)> = Vec::new();
        assert(members_view(members@) =~= Seq::empty());
        put_str(&mut members, "method", self.method.as_str());
        put_value(&mut members, "params", &self.params);
        Json::object(members)
    }

    fn from_json(j: &Json) -> (r: Result<CreateMessageRequest, Error>) {
        let method = required::<String>(j, "method")?;
        let params = required::<CreateMessageParams>(j, "params")?;
        Ok(CreateMessageRequest { method, params })
    }
}

impl Request for CreateMessageRequest {
    open spec fn method_name(&self) -> Seq<char> {
        self.method@
    }

    open spec fn params_value(&self) -> Option<JsonValue> {
        Some(CreateMessageParams::encode(self.params@))
    }

    fn method(&self) -> (m: &str) {
        self.method.as_str()
    }

    fn params(&self) -> (p: Option<Json>) {
        Some(self.params.to_json())
    }
}

} // verus!
