//! The requests that a client makes: which capability gates each method,
//! and what each operation puts on the wire.

use crate::client::{CompletionReferenceType, ServerCapabilities, ServerCapabilitiesView};
use crate::json::{
    duplicate_opt, Json, JsonValue, members_view, opt_view, push_opt, put, put_opt, put_str, str_eq,
};
use crate::protocol::{IdView, RequestId};
use crate::protocol::json_rpc::{JSONRPCRequest, RequestView};
use crate::protocol::logging::LoggingLevel;
use crate::protocol::prompts::{string_map_to_json, string_map_value};
use vstd::prelude::*;

verus! {

/// A capability of the server that gates a group of methods.
#[derive(Debug, Clone, Copy, PartialEq, Eq, Structural)]
pub enum Feature {
    /// `resources/list`, `resources/templates/list`, `resources/read`.
    Resources,
    /// `resources/subscribe`, `resources/unsubscribe`.
    ResourceSubscriptions,
    /// `prompts/list`, `prompts/get`.
    Prompts,
    /// `tools/list`, `tools/call`.
    Tools,
    /// `logging/setLevel`.
    Logging,
    /// `completion/complete`.
    Completions,
    /// Methods that no capability gates.
    Ungated,
}

impl Feature {
    /// The name under which a missing feature is reported.
    pub open spec fn name(self) -> Seq<char> {
        match self {
            Feature::Resources => "Resources"@,
            Feature::ResourceSubscriptions => "Resource subscriptions"@,
            Feature::Prompts => "Prompts"@,
            Feature::Tools => "Tools"@,
            Feature::Logging => "Logging"@,
            Feature::Completions => "Completions"@,
            Feature::Ungated => "Ungated"@,
        }
    }

    /// Whether the server's capabilities include the feature.
    pub open spec fn offered_by(self, caps: ServerCapabilitiesView) -> bool {
        match self {
            Feature::Resources => caps.resources,
            Feature::ResourceSubscriptions => caps.resources && caps.resources_subscribe,
            Feature::Prompts => caps.prompts,
            Feature::Tools => caps.tools,
            Feature::Logging => caps.logging,
            Feature::Completions => caps.completions,
            Feature::Ungated => true,
        }
    }

    /// The feature that gates a method.
    pub open spec fn of_method(method: Seq<char>) -> Feature {
        if method == "resources/list"@ || method == "resources/templates/list"@ || method
            == "resources/read"@ {
            Feature::Resources
        } else if method == "resources/subscribe"@ || method == "resources/unsubscribe"@ {
            Feature::ResourceSubscriptions
        } else if method == "prompts/list"@ || method == "prompts/get"@ {
            Feature::Prompts
        } else if method == "tools/list"@ || method == "tools/call"@ {
            Feature::Tools
        } else if method == "logging/setLevel"@ {
            Feature::Logging
        } else if method == "completion/complete"@ {
            Feature::Completions
        } else {
            Feature::Ungated
        }
    }

    /// The name under which a missing feature is reported.
    pub fn label(&self) -> (s: &'static str)
        ensures
            s@ == self.name(),
    {
        match self {
            Feature::Resources => "Resources",
            Feature::ResourceSubscriptions => "Resource subscriptions",
            Feature::Prompts => "Prompts",
            Feature::Tools => "Tools",
            Feature::Logging => "Logging",
            Feature::Completions => "Completions",
            Feature::Ungated => "Ungated",
        }
    }

    /// Whether the server's capabilities include the feature.
    pub fn offered(&self, caps: &ServerCapabilities) -> (r: bool)
        ensures
            r == self.offered_by(caps@),
    {
        match self {
            Feature::Resources => caps.resources,
            Feature::ResourceSubscriptions => caps.resources && caps.resources_subscribe,
            Feature::Prompts => caps.prompts,
            Feature::Tools => caps.tools,
            Feature::Logging => caps.logging,
            Feature::Completions => caps.completions,
            Feature::Ungated => true,
        }
    }

    /// The feature that gates a method.
    pub fn for_method(method: &str) -> (f: Feature)
        ensures
            f == Feature::of_method(method@),
    {
        if str_eq(method, "resources/list") || str_eq(method, "resources/templates/list")
            || str_eq(method, "resources/read") {
            Feature::Resources
        } else if str_eq(method, "resources/subscribe") || str_eq(method, "resources/unsubscribe") {
            Feature::ResourceSubscriptions
        } else if str_eq(method, "prompts/list") || str_eq(method, "prompts/get") {
            Feature::Prompts
        } else if str_eq(method, "tools/list") || str_eq(method, "tools/call") {
            Feature::Tools
        } else if str_eq(method, "logging/setLevel") {
            Feature::Logging
        } else if str_eq(method, "completion/complete") {
            Feature::Completions
        } else {
            Feature::Ungated
        }
    }
}

/// An operation of the client, with its arguments.
#[derive(Debug, Clone, PartialEq)]
pub enum Call {
    ListResources,
    ListResourceTemplates,
    ReadResource { uri: String },
    SubscribeResource { uri: String },
    UnsubscribeResource { uri: String },
    ListPrompts,
    GetPrompt { name: String, arguments: Option<Vec<(String, String)>> },
    ListTools,
    CallTool { name: String, arguments: Option<Json> },
    SetLoggingLevel { level: LoggingLevel },
    GetCompletions {
        reference_type: CompletionReferenceType,
        reference_name: String,
        argument_name: String,
        argument_value: String,
    },
    ListRoots,
    Ping,
}

/// The parameters object `{"uri": uri}`.
pub open spec fn uri_params(uri: Seq<char>) -> JsonValue {
    JsonValue::Object(Seq::empty().push(("uri"@, JsonValue::Str(uri))))
}

/// The parameters object `{"name": name}`, with `arguments` when given.
pub open spec fn named_params(name: Seq<char>, arguments: Option<JsonValue>) -> JsonValue {
    JsonValue::Object(
        push_opt(Seq::empty().push(("name"@, JsonValue::Str(name))), "arguments"@, arguments),
    )
}

/// The reference object of a completion request.
pub open spec fn reference_value(kind: CompletionReferenceType, name: Seq<char>) -> JsonValue {
    match kind {
        CompletionReferenceType::Prompt => JsonValue::Object(
            Seq::empty().push(("type"@, JsonValue::Str("ref/prompt"@))).push(
                ("name"@, JsonValue::Str(name)),
            ),
        ),
        CompletionReferenceType::Resource => JsonValue::Object(
            Seq::empty().push(("type"@, JsonValue::Str("ref/resource"@))).push(
                ("uri"@, JsonValue::Str(name)),
            ),
        ),
    }
}

/// The parameters object of a completion request.
pub open spec fn completion_params(
    kind: CompletionReferenceType,
    reference_name: Seq<char>,
    argument_name: Seq<char>,
    argument_value: Seq<char>,
) -> JsonValue {
    JsonValue::Object(
        Seq::empty().push(("ref"@, reference_value(kind, reference_name))).push(
            (
                "argument"@,
                JsonValue::Object(
                    Seq::empty().push(("name"@, JsonValue::Str(argument_name))).push(
                        ("value"@, JsonValue::Str(argument_value)),
                    ),
                ),
            ),
        ),
    )
}

impl Call {
    /// The method that the operation calls.
    pub open spec fn method_name(&self) -> Seq<char> {
        match self {
            Call::ListResources => "resources/list"@,
            Call::ListResourceTemplates => "resources/templates/list"@,
            Call::ReadResource { .. } => "resources/read"@,
            Call::SubscribeResource { .. } => "resources/subscribe"@,
            Call::UnsubscribeResource { .. } => "resources/unsubscribe"@,
            Call::ListPrompts => "prompts/list"@,
            Call::GetPrompt { .. } => "prompts/get"@,
            Call::ListTools => "tools/list"@,
            Call::CallTool { .. } => "tools/call"@,
            Call::SetLoggingLevel { .. } => "logging/setLevel"@,
            Call::GetCompletions { .. } => "completion/complete"@,
            Call::ListRoots => "roots/list"@,
            Call::Ping => "ping"@,
        }
    }

    /// The feature that gates the operation.
    pub open spec fn gate(&self) -> Feature {
        match self {
            Call::ListResources => Feature::Resources,
            Call::ListResourceTemplates => Feature::Resources,
            Call::ReadResource { .. } => Feature::Resources,
            Call::SubscribeResource { .. } => Feature::ResourceSubscriptions,
            Call::UnsubscribeResource { .. } => Feature::ResourceSubscriptions,
            Call::ListPrompts => Feature::Prompts,
            Call::GetPrompt { .. } => Feature::Prompts,
            Call::ListTools => Feature::Tools,
            Call::CallTool { .. } => Feature::Tools,
            Call::SetLoggingLevel { .. } => Feature::Logging,
            Call::GetCompletions { .. } => Feature::Completions,
            Call::ListRoots => Feature::Ungated,
            Call::Ping => Feature::Ungated,
        }
    }

    /// The parameters that the operation sends.
    pub open spec fn params_value(&self) -> Option<JsonValue> {
        match self {
            Call::ReadResource { uri } => Some(uri_params(uri@)),
            Call::SubscribeResource { uri } => Some(uri_params(uri@)),
            Call::UnsubscribeResource { uri } => Some(uri_params(uri@)),
            Call::GetPrompt { name, arguments } => Some(
                named_params(
                    name@,
                    match arguments {
                        Some(pairs) => Some(string_map_value(pairs@)),
                        None => None,
                    },
                ),
            ),
            Call::CallTool { name, arguments } => Some(named_params(name@, opt_view(*arguments))),
            Call::SetLoggingLevel { level } => Some(
                JsonValue::Object(Seq::empty().push(("level"@, JsonValue::Str(level.name())))),
            ),
            Call::GetCompletions {
                reference_type,
                reference_name,
                argument_name,
                argument_value,
            } => Some(
                completion_params(
                    *reference_type,
                    reference_name@,
                    argument_name@,
                    argument_value@,
                ),
            ),
            _ => None,
        }
    }

    /// The request that the operation sends under the given id.
    pub open spec fn request(&self, id: IdView) -> RequestView {
        RequestView {
            jsonrpc: "2.0"@,
            id,
            method: self.method_name(),
            params: self.params_value(),
        }
    }

    /// The method that the operation calls.
    pub fn method(&self) -> (s: &'static str)
        ensures
            s@ == self.method_name(),
    {
        match self {
            Call::ListResources => "resources/list",
            Call::ListResourceTemplates => "resources/templates/list",
            Call::ReadResource { .. } => "resources/read",
            Call::SubscribeResource { .. } => "resources/subscribe",
            Call::UnsubscribeResource { .. } => "resources/unsubscribe",
            Call::ListPrompts => "prompts/list",
            Call::GetPrompt { .. } => "prompts/get",
            Call::ListTools => "tools/list",
            Call::CallTool { .. } => "tools/call",
            Call::SetLoggingLevel { .. } => "logging/setLevel",
            Call::GetCompletions { .. } => "completion/complete",
            Call::ListRoots => "roots/list",
            Call::Ping => "ping",
        }
    }

    /// The feature that gates the operation.
    pub fn feature(&self) -> (f: Feature)
        ensures
            f == self.gate(),
    {
        match self {
            Call::ListResources => Feature::Resources,
            Call::ListResourceTemplates => Feature::Resources,
            Call::ReadResource { .. } => Feature::Resources,
            Call::SubscribeResource { .. } => Feature::ResourceSubscriptions,
            Call::UnsubscribeResource { .. } => Feature::ResourceSubscriptions,
            Call::ListPrompts => Feature::Prompts,
            Call::GetPrompt { .. } => Feature::Prompts,
            Call::ListTools => Feature::Tools,
            Call::CallTool { .. } => Feature::Tools,
            Call::SetLoggingLevel { .. } => Feature::Logging,
            Call::GetCompletions { .. } => Feature::Completions,
            Call::ListRoots => Feature::Ungated,
            Call::Ping => Feature::Ungated,
        }
    }

    /// The parameters that the operation sends.
    pub fn params(&self) -> (p: Option<Json>)
        ensures
            opt_view(p) == self.params_value(),
    {
        match self {
            Call::ReadResource { uri } => Some(uri_object(uri.as_str())),
            Call::SubscribeResource { uri } => Some(uri_object(uri.as_str())),
            Call::UnsubscribeResource { uri } => Some(uri_object(uri.as_str())),
            Call::GetPrompt { name, arguments } => {
                let arguments = match arguments {
                    Some(pairs) => Some(string_map_to_json(pairs)),
                    None => None,
                };
                Some(named_object(name.as_str(), arguments))
            },
            Call::CallTool { name, arguments } => Some(
                named_object(name.as_str(), duplicate_opt(arguments)),
            ),
            Call::SetLoggingLevel { level } => {
                let mut members: Vec<(String, Json)> = Vec::new();
                assert(members_view(members@) =~= Seq::empty());
                put_str(&mut members, "level", level.as_str());
                Some(Json::object(members))
            },
            Call::GetCompletions {
                reference_type,
                reference_name,
                argument_name,
                argument_value,
            } => {
                let mut reference: Vec<(String, Json)> = Vec::new();
                assert(members_view(reference@) =~= Seq::empty());
                match reference_type {
                    CompletionReferenceType::Prompt => {
                        put_str(&mut reference, "type", "ref/prompt");
                        put_str(&mut reference, "name", reference_name.as_str());
                    },
                    CompletionReferenceType::Resource => {
                        put_str(&mut reference, "type", "ref/resource");
                        put_str(&mut reference, "uri", reference_name.as_str());
                    },
                }
                let mut argument: Vec<(String, Json)> = Vec::new();
                assert(members_view(argument@) =~= Seq::empty());
                put_str(&mut argument, "name", argument_name.as_str());
                put_str(&mut argument, "value", argument_value.as_str());
                let mut members: Vec<(String, Json)> = Vec::new();
                assert(members_view(members@) =~= Seq::empty());
                put(&mut members, "ref", Json::object(reference));
                put(&mut members, "argument", Json::object(argument));
                Some(Json::object(members))
            },
            _ => None,
        }
    }

    /// Builds the request that the operation sends under the given id.
    pub fn to_request(&self, id: RequestId) -> (r: JSONRPCRequest)
        ensures
            r@ == self.request(id@),
    {
        JSONRPCRequest::new(id, self.method(), self.params())
    }
}

/// Builds the parameters object `{"uri": uri}`.
fn uri_object(uri: &str) -> (j: Json)
    ensures
        j@ == uri_params(uri@),
{
    let mut members: Vec<(String, Json)> = Vec::new();
    assert(members_view(members@) =~= Seq::empty());
    put_str(&mut members, "uri", uri);
    Json::object(members)
}

/// Builds the parameters object `{"name": name}`, with `arguments` when
/// given.
fn named_object(name: &str, arguments: Option<Json>) -> (j: Json)
    ensures
        j@ == named_params(name@, opt_view(arguments)),
{
    let mut members: Vec<(String, Json)> = Vec::new();
    assert(members_view(members@) =~= Seq::empty());
    put_str(&mut members, "name", name);
    put_opt(&mut members, "arguments", arguments);
    Json::object(members)
}

/// Every operation is gated by the feature that gates its method.
pub proof fn lemma_gate_of_method(call: Call)
    ensures
        Feature::of_method(call.method_name()) == call.gate(),
{
    reveal_strlit("resources/list");
    reveal_strlit("resources/templates/list");
    reveal_strlit("resources/read");
    reveal_strlit("resources/subscribe");
    reveal_strlit("resources/unsubscribe");
    reveal_strlit("prompts/list");
    reveal_strlit("prompts/get");
    reveal_strlit("tools/list");
    reveal_strlit("tools/call");
    reveal_strlit("logging/setLevel");
    reveal_strlit("completion/complete");
    reveal_strlit("roots/list");
    reveal_strlit("ping");
    assert("resources/list"@.len() == 14 && "resources/templates/list"@.len() == 24
        && "resources/read"@.len() == 14 && "resources/subscribe"@.len() == 19
        && "resources/unsubscribe"@.len() == 21 && "prompts/list"@.len() == 12
        && "prompts/get"@.len() == 11 && "tools/list"@.len() == 10 && "tools/call"@.len() == 10
        && "logging/setLevel"@.len() == 16 && "completion/complete"@.len() == 19
        && "roots/list"@.len() == 10 && "ping"@.len() == 4);
    assert("resources/list"@[10] == 'l' && "resources/read"@[10] == 'r');
    assert("tools/list"@[0] == 't' && "roots/list"@[0] == 'r' && "tools/call"@[6] == 'c'
        && "tools/list"@[6] == 'l');
    assert("resources/subscribe"@[0] == 'r' && "completion/complete"@[0] == 'c');
}

} // verus!
