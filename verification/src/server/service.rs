//! Server service interface for implementing MCP services.
//!
//! The server engine hands every validated request to one handler, as a
//! [`ServiceRequest`], and turns what the handler answers into the reply.

pub use crate::client::CompletionReferenceType;
pub use crate::protocol::resources::ResourceContent;

use crate::error::Error;
use crate::json::{
    Json, JsonValue, members_view, Number, opt_chars, opt_view, push_opt, put_opt_str,
};
use crate::protocol::{IdView, Implementation, ProgressToken, RequestId};
use crate::protocol::completion::{CompleteResult, CompleteResultView};
use crate::protocol::json_rpc::{
    ErrorInfoView, ErrorView, JSONRPCError, JSONRPCMessage, JSONRPCResponse, MessageView,
    ResponseView,
};
use crate::protocol::json_rpc::error_codes::INTERNAL_ERROR;
use crate::protocol::logging::LoggingLevel;
use crate::protocol::prompts::{Prompt, PromptMessage, PromptMessageView, PromptView};
use crate::protocol::resources::{
    Resource, ResourceContentView, ResourceTemplate, ResourceTemplateView, ResourceView,
};
use crate::protocol::roots::{Root, RootView};
use crate::protocol::tools::{CallToolResult, CallToolResultView, Tool, ToolView};
use crate::protocol::wire::{encode_list, put_list, views, Wire};
use crate::server::{ClientCapabilities, ServerOptions};
use vstd::prelude::*;

verus! {

/// Service request types.
#[derive(Debug, Clone, PartialEq)]
pub enum ServiceRequest {
    /// List resources.
    ListResources {
        /// Pagination cursor.
        cursor: Option<String>,
    },
    /// List resource templates.
    ListResourceTemplates {
        /// Pagination cursor.
        cursor: Option<String>,
    },
    /// Read a resource.
    ReadResource {
        /// Resource URI.
        uri: String,
    },
    /// Subscribe to a resource.
    SubscribeResource {
        /// Resource URI.
        uri: String,
    },
    /// Unsubscribe from a resource.
    UnsubscribeResource {
        /// Resource URI.
        uri: String,
    },
    /// List prompts.
    ListPrompts {
        /// Pagination cursor.
        cursor: Option<String>,
    },
    /// Get a prompt.
    GetPrompt {
        /// Prompt name.
        name: String,
        /// Prompt arguments, by name.
        arguments: Option<Vec<(String, String)>>,
    },
    /// List tools.
    ListTools {
        /// Pagination cursor.
        cursor: Option<String>,
    },
    /// Call a tool.
    CallTool {
        /// Tool name.
        name: String,
        /// Tool arguments.
        arguments: Option<Json>,
    },
    /// Set logging level.
    SetLoggingLevel {
        /// Logging level.
        level: LoggingLevel,
    },
    /// Get completions.
    GetCompletions {
        /// Reference type.
        reference_type: CompletionReferenceType,
        /// Reference name or URI.
        reference_name: String,
        /// Argument name.
        argument_name: String,
        /// Argument value.
        argument_value: String,
    },
    /// List roots.
    ListRoots,
}

/// The texts of a list of name and value pairs.
pub open spec fn pair_texts(pairs: Seq<(String, String)>) -> Seq<(Seq<char>, Seq<char>)> {
    Seq::new(pairs.len(), |i: int| (pairs[i].0@, pairs[i].1@))
}

/// The mathematical value of a [`ServiceRequest`].
pub enum ServiceRequestView {
    ListResources { cursor: Option<Seq<char>> },
    ListResourceTemplates { cursor: Option<Seq<char>> },
    ReadResource { uri: Seq<char> },
    SubscribeResource { uri: Seq<char> },
    UnsubscribeResource { uri: Seq<char> },
    ListPrompts { cursor: Option<Seq<char>> },
    GetPrompt { name: Seq<char>, arguments: Option<Seq<(Seq<char>, Seq<char>)>> },
    ListTools { cursor: Option<Seq<char>> },
    CallTool { name: Seq<char>, arguments: Option<JsonValue> },
    SetLoggingLevel { level: LoggingLevel },
    GetCompletions {
        reference_type: CompletionReferenceType,
        reference_name: Seq<char>,
        argument_name: Seq<char>,
        argument_value: Seq<char>,
    },
    ListRoots,
}

impl View for ServiceRequest {
    type V = ServiceRequestView;

    open spec fn view(&self) -> ServiceRequestView {
        match self {
            ServiceRequest::ListResources { cursor } => ServiceRequestView::ListResources {
                cursor: opt_chars(*cursor),
            },
            ServiceRequest::ListResourceTemplates {
                cursor,
            } => ServiceRequestView::ListResourceTemplates { cursor: opt_chars(*cursor) },
            ServiceRequest::ReadResource { uri } => ServiceRequestView::ReadResource { uri: uri@ },
            ServiceRequest::SubscribeResource { uri } => ServiceRequestView::SubscribeResource {
                uri: uri@,
            },
            ServiceRequest::UnsubscribeResource {
                uri,
            } => ServiceRequestView::UnsubscribeResource { uri: uri@ },
            ServiceRequest::ListPrompts { cursor } => ServiceRequestView::ListPrompts {
                cursor: opt_chars(*cursor),
            },
            ServiceRequest::GetPrompt { name, arguments } => ServiceRequestView::GetPrompt {
                name: name@,
                arguments: match arguments {
                    Some(pairs) => Some(pair_texts(pairs@)),
                    None => None,
                },
            },
            ServiceRequest::ListTools { cursor } => ServiceRequestView::ListTools {
                cursor: opt_chars(*cursor),
            },
            ServiceRequest::CallTool { name, arguments } => ServiceRequestView::CallTool {
                name: name@,
                arguments: opt_view(*arguments),
            },
            ServiceRequest::SetLoggingLevel { level } => ServiceRequestView::SetLoggingLevel {
                level: *level,
            },
            ServiceRequest::GetCompletions {
                reference_type,
                reference_name,
                argument_name,
                argument_value,
            } => ServiceRequestView::GetCompletions {
                reference_type: *reference_type,
                reference_name: reference_name@,
                argument_name: argument_name@,
                argument_value: argument_value@,
            },
            ServiceRequest::ListRoots => ServiceRequestView::ListRoots,
        }
    }
}

/// Service response types.
#[derive(Debug, Clone, PartialEq)]
pub enum ServiceResponse {
    /// List resources response.
    ListResources {
        /// Resources.
        resources: Vec<Resource>,
        /// Next pagination cursor.
        next_cursor: Option<String>,
    },
    /// List resource templates response.
    ListResourceTemplates {
        /// Resource templates.
        templates: Vec<ResourceTemplate>,
        /// Next pagination cursor.
        next_cursor: Option<String>,
    },
    /// Read resource response.
    ReadResource {
        /// Resource contents.
        contents: Vec<ResourceContent>,
    },
    /// Subscribe resource response.
    SubscribeResource,
    /// Unsubscribe resource response.
    UnsubscribeResource,
    /// List prompts response.
    ListPrompts {
        /// Prompts.
        prompts: Vec<Prompt>,
        /// Next pagination cursor.
        next_cursor: Option<String>,
    },
    /// Get prompt response.
    GetPrompt {
        /// Prompt messages.
        messages: Vec<PromptMessage>,
        /// Prompt description.
        description: Option<String>,
    },
    /// List tools response.
    ListTools {
        /// Tools.
        tools: Vec<Tool>,
        /// Next pagination cursor.
        next_cursor: Option<String>,
    },
    /// Call tool response.
    CallTool {
        /// Tool call result.
        result: CallToolResult,
    },
    /// Set logging level response.
    SetLoggingLevel,
    /// Get completions response.
    GetCompletions {
        /// Completion result.
        result: CompleteResult,
    },
    /// List roots response.
    ListRoots {
        /// Roots.
        roots: Vec<Root>,
    },
}

/// The mathematical value of a [`ServiceResponse`].
pub enum ServiceResponseView {
    ListResources { resources: Seq<ResourceView>, next_cursor: Option<Seq<char>> },
    ListResourceTemplates { templates: Seq<ResourceTemplateView>, next_cursor: Option<Seq<char>> },
    ReadResource { contents: Seq<ResourceContentView> },
    SubscribeResource,
    UnsubscribeResource,
    ListPrompts { prompts: Seq<PromptView>, next_cursor: Option<Seq<char>> },
    GetPrompt { messages: Seq<PromptMessageView>, description: Option<Seq<char>> },
    ListTools { tools: Seq<ToolView>, next_cursor: Option<Seq<char>> },
    CallTool { result: CallToolResultView },
    SetLoggingLevel,
    GetCompletions { result: CompleteResultView },
    ListRoots { roots: Seq<RootView> },
}

impl View for ServiceResponse {
    type V = ServiceResponseView;

    open spec fn view(&self) -> ServiceResponseView {
        match self {
            ServiceResponse::ListResources {
                resources,
                next_cursor,
            } => ServiceResponseView::ListResources {
                resources: views(resources@),
                next_cursor: opt_chars(*next_cursor),
            },
            ServiceResponse::ListResourceTemplates {
                templates,
                next_cursor,
            } => ServiceResponseView::ListResourceTemplates {
                templates: views(templates@),
                next_cursor: opt_chars(*next_cursor),
            },
            ServiceResponse::ReadResource { contents } => ServiceResponseView::ReadResource {
                contents: views(contents@),
            },
            ServiceResponse::SubscribeResource => ServiceResponseView::SubscribeResource,
            ServiceResponse::UnsubscribeResource => ServiceResponseView::UnsubscribeResource,
            ServiceResponse::ListPrompts { prompts, next_cursor } => ServiceResponseView::ListPrompts {
                prompts: views(prompts@),
                next_cursor: opt_chars(*next_cursor),
            },
            ServiceResponse::GetPrompt { messages, description } => ServiceResponseView::GetPrompt {
                messages: views(messages@),
                description: opt_chars(*description),
            },
            ServiceResponse::ListTools { tools, next_cursor } => ServiceResponseView::ListTools {
                tools: views(tools@),
                next_cursor: opt_chars(*next_cursor),
            },
            ServiceResponse::CallTool { result } => ServiceResponseView::CallTool {
                result: result@,
            },
            ServiceResponse::SetLoggingLevel => ServiceResponseView::SetLoggingLevel,
            ServiceResponse::GetCompletions { result } => ServiceResponseView::GetCompletions {
                result: result@,
            },
            ServiceResponse::ListRoots { roots } => ServiceResponseView::ListRoots {
                roots: views(roots@),
            },
        }
    }
}

/// Context for a service request.
#[derive(Debug, Clone, PartialEq)]
pub struct ServiceContext {
    /// Client ID.
    pub client_id: String,
    /// Is the client initialized?
    pub initialized: bool,
    /// Client implementation info (available after initialization).
    pub client_info: Option<Implementation>,
    /// Client protocol version (available after initialization).
    pub protocol_version: Option<String>,
    /// Client capabilities (available after initialization).
    pub capabilities: Option<ClientCapabilities>,
    /// Server options.
    pub server_options: ServerOptions,
}

/// Server service interface: what the application supplies. Nothing is
/// assumed of an implementation; the engine is verified for whatever it
/// answers. Every hook but `handle_request` does nothing unless it is
/// overridden.
pub trait ServerService {
    /// Handle a service request.
    fn handle_request(&self, context: ServiceContext, request: ServiceRequest) -> Result<
        ServiceResponse,
        Error,
    >;

    /// Notification that a client has connected.
    fn client_connected(
        &self,
        client_id: String,
        client_info: Implementation,
        protocol_version: String,
        capabilities: ClientCapabilities,
    ) -> Result<(), Error> {
        Ok(())
    }

    /// Notification that a client has disconnected.
    fn client_disconnected(&self, client_id: String, reason: String) -> Result<(), Error> {
        Ok(())
    }

    /// Notification that a client's roots list has changed.
    fn roots_updated(&self, client_id: String) -> Result<(), Error> {
        Ok(())
    }

    /// Notification that a client has cancelled a request: the service is
    /// expected to stop producing a response for it.
    fn request_cancelled(
        &self,
        client_id: String,
        request_id: RequestId,
        reason: Option<String>,
    ) -> Result<(), Error> {
        Ok(())
    }

    /// Notification that a client reports progress.
    fn progress_reported(
        &self,
        client_id: String,
        token: ProgressToken,
        progress: Number,
        total: Option<Number>,
        message: Option<String>,
    ) -> Result<(), Error> {
        Ok(())
    }
}

/// A page of a list: the items under `key`, with `nextCursor` when there is
/// another page.
pub open spec fn page(
    key: Seq<char>,
    items: JsonValue,
    next_cursor: Option<Seq<char>>,
) -> JsonValue {
    JsonValue::Object(
        push_opt(
            Seq::empty().push((key, items)),
            "nextCursor"@,
            match next_cursor {
                Some(c) => Some(JsonValue::Str(c)),
                None => None,
            },
        ),
    )
}

/// The result that answers `request` with `response`; `None` when the
/// response is of another operation than the request.
pub open spec fn result_value(request: ServiceRequestView, response: ServiceResponseView) -> Option<
    JsonValue,
> {
    match (request, response) {
        (
            ServiceRequestView::ListResources { .. },
            ServiceResponseView::ListResources { resources, next_cursor },
        ) => Some(page("resources"@, encode_list::<Resource>(resources), next_cursor)),
        (
            ServiceRequestView::ListResourceTemplates { .. },
            ServiceResponseView::ListResourceTemplates { templates, next_cursor },
        ) => Some(
            page("resourceTemplates"@, encode_list::<ResourceTemplate>(templates), next_cursor),
        ),
        (
            ServiceRequestView::ReadResource { .. },
            ServiceResponseView::ReadResource { contents },
        ) => Some(page("contents"@, encode_list::<ResourceContent>(contents), None)),
        (
            ServiceRequestView::SubscribeResource { .. },
            ServiceResponseView::SubscribeResource,
        ) => Some(JsonValue::empty_object()),
        (
            ServiceRequestView::UnsubscribeResource { .. },
            ServiceResponseView::UnsubscribeResource,
        ) => Some(JsonValue::empty_object()),
        (
            ServiceRequestView::ListPrompts { .. },
            ServiceResponseView::ListPrompts { prompts, next_cursor },
        ) => Some(page("prompts"@, encode_list::<Prompt>(prompts), next_cursor)),
        (
            ServiceRequestView::GetPrompt { .. },
            ServiceResponseView::GetPrompt { messages, description },
        ) => Some(
            JsonValue::Object(
                push_opt(
                    Seq::empty(),
                    "description"@,
                    match description {
                        Some(d) => Some(JsonValue::Str(d)),
                        None => None,
                    },
                ).push(("messages"@, encode_list::<PromptMessage>(messages))),
            ),
        ),
        (
            ServiceRequestView::ListTools { .. },
            ServiceResponseView::ListTools { tools, next_cursor },
        ) => Some(page("tools"@, encode_list::<Tool>(tools), next_cursor)),
        (ServiceRequestView::CallTool { .. }, ServiceResponseView::CallTool { result }) => Some(
            CallToolResult::encode(result),
        ),
        (
            ServiceRequestView::SetLoggingLevel { .. },
            ServiceResponseView::SetLoggingLevel,
        ) => Some(JsonValue::empty_object()),
        (
            ServiceRequestView::GetCompletions { .. },
            ServiceResponseView::GetCompletions { result },
        ) => Some(CompleteResult::encode(result)),
        (ServiceRequestView::ListRoots, ServiceResponseView::ListRoots { roots }) => Some(
            page("roots"@, encode_list::<Root>(roots), None),
        ),
        _ => None,
    }
}

/// The error response that reports an error of the handler: the error's own
/// code, message and data when it is a `ServerError`, else the code of an
/// internal error with the error's message.
pub open spec fn failure(id: IdView, e: Error) -> MessageView {
    MessageView::Error(
        ErrorView {
            jsonrpc: "2.0"@,
            id,
            error: match e {
                Error::ServerError(code, message, data) => ErrorInfoView {
                    code,
                    message: message@,
                    data: opt_view(data),
                },
                _ => ErrorInfoView { code: INTERNAL_ERROR, message: e.detail(), data: None },
            },
        },
    )
}

/// The error response for a handler that answered another operation than
/// the one asked.
pub open spec fn mismatch(id: IdView) -> MessageView {
    MessageView::Error(
        ErrorView {
            jsonrpc: "2.0"@,
            id,
            error: ErrorInfoView {
                code: INTERNAL_ERROR,
                message: "Service answered another request"@,
                data: None,
            },
        },
    )
}

/// The reply to the request `id` that was handed to the handler as
/// `request`, given what the handler answered.
pub open spec fn reply_to(
    id: IdView,
    request: ServiceRequestView,
    outcome: Result<ServiceResponse, Error>,
) -> MessageView {
    match outcome {
        Ok(response) => match result_value(request, response@) {
            Some(result) => MessageView::Response(ResponseView { jsonrpc: "2.0"@, id, result }),
            None => mismatch(id),
        },
        Err(e) => failure(id, e),
    }
}

/// Builds a page of a list.
fn page_of<T: Wire>(key: &str, items: &Vec<T>, next_cursor: &Option<String>) -> (j: Json)
    ensures
        j@ == page(key@, encode_list::<T>(views(items@)), opt_chars(*next_cursor)),
{
    let mut members: Vec<(String, Json)> = Vec::new();
    assert(members_view(members@) =~= Seq::empty());
    put_list(&mut members, key, items);
    put_opt_str(&mut members, "nextCursor", next_cursor);
    Json::object(members)
}

/// Builds the result that answers `request` with `response`.
pub fn result_of(request: &ServiceRequest, response: &ServiceResponse) -> (r: Option<Json>)
    ensures
        opt_view(r) == result_value(request@, response@),
{
    match (request, response) {
        (
            ServiceRequest::ListResources { .. },
            ServiceResponse::ListResources { resources, next_cursor },
        ) => Some(page_of("resources", resources, next_cursor)),
        (
            ServiceRequest::ListResourceTemplates { .. },
            ServiceResponse::ListResourceTemplates { templates, next_cursor },
        ) => Some(page_of("resourceTemplates", templates, next_cursor)),
        (ServiceRequest::ReadResource { .. }, ServiceResponse::ReadResource { contents }) => Some(
            page_of("contents", contents, &None),
        ),
        (ServiceRequest::SubscribeResource { .. }, ServiceResponse::SubscribeResource) => Some(
            Json::empty_object(),
        ),
        (
            ServiceRequest::UnsubscribeResource { .. },
            ServiceResponse::UnsubscribeResource,
        ) => Some(Json::empty_object()),
        (
            ServiceRequest::ListPrompts { .. },
            ServiceResponse::ListPrompts { prompts, next_cursor },
        ) => Some(page_of("prompts", prompts, next_cursor)),
        (
            ServiceRequest::GetPrompt { .. },
            ServiceResponse::GetPrompt { messages, description },
        ) => {
            let mut members: Vec<(String, Json)> = Vec::new();
            assert(members_view(members@) =~= Seq::empty());
            put_opt_str(&mut members, "description", description);
            put_list(&mut members, "messages", messages);
            Some(Json::object(members))
        },
        (ServiceRequest::ListTools { .. }, ServiceResponse::ListTools { tools, next_cursor }) => Some(
            page_of("tools", tools, next_cursor),
        ),
        (ServiceRequest::CallTool { .. }, ServiceResponse::CallTool { result }) => Some(
            result.to_json(),
        ),
        (ServiceRequest::SetLoggingLevel { .. }, ServiceResponse::SetLoggingLevel) => Some(
            Json::empty_object(),
        ),
        (ServiceRequest::GetCompletions { .. }, ServiceResponse::GetCompletions { result }) => Some(
            result.to_json(),
        ),
        (ServiceRequest::ListRoots, ServiceResponse::ListRoots { roots }) => Some(
            page_of("roots", roots, &None),
        ),
        _ => None,
    }
}

/// Builds the reply to the request `id` that was handed to the handler as
/// `request`, from what the handler answered.
pub fn respond(
    id: RequestId,
    request: &ServiceRequest,
    outcome: Result<ServiceResponse, Error>,
) -> (r:
    JSONRPCMessage)
    ensures
        r@ == reply_to(id@, request@, outcome),
{
    match outcome {
        Ok(response) => match result_of(request, &response) {
            Some(result) => JSONRPCMessage::Response(JSONRPCResponse::new(id, result)),
            None => JSONRPCMessage::Error(
                JSONRPCError::new(id, INTERNAL_ERROR, "Service answered another request", None),
            ),
        },
        Err(e) => match e {
            Error::ServerError(code, message, data) => JSONRPCMessage::Error(
                JSONRPCError::new(id, code, message.as_str(), data),
            ),
            other => {
                let message = other.message();
                JSONRPCMessage::Error(JSONRPCError::new(id, INTERNAL_ERROR, message.as_str(), None))
            },
        },
    }
}

} // verus!
