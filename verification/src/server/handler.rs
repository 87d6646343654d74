//! What the server does with a message that arrives on a connection.
//!
//! [`route`] says it as a function of the server's options, the connection
//! and the message; [`handle`] computes it.

use crate::client::requests::Feature;
use crate::error::{Error, WireFault};
use crate::json::{
    duplicate_members, Json, JsonValue, members_view, Number, opt_chars, opt_view, push_opt, put,
    put_bool, put_opt_str, put_str, str_eq,
};
use crate::protocol::{
    IdView, Implementation, ImplementationView, LATEST_PROTOCOL_VERSION, ProgressToken, RequestId,
};
use crate::protocol::json_rpc::{
    ErrorInfoView, ErrorView, JSONRPCError, JSONRPCMessage, JSONRPCNotification, JSONRPCRequest,
    JSONRPCResponse, MessageView, NotificationView, RequestView, ResponseView,
};
use crate::protocol::json_rpc::error_codes::{
    INTERNAL_ERROR, INVALID_REQUEST, METHOD_NOT_FOUND, NOT_INITIALIZED,
};
use crate::protocol::logging::LoggingLevel;
use crate::protocol::wire::{member, put_value, required, Wire};
use crate::server::{
    ClientCapabilities, ClientCapabilitiesView, ServerCapabilities, ServerEvent, ServerEventView,
    ServerOptions,
};
use crate::server::service::{
    CompletionReferenceType, pair_texts, ServiceRequest, ServiceRequestView,
};
use crate::server::state::{CapabilityState, CapabilityStateView, Connection, ConnectionView};
use vstd::prelude::*;
use vstd::string::StringExecFns;

verus! {

/// What is to be done with a message that arrived on a connection.
#[derive(Debug, Clone, PartialEq)]
pub enum ServerStep {
    /// Send the reply.
    Reply { reply: JSONRPCMessage },
    /// The handshake was answered: send the reply, emit the event, and tell
    /// the service that the client has connected.
    Connected { reply: JSONRPCMessage, event: ServerEvent },
    /// Hand the request to the service; what it answers becomes the reply to
    /// `id`.
    Ask { id: RequestId, request: ServiceRequest },
    /// The client has confirmed the handshake; nothing is to be done.
    Initialized,
    /// The client cancelled a request: tell the service. No reply is sent.
    Cancelled { request_id: RequestId, reason: Option<String> },
    /// The client reports progress: tell the service.
    Progress {
        token: ProgressToken,
        progress: Number,
        total: Option<Number>,
        message: Option<String>,
    },
    /// The roots of the client changed: emit the event and tell the
    /// service.
    RootsUpdated { event: ServerEvent },
}

/// The mathematical value of a [`ServerStep`].
pub enum ServerStepView {
    Reply { reply: MessageView },
    Connected { reply: MessageView, event: ServerEventView },
    Ask { id: IdView, request: ServiceRequestView },
    Initialized,
    Cancelled { request_id: IdView, reason: Option<Seq<char>> },
    Progress {
        token: IdView,
        progress: Number,
        total: Option<Number>,
        message: Option<Seq<char>>,
    },
    RootsUpdated { event: ServerEventView },
}

impl View for ServerStep {
    type V = ServerStepView;

    open spec fn view(&self) -> ServerStepView {
        match self {
            ServerStep::Reply { reply } => ServerStepView::Reply { reply: reply@ },
            ServerStep::Connected { reply, event } => ServerStepView::Connected {
                reply: reply@,
                event: event@,
            },
            ServerStep::Ask { id, request } => ServerStepView::Ask { id: id@, request: request@ },
            ServerStep::Initialized => ServerStepView::Initialized,
            ServerStep::Cancelled { request_id, reason } => ServerStepView::Cancelled {
                request_id: request_id@,
                reason: opt_chars(*reason),
            },
            ServerStep::Progress { token, progress, total, message } => ServerStepView::Progress {
                token: token@,
                progress: *progress,
                total: *total,
                message: opt_chars(*message),
            },
            ServerStep::RootsUpdated { event } => ServerStepView::RootsUpdated { event: event@ },
        }
    }
}

/// Whether the server advertises the feature.
pub open spec fn advertised(caps: ServerCapabilities, feature: Feature) -> bool {
    match feature {
        Feature::Resources => caps.resources,
        Feature::ResourceSubscriptions => caps.resources && caps.resources_subscribe,
        Feature::Prompts => caps.prompts,
        Feature::Tools => caps.tools,
        Feature::Logging => caps.logging,
        Feature::Completions => caps.completions,
        Feature::Ungated => true,
    }
}

/// An object that holds the flag `listChanged`.
pub open spec fn list_changed(flag: bool) -> JsonValue {
    JsonValue::Object(Seq::empty().push(("listChanged"@, JsonValue::Bool(flag))))
}

/// The capabilities object of the `initialize` result: one member for each
/// feature that the server advertises, with the flags of the feature nested
/// in it.
pub open spec fn capabilities_value(caps: ServerCapabilities) -> JsonValue {
    let m = Seq::empty();
    let m = push_opt(
        m,
        "logging"@,
        if caps.logging {
            Some(JsonValue::empty_object())
        } else {
            None
        },
    );
    let m = push_opt(
        m,
        "completions"@,
        if caps.completions {
            Some(JsonValue::empty_object())
        } else {
            None
        },
    );
    let m = push_opt(
        m,
        "prompts"@,
        if caps.prompts {
            Some(list_changed(caps.prompts_list_changed))
        } else {
            None
        },
    );
    let m = push_opt(
        m,
        "resources"@,
        if caps.resources {
            Some(
                JsonValue::Object(
                    Seq::empty().push(
                        ("listChanged"@, JsonValue::Bool(caps.resources_list_changed)),
                    ).push(("subscribe"@, JsonValue::Bool(caps.resources_subscribe))),
                ),
            )
        } else {
            None
        },
    );
    let m = push_opt(
        m,
        "tools"@,
        if caps.tools {
            Some(list_changed(caps.tools_list_changed))
        } else {
            None
        },
    );
    let m = push_opt(
        m,
        "experimental"@,
        if caps.experimental@.len() > 0 {
            Some(JsonValue::Object(members_view(caps.experimental@)))
        } else {
            None
        },
    );
    JsonValue::Object(m)
}

/// The result of `initialize`: the latest protocol version, the server's
/// identity, its capabilities, and its instructions if it has any.
pub open spec fn hello_value(options: ServerOptions) -> JsonValue {
    let m = Seq::empty();
    let m = m.push(("protocolVersion"@, JsonValue::Str("2025-03-26"@)));
    let m = m.push(("serverInfo"@, Implementation::encode(options.implementation@)));
    let m = m.push(("capabilities"@, capabilities_value(options.capabilities)));
    let m = push_opt(
        m,
        "instructions"@,
        match options.instructions {
            Some(text) => Some(JsonValue::Str(text@)),
            None => None,
        },
    );
    JsonValue::Object(m)
}

/// What the handshake settles for a connection: what the client declared of
/// itself, and of the notifications of the server those that the server
/// advertises.
pub open spec fn negotiated(
    caps: ServerCapabilities,
    declared: Option<JsonValue>,
) -> CapabilityStateView {
    let client = match declared {
        Some(d) => d,
        None => JsonValue::Null,
    };
    CapabilityStateView {
        logging: caps.logging,
        sampling: client.get("sampling"@) is Some,
        roots: client.get("roots"@) is Some,
        roots_list_changed: match client.get("roots"@) {
            Some(roots) => match roots.get("listChanged"@) {
                Some(JsonValue::Bool(b)) => b,
                _ => false,
            },
            None => false,
        },
        prompts_list_changed: caps.prompts && caps.prompts_list_changed,
        resources_list_changed: caps.resources && caps.resources_list_changed,
        resources_subscribe: caps.resources && caps.resources_subscribe,
        tools_list_changed: caps.tools && caps.tools_list_changed,
        experimental: match client.get("experimental"@) {
            Some(JsonValue::Object(members)) => members,
            _ => Seq::empty(),
        },
    }
}

/// What the `initialize` request tells of the client.
pub struct GreetingView {
    pub client_info: ImplementationView,
    pub protocol_version: Seq<char>,
    pub capabilities: CapabilityStateView,
}

/// Reads the parameters of `initialize`. Missing parameters are a protocol
/// fault; a missing version or identity is a parse fault. Any version is
/// accepted.
pub open spec fn greeting(caps: ServerCapabilities, params: Option<JsonValue>) -> Result<
    GreetingView,
    WireFault,
> {
    match params {
        None => Err(WireFault::Protocol),
        Some(p) => match (p.get_str("protocolVersion"@), member::<Implementation>(p, "clientInfo"@)) {
            (Some(protocol_version), Some(client_info)) => Ok(
                GreetingView {
                    client_info,
                    protocol_version,
                    capabilities: negotiated(caps, p.get("capabilities"@)),
                },
            ),
            _ => Err(WireFault::Parse),
        },
    }
}

/// An error response.
pub open spec fn refusal(id: IdView, code: i32, message: Seq<char>) -> MessageView {
    MessageView::Error(
        ErrorView { jsonrpc: "2.0"@, id, error: ErrorInfoView { code, message, data: None } },
    )
}

/// A successful response.
pub open spec fn answer(id: IdView, result: JsonValue) -> MessageView {
    MessageView::Response(ResponseView { jsonrpc: "2.0"@, id, result })
}

/// The cursor that the parameters of a list request carry.
pub open spec fn cursor_of(params: Option<JsonValue>) -> Option<Seq<char>> {
    match params {
        Some(p) => p.get_str("cursor"@),
        None => None,
    }
}

/// The arguments of a prompt: the members of the object, each with its
/// string, or with the empty string when it holds no string.
pub open spec fn prompt_arguments(members: Seq<(Seq<char>, JsonValue)>) -> Seq<
    (Seq<char>, Seq<char>),
> {
    Seq::new(
        members.len(),
        |i: int|
            (
                members[i].0,
                match members[i].1 {
                    JsonValue::Str(s) => s,
                    _ => Seq::empty(),
                },
            ),
    )
}

/// The completion that the parameters of `completion/complete` ask for.
pub open spec fn completion_asked(p: JsonValue) -> Option<ServiceRequestView> {
    match (p.get("ref"@), p.get("argument"@)) {
        (Some(reference), Some(argument)) => match (
            reference.get_str("type"@),
            argument.get_str("name"@),
            argument.get_str("value"@),
        ) {
            (Some(kind), Some(argument_name), Some(argument_value)) => {
                if kind == "ref/prompt"@ {
                    match reference.get_str("name"@) {
                        Some(reference_name) => Some(
                            ServiceRequestView::GetCompletions {
                                reference_type: CompletionReferenceType::Prompt,
                                reference_name,
                                argument_name,
                                argument_value,
                            },
                        ),
                        None => None,
                    }
                } else if kind == "ref/resource"@ {
                    match reference.get_str("uri"@) {
                        Some(reference_name) => Some(
                            ServiceRequestView::GetCompletions {
                                reference_type: CompletionReferenceType::Resource,
                                reference_name,
                                argument_name,
                                argument_value,
                            },
                        ),
                        None => None,
                    }
                } else {
                    None
                }
            },
            _ => None,
        },
        _ => None,
    }
}

/// The operation that a request with parameters asks of the service.
pub open spec fn with_params(method: Seq<char>, p: JsonValue) -> Option<ServiceRequestView> {
    if method == "resources/read"@ {
        match p.get_str("uri"@) {
            Some(uri) => Some(ServiceRequestView::ReadResource { uri }),
            None => None,
        }
    } else if method == "resources/subscribe"@ {
        match p.get_str("uri"@) {
            Some(uri) => Some(ServiceRequestView::SubscribeResource { uri }),
            None => None,
        }
    } else if method == "resources/unsubscribe"@ {
        match p.get_str("uri"@) {
            Some(uri) => Some(ServiceRequestView::UnsubscribeResource { uri }),
            None => None,
        }
    } else if method == "prompts/get"@ {
        match p.get_str("name"@) {
            Some(name) => Some(
                ServiceRequestView::GetPrompt {
                    name,
                    arguments: match p.get("arguments"@) {
                        Some(JsonValue::Object(members)) => Some(prompt_arguments(members)),
                        _ => None,
                    },
                },
            ),
            None => None,
        }
    } else if method == "tools/call"@ {
        match p.get_str("name"@) {
            Some(name) => Some(ServiceRequestView::CallTool { name, arguments: p.get("arguments"@) }),
            None => None,
        }
    } else if method == "logging/setLevel"@ {
        match member::<LoggingLevel>(p, "level"@) {
            Some(level) => Some(ServiceRequestView::SetLoggingLevel { level }),
            None => None,
        }
    } else {
        completion_asked(p)
    }
}

/// The operation that a gated request asks of the service. The list
/// operations need no parameters; for the others missing parameters are a
/// protocol fault and a missing or ill-typed member is a parse fault.
pub open spec fn asked(method: Seq<char>, params: Option<JsonValue>) -> Result<
    ServiceRequestView,
    WireFault,
> {
    if method == "resources/list"@ {
        Ok(ServiceRequestView::ListResources { cursor: cursor_of(params) })
    } else if method == "resources/templates/list"@ {
        Ok(ServiceRequestView::ListResourceTemplates { cursor: cursor_of(params) })
    } else if method == "prompts/list"@ {
        Ok(ServiceRequestView::ListPrompts { cursor: cursor_of(params) })
    } else if method == "tools/list"@ {
        Ok(ServiceRequestView::ListTools { cursor: cursor_of(params) })
    } else {
        match params {
            None => Err(WireFault::Protocol),
            Some(p) => match with_params(method, p) {
                Some(request) => Ok(request),
                None => Err(WireFault::Parse),
            },
        }
    }
}

/// The connection after the service was asked: a subscription is recorded,
/// one that was given up is removed.
pub open spec fn after_asking(conn: ConnectionView, request: ServiceRequestView) -> ConnectionView {
    match request {
        ServiceRequestView::SubscribeResource { uri } => conn.subscribed(uri),
        ServiceRequestView::UnsubscribeResource { uri } => conn.unsubscribed(uri),
        _ => conn,
    }
}

/// What the server does with a request.
///
/// A server that is not running answers with an internal error. The
/// handshake is answered once; a second `initialize` is refused. Before the
/// client has confirmed the handshake every other request is answered with
/// "not initialized". After it, `ping` is answered at once, a method whose
/// capability the server does not advertise is answered with "method not
/// found" and never reaches the service, an advertised one is handed to the
/// service, and an unknown method is answered with "method not found".
pub open spec fn route_request(
    running: bool,
    options: ServerOptions,
    conn: ConnectionView,
    request: RequestView,
) -> Result<ServerStepView, WireFault> {
    let gate = Feature::of_method(request.method);
    if !running {
        Ok(
            ServerStepView::Reply {
                reply: refusal(request.id, INTERNAL_ERROR, "Server is not running"@),
            },
        )
    } else if request.method == "initialize"@ {
        if conn.greeted() {
            Ok(
                ServerStepView::Reply {
                    reply: refusal(request.id, INVALID_REQUEST, "Already initialized"@),
                },
            )
        } else {
            match greeting(options.capabilities, request.params) {
                Ok(g) => Ok(
                    ServerStepView::Connected {
                        reply: answer(request.id, hello_value(options)),
                        event: ServerEventView::ClientConnected {
                            client_id: conn.id,
                            client_info: g.client_info,
                            protocol_version: g.protocol_version,
                            capabilities: ClientCapabilitiesView {
                                roots: g.capabilities.roots,
                                roots_list_changed: g.capabilities.roots_list_changed,
                                sampling: g.capabilities.sampling,
                                experimental: g.capabilities.experimental,
                            },
                        },
                    },
                ),
                Err(f) => Err(f),
            }
        }
    } else if !conn.initialized {
        Ok(
            ServerStepView::Reply {
                reply: refusal(request.id, NOT_INITIALIZED, "Server not initialized"@),
            },
        )
    } else if request.method == "ping"@ {
        Ok(ServerStepView::Reply { reply: answer(request.id, JsonValue::empty_object()) })
    } else if gate is Ungated {
        Ok(
            ServerStepView::Reply {
                reply: refusal(
                    request.id,
                    METHOD_NOT_FOUND,
                    "Method not found: "@ + request.method,
                ),
            },
        )
    } else if !advertised(options.capabilities, gate) {
        Ok(
            ServerStepView::Reply {
                reply: refusal(request.id, METHOD_NOT_FOUND, gate.name() + " not supported"@),
            },
        )
    } else {
        match asked(request.method, request.params) {
            Ok(r) => Ok(ServerStepView::Ask { id: request.id, request: r }),
            Err(f) => Err(f),
        }
    }
}

/// The connection after a request.
pub open spec fn connection_after_request(
    running: bool,
    options: ServerOptions,
    conn: ConnectionView,
    request: RequestView,
) -> ConnectionView {
    match route_request(running, options, conn, request) {
        Ok(ServerStepView::Connected { event, .. }) => match greeting(
            options.capabilities,
            request.params,
        ) {
            Ok(g) => ConnectionView {
                client_info: Some(g.client_info),
                protocol_version: Some(g.protocol_version),
                capabilities: g.capabilities,
                ..conn
            },
            Err(_) => conn,
        },
        Ok(ServerStepView::Ask { request: r, .. }) => after_asking(conn, r),
        _ => conn,
    }
}

/// What the server does with a notification. `notifications/initialized`
/// is accepted once, after the handshake was answered; a roots change is
/// accepted from a client that declared such notifications; an unknown
/// notification is a protocol fault.
pub open spec fn route_notification(conn: ConnectionView, n: NotificationView) -> Result<
    ServerStepView,
    WireFault,
> {
    if n.method == "notifications/initialized"@ {
        if conn.greeted() && !conn.initialized {
            Ok(ServerStepView::Initialized)
        } else {
            Err(WireFault::Protocol)
        }
    } else if n.method == "notifications/cancelled"@ {
        match n.params {
            None => Err(WireFault::Protocol),
            Some(p) => match member::<RequestId>(p, "requestId"@) {
                Some(request_id) => Ok(
                    ServerStepView::Cancelled { request_id, reason: p.get_str("reason"@) },
                ),
                None => Err(WireFault::Parse),
            },
        }
    } else if n.method == "notifications/progress"@ {
        match n.params {
            None => Err(WireFault::Protocol),
            Some(p) => match (member::<ProgressToken>(p, "progressToken"@), p.get("progress"@)) {
                (Some(token), Some(JsonValue::Number(progress))) => Ok(
                    ServerStepView::Progress {
                        token,
                        progress,
                        total: match p.get("total"@) {
                            Some(JsonValue::Number(total)) => Some(total),
                            _ => None,
                        },
                        message: p.get_str("message"@),
                    },
                ),
                _ => Err(WireFault::Parse),
            },
        }
    } else if n.method == "notifications/roots/list_changed"@ {
        if conn.capabilities.roots_list_changed {
            Ok(
                ServerStepView::RootsUpdated {
                    event: ServerEventView::RootsUpdated { client_id: conn.id },
                },
            )
        } else {
            Err(WireFault::Protocol)
        }
    } else {
        Err(WireFault::Protocol)
    }
}

/// What the server does with a message that arrives on a connection: a
/// request and a notification are routed; anything else is a protocol
/// fault.
pub open spec fn route(
    running: bool,
    options: ServerOptions,
    conn: ConnectionView,
    m: MessageView,
) -> Result<ServerStepView, WireFault> {
    match m {
        MessageView::Request(r) => route_request(running, options, conn, r),
        MessageView::Notification(n) => route_notification(conn, n),
        _ => Err(WireFault::Protocol),
    }
}

/// The connection after a message has arrived on it.
pub open spec fn connection_after(
    running: bool,
    options: ServerOptions,
    conn: ConnectionView,
    m: MessageView,
) -> ConnectionView {
    match m {
        MessageView::Request(r) => connection_after_request(running, options, conn, r),
        MessageView::Notification(n) => match route_notification(conn, n) {
            Ok(ServerStepView::Initialized) => ConnectionView { initialized: true, ..conn },
            _ => conn,
        },
        _ => conn,
    }
}

/// A request reaches the service only on a running server, over a
/// connection whose client has confirmed the handshake, and for a method
/// whose capability the server advertises.
pub proof fn lemma_asked_only_when_advertised(
    running: bool,
    options: ServerOptions,
    conn: ConnectionView,
    request: RequestView,
)
    requires
        route_request(running, options, conn, request) is Ok,
        route_request(running, options, conn, request)->Ok_0 is Ask,
    ensures
        running,
        conn.initialized,
        !(Feature::of_method(request.method) is Ungated),
        advertised(options.capabilities, Feature::of_method(request.method)),
{
}

/// An initialized connection was greeted before: the flag is set only by
/// `notifications/initialized`, which is accepted only after the handshake
/// was answered.
pub proof fn lemma_initialized_after_greeting(
    running: bool,
    options: ServerOptions,
    conn: ConnectionView,
    m: MessageView,
)
    requires
        conn.initialized ==> conn.greeted(),
    ensures
        connection_after(running, options, conn, m).initialized ==> connection_after(
            running,
            options,
            conn,
            m,
        ).greeted(),
{
}

/// Whether the server advertises the feature.
fn advertises(caps: &ServerCapabilities, feature: Feature) -> (r: bool)
    ensures
        r == advertised(*caps, feature),
{
    match feature {
        Feature::Resources => caps.resources,
        Feature::ResourceSubscriptions => caps.resources && caps.resources_subscribe,
        Feature::Prompts => caps.prompts,
        Feature::Tools => caps.tools,
        Feature::Logging => caps.logging,
        Feature::Completions => caps.completions,
        Feature::Ungated => true,
    }
}

/// Builds an error response.
fn refuse(id: RequestId, code: i32, message: &str) -> (r: JSONRPCMessage)
    ensures
        r@ == refusal(id@, code, message@),
{
    JSONRPCMessage::Error(JSONRPCError::new(id, code, message, None))
}

/// Builds a successful response.
fn answer_with(id: RequestId, result: Json) -> (r: JSONRPCMessage)
    ensures
        r@ == answer(id@, result@),
{
    JSONRPCMessage::Response(JSONRPCResponse::new(id, result))
}

/// Builds an object that holds the flag `listChanged`.
fn list_changed_object(flag: bool) -> (j: Json)
    ensures
        j@ == list_changed(flag),
{
    let mut members: Vec<(String, Json)> = Vec::new();
    assert(members_view(members@) =~= Seq::empty());
    put_bool(&mut members, "listChanged", flag);
    Json::object(members)
}

/// Builds the capabilities object of the `initialize` result.
pub fn capabilities_json(caps: &ServerCapabilities) -> (j: Json)
    ensures
        j@ == capabilities_value(*caps),
{
    let mut members: Vec<(String, Json)> = Vec::new();
    assert(members_view(members@) =~= Seq::empty());
    if caps.logging {
        put(&mut members, "logging", Json::empty_object());
    }
    if caps.completions {
        put(&mut members, "completions", Json::empty_object());
    }
    if caps.prompts {
        put(&mut members, "prompts", list_changed_object(caps.prompts_list_changed));
    }
    if caps.resources {
        let mut resources: Vec<(String, Json)> = Vec::new();
        assert(members_view(resources@) =~= Seq::empty());
        put_bool(&mut resources, "listChanged", caps.resources_list_changed);
        put_bool(&mut resources, "subscribe", caps.resources_subscribe);
        put(&mut members, "resources", Json::object(resources));
    }
    if caps.tools {
        put(&mut members, "tools", list_changed_object(caps.tools_list_changed));
    }
    if caps.experimental.len() > 0 {
        put(&mut members, "experimental", Json::object(duplicate_members(&caps.experimental)));
    }
    Json::object(members)
}

/// Builds the result of `initialize`.
pub fn hello(options: &ServerOptions) -> (j: Json)
    ensures
        j@ == hello_value(*options),
{
    let mut members: Vec<(String, Json)> = Vec::new();
    assert(members_view(members@) =~= Seq::empty());
    put_str(&mut members, "protocolVersion", LATEST_PROTOCOL_VERSION);
    put_value(&mut members, "serverInfo", &options.implementation);
    put(&mut members, "capabilities", capabilities_json(&options.capabilities));
    put_opt_str(&mut members, "instructions", &options.instructions);
    Json::object(members)
}

/// Settles the capabilities of a connection.
fn negotiate(caps: &ServerCapabilities, declared: Option<&Json>) -> (c: CapabilityState)
    ensures
        c@ == negotiated(
            *caps,
            match declared {
                Some(d) => Some(d@),
                None => None,
            },
        ),
{
    let null = Json::Null;
    let client = match declared {
        Some(d) => d,
        None => &null,
    };
    let roots_list_changed = match client.get("roots") {
        Some(roots) => match roots.get("listChanged") {
            Some(flag) => match flag.as_bool() {
                Some(b) => b,
                None => false,
            },
            None => false,
        },
        None => false,
    };
    let experimental = match client.get("experimental") {
        Some(e) => match e.as_object() {
            Some(members) => duplicate_members(members),
            None => Vec::new(),
        },
        None => Vec::new(),
    };
    let c = CapabilityState {
        logging: caps.logging,
        sampling: client.get("sampling").is_some(),
        roots: client.get("roots").is_some(),
        roots_list_changed,
        prompts_list_changed: caps.prompts && caps.prompts_list_changed,
        resources_list_changed: caps.resources && caps.resources_list_changed,
        resources_subscribe: caps.resources && caps.resources_subscribe,
        tools_list_changed: caps.tools && caps.tools_list_changed,
        experimental,
    };
    assert(c@.experimental =~= negotiated(
        *caps,
        match declared {
            Some(d) => Some(d@),
            None => None,
        },
    ).experimental);
    c
}

/// What the `initialize` request tells of the client.
pub struct Greeting {
    pub client_info: Implementation,
    pub protocol_version: String,
    pub capabilities: CapabilityState,
}

impl View for Greeting {
    type V = GreetingView;

    open spec fn view(&self) -> GreetingView {
        GreetingView {
            client_info: self.client_info@,
            protocol_version: self.protocol_version@,
            capabilities: self.capabilities@,
        }
    }
}

/// Reads the parameters of `initialize`.
fn greet(caps: &ServerCapabilities, params: &Option<Json>) -> (r: Result<Greeting, Error>)
    ensures
        match r {
            Ok(g) => greeting(*caps, opt_view(*params)) matches Ok(v) && v == g@,
            Err(e) => greeting(*caps, opt_view(*params)) matches Err(f)
                && e.reports(f),
        },
{
    let p = match params {
        Some(p) => p,
        None => {
            return Err(Error::protocol("Missing params in initialize request"));
        },
    };
    let protocol_version = match p.get_str("protocolVersion") {
        Some(v) => v.to_owned(),
        None => {
            return Err(Error::parse("Missing or invalid protocolVersion"));
        },
    };
    let client_info = required::<Implementation>(p, "clientInfo")?;
    let capabilities = negotiate(caps, p.get("capabilities"));
    Ok(Greeting { client_info, protocol_version, capabilities })
}

/// The cursor that the parameters of a list request carry.
fn read_cursor(params: &Option<Json>) -> (c: Option<String>)
    ensures
        opt_chars(c) == cursor_of(opt_view(*params)),
{
    match params {
        Some(p) => match p.get_str("cursor") {
            Some(c) => Some(c.to_owned()),
            None => None,
        },
        None => None,
    }
}

/// Reads the arguments of a prompt.
fn read_prompt_arguments(members: &Vec<(String, Json)>) -> (pairs: Vec<(String, String)>)
    ensures
        pair_texts(pairs@) == prompt_arguments(members_view(members@)),
{
    let mut pairs: Vec<(String, String)> = Vec::new();
    let mut i: usize = 0;
    while i < members.len()
        invariant
            i <= members.len(),
            pairs.len() == i,
            forall|k: int|
                0 <= k < i ==> (pairs@[k].0@, pairs@[k].1@) == prompt_arguments(
                    members_view(members@),
                )[k],
        decreases members.len() - i,
    {
        let value = match members[i].1.as_str() {
            Some(s) => s.to_owned(),
            None => String::new(),
        };
        pairs.push((members[i].0.clone(), value));
        i += 1;
    }
    assert(pair_texts(pairs@) =~= prompt_arguments(members_view(members@)));
    pairs
}

/// Reads the completion that the parameters of `completion/complete` ask
/// for.
fn read_completion(p: &Json) -> (r: Option<ServiceRequest>)
    ensures
        match r {
            Some(request) => completion_asked(p@) == Some(request@),
            None => completion_asked(p@) is None,
        },
{
    let reference = match p.get("ref") {
        Some(r) => r,
        None => {
            return None;
        },
    };
    let argument = match p.get("argument") {
        Some(a) => a,
        None => {
            return None;
        },
    };
    let kind = match reference.get_str("type") {
        Some(k) => k,
        None => {
            return None;
        },
    };
    let argument_name = match argument.get_str("name") {
        Some(n) => n.to_owned(),
        None => {
            return None;
        },
    };
    let argument_value = match argument.get_str("value") {
        Some(v) => v.to_owned(),
        None => {
            return None;
        },
    };
    if str_eq(kind, "ref/prompt") {
        match reference.get_str("name") {
            Some(name) => Some(
                ServiceRequest::GetCompletions {
                    reference_type: CompletionReferenceType::Prompt,
                    reference_name: name.to_owned(),
                    argument_name,
                    argument_value,
                },
            ),
            None => None,
        }
    } else if str_eq(kind, "ref/resource") {
        match reference.get_str("uri") {
            Some(uri) => Some(
                ServiceRequest::GetCompletions {
                    reference_type: CompletionReferenceType::Resource,
                    reference_name: uri.to_owned(),
                    argument_name,
                    argument_value,
                },
            ),
            None => None,
        }
    } else {
        None
    }
}

/// Reads the operation that a request with parameters asks of the service.
fn read_with_params(method: &str, p: &Json) -> (r: Option<ServiceRequest>)
    ensures
        match r {
            Some(request) => with_params(method@, p@) == Some(request@),
            None => with_params(method@, p@) is None,
        },
{
    if str_eq(method, "resources/read") {
        match p.get_str("uri") {
            Some(uri) => Some(ServiceRequest::ReadResource { uri: uri.to_owned() }),
            None => None,
        }
    } else if str_eq(method, "resources/subscribe") {
        match p.get_str("uri") {
            Some(uri) => Some(ServiceRequest::SubscribeResource { uri: uri.to_owned() }),
            None => None,
        }
    } else if str_eq(method, "resources/unsubscribe") {
        match p.get_str("uri") {
            Some(uri) => Some(ServiceRequest::UnsubscribeResource { uri: uri.to_owned() }),
            None => None,
        }
    } else if str_eq(method, "prompts/get") {
        match p.get_str("name") {
            Some(name) => {
                let arguments = match p.get("arguments") {
                    Some(a) => match a.as_object() {
                        Some(members) => Some(read_prompt_arguments(members)),
                        None => None,
                    },
                    None => None,
                };
                Some(ServiceRequest::GetPrompt { name: name.to_owned(), arguments })
            },
            None => None,
        }
    } else if str_eq(method, "tools/call") {
        match p.get_str("name") {
            Some(name) => {
                let arguments = match p.get("arguments") {
                    Some(a) => Some(a.duplicate()),
                    None => None,
                };
                Some(ServiceRequest::CallTool { name: name.to_owned(), arguments })
            },
            None => None,
        }
    } else if str_eq(method, "logging/setLevel") {
        match required::<LoggingLevel>(p, "level") {
            Ok(level) => Some(ServiceRequest::SetLoggingLevel { level }),
            Err(_) => None,
        }
    } else {
        read_completion(p)
    }
}

/// Reads the operation that a gated request asks of the service.
pub fn read_asked(method: &str, params: &Option<Json>) -> (r: Result<ServiceRequest, Error>)
    ensures
        match r {
            Ok(request) => asked(method@, opt_view(*params)) matches Ok(v) && v
                == request@,
            Err(e) => asked(method@, opt_view(*params)) matches Err(f)
                && e.reports(f),
        },
{
    if str_eq(method, "resources/list") {
        Ok(ServiceRequest::ListResources { cursor: read_cursor(params) })
    } else if str_eq(method, "resources/templates/list") {
        Ok(ServiceRequest::ListResourceTemplates { cursor: read_cursor(params) })
    } else if str_eq(method, "prompts/list") {
        Ok(ServiceRequest::ListPrompts { cursor: read_cursor(params) })
    } else if str_eq(method, "tools/list") {
        Ok(ServiceRequest::ListTools { cursor: read_cursor(params) })
    } else {
        match params {
            None => Err(Error::protocol("Missing params in request")),
            Some(p) => match read_with_params(method, p) {
                Some(request) => Ok(request),
                None => Err(Error::parse("Missing or invalid parameter")),
            },
        }
    }
}

/// Decides what to do with a request that arrived on a connection.
pub fn handle_request(
    running: bool,
    options: &ServerOptions,
    conn: &mut Connection,
    request: JSONRPCRequest,
) -> (r: Result<ServerStep, Error>)
    ensures
        final(conn)@ == connection_after_request(running, *options, old(conn)@, request@),
        match r {
            Ok(step) => route_request(running, *options, old(conn)@, request@) matches Ok(s) && s
                == step@,
            Err(e) => route_request(running, *options, old(conn)@, request@) matches Err(f)
                && e.reports(f),
        },
{
    let method = request.method.as_str();
    let gate = Feature::for_method(method);
    if !running {
        return Ok(
            ServerStep::Reply { reply: refuse(request.id, INTERNAL_ERROR, "Server is not running") },
        );
    }
    if str_eq(method, "initialize") {
        if conn.client_info.is_some() {
            return Ok(
                ServerStep::Reply {
                    reply: refuse(request.id, INVALID_REQUEST, "Already initialized"),
                },
            );
        }
        let g = greet(&options.capabilities, &request.params)?;
        let capabilities = ClientCapabilities {
            roots: g.capabilities.roots,
            roots_list_changed: g.capabilities.roots_list_changed,
            sampling: g.capabilities.sampling,
            experimental: duplicate_members(&g.capabilities.experimental),
        };
        let event = ServerEvent::ClientConnected {
            client_id: conn.id.clone(),
            client_info: g.client_info.duplicate(),
            protocol_version: g.protocol_version.clone(),
            capabilities,
        };
        conn.set_greeted(g.client_info, g.protocol_version, g.capabilities);
        return Ok(ServerStep::Connected { reply: answer_with(request.id, hello(options)), event });
    }
    if !conn.initialized {
        return Ok(
            ServerStep::Reply {
                reply: refuse(request.id, NOT_INITIALIZED, "Server not initialized"),
            },
        );
    }
    if str_eq(method, "ping") {
        return Ok(ServerStep::Reply { reply: answer_with(request.id, Json::empty_object()) });
    }
    match gate {
        Feature::Ungated => {
            let mut message = "Method not found: ".to_owned();
            message.append(method);
            return Ok(
                ServerStep::Reply {
                    reply: refuse(request.id, METHOD_NOT_FOUND, message.as_str()),
                },
            );
        },
        _ => {},
    }
    if !advertises(&options.capabilities, gate) {
        let mut message = gate.label().to_owned();
        message.append(" not supported");
        return Ok(
            ServerStep::Reply { reply: refuse(request.id, METHOD_NOT_FOUND, message.as_str()) },
        );
    }
    let asked = read_asked(method, &request.params)?;
    match &asked {
        ServiceRequest::SubscribeResource { uri } => {
            conn.subscribe_resource(uri.as_str());
        },
        ServiceRequest::UnsubscribeResource { uri } => {
            conn.unsubscribe_resource(uri.as_str());
        },
        _ => {},
    }
    Ok(ServerStep::Ask { id: request.id, request: asked })
}

/// Decides what to do with a notification that arrived on a connection.
pub fn handle_notification(conn: &mut Connection, notification: &JSONRPCNotification) -> (r: Result<
    ServerStep,
    Error,
>)
    ensures
        final(conn)@ == (match route_notification(old(conn)@, notification@) {
            Ok(ServerStepView::Initialized) => ConnectionView { initialized: true, ..old(conn)@ },
            _ => old(conn)@,
        }),
        match r {
            Ok(step) => route_notification(old(conn)@, notification@) matches Ok(s) && s == step@,
            Err(e) => route_notification(old(conn)@, notification@) matches Err(f) && e.reports(
                f,
            ),
        },
{
    let method = notification.method.as_str();
    if str_eq(method, "notifications/initialized") {
        if conn.client_info.is_some() && !conn.initialized {
            conn.initialized = true;
            Ok(ServerStep::Initialized)
        } else {
            Err(Error::protocol("Client not initialized"))
        }
    } else if str_eq(method, "notifications/cancelled") {
        let p = match &notification.params {
            Some(p) => p,
            None => {
                return Err(Error::protocol("Missing params in cancelled notification"));
            },
        };
        let request_id = required::<RequestId>(p, "requestId")?;
        let reason = match p.get_str("reason") {
            Some(reason) => Some(reason.to_owned()),
            None => None,
        };
        Ok(ServerStep::Cancelled { request_id, reason })
    } else if str_eq(method, "notifications/progress") {
        let p = match &notification.params {
            Some(p) => p,
            None => {
                return Err(Error::protocol("Missing params in progress notification"));
            },
        };
        let token = required::<ProgressToken>(p, "progressToken")?;
        let progress = match p.get("progress") {
            Some(v) => match v.as_number() {
                Some(n) => n,
                None => {
                    return Err(Error::parse("Missing or invalid progress"));
                },
            },
            None => {
                return Err(Error::parse("Missing or invalid progress"));
            },
        };
        let total = match p.get("total") {
            Some(t) => t.as_number(),
            None => None,
        };
        let message = match p.get_str("message") {
            Some(m) => Some(m.to_owned()),
            None => None,
        };
        Ok(ServerStep::Progress { token, progress, total, message })
    } else if str_eq(method, "notifications/roots/list_changed") {
        if conn.capabilities.roots_list_changed {
            Ok(
                ServerStep::RootsUpdated {
                    event: ServerEvent::RootsUpdated { client_id: conn.id.clone() },
                },
            )
        } else {
            Err(Error::protocol("Client sent roots/list_changed but doesn't support it"))
        }
    } else {
        Err(Error::protocol("Received unknown notification"))
    }
}

/// Decides what to do with a message that arrived on a connection.
pub fn handle(
    running: bool,
    options: &ServerOptions,
    conn: &mut Connection,
    message: JSONRPCMessage,
) -> (r: Result<ServerStep, Error>)
    ensures
        final(conn)@ == connection_after(running, *options, old(conn)@, message@),
        match r {
            Ok(step) => route(running, *options, old(conn)@, message@) matches Ok(s) && s
                == step@,
            Err(e) => route(running, *options, old(conn)@, message@) matches Err(f) && e.reports(
                f,
            ),
        },
{
    match message {
        JSONRPCMessage::Request(request) => handle_request(running, options, conn, request),
        JSONRPCMessage::Notification(notification) => handle_notification(conn, &notification),
        _ => Err(Error::protocol("Unsupported message type")),
    }
}


} // verus!
