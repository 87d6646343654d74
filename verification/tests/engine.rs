use mcpx::client::handler::{on_receive_error, sampling_reply, Inbound, Reception};
use mcpx::client::pending::CorrelationTable;
use mcpx::client::requests::{Call, Feature};
use mcpx::client::state::{ClientState, ConnectionState};
use mcpx::client::builder::TransportChoice;
use mcpx::client::{
    Client, ClientBuilder, ClientCapabilities, ClientEvent, ClientOptions, CompletionReferenceType,
    ServerCapabilities,
};
use mcpx::error::Error;
use mcpx::json::{Json, Number};
use mcpx::protocol::json_rpc::{
    JSONRPCError, JSONRPCMessage, JSONRPCNotification, JSONRPCRequest, JSONRPCResponse,
};
use mcpx::protocol::logging::LoggingLevel;
use mcpx::protocol::prompts::{Prompt, PromptContent, PromptMessage};
use mcpx::protocol::resources::{Resource, ResourceContent, ResourceTemplate, TextResourceContents};
use mcpx::protocol::roots::Root;
use mcpx::protocol::sampling::TextContent;
use mcpx::protocol::tools::{CallToolResult, Tool};
use mcpx::protocol::completion::CompleteResult;
use mcpx::protocol::{Implementation, ProgressToken, RequestId, Role};
use mcpx::server::handler::ServerStep;
use mcpx::server::service::{respond, ServerService, ServiceContext, ServiceRequest, ServiceResponse};
use mcpx::server::state::{CapabilityState, Connection, OperationalState, ServerState};
use mcpx::server::{Served, Server, ServerBuilder, ServerEvent, ServerOptions};

fn from_value(v: &serde_json::Value) -> Json {
    match v {
        serde_json::Value::Null => Json::Null,
        serde_json::Value::Bool(b) => Json::Bool(*b),
        serde_json::Value::Number(n) => {
            if let Some(u) = n.as_u64() {
                Json::Number(Number::PosInt(u))
            } else if let Some(i) = n.as_i64() {
                Json::Number(Number::NegInt(i))
            } else {
                Json::Number(Number::Float(n.as_f64().unwrap().to_bits()))
            }
        }
        serde_json::Value::String(s) => Json::Str(s.clone()),
        serde_json::Value::Array(items) => Json::Array(items.iter().map(from_value).collect()),
        serde_json::Value::Object(members) => {
            Json::Object(members.iter().map(|(k, v)| (k.clone(), from_value(v))).collect())
        }
    }
}

fn to_value(j: &Json) -> serde_json::Value {
    match j {
        Json::Null => serde_json::Value::Null,
        Json::Bool(b) => serde_json::Value::Bool(*b),
        Json::Number(Number::PosInt(u)) => serde_json::Value::from(*u),
        Json::Number(Number::NegInt(i)) => serde_json::Value::from(*i),
        Json::Number(Number::Float(bits)) => serde_json::Value::from(f64::from_bits(*bits)),
        Json::Str(s) => serde_json::Value::String(s.clone()),
        Json::Array(items) => serde_json::Value::Array(items.iter().map(to_value).collect()),
        Json::Object(members) => {
            let mut map = serde_json::Map::new();
            for (k, v) in members {
                map.insert(k.clone(), to_value(v));
            }
            serde_json::Value::Object(map)
        }
    }
}

fn value(text: &str) -> serde_json::Value {
    serde_json::from_str(text).unwrap()
}

fn json(text: &str) -> Json {
    from_value(&value(text))
}

fn message(text: &str) -> JSONRPCMessage {
    JSONRPCMessage::decode(&json(text)).unwrap()
}

fn wire(message: &JSONRPCMessage) -> serde_json::Value {
    to_value(&message.encode())
}

fn client_with(capabilities: &str, options: ClientOptions) -> Client {
    let mut client = Client::new(options);
    client.connect();
    client.initialize(0).unwrap();
    let hello = format!(
        r#"{{"jsonrpc":"2.0","id":"init","result":{{"protocolVersion":"2025-03-26","serverInfo":{{"name":"s","version":"1"}},"capabilities":{}}}}}"#,
        capabilities
    );
    let response = match client.handle_message(message(&hello)).unwrap() {
        Inbound::Deliver { message, .. } => message,
        other => panic!("unexpected: {:?}", other),
    };
    client.complete_initialize(response).unwrap();
    client
}

const ALL: &str = r#"{"logging":{},"completions":{},"prompts":{"listChanged":true},"resources":{"listChanged":true,"subscribe":true},"tools":{"listChanged":true},"experimental":{"x":{},"y":1}}"#;

fn response(id: &RequestId, result: &str) -> JSONRPCMessage {
    JSONRPCMessage::Response(JSONRPCResponse::new(id.clone(), json(result)))
}

#[test]
fn client_state_setters() {
    let mut state = ClientState::new();
    assert!(state.is_disconnected());
    state.set_connecting();
    assert!(state.is_connecting() && !state.is_disconnected());
    assert_eq!(state.connection_state(), ConnectionState::Connecting);
    state.set_initializing();
    assert!(state.is_initializing());
    assert!(state.connection_state().live());
    state.set_initialized();
    assert!(state.is_initialized());
    assert!(state.connection_state().live());
    state.set_disconnected();
    assert!(state.is_disconnected());
    assert!(!state.connection_state().live());
    assert!(ClientState::default().is_disconnected());
}

#[test]
fn server_state_setters() {
    let mut state = ServerState::new();
    assert!(state.is_stopped());
    state.set_starting();
    assert!(state.is_starting());
    state.set_running();
    assert!(state.is_running());
    assert_eq!(state.operational_state(), OperationalState::Running);
    state.set_stopping();
    assert!(state.is_stopping());
    state.set_stopped();
    assert!(state.is_stopped());
    assert!(ServerState::default().is_stopped());
}

#[test]
fn correlation_table() {
    let mut table = CorrelationTable::new();
    assert!(table.is_empty());
    assert_eq!(table.len(), 0);
    assert_eq!(table.register(RequestId::Integer(1), "a", 10), Ok(()));
    assert_eq!(table.register(RequestId::from_str("1"), "b", 20), Ok(()));
    assert!(matches!(table.register(RequestId::Integer(1), "c", 30), Err(Error::InternalError(_))));
    assert_eq!(table.len(), 2);
    assert!(!table.is_empty());
    assert!(table.contains(&RequestId::Integer(1)));
    assert!(!table.contains(&RequestId::Integer(2)));
    // The collision left the first slot as it was.
    let slot = table.complete(&RequestId::Integer(1)).unwrap();
    assert_eq!((slot.method.as_str(), slot.deadline), ("a", 10));
    assert_eq!(table.complete(&RequestId::Integer(1)), None);
    assert_eq!(table.cancel(&RequestId::Integer(1)), None);
    assert_eq!(table.cancel(&RequestId::from_str("1")).map(|s| s.deadline), Some(20));
    assert!(table.is_empty());
    // An id can be used again once its slot is gone.
    assert_eq!(table.register(RequestId::Integer(1), "d", 40), Ok(()));
    assert_eq!(table.register(RequestId::Integer(2), "e", 50), Ok(()));
    let mut failed = table.fail_all();
    failed.sort_by_key(|id| format!("{:?}", id));
    assert_eq!(failed, vec![RequestId::Integer(1), RequestId::Integer(2)]);
    assert!(table.is_empty());
    assert!(table.fail_all().is_empty());
}

#[test]
fn deadlines() {
    let mut options = ClientOptions::default();
    options.default_timeout_ms = 100;
    let mut client = client_with("{}", options);
    let request = client.ping(1000).unwrap();
    assert_eq!(client.cancel_request(request.id, None).pending.unwrap().deadline, 1100);
    let request = client.ping(u64::MAX - 50).unwrap();
    assert_eq!(client.cancel_request(request.id, None).pending.unwrap().deadline, u64::MAX);

    let mut options = ClientOptions::default();
    options.default_timeout_ms = 0;
    let mut client = client_with("{}", options);
    let request = client.ping(1000).unwrap();
    assert_eq!(client.cancel_request(request.id, None).pending.unwrap().deadline, u64::MAX);
    assert_eq!(ClientOptions::default().default_timeout_ms, 30000);
}

#[test]
fn server_capabilities_are_read_from_the_handshake() {
    let caps = ServerCapabilities::from_json(&json(ALL));
    assert!(caps.logging && caps.completions && caps.prompts && caps.resources && caps.tools);
    assert!(caps.prompts_list_changed && caps.resources_list_changed && caps.resources_subscribe && caps.tools_list_changed);
    assert_eq!(caps.experimental, vec!["x".to_string(), "y".to_string()]);
    assert_eq!(caps.duplicate(), caps);

    let caps = ServerCapabilities::from_json(&json(
        r#"{"logging":false,"completions":true,"prompts":null,"resources":{"listChanged":"yes"},"tools":{},"experimental":[]}"#,
    ));
    assert!(!caps.logging);
    assert!(caps.completions);
    assert!(!caps.prompts);
    assert!(caps.resources && !caps.resources_list_changed && !caps.resources_subscribe);
    assert!(caps.tools && !caps.tools_list_changed);
    assert!(caps.experimental.is_empty());

    let none = ServerCapabilities::from_json(&Json::Null);
    assert!(!none.logging && !none.tools && !none.resources && !none.prompts && !none.completions);
}

#[test]
fn every_operation_builds_its_request() {
    let mut client = client_with(ALL, ClientOptions::default());
    let check = |request: JSONRPCRequest, method: &str, params: Option<&str>| {
        assert_eq!(request.jsonrpc, "2.0");
        assert_eq!(request.method, method);
        assert!(matches!(&request.id, RequestId::String(s) if s.len() == 36), "{:?}", request.id);
        assert_eq!(request.params.as_ref().map(to_value), params.map(value));
    };
    check(client.list_resources(0).unwrap(), "resources/list", None);
    check(client.list_resource_templates(0).unwrap(), "resources/templates/list", None);
    check(client.read_resource("u", 0).unwrap(), "resources/read", Some(r#"{"uri":"u"}"#));
    check(client.subscribe_resource("u", 0).unwrap(), "resources/subscribe", Some(r#"{"uri":"u"}"#));
    check(client.unsubscribe_resource("u", 0).unwrap(), "resources/unsubscribe", Some(r#"{"uri":"u"}"#));
    check(client.list_prompts(0).unwrap(), "prompts/list", None);
    check(client.get_prompt("p", None, 0).unwrap(), "prompts/get", Some(r#"{"name":"p"}"#));
    check(
        client.get_prompt("p", Some(vec![("a".to_string(), "1".to_string())]), 0).unwrap(),
        "prompts/get",
        Some(r#"{"name":"p","arguments":{"a":"1"}}"#),
    );
    check(client.list_tools(0).unwrap(), "tools/list", None);
    check(
        client.call_tool("t", Some(json(r#"{"q":[1,2]}"#)), 0).unwrap(),
        "tools/call",
        Some(r#"{"name":"t","arguments":{"q":[1,2]}}"#),
    );
    check(
        client.set_logging_level(LoggingLevel::Error, 0).unwrap(),
        "logging/setLevel",
        Some(r#"{"level":"error"}"#),
    );
    check(
        client.get_completions(CompletionReferenceType::Prompt, "p", "a", "v", 0).unwrap(),
        "completion/complete",
        Some(r#"{"ref":{"type":"ref/prompt","name":"p"},"argument":{"name":"a","value":"v"}}"#),
    );
    check(
        client.get_completions(CompletionReferenceType::Resource, "u", "a", "v", 0).unwrap(),
        "completion/complete",
        Some(r#"{"ref":{"type":"ref/resource","uri":"u"},"argument":{"name":"a","value":"v"}}"#),
    );
    check(client.list_roots(0).unwrap(), "roots/list", None);
    check(client.ping(0).unwrap(), "ping", None);
    // Every one of them is outstanding, under an id of its own.
    let disconnection = client.disconnect("done");
    assert_eq!(disconnection.failed.len(), 15);
}

#[test]
fn issue_takes_the_id_it_is_given() {
    let mut client = client_with(ALL, ClientOptions::default());
    let request = client.issue(&Call::ListTools, RequestId::Integer(3), 0).unwrap();
    assert_eq!(request, JSONRPCRequest::new(RequestId::Integer(3), "tools/list", None));
    assert!(matches!(client.issue(&Call::Ping, RequestId::Integer(3), 0), Err(Error::InternalError(_))));
    assert_eq!(Call::Ping.feature(), Feature::Ungated);
    assert_eq!(Call::ListTools.feature(), Feature::Tools);
    assert_eq!(Feature::for_method("tools/call"), Feature::Tools);
    assert_eq!(Feature::for_method("resources/templates/list"), Feature::Resources);
    assert_eq!(Feature::for_method("resources/unsubscribe"), Feature::ResourceSubscriptions);
    assert_eq!(Feature::for_method("initialize"), Feature::Ungated);
    assert_eq!(Feature::ResourceSubscriptions.label(), "Resource subscriptions");
}

#[test]
fn a_gated_method_is_never_registered_without_its_capability() {
    let mut client = client_with(r#"{"tools":{}}"#, ClientOptions::default());
    for (i, method) in [
        "resources/list",
        "resources/templates/list",
        "resources/read",
        "resources/subscribe",
        "resources/unsubscribe",
        "prompts/list",
        "prompts/get",
        "logging/setLevel",
        "completion/complete",
    ]
    .iter()
    .enumerate()
    {
        let request = JSONRPCRequest::new(RequestId::Integer(i as i64), method, None);
        let r = client.send_request(&request, 0);
        assert!(matches!(r, Err(Error::UnsupportedFeature(_))), "{} gave {:?}", method, r);
        assert!(!client.is_pending(&request.id));
    }
    for (i, method) in ["tools/list", "tools/call", "ping", "roots/list", "custom/method"].iter().enumerate() {
        let request = JSONRPCRequest::new(RequestId::Integer(100 + i as i64), method, None);
        assert_eq!(client.send_request(&request, 0), Ok(()), "{}", method);
        assert!(client.is_pending(&request.id));
    }
    // `initialize` is for the handshake only.
    let again = JSONRPCRequest::new(RequestId::Integer(200), "initialize", None);
    assert_eq!(client.send_request(&again, 0), Err(Error::NotInitialized));
}

#[test]
fn results_are_read_into_domain_values() {
    let id = RequestId::Integer(1);
    assert_eq!(
        Client::list_resources_result(response(&id, r#"{"resources":[{"uri":"u","name":"n"}],"nextCursor":"c"}"#)),
        Ok(vec![Resource::new("u", "n")])
    );
    assert_eq!(
        Client::list_resource_templates_result(response(&id, r#"{"resourceTemplates":[{"uriTemplate":"t","name":"n"}]}"#)),
        Ok(vec![ResourceTemplate::new("t", "n")])
    );
    assert_eq!(
        Client::read_resource_result(response(&id, r#"{"contents":[{"uri":"u","text":"t"}]}"#)),
        Ok(vec![ResourceContent::Text(TextResourceContents::new("u", "t"))])
    );
    assert_eq!(
        Client::read_resource_result(response(&id, r#"{"contents":[{"uri":"u"}]}"#)),
        Err(Error::ParseError("Unknown resource content type".to_string()))
    );
    assert_eq!(
        Client::list_prompts_result(response(&id, r#"{"prompts":[{"name":"p"}]}"#)),
        Ok(vec![Prompt { name: "p".to_string(), description: None, arguments: None }])
    );
    assert_eq!(
        Client::get_prompt_result(response(&id, r#"{"messages":[{"role":"user","content":{"type":"text","text":"hi"}}]}"#)),
        Ok(vec![PromptMessage { role: Role::User, content: PromptContent::Text(TextContent::new("hi")) }])
    );
    assert_eq!(
        Client::list_tools_result(response(&id, r#"{"tools":[{"name":"t","description":"d","inputSchema":{"type":"object"}}]}"#)),
        Ok(vec![Tool::new("t", "d")])
    );
    assert_eq!(
        Client::get_completions_result(response(&id, r#"{"completion":{"values":["a","b"]}}"#)),
        Ok(CompleteResult::new(vec!["a".to_string(), "b".to_string()]))
    );
    assert_eq!(
        Client::list_roots_result(response(&id, r#"{"roots":[{"uri":"file:///a"}]}"#)),
        Ok(vec![Root::new("file:///a")])
    );
    assert_eq!(Client::empty_result(response(&id, "{}")), Ok(()));
    assert_eq!(Client::empty_result(response(&id, "null")), Ok(()));
    // A client is strict about content it does not know.
    assert!(matches!(
        Client::call_tool_result(response(&id, r#"{"content":[{"type":"video"}]}"#)),
        Err(Error::ParseError(_))
    ));
    for bad in ["{}", r#"{"resources":{}}"#, r#"{"resources":[{"uri":"u"}]}"#, "[]"] {
        assert!(matches!(Client::list_resources_result(response(&id, bad)), Err(Error::ParseError(_))), "{}", bad);
    }
    // An error response becomes a server error; anything else is a protocol error.
    let failed = JSONRPCMessage::Error(JSONRPCError::new(id.clone(), -32000, "busy", Some(json("[1]"))));
    assert_eq!(
        Client::list_tools_result(failed.clone()),
        Err(Error::ServerError(-32000, "busy".to_string(), Some(json("[1]"))))
    );
    assert_eq!(Client::empty_result(failed), Err(Error::ServerError(-32000, "busy".to_string(), Some(json("[1]")))));
    let other = JSONRPCMessage::Notification(JSONRPCNotification::new("n", None));
    assert!(matches!(Client::call_tool_result(other.clone()), Err(Error::ProtocolError(_))));
    assert!(matches!(Client::empty_result(other), Err(Error::ProtocolError(_))));
}

#[test]
fn handshake_failures_leave_the_session_initializing() {
    let mut client = Client::new(ClientOptions::default());
    assert_eq!(
        client.complete_initialize(response(&RequestId::from_str("init"), "{}")),
        Err(Error::NotInitialized)
    );
    client.connect();
    client.initialize(0).unwrap();
    assert_eq!(client.initialize(0), None);
    let refused = JSONRPCMessage::Error(JSONRPCError::new(RequestId::from_str("init"), -32603, "no", None));
    assert_eq!(client.complete_initialize(refused), Err(Error::ServerError(-32603, "no".to_string(), None)));
    assert!(matches!(
        client.complete_initialize(response(&RequestId::from_str("init"), r#"{"serverInfo":{"name":"s","version":"1"}}"#)),
        Err(Error::ParseError(_))
    ));
    assert!(matches!(
        client.complete_initialize(response(&RequestId::from_str("init"), r#"{"protocolVersion":"v"}"#)),
        Err(Error::ParseError(_))
    ));
    assert!(matches!(
        client.complete_initialize(JSONRPCMessage::Notification(JSONRPCNotification::new("n", None))),
        Err(Error::ProtocolError(_))
    ));
    assert_eq!(client.connection_state(), ConnectionState::Initializing);
    assert!(client.server_capabilities().is_none());
    let handshake = client
        .complete_initialize(response(
            &RequestId::from_str("init"),
            r#"{"protocolVersion":"v","serverInfo":{"name":"s","version":"1"}}"#,
        ))
        .unwrap();
    assert!(matches!(handshake.event, ClientEvent::Connected { instructions: None, .. }));
    assert!(client.server_capabilities().is_some());
    assert!(!client.connect());
}

#[test]
fn the_initialize_request_follows_the_capabilities() {
    let client = Client::new(ClientOptions::default());
    assert_eq!(
        wire(&JSONRPCMessage::Request(client.initialize_request())),
        value(
            r#"{"jsonrpc":"2.0","id":"init","method":"initialize","params":{"protocolVersion":"2025-03-26","clientInfo":{"name":"mcpx-client","version":"0.1.0"},"capabilities":{}}}"#
        )
    );
    let mut options = ClientOptions::default();
    options.capabilities.roots = true;
    let client = Client::new(options);
    assert_eq!(
        wire(&JSONRPCMessage::Request(client.initialize_request()))["params"]["capabilities"],
        value(r#"{"roots":{"listChanged":false}}"#)
    );
    assert_eq!(client.id().len(), 36);
    assert_ne!(client.id(), Client::new(ClientOptions::default()).id());
}

#[test]
fn requests_of_the_server() {
    let mut options = ClientOptions::default();
    let mut client = client_with("{}", options.clone());
    assert_eq!(
        client.handle_message(message(r#"{"jsonrpc":"2.0","id":1,"method":"ping"}"#)),
        Ok(Inbound::Reply { reply: response(&RequestId::Integer(1), "{}") })
    );
    let not_found = |id: i64, text: &str| Inbound::Reply {
        reply: JSONRPCMessage::Error(JSONRPCError::new(RequestId::Integer(id), -32601, text, None)),
    };
    assert_eq!(
        client.handle_message(message(r#"{"jsonrpc":"2.0","id":2,"method":"roots/list"}"#)),
        Ok(not_found(2, "Client does not support roots"))
    );
    assert_eq!(
        client.handle_message(message(r#"{"jsonrpc":"2.0","id":3,"method":"sampling/createMessage","params":{}}"#)),
        Ok(not_found(3, "Client does not support sampling"))
    );
    assert_eq!(
        client.handle_message(message(r#"{"jsonrpc":"2.0","id":4,"method":"tools/list"}"#)),
        Ok(not_found(4, "Method not found: tools/list"))
    );

    options.capabilities = ClientCapabilities { roots: true, roots_list_changed: false, sampling: true, experimental: Vec::new() };
    let mut client = client_with("{}", options.clone());
    assert_eq!(
        client.handle_message(message(r#"{"jsonrpc":"2.0","id":2,"method":"roots/list"}"#)),
        Ok(Inbound::EmitAndReply {
            event: ClientEvent::RootsChanged,
            reply: response(&RequestId::Integer(2), r#"{"roots":[]}"#),
        })
    );
    let sampling = r#"{"jsonrpc":"2.0","id":3,"method":"sampling/createMessage","params":{"messages":[],"maxTokens":5}}"#;
    match client.handle_message(message(sampling)).unwrap() {
        Inbound::Sample { request } => assert_eq!(JSONRPCMessage::Request(request), message(sampling)),
        other => panic!("unexpected: {:?}", other),
    }
    options.auto_acknowledge_roots_changed = false;
    let mut client = client_with("{}", options);
    assert_eq!(
        client.handle_message(message(r#"{"jsonrpc":"2.0","id":2,"method":"roots/list"}"#)),
        Ok(Inbound::Emit { event: ClientEvent::RootsChanged })
    );
}

#[test]
fn notifications_become_events() {
    let mut client = client_with(ALL, ClientOptions::default());
    assert_eq!(
        client.handle_message(message(
            r#"{"jsonrpc":"2.0","method":"notifications/progress","params":{"progressToken":"t","progress":0.5,"total":"all","message":"half"}}"#
        )),
        Ok(Inbound::Emit {
            event: ClientEvent::Progress {
                request_id: RequestId::from_str("t"),
                token: ProgressToken::String("t".to_string()),
                progress: Number::Float(0.5f64.to_bits()),
                total: None,
                message: Some("half".to_string()),
            }
        })
    );
    assert_eq!(
        client.handle_message(message(
            r#"{"jsonrpc":"2.0","method":"notifications/progress","params":{"progressToken":3,"progress":1,"total":2}}"#
        )),
        Ok(Inbound::Emit {
            event: ClientEvent::Progress {
                request_id: RequestId::Integer(3),
                token: ProgressToken::Integer(3),
                progress: Number::PosInt(1),
                total: Some(Number::PosInt(2)),
                message: None,
            }
        })
    );
    assert_eq!(
        client.handle_message(message(
            r#"{"jsonrpc":"2.0","method":"notifications/message","params":{"level":"warning","logger":"db","data":{"rows":3}}}"#
        )),
        Ok(Inbound::Emit {
            event: ClientEvent::LogMessage {
                level: LoggingLevel::Warning,
                logger: Some("db".to_string()),
                data: json(r#"{"rows":3}"#),
            }
        })
    );
    assert_eq!(
        client.handle_message(message(r#"{"jsonrpc":"2.0","method":"notifications/message","params":{"level":"info"}}"#)),
        Ok(Inbound::Emit { event: ClientEvent::LogMessage { level: LoggingLevel::Info, logger: None, data: Json::Null } })
    );
    assert_eq!(
        client.handle_message(message(r#"{"jsonrpc":"2.0","method":"notifications/prompts/list_changed"}"#)),
        Ok(Inbound::Emit { event: ClientEvent::PromptsChanged })
    );
    assert_eq!(
        client.handle_message(message(r#"{"jsonrpc":"2.0","method":"notifications/tools/list_changed"}"#)),
        Ok(Inbound::Emit { event: ClientEvent::ToolsChanged })
    );
    for (text, parse) in [
        (r#"{"jsonrpc":"2.0","method":"notifications/progress"}"#, false),
        (r#"{"jsonrpc":"2.0","method":"notifications/progress","params":{"progress":1}}"#, true),
        (r#"{"jsonrpc":"2.0","method":"notifications/progress","params":{"progressToken":1}}"#, true),
        (r#"{"jsonrpc":"2.0","method":"notifications/progress","params":{"progressToken":1,"progress":"x"}}"#, true),
        (r#"{"jsonrpc":"2.0","method":"notifications/message"}"#, false),
        (r#"{"jsonrpc":"2.0","method":"notifications/message","params":{"level":"loud"}}"#, true),
        (r#"{"jsonrpc":"2.0","method":"notifications/resources/updated"}"#, false),
        (r#"{"jsonrpc":"2.0","method":"notifications/resources/updated","params":{"uri":5}}"#, true),
        (r#"{"jsonrpc":"2.0","method":"notifications/cancelled"}"#, false),
        (r#"{"jsonrpc":"2.0","method":"notifications/cancelled","params":{}}"#, true),
        (r#"{"jsonrpc":"2.0","method":"notifications/cancelled","params":{"requestId":99}}"#, false),
        (r#"{"jsonrpc":"2.0","method":"notifications/unknown"}"#, false),
        (r#"[{"jsonrpc":"2.0","id":1,"method":"ping"}]"#, false),
    ] {
        let r = client.handle_message(message(text));
        if parse {
            assert!(matches!(r, Err(Error::ParseError(_))), "{} gave {:?}", text, r);
        } else {
            assert!(matches!(r, Err(Error::ProtocolError(_))), "{} gave {:?}", text, r);
        }
    }
}

#[test]
fn the_peer_can_cancel_an_outstanding_request() {
    let mut client = client_with("{}", ClientOptions::default());
    client.send_request(&JSONRPCRequest::new(RequestId::Integer(5), "ping", None), 0).unwrap();
    let outcome = client
        .handle_message(message(
            r#"{"jsonrpc":"2.0","method":"notifications/cancelled","params":{"requestId":5,"reason":"shutting down"}}"#,
        ))
        .unwrap();
    match outcome {
        Inbound::Fail { id, pending, reason } => {
            assert_eq!(id, RequestId::Integer(5));
            assert_eq!(pending.method, "ping");
            assert_eq!(reason, "shutting down");
        }
        other => panic!("unexpected: {:?}", other),
    }
    assert!(!client.is_pending(&RequestId::Integer(5)));
}

#[test]
fn events_come_out_in_the_order_of_arrival() {
    let mut client = client_with(ALL, ClientOptions::default());
    let pending = client.ping(0).unwrap();
    let messages = vec![
        message(r#"{"jsonrpc":"2.0","method":"notifications/tools/list_changed"}"#),
        message(r#"{"jsonrpc":"2.0","method":"notifications/unknown"}"#),
        message(r#"{"jsonrpc":"2.0","method":"notifications/resources/updated","params":{"uri":"a"}}"#),
        response(&pending.id, "{}"),
        message(r#"{"jsonrpc":"2.0","id":9,"method":"ping"}"#),
        message(r#"{"jsonrpc":"2.0","method":"notifications/resources/updated","params":{"uri":"b"}}"#),
        message(r#"{"jsonrpc":"2.0","method":"notifications/prompts/list_changed"}"#),
    ];
    let outcomes = client.handle_messages(messages.clone());
    assert_eq!(outcomes.len(), messages.len());
    let events: Vec<ClientEvent> = outcomes
        .iter()
        .filter_map(|outcome| match outcome {
            Ok(Inbound::Emit { event }) => Some(event.clone()),
            Ok(Inbound::EmitAndReply { event, .. }) => Some(event.clone()),
            _ => None,
        })
        .collect();
    assert_eq!(
        events,
        vec![
            ClientEvent::ToolsChanged,
            ClientEvent::ResourceUpdated { uri: "a".to_string() },
            ClientEvent::ResourceUpdated { uri: "b".to_string() },
            ClientEvent::PromptsChanged,
        ]
    );
    assert!(matches!(outcomes[1], Err(Error::ProtocolError(_))));
    assert!(matches!(outcomes[3], Ok(Inbound::Deliver { .. })));
    assert!(matches!(outcomes[4], Ok(Inbound::Reply { .. })));
    // Handling them one by one gives the same.
    let mut other = client_with(ALL, ClientOptions::default());
    other.send_request(&JSONRPCRequest::new(pending.id.clone(), "ping", None), 0).unwrap();
    let one_by_one: Vec<_> = messages.into_iter().map(|m| other.handle_message(m)).collect();
    assert_eq!(one_by_one, outcomes);
    assert!(client.handle_messages(Vec::new()).is_empty());
}

#[test]
fn roots_changes_are_announced_only_by_a_client_that_offers_them() {
    let client = Client::new(ClientOptions::default());
    assert_eq!(
        client.notify_roots_changed(),
        Err(Error::UnsupportedFeature("Roots list changed notifications".to_string()))
    );
    let mut options = ClientOptions::default();
    options.capabilities.roots = true;
    assert!(Client::new(options.clone()).notify_roots_changed().is_err());
    options.capabilities.roots_list_changed = true;
    assert_eq!(
        Client::new(options).notify_roots_changed(),
        Ok(JSONRPCNotification::new("notifications/roots/list_changed", None))
    );
}

#[test]
fn client_builder() {
    let builder: ClientBuilder<u8> = ClientBuilder::new();
    assert_eq!(
        builder.build().map(|_| ()),
        Err(Error::ConfigError("No transport, WebSocket URL, or HTTP URL specified".to_string()))
    );
    let (client, choice) = ClientBuilder::<u8>::new()
        .with_implementation("app", "2")
        .with_roots(true)
        .with_roots_list_changed(true)
        .with_sampling(true)
        .with_experimental("x")
        .with_auto_acknowledge_roots_changed(false)
        .with_default_timeout(5)
        .with_http_url("http://localhost:1")
        .with_websocket_url("ws://localhost:2")
        .build()
        .unwrap();
    assert!(matches!(&choice, TransportChoice::WebSocket(t) if t.url() == "ws://localhost:2"));
    assert_eq!(
        client.options_ref(),
        &ClientOptions {
            implementation: Implementation::new("app", "2"),
            capabilities: ClientCapabilities {
                roots: true,
                roots_list_changed: true,
                sampling: true,
                experimental: vec!["x".to_string()],
            },
            auto_acknowledge_roots_changed: false,
            default_timeout_ms: 5,
        }
    );
    assert_eq!(client.connection_state(), ConnectionState::Disconnected);
    let (_, choice) = ClientBuilder::<u8>::new()
        .with_websocket_url("ws://localhost:2")
        .with_http_url("http://localhost:1")
        .build()
        .unwrap();
    assert!(matches!(&choice, TransportChoice::Http(t) if t.url() == "http://localhost:1"));
    let (_, choice) = ClientBuilder::new().with_http_url("not a url").with_transport(7u8).build().unwrap();
    assert!(matches!(choice, TransportChoice::Custom(7)));
    assert!(matches!(
        ClientBuilder::<u8>::new().with_http_url("ftp://localhost").build().map(|_| ()),
        Err(Error::UrlError(_))
    ));
    assert!(matches!(
        ClientBuilder::<u8>::new().with_websocket_url("not a url").build().map(|_| ()),
        Err(Error::UrlError(_))
    ));
    let capabilities = ClientCapabilities { roots: true, roots_list_changed: false, sampling: false, experimental: Vec::new() };
    let (client, _) = ClientBuilder::new().with_capabilities(capabilities.clone()).with_transport(0u8).build().unwrap();
    assert_eq!(client.options_ref().capabilities, capabilities);
    assert_eq!(ClientCapabilities::default(), ClientCapabilities { roots: false, roots_list_changed: false, sampling: false, experimental: Vec::new() });
}

fn started(builder: ServerBuilder) -> Server {
    let mut server = builder.build();
    server.start();
    server.add_connection("c");
    server
}

fn initialized(builder: ServerBuilder, capabilities: &str) -> Server {
    let mut server = started(builder);
    let initialize = format!(
        r#"{{"jsonrpc":"2.0","id":0,"method":"initialize","params":{{"protocolVersion":"2025-03-26","clientInfo":{{"name":"x","version":"1"}},"capabilities":{}}}}}"#,
        capabilities
    );
    assert!(matches!(server.handle_message("c", message(&initialize)), Ok(ServerStep::Connected { .. })));
    assert_eq!(
        server.handle_message("c", message(r#"{"jsonrpc":"2.0","method":"notifications/initialized"}"#)),
        Ok(ServerStep::Initialized)
    );
    server
}

fn everything() -> ServerBuilder {
    ServerBuilder::new()
        .with_completions(true)
        .with_prompts(true)
        .with_prompts_list_changed(true)
        .with_resources(true)
        .with_resources_list_changed(true)
        .with_resources_subscribe(true)
        .with_tools(true)
        .with_tools_list_changed(true)
}

fn refusal(id: i64, code: i32, text: &str) -> ServerStep {
    ServerStep::Reply { reply: JSONRPCMessage::Error(JSONRPCError::new(RequestId::Integer(id), code, text, None)) }
}

#[test]
fn server_builder_and_lifecycle() {
    let server = ServerBuilder::new().build();
    assert_eq!(server.operational_state(), OperationalState::Stopped);
    assert_eq!(server.options_ref(), &ServerOptions::default());
    assert!(server.options_ref().capabilities.logging);
    assert_eq!(server.id().len(), 36);
    let mut server = everything()
        .with_implementation("s", "9")
        .with_instructions("read me")
        .with_auto_acknowledge_ping(false)
        .with_default_timeout(7)
        .with_logging(false)
        .with_experimental("x", Json::Bool(true))
        .build();
    let options = server.options_ref().clone();
    assert_eq!(options.implementation, Implementation::new("s", "9"));
    assert_eq!(options.instructions, Some("read me".to_string()));
    assert!(!options.auto_acknowledge_ping);
    assert_eq!(options.default_timeout_ms, 7);
    assert!(!options.capabilities.logging && options.capabilities.tools && options.capabilities.resources_subscribe);
    assert_eq!(options.capabilities.experimental, vec![("x".to_string(), Json::Bool(true))]);

    server.add_connection("a");
    server.add_connection("b");
    assert!(server.connection("a").is_some());
    assert!(server.remove_connection("a"));
    assert!(!server.remove_connection("a"));
    assert!(server.connection("a").is_none());
    server.start();
    assert_eq!(server.operational_state(), OperationalState::Running);
    server.stop();
    assert_eq!(server.operational_state(), OperationalState::Stopped);
    assert!(server.connection("b").is_none());
}

#[test]
fn the_initialize_result_reflects_the_advertised_flags() {
    let mut server = started(everything().with_experimental("x", Json::Bool(true)));
    let step = server
        .handle_message(
            "c",
            message(
                r#"{"jsonrpc":"2.0","id":0,"method":"initialize","params":{"protocolVersion":"v","clientInfo":{"name":"x","version":"1"}}}"#,
            ),
        )
        .unwrap();
    match step {
        ServerStep::Connected { reply, .. } => assert_eq!(
            wire(&reply)["result"]["capabilities"],
            value(
                r#"{"logging":{},"completions":{},"prompts":{"listChanged":true},"resources":{"listChanged":true,"subscribe":true},"tools":{"listChanged":true},"experimental":{"x":true}}"#
            )
        ),
        other => panic!("unexpected: {:?}", other),
    }
    // What the server writes is what the client reads.
    let written = mcpx::server::handler::capabilities_json(&server.options_ref().capabilities);
    let read = ServerCapabilities::from_json(&written);
    assert!(read.logging && read.completions && read.prompts && read.resources && read.tools);
    assert!(read.prompts_list_changed && read.resources_list_changed && read.resources_subscribe && read.tools_list_changed);
    let nothing = ServerBuilder::new().with_logging(false).build();
    assert_eq!(to_value(&mcpx::server::handler::capabilities_json(&nothing.options_ref().capabilities)), value("{}"));
}

#[test]
fn requests_are_gated_by_state_handshake_and_capability() {
    let mut server = ServerBuilder::new().build();
    server.add_connection("c");
    assert_eq!(
        server.handle_message("c", message(r#"{"jsonrpc":"2.0","id":1,"method":"ping"}"#)),
        Ok(refusal(1, -32603, "Server is not running"))
    );
    assert!(matches!(
        server.handle_message("nobody", message(r#"{"jsonrpc":"2.0","id":1,"method":"ping"}"#)),
        Err(Error::InternalError(m)) if m == "Unknown client: nobody"
    ));
    server.start();
    for method in ["ping", "tools/list", "resources/read", "unknown"] {
        let text = format!(r#"{{"jsonrpc":"2.0","id":1,"method":"{}"}}"#, method);
        assert_eq!(server.handle_message("c", message(&text)), Ok(refusal(1, -32002, "Server not initialized")));
    }
    assert_eq!(
        server.handle_message("c", message(r#"{"jsonrpc":"2.0","method":"notifications/initialized"}"#)),
        Err(Error::ProtocolError("Client not initialized".to_string()))
    );
    assert!(matches!(
        server.handle_message("c", message(r#"{"jsonrpc":"2.0","id":0,"method":"initialize"}"#)),
        Err(Error::ProtocolError(_))
    ));
    for params in [r#"{"clientInfo":{"name":"x","version":"1"}}"#, r#"{"protocolVersion":"v"}"#, r#"{"protocolVersion":"v","clientInfo":{"name":"x"}}"#] {
        let text = format!(r#"{{"jsonrpc":"2.0","id":0,"method":"initialize","params":{}}}"#, params);
        assert!(matches!(server.handle_message("c", message(&text)), Err(Error::ParseError(_))), "{}", params);
    }
    assert!(!server.connection("c").unwrap().initialized);
    assert_eq!(server.connection("c").unwrap().client_info, None);

    let mut server = initialized(ServerBuilder::new().with_tools(true), "{}");
    // After the handshake: still gated until the client confirms, which happened here.
    assert_eq!(
        server.handle_message("c", message(r#"{"jsonrpc":"2.0","id":1,"method":"initialize","params":{}}"#)),
        Ok(refusal(1, -32600, "Already initialized"))
    );
    assert!(matches!(
        server.handle_message("c", message(r#"{"jsonrpc":"2.0","method":"notifications/initialized"}"#)),
        Err(Error::ProtocolError(_))
    ));
    assert_eq!(
        server.handle_message("c", message(r#"{"jsonrpc":"2.0","id":1,"method":"ping"}"#)),
        Ok(ServerStep::Reply { reply: response(&RequestId::Integer(1), "{}") })
    );
    for (method, text) in [
        ("resources/list", "Resources not supported"),
        ("resources/templates/list", "Resources not supported"),
        ("resources/read", "Resources not supported"),
        ("resources/subscribe", "Resource subscriptions not supported"),
        ("resources/unsubscribe", "Resource subscriptions not supported"),
        ("prompts/list", "Prompts not supported"),
        ("prompts/get", "Prompts not supported"),
        ("completion/complete", "Completions not supported"),
        ("roots/list", "Method not found: roots/list"),
        ("nothing", "Method not found: nothing"),
    ] {
        let request = format!(r#"{{"jsonrpc":"2.0","id":1,"method":"{}","params":{{"uri":"u","name":"n"}}}}"#, method);
        assert_eq!(server.handle_message("c", message(&request)), Ok(refusal(1, -32601, text)), "{}", method);
    }
    assert_eq!(
        server.handle_message("c", message(r#"{"jsonrpc":"2.0","id":1,"method":"tools/list","params":{"cursor":"c"}}"#)),
        Ok(ServerStep::Ask { id: RequestId::Integer(1), request: ServiceRequest::ListTools { cursor: Some("c".to_string()) } })
    );
    assert!(matches!(
        server.handle_message("c", message(r#"{"jsonrpc":"2.0","id":1,"result":{}}"#)),
        Err(Error::ProtocolError(_))
    ));
    let mut server = initialized(ServerBuilder::new().with_logging(false), "{}");
    assert_eq!(
        server.handle_message("c", message(r#"{"jsonrpc":"2.0","id":1,"method":"logging/setLevel","params":{"level":"info"}}"#)),
        Ok(refusal(1, -32601, "Logging not supported"))
    );
    // Subscriptions need both flags.
    let mut server = initialized(ServerBuilder::new().with_resources(true), "{}");
    assert_eq!(
        server.handle_message("c", message(r#"{"jsonrpc":"2.0","id":1,"method":"resources/subscribe","params":{"uri":"u"}}"#)),
        Ok(refusal(1, -32601, "Resource subscriptions not supported"))
    );
    assert!(server.connection("c").unwrap().subscribed_resources.is_empty());
}

#[test]
fn every_gated_method_is_read_into_a_service_request() {
    let mut server = initialized(everything(), "{}");
    let mut ask = |method: &str, params: &str| -> Result<ServiceRequest, Error> {
        let text = format!(r#"{{"jsonrpc":"2.0","id":"q","method":"{}","params":{}}}"#, method, params);
        match server.handle_message("c", message(&text))? {
            ServerStep::Ask { id, request } => {
                assert_eq!(id, RequestId::from_str("q"));
                Ok(request)
            }
            other => panic!("unexpected: {:?}", other),
        }
    };
    assert_eq!(ask("resources/list", "null"), Ok(ServiceRequest::ListResources { cursor: None }));
    assert_eq!(ask("resources/list", r#"{"cursor":5}"#), Ok(ServiceRequest::ListResources { cursor: None }));
    assert_eq!(
        ask("resources/templates/list", r#"{"cursor":"c"}"#),
        Ok(ServiceRequest::ListResourceTemplates { cursor: Some("c".to_string()) })
    );
    assert_eq!(ask("resources/read", r#"{"uri":"u"}"#), Ok(ServiceRequest::ReadResource { uri: "u".to_string() }));
    assert_eq!(ask("prompts/list", "{}"), Ok(ServiceRequest::ListPrompts { cursor: None }));
    assert_eq!(
        ask("prompts/get", r#"{"name":"p","arguments":{"a":"1","b":2}}"#),
        Ok(ServiceRequest::GetPrompt {
            name: "p".to_string(),
            arguments: Some(vec![("a".to_string(), "1".to_string()), ("b".to_string(), "".to_string())]),
        })
    );
    assert_eq!(
        ask("prompts/get", r#"{"name":"p","arguments":[1]}"#),
        Ok(ServiceRequest::GetPrompt { name: "p".to_string(), arguments: None })
    );
    assert_eq!(
        ask("tools/call", r#"{"name":"t","arguments":{"q":1}}"#),
        Ok(ServiceRequest::CallTool { name: "t".to_string(), arguments: Some(json(r#"{"q":1}"#)) })
    );
    assert_eq!(ask("tools/call", r#"{"name":"t"}"#), Ok(ServiceRequest::CallTool { name: "t".to_string(), arguments: None }));
    assert_eq!(
        ask("logging/setLevel", r#"{"level":"alert"}"#),
        Ok(ServiceRequest::SetLoggingLevel { level: LoggingLevel::Alert })
    );
    assert_eq!(
        ask("completion/complete", r#"{"ref":{"type":"ref/resource","uri":"u"},"argument":{"name":"a","value":"v"}}"#),
        Ok(ServiceRequest::GetCompletions {
            reference_type: CompletionReferenceType::Resource,
            reference_name: "u".to_string(),
            argument_name: "a".to_string(),
            argument_value: "v".to_string(),
        })
    );
    assert_eq!(
        ask("completion/complete", r#"{"ref":{"type":"ref/prompt","name":"p"},"argument":{"name":"a","value":"v"}}"#),
        Ok(ServiceRequest::GetCompletions {
            reference_type: CompletionReferenceType::Prompt,
            reference_name: "p".to_string(),
            argument_name: "a".to_string(),
            argument_value: "v".to_string(),
        })
    );
    for (method, params) in [
        ("resources/read", "{}"),
        ("resources/read", r#"{"uri":1}"#),
        ("resources/subscribe", "{}"),
        ("prompts/get", "{}"),
        ("tools/call", r#"{"arguments":{}}"#),
        ("logging/setLevel", r#"{"level":"loud"}"#),
        ("completion/complete", r#"{"ref":{"type":"ref/other","name":"p"},"argument":{"name":"a","value":"v"}}"#),
        ("completion/complete", r#"{"ref":{"type":"ref/prompt","uri":"p"},"argument":{"name":"a","value":"v"}}"#),
        ("completion/complete", r#"{"ref":{"type":"ref/prompt","name":"p"},"argument":{"name":"a"}}"#),
        ("completion/complete", r#"{"argument":{"name":"a","value":"v"}}"#),
    ] {
        let r = ask(method, params);
        assert!(matches!(r, Err(Error::ParseError(_))), "{} {} gave {:?}", method, params, r);
    }
    for method in ["resources/read", "resources/unsubscribe", "prompts/get", "tools/call", "logging/setLevel", "completion/complete"] {
        let r = ask(method, "null");
        assert!(matches!(r, Err(Error::ProtocolError(_))), "{} gave {:?}", method, r);
    }
}

#[test]
fn subscriptions_are_kept_with_the_connection() {
    let mut server = initialized(everything(), "{}");
    let mut send = |method: &str, uri: &str| {
        let text = format!(r#"{{"jsonrpc":"2.0","id":1,"method":"{}","params":{{"uri":"{}"}}}}"#, method, uri);
        server.handle_message("c", message(&text)).unwrap();
        server.connection("c").unwrap().subscribed_resources
    };
    assert_eq!(send("resources/subscribe", "a"), vec!["a"]);
    assert_eq!(send("resources/subscribe", "b"), vec!["a", "b"]);
    assert_eq!(send("resources/subscribe", "a"), vec!["a", "b"]);
    assert_eq!(send("resources/unsubscribe", "c"), vec!["a", "b"]);
    assert_eq!(send("resources/unsubscribe", "a"), vec!["b"]);
    assert_eq!(send("resources/read", "z"), vec!["b"]);

    let mut connection = Connection::new("c");
    assert!(!connection.is_subscribed_to("a"));
    connection.subscribe_resource("a");
    connection.subscribe_resource("a");
    connection.subscribe_resource("b");
    connection.subscribed_resources.push("a".to_string());
    assert!(connection.is_subscribed_to("a"));
    connection.unsubscribe_resource("a");
    assert_eq!(connection.subscribed_resources, vec!["b"]);
    assert!(!connection.initialized);
    connection.set_initialized(Implementation::new("x", "1"), "v".to_string(), CapabilityState::default());
    assert!(connection.initialized);
    assert_eq!(connection.protocol_version, Some("v".to_string()));
    let mut other = Connection::new("d");
    other.set_greeted(Implementation::new("x", "1"), "v".to_string(), CapabilityState::default());
    assert!(!other.initialized);
    assert_eq!(other.client_info, Some(Implementation::new("x", "1")));
}

#[test]
fn notifications_to_the_server() {
    let mut server = initialized(ServerBuilder::new(), r#"{"roots":{"listChanged":true},"experimental":{"e":1}}"#);
    let caps = server.connection("c").unwrap().capabilities;
    assert!(caps.roots && caps.roots_list_changed && !caps.sampling);
    assert_eq!(caps.experimental, vec![("e".to_string(), Json::integer(1))]);
    assert_eq!(
        server.handle_message("c", message(r#"{"jsonrpc":"2.0","method":"notifications/roots/list_changed"}"#)),
        Ok(ServerStep::RootsUpdated { event: ServerEvent::RootsUpdated { client_id: "c".to_string() } })
    );
    assert_eq!(
        server.handle_message(
            "c",
            message(r#"{"jsonrpc":"2.0","method":"notifications/cancelled","params":{"requestId":"r","reason":"late"}}"#)
        ),
        Ok(ServerStep::Cancelled { request_id: RequestId::from_str("r"), reason: Some("late".to_string()) })
    );
    assert_eq!(
        server.handle_message(
            "c",
            message(r#"{"jsonrpc":"2.0","method":"notifications/progress","params":{"progressToken":1,"progress":3,"message":"m"}}"#)
        ),
        Ok(ServerStep::Progress { token: ProgressToken::Integer(1), progress: Number::PosInt(3), total: None, message: Some("m".to_string()) })
    );
    for (text, parse) in [
        (r#"{"jsonrpc":"2.0","method":"notifications/cancelled"}"#, false),
        (r#"{"jsonrpc":"2.0","method":"notifications/cancelled","params":{"requestId":null}}"#, true),
        (r#"{"jsonrpc":"2.0","method":"notifications/progress"}"#, false),
        (r#"{"jsonrpc":"2.0","method":"notifications/progress","params":{"progressToken":1}}"#, true),
        (r#"{"jsonrpc":"2.0","method":"notifications/other"}"#, false),
    ] {
        let r = server.handle_message("c", message(text));
        if parse {
            assert!(matches!(r, Err(Error::ParseError(_))), "{} gave {:?}", text, r);
        } else {
            assert!(matches!(r, Err(Error::ProtocolError(_))), "{} gave {:?}", text, r);
        }
    }
    let mut server = initialized(ServerBuilder::new(), r#"{"roots":{}}"#);
    assert_eq!(
        server.handle_message("c", message(r#"{"jsonrpc":"2.0","method":"notifications/roots/list_changed"}"#)),
        Err(Error::ProtocolError("Client sent roots/list_changed but doesn't support it".to_string()))
    );
}

#[test]
fn outbound_notifications_are_gated_by_the_connection() {
    let server = initialized(everything(), r#"{"roots":{}}"#);
    let unknown = Err(Error::InternalError("Unknown client: x".to_string()));
    assert_eq!(server.send_log("x", LoggingLevel::Info, "m"), unknown);
    assert_eq!(server.notify_resources_changed("x"), unknown);
    assert_eq!(server.notify_resource_updated("x", "u"), unknown);
    assert_eq!(server.notify_prompts_changed("x"), unknown);
    assert_eq!(server.notify_tools_changed("x"), unknown);
    assert_eq!(server.send_progress("x", ProgressToken::Integer(1), Number::PosInt(1), None, None), unknown);
    assert_eq!(server.cancel_request("x", RequestId::Integer(1), None), unknown);
    assert_eq!(server.send_notification("x", JSONRPCNotification::new("n", None)), unknown);
    assert!(matches!(server.request_roots("x"), Err(Error::InternalError(_))));

    let note = |n: Result<JSONRPCNotification, Error>| wire(&JSONRPCMessage::Notification(n.unwrap()));
    assert_eq!(
        note(server.send_log("c", LoggingLevel::Notice, "m")),
        value(r#"{"jsonrpc":"2.0","method":"notifications/message","params":{"level":"notice","data":"m"}}"#)
    );
    assert_eq!(
        note(server.notify_resources_changed("c")),
        value(r#"{"jsonrpc":"2.0","method":"notifications/resources/list_changed"}"#)
    );
    assert_eq!(
        note(server.notify_resource_updated("c", "u")),
        value(r#"{"jsonrpc":"2.0","method":"notifications/resources/updated","params":{"uri":"u"}}"#)
    );
    assert_eq!(note(server.notify_prompts_changed("c")), value(r#"{"jsonrpc":"2.0","method":"notifications/prompts/list_changed"}"#));
    assert_eq!(note(server.notify_tools_changed("c")), value(r#"{"jsonrpc":"2.0","method":"notifications/tools/list_changed"}"#));
    assert_eq!(
        note(server.send_progress("c", ProgressToken::String("t".to_string()), Number::PosInt(1), Some(Number::PosInt(2)), Some("half"))),
        value(r#"{"jsonrpc":"2.0","method":"notifications/progress","params":{"progressToken":"t","progress":1,"total":2,"message":"half"}}"#)
    );
    assert_eq!(
        note(server.cancel_request("c", RequestId::Integer(7), Some("user abort".to_string()))),
        value(r#"{"jsonrpc":"2.0","method":"notifications/cancelled","params":{"requestId":7,"reason":"user abort"}}"#)
    );
    assert_eq!(server.send_notification("c", JSONRPCNotification::new("n", None)), Ok(JSONRPCNotification::new("n", None)));
    let roots = server.request_roots("c").unwrap();
    assert_eq!((roots.method.as_str(), roots.params), ("roots/list", None));

    let server = initialized(ServerBuilder::new().with_logging(false), "{}");
    assert_eq!(server.send_log("c", LoggingLevel::Info, "m"), Err(Error::UnsupportedFeature("Logging".to_string())));
    assert_eq!(
        server.notify_resources_changed("c"),
        Err(Error::UnsupportedFeature("Resource list changed notifications".to_string()))
    );
    assert_eq!(server.notify_resource_updated("c", "u"), Err(Error::UnsupportedFeature("Resource subscriptions".to_string())));
    assert_eq!(
        server.notify_prompts_changed("c"),
        Err(Error::UnsupportedFeature("Prompts list changed notifications".to_string()))
    );
    assert_eq!(server.notify_tools_changed("c"), Err(Error::UnsupportedFeature("Tools list changed notifications".to_string())));
    assert_eq!(server.request_roots("c"), Err(Error::UnsupportedFeature("Roots".to_string())));
    assert!(server.send_progress("c", ProgressToken::Integer(1), Number::PosInt(1), None, None).is_ok());
}

#[test]
fn what_the_service_answers_becomes_the_reply() {
    let id = RequestId::Integer(1);
    let ok = |request: ServiceRequest, answer: ServiceResponse| wire(&respond(RequestId::Integer(1), &request, Ok(answer)));
    assert_eq!(
        ok(
            ServiceRequest::ListResources { cursor: None },
            ServiceResponse::ListResources { resources: vec![Resource::new("u", "n")], next_cursor: Some("c".to_string()) }
        ),
        value(r#"{"jsonrpc":"2.0","id":1,"result":{"resources":[{"uri":"u","name":"n"}],"nextCursor":"c"}}"#)
    );
    assert_eq!(
        ok(
            ServiceRequest::ListResourceTemplates { cursor: None },
            ServiceResponse::ListResourceTemplates { templates: Vec::new(), next_cursor: None }
        ),
        value(r#"{"jsonrpc":"2.0","id":1,"result":{"resourceTemplates":[]}}"#)
    );
    assert_eq!(
        ok(
            ServiceRequest::ReadResource { uri: "u".to_string() },
            ServiceResponse::ReadResource { contents: vec![ResourceContent::Text(TextResourceContents::new("u", "t"))] }
        ),
        value(r#"{"jsonrpc":"2.0","id":1,"result":{"contents":[{"uri":"u","text":"t"}]}}"#)
    );
    assert_eq!(
        ok(ServiceRequest::SubscribeResource { uri: "u".to_string() }, ServiceResponse::SubscribeResource),
        value(r#"{"jsonrpc":"2.0","id":1,"result":{}}"#)
    );
    assert_eq!(
        ok(ServiceRequest::UnsubscribeResource { uri: "u".to_string() }, ServiceResponse::UnsubscribeResource)["result"],
        value("{}")
    );
    assert_eq!(
        ok(ServiceRequest::SetLoggingLevel { level: LoggingLevel::Info }, ServiceResponse::SetLoggingLevel)["result"],
        value("{}")
    );
    assert_eq!(
        ok(ServiceRequest::ListPrompts { cursor: None }, ServiceResponse::ListPrompts { prompts: Vec::new(), next_cursor: None })["result"],
        value(r#"{"prompts":[]}"#)
    );
    assert_eq!(
        ok(
            ServiceRequest::GetPrompt { name: "p".to_string(), arguments: None },
            ServiceResponse::GetPrompt {
                messages: vec![PromptMessage { role: Role::User, content: PromptContent::Text(TextContent::new("hi")) }],
                description: Some("d".to_string()),
            }
        )["result"],
        value(r#"{"description":"d","messages":[{"role":"user","content":{"type":"text","text":"hi"}}]}"#)
    );
    assert_eq!(
        ok(ServiceRequest::ListTools { cursor: None }, ServiceResponse::ListTools { tools: vec![Tool::new("t", "d")], next_cursor: None })["result"],
        value(r#"{"tools":[{"name":"t","description":"d","inputSchema":{"type":"object"}}]}"#)
    );
    let failed = CallToolResult { content: vec![PromptContent::Text(TextContent::new("boom"))], is_error: Some(true), meta: None };
    assert_eq!(
        ok(ServiceRequest::CallTool { name: "t".to_string(), arguments: None }, ServiceResponse::CallTool { result: failed }),
        value(r#"{"jsonrpc":"2.0","id":1,"result":{"content":[{"type":"text","text":"boom"}],"isError":true}}"#)
    );
    assert_eq!(
        ok(
            ServiceRequest::GetCompletions {
                reference_type: CompletionReferenceType::Prompt,
                reference_name: "p".to_string(),
                argument_name: "a".to_string(),
                argument_value: "v".to_string()
            },
            ServiceResponse::GetCompletions { result: CompleteResult::new(vec!["x".to_string()]) }
        )["result"],
        value(r#"{"completion":{"values":["x"]}}"#)
    );
    assert_eq!(
        ok(ServiceRequest::ListRoots, ServiceResponse::ListRoots { roots: vec![Root::new("file:///a")] })["result"],
        value(r#"{"roots":[{"uri":"file:///a"}]}"#)
    );
    // An answer to another operation, and an error of the handler.
    assert_eq!(
        ok(ServiceRequest::ListRoots, ServiceResponse::SetLoggingLevel),
        value(r#"{"jsonrpc":"2.0","id":1,"error":{"code":-32603,"message":"Service answered another request"}}"#)
    );
    assert_eq!(
        wire(&respond(id.clone(), &ServiceRequest::ListRoots, Err(Error::InternalError("broken".to_string())))),
        value(r#"{"jsonrpc":"2.0","id":1,"error":{"code":-32603,"message":"broken"}}"#)
    );
    assert_eq!(
        wire(&respond(id.clone(), &ServiceRequest::ListRoots, Err(Error::NotInitialized))),
        value(r#"{"jsonrpc":"2.0","id":1,"error":{"code":-32603,"message":"Not initialized"}}"#)
    );
    assert_eq!(
        wire(&respond(id, &ServiceRequest::ListRoots, Err(Error::ServerError(-32001, "busy".to_string(), Some(json("[1]")))))),
        value(r#"{"jsonrpc":"2.0","id":1,"error":{"code":-32001,"message":"busy","data":[1]}}"#)
    );
}

struct Catalogue;

impl ServerService for Catalogue {
    fn handle_request(&self, context: ServiceContext, request: ServiceRequest) -> Result<ServiceResponse, Error> {
        assert_eq!(context.client_id, "c");
        assert!(context.initialized);
        assert_eq!(context.client_info, Some(Implementation::new("x", "1")));
        match request {
            ServiceRequest::ListTools { .. } => {
                Ok(ServiceResponse::ListTools { tools: vec![Tool::new("search", "searches")], next_cursor: None })
            }
            ServiceRequest::CallTool { name, .. } if name == "search" => Ok(ServiceResponse::CallTool {
                result: CallToolResult {
                    content: vec![PromptContent::Text(TextContent::new("boom"))],
                    is_error: Some(true),
                    meta: None,
                },
            }),
            _ => Err(Error::ServerError(-32001, "not offered".to_string(), None)),
        }
    }

    fn roots_updated(&self, _: String) -> Result<(), Error> {
        Err(Error::InternalError("ignored".to_string()))
    }

}

#[test]
fn a_server_that_asks_its_service() {
    let mut server = started(ServerBuilder::new().with_tools(true));
    let served = server
        .serve(
            &Catalogue,
            "c",
            message(
                r#"{"jsonrpc":"2.0","id":0,"method":"initialize","params":{"protocolVersion":"v","clientInfo":{"name":"x","version":"1"},"capabilities":{"roots":{"listChanged":true}}}}"#,
            ),
        )
        .unwrap();
    assert!(matches!(served.event, Some(ServerEvent::ClientConnected { .. })));
    assert!(matches!(served.reply, Some(JSONRPCMessage::Response(_))));
    assert_eq!(
        server.serve(&Catalogue, "c", message(r#"{"jsonrpc":"2.0","method":"notifications/initialized"}"#)),
        Ok(Served { reply: None, event: None })
    );
    let served = server.serve(&Catalogue, "c", message(r#"{"jsonrpc":"2.0","id":1,"method":"tools/list"}"#)).unwrap();
    assert_eq!(
        served.reply.as_ref().map(wire),
        Some(value(
            r#"{"jsonrpc":"2.0","id":1,"result":{"tools":[{"name":"search","description":"searches","inputSchema":{"type":"object"}}]}}"#
        ))
    );
    let served = server
        .serve(&Catalogue, "c", message(r#"{"jsonrpc":"2.0","id":2,"method":"tools/call","params":{"name":"search"}}"#))
        .unwrap();
    assert_eq!(
        served.reply.as_ref().map(wire),
        Some(value(r#"{"jsonrpc":"2.0","id":2,"result":{"content":[{"type":"text","text":"boom"}],"isError":true}}"#))
    );
    let served = server
        .serve(&Catalogue, "c", message(r#"{"jsonrpc":"2.0","id":3,"method":"tools/call","params":{"name":"other"}}"#))
        .unwrap();
    assert_eq!(
        served.reply.as_ref().map(wire),
        Some(value(r#"{"jsonrpc":"2.0","id":3,"error":{"code":-32001,"message":"not offered"}}"#))
    );
    let served = server.serve(&Catalogue, "c", message(r#"{"jsonrpc":"2.0","id":4,"method":"prompts/list"}"#)).unwrap();
    assert_eq!(
        served.reply.as_ref().map(wire),
        Some(value(r#"{"jsonrpc":"2.0","id":4,"error":{"code":-32601,"message":"Prompts not supported"}}"#))
    );
    assert_eq!(
        server.serve(&Catalogue, "c", message(r#"{"jsonrpc":"2.0","method":"notifications/roots/list_changed"}"#)),
        Ok(Served { reply: None, event: Some(ServerEvent::RootsUpdated { client_id: "c".to_string() }) })
    );
    assert_eq!(
        server.serve(&Catalogue, "c", message(r#"{"jsonrpc":"2.0","method":"notifications/cancelled","params":{"requestId":1}}"#)),
        Ok(Served { reply: None, event: None })
    );
    assert!(matches!(server.serve(&Catalogue, "x", message(r#"{"jsonrpc":"2.0","id":1,"method":"ping"}"#)), Err(Error::InternalError(_))));
    let context = server.context("c");
    assert!(context.capabilities.as_ref().map(|c| c.roots && c.roots_list_changed).unwrap());
    assert_eq!(context.protocol_version, Some("v".to_string()));
    assert_eq!(server.context("x").capabilities, None);
}

#[test]
fn a_request_expires_when_its_deadline_has_passed() {
    let mut options = ClientOptions::default();
    options.default_timeout_ms = 100;
    let mut client = client_with("{}", options);
    let first = client.ping(1000).unwrap();
    let second = client.ping(1050).unwrap();
    let mut outstanding = client.outstanding();
    outstanding.sort_by_key(|id| format!("{:?}", id));
    let mut expected = vec![first.id.clone(), second.id.clone()];
    expected.sort_by_key(|id| format!("{:?}", id));
    assert_eq!(outstanding, expected);

    assert_eq!(client.expire_request(&first.id, 1099), None);
    assert!(client.is_pending(&first.id));
    assert_eq!(
        client.expire_request(&first.id, 1100),
        Some(Error::Timeout("Request timed out after 100 ms".to_string()))
    );
    assert!(!client.is_pending(&first.id));
    assert!(client.is_pending(&second.id));
    assert_eq!(client.expire_request(&first.id, 5000), None);
    assert_eq!(client.expire_request(&RequestId::Integer(1), 5000), None);
    assert_eq!(client.outstanding(), vec![second.id.clone()]);
    assert_eq!(client.timeout_error(), Error::Timeout("Request timed out after 100 ms".to_string()));

    // Without a timeout a request has no deadline.
    let mut options = ClientOptions::default();
    options.default_timeout_ms = 0;
    let mut client = client_with("{}", options);
    let request = client.ping(1000).unwrap();
    assert_eq!(client.expire_request(&request.id, u64::MAX), None);
    assert!(client.is_pending(&request.id));

    let mut table = CorrelationTable::new();
    table.register(RequestId::Integer(1), "a", 10).unwrap();
    assert_eq!(table.get(&RequestId::Integer(1)).map(|s| s.method), Some("a".to_string()));
    assert_eq!(table.get(&RequestId::Integer(2)), None);
    assert_eq!(table.expire(&RequestId::Integer(1), 9), None);
    assert_eq!(table.outstanding(), vec![RequestId::Integer(1)]);
    assert_eq!(table.expire(&RequestId::Integer(1), 10).map(|s| s.deadline), Some(10));
    assert!(table.outstanding().is_empty());
}

#[test]
fn an_experimental_capability_given_twice_is_kept_once() {
    let server = ServerBuilder::new()
        .with_experimental("x", Json::Bool(true))
        .with_experimental("y", Json::integer(1))
        .with_experimental("x", Json::Bool(false))
        .build();
    assert_eq!(
        server.options_ref().capabilities.experimental,
        vec![("x".to_string(), Json::Bool(false)), ("y".to_string(), Json::integer(1))]
    );
}

#[test]
fn a_disconnected_session_forgets_its_server() {
    let mut client = client_with(ALL, ClientOptions::default());
    let id = client.id().to_string();
    assert!(client.server_capabilities().is_some());
    let first = client.list_tools(0).unwrap();
    let ended = client.disconnect("gone");
    assert_eq!(ended.failed, vec![first.id]);
    assert_eq!(ended.error, Error::ConnectionClosed("gone".to_string()));
    assert_eq!(client.connection_state(), ConnectionState::Disconnected);
    assert!(client.server_capabilities().is_none());
    assert!(client.outstanding().is_empty());
    assert_eq!(client.id(), id);
    assert_eq!(client.subscribe_resource("file:///a", 0), Err(Error::NotInitialized));
}

#[test]
fn without_the_capability_a_subscription_is_refused() {
    for capabilities in [r#"{}"#, r#"{"resources":{}}"#, r#"{"resources":{"subscribe":false}}"#, r#"{"tools":{}}"#] {
        let mut client = client_with(capabilities, ClientOptions::default());
        assert!(matches!(
            client.subscribe_resource("file:///a", 0),
            Err(Error::UnsupportedFeature(_))
        ), "{}", capabilities);
        assert!(client.outstanding().is_empty());
    }
}

#[test]
fn with_nothing_outstanding_every_operation_is_handed_out() {
    let mut client = client_with(ALL, ClientOptions::default());
    assert!(client.outstanding().is_empty());
    let request = client.list_resources(5).unwrap();
    assert_eq!(request.method, "resources/list");
    assert_eq!(client.outstanding(), vec![request.id.clone()]);
    client.cancel_request(request.id, None);
    assert!(client.subscribe_resource("file:///a", 5).is_ok());
}

#[test]
fn only_a_failing_transport_ends_the_session() {
    assert_eq!(on_receive_error(&Error::ParseError("bad".to_string())), Reception::Skip);
    assert_eq!(on_receive_error(&Error::ProtocolError("bad".to_string())), Reception::Skip);
    assert_eq!(
        on_receive_error(&Error::TransportError("reset".to_string())),
        Reception::End { reason: "reset".to_string() }
    );
    assert_eq!(
        on_receive_error(&Error::ConnectionClosed("eof".to_string())),
        Reception::End { reason: "eof".to_string() }
    );
}

#[test]
fn what_the_sampling_handler_answers_becomes_the_reply() {
    let id = RequestId::from_i64(4);
    assert_eq!(
        wire(&sampling_reply(id.clone(), Some(Ok(json(r#"{"role":"assistant"}"#))))),
        value(r#"{"jsonrpc":"2.0","id":4,"result":{"role":"assistant"}}"#)
    );
    assert_eq!(
        wire(&sampling_reply(id.clone(), Some(Err(Error::InternalError("no model".to_string()))))),
        value(r#"{"jsonrpc":"2.0","id":4,"error":{"code":-32603,"message":"no model"}}"#)
    );
    assert_eq!(
        wire(&sampling_reply(id.clone(), Some(Err(Error::ServerError(-32001, "busy".to_string(), None))))),
        value(r#"{"jsonrpc":"2.0","id":4,"error":{"code":-32001,"message":"busy"}}"#)
    );
    assert_eq!(
        wire(&sampling_reply(id, None)),
        value(r#"{"jsonrpc":"2.0","id":4,"error":{"code":-32603,"message":"No sampling handler"}}"#)
    );
}

#[test]
fn a_url_decides_whether_the_build_gives_a_client() {
    let (client, choice) = ClientBuilder::<u8>::new().with_websocket_url("ws://localhost:2/mcp").build().unwrap();
    assert!(matches!(&choice, TransportChoice::WebSocket(t) if t.url() == "ws://localhost:2/mcp"));
    assert_eq!(client.connection_state(), ConnectionState::Disconnected);
    assert!(client.server_capabilities().is_none());
    let (_, choice) = ClientBuilder::<u8>::new().with_http_url("https://localhost/mcp").build().unwrap();
    assert!(matches!(&choice, TransportChoice::Http(t) if t.url() == "https://localhost/mcp"));
    assert_eq!(
        ClientBuilder::<u8>::new().with_http_url("ftp://localhost").build().map(|_| ()),
        Err(Error::UrlError("Invalid URL scheme: ftp. Expected http or https".to_string()))
    );
}
