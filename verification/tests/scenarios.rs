use mcpx::client::handler::Inbound;
use mcpx::client::state::ConnectionState;
use mcpx::client::{Client, ClientCapabilities, ClientEvent, ClientOptions};
use mcpx::error::Error;
use mcpx::json::{Json, Number};
use mcpx::protocol::json_rpc::{JSONRPCMessage, JSONRPCRequest};
use mcpx::protocol::prompts::PromptContent;
use mcpx::protocol::{Implementation, RequestId};
use mcpx::server::handler::ServerStep;
use mcpx::server::{Server, ServerBuilder, ServerEvent};

fn from_value(v: &serde_json::Value) -> Json {
    match v {
        serde_json::Value::Null => Json::Null,
        serde_json::Value::Bool(b) => Json::Bool(*b),
        serde_json::Value::Number(n) => {
            if let Some(u) = n.as_u64() {
                Json::Number(Number::PosInt(u))
            } else if let Some(i) = n.as_i64() {
                Json::Number(Number::NegInt(i))
            } else {
                Json::Number(Number::Float(n.as_f64().unwrap().to_bits()))
            }
        }
        serde_json::Value::String(s) => Json::Str(s.clone()),
        serde_json::Value::Array(items) => Json::Array(items.iter().map(from_value).collect()),
        serde_json::Value::Object(members) => {
            Json::Object(members.iter().map(|(k, v)| (k.clone(), from_value(v))).collect())
        }
    }
}

fn to_value(j: &Json) -> serde_json::Value {
    match j {
        Json::Null => serde_json::Value::Null,
        Json::Bool(b) => serde_json::Value::Bool(*b),
        Json::Number(Number::PosInt(u)) => serde_json::Value::from(*u),
        Json::Number(Number::NegInt(i)) => serde_json::Value::from(*i),
        Json::Number(Number::Float(bits)) => serde_json::Value::from(f64::from_bits(*bits)),
        Json::Str(s) => serde_json::Value::String(s.clone()),
        Json::Array(items) => serde_json::Value::Array(items.iter().map(to_value).collect()),
        Json::Object(members) => {
            let mut map = serde_json::Map::new();
            for (k, v) in members {
                map.insert(k.clone(), to_value(v));
            }
            serde_json::Value::Object(map)
        }
    }
}

fn value(text: &str) -> serde_json::Value {
    serde_json::from_str(text).unwrap()
}

fn message(text: &str) -> JSONRPCMessage {
    JSONRPCMessage::decode(&from_value(&value(text))).unwrap()
}

fn wire(message: &JSONRPCMessage) -> serde_json::Value {
    to_value(&message.encode())
}

fn options(timeout_ms: u64) -> ClientOptions {
    ClientOptions {
        implementation: Implementation::new("x", "1"),
        capabilities: ClientCapabilities {
            roots: true,
            roots_list_changed: true,
            sampling: true,
            experimental: Vec::new(),
        },
        auto_acknowledge_roots_changed: true,
        default_timeout_ms: timeout_ms,
    }
}

const HELLO: &str = r#"{"jsonrpc":"2.0","id":"init","result":{"protocolVersion":"2025-03-26","serverInfo":{"name":"s","version":"1"},"capabilities":{"resources":{"listChanged":false,"subscribe":false}},"instructions":"hello"}}"#;

/// A client that has completed the handshake with the given server answer.
fn connected(timeout_ms: u64, hello: &str) -> Client {
    let mut client = Client::new(options(timeout_ms));
    assert!(client.connect());
    client.initialize(0).unwrap();
    let delivered = client.handle_message(message(hello)).unwrap();
    let response = match delivered {
        Inbound::Deliver { message, .. } => message,
        other => panic!("unexpected: {:?}", other),
    };
    client.complete_initialize(response).unwrap();
    client
}

fn capable(capabilities: &str) -> Client {
    let hello = format!(
        r#"{{"jsonrpc":"2.0","id":"init","result":{{"protocolVersion":"2025-03-26","serverInfo":{{"name":"s","version":"1"}},"capabilities":{}}}}}"#,
        capabilities
    );
    connected(30000, &hello)
}

#[test]
fn handshake() {
    let mut client = Client::new(options(30000));
    assert_eq!(client.connection_state(), ConnectionState::Disconnected);
    assert!(client.connect());
    assert_eq!(client.connection_state(), ConnectionState::Connecting);

    let request = client.initialize(0).unwrap();
    assert_eq!(
        wire(&JSONRPCMessage::Request(request)),
        value(
            r#"{"jsonrpc":"2.0","id":"init","method":"initialize","params":{"protocolVersion":"2025-03-26","clientInfo":{"name":"x","version":"1"},"capabilities":{"sampling":{},"roots":{"listChanged":true}}}}"#
        )
    );
    assert_eq!(client.connection_state(), ConnectionState::Initializing);
    assert!(client.is_pending(&RequestId::from_str("init")));

    let delivered = client.handle_message(message(HELLO)).unwrap();
    let response = match delivered {
        Inbound::Deliver { pending, message } => {
            assert_eq!(pending.method, "initialize");
            message
        }
        other => panic!("unexpected: {:?}", other),
    };
    assert!(!client.is_pending(&RequestId::from_str("init")));

    let handshake = client.complete_initialize(response).unwrap();
    assert_eq!(client.connection_state(), ConnectionState::Initialized);
    assert!(!handshake.event.version_mismatch());
    match &handshake.event {
        ClientEvent::Connected { server_info, protocol_version, capabilities, instructions } => {
            assert_eq!(server_info, &Implementation::new("s", "1"));
            assert_eq!(protocol_version, "2025-03-26");
            assert!(capabilities.resources);
            assert!(!capabilities.resources_list_changed);
            assert!(!capabilities.resources_subscribe);
            assert!(!capabilities.tools);
            assert!(!capabilities.logging);
            assert_eq!(instructions, &Some("hello".to_string()));
        }
        other => panic!("unexpected: {:?}", other),
    }
    assert_eq!(
        wire(&JSONRPCMessage::Notification(handshake.notification)),
        value(r#"{"jsonrpc":"2.0","method":"notifications/initialized"}"#)
    );
}

#[test]
fn handshake_server_side() {
    let mut server = ServerBuilder::new()
        .with_implementation("s", "1")
        .with_logging(false)
        .with_resources(true)
        .with_instructions("hello")
        .build();
    server.start();
    server.add_connection("c1");
    let step = server
        .handle_message(
            "c1",
            message(
                r#"{"jsonrpc":"2.0","id":"init","method":"initialize","params":{"protocolVersion":"2025-03-26","clientInfo":{"name":"x","version":"1"},"capabilities":{"sampling":{},"roots":{"listChanged":true}}}}"#,
            ),
        )
        .unwrap();
    match step {
        ServerStep::Connected { reply, event } => {
            assert_eq!(wire(&reply), value(HELLO));
            match event {
                ServerEvent::ClientConnected { client_id, client_info, protocol_version, capabilities } => {
                    assert_eq!(client_id, "c1");
                    assert_eq!(client_info, Implementation::new("x", "1"));
                    assert_eq!(protocol_version, "2025-03-26");
                    assert!(capabilities.sampling && capabilities.roots && capabilities.roots_list_changed);
                }
                other => panic!("unexpected: {:?}", other),
            }
        }
        other => panic!("unexpected: {:?}", other),
    }
    let connection = server.connection("c1").unwrap();
    assert!(!connection.initialized);
    assert_eq!(connection.client_info, Some(Implementation::new("x", "1")));

    let step = server
        .handle_message("c1", message(r#"{"jsonrpc":"2.0","method":"notifications/initialized"}"#))
        .unwrap();
    assert_eq!(step, ServerStep::Initialized);
    assert!(server.connection("c1").unwrap().initialized);
}

#[test]
fn unknown_protocol_version_is_recorded_in_the_event() {
    let mut client = Client::new(options(30000));
    client.connect();
    client.initialize(0).unwrap();
    let hello = r#"{"jsonrpc":"2.0","id":"init","result":{"protocolVersion":"1999-01-01","serverInfo":{"name":"s","version":"1"},"capabilities":{}}}"#;
    let response = match client.handle_message(message(hello)).unwrap() {
        Inbound::Deliver { message, .. } => message,
        other => panic!("unexpected: {:?}", other),
    };
    let handshake = client.complete_initialize(response).unwrap();
    assert!(handshake.event.version_mismatch());
    assert!(!ClientEvent::ToolsChanged.version_mismatch());
    match handshake.event {
        ClientEvent::Connected { protocol_version, .. } => {
            assert_eq!(protocol_version, "1999-01-01");
            assert_ne!(protocol_version, mcpx::protocol::LATEST_PROTOCOL_VERSION);
        }
        other => panic!("unexpected: {:?}", other),
    }
    assert_eq!(client.connection_state(), ConnectionState::Initialized);
}

#[test]
fn server_accepts_an_unknown_protocol_version() {
    let mut server = Server::new(Default::default());
    server.start();
    server.add_connection("c1");
    let step = server
        .handle_message(
            "c1",
            message(
                r#"{"jsonrpc":"2.0","id":1,"method":"initialize","params":{"protocolVersion":"1999-01-01","clientInfo":{"name":"x","version":"1"},"capabilities":{}}}"#,
            ),
        )
        .unwrap();
    match step {
        ServerStep::Connected { reply, event } => {
            let reply = wire(&reply);
            assert_eq!(reply["result"]["protocolVersion"], "2025-03-26");
            assert_eq!(reply["result"]["capabilities"], value(r#"{"logging":{}}"#));
            assert!(reply["result"].get("instructions").is_none());
            match event {
                ServerEvent::ClientConnected { protocol_version, .. } => {
                    assert_eq!(protocol_version, "1999-01-01")
                }
                other => panic!("unexpected: {:?}", other),
            }
        }
        other => panic!("unexpected: {:?}", other),
    }
}

#[test]
fn list_changed_before_initialize_completes() {
    let mut client = Client::new(options(30000));
    client.connect();
    client.initialize(0).unwrap();
    for method in [
        "notifications/resources/list_changed",
        "notifications/prompts/list_changed",
        "notifications/tools/list_changed",
    ] {
        let text = format!(r#"{{"jsonrpc":"2.0","method":"{}"}}"#, method);
        let r = client.handle_message(message(&text));
        assert!(matches!(r, Err(Error::ProtocolError(_))), "{:?}", r);
    }
    // The session continues: the handshake can still complete.
    assert_eq!(client.connection_state(), ConnectionState::Initializing);
    assert!(client.is_pending(&RequestId::from_str("init")));
    let response = match client.handle_message(message(HELLO)).unwrap() {
        Inbound::Deliver { message, .. } => message,
        other => panic!("unexpected: {:?}", other),
    };
    assert!(client.complete_initialize(response).is_ok());
}

#[test]
fn list_changed_needs_the_advertised_capability() {
    let mut client = capable(r#"{"resources":{"listChanged":true},"tools":{"listChanged":false},"prompts":{}}"#);
    assert_eq!(
        client.handle_message(message(r#"{"jsonrpc":"2.0","method":"notifications/resources/list_changed"}"#)),
        Ok(Inbound::Emit { event: ClientEvent::ResourcesChanged })
    );
    assert!(matches!(
        client.handle_message(message(r#"{"jsonrpc":"2.0","method":"notifications/tools/list_changed"}"#)),
        Err(Error::ProtocolError(_))
    ));
    assert!(matches!(
        client.handle_message(message(r#"{"jsonrpc":"2.0","method":"notifications/prompts/list_changed"}"#)),
        Err(Error::ProtocolError(_))
    ));
}

#[test]
fn call_disabled() {
    let mut client = connected(30000, HELLO);
    let r = client.call_tool("x", None, 0);
    assert_eq!(r, Err(Error::UnsupportedFeature("Tools".to_string())));
    // Nothing was registered, so nothing is outstanding and nothing is sent.
    assert!(matches!(
        client.handle_message(message(r#"{"jsonrpc":"2.0","id":"any","result":{}}"#)),
        Err(Error::ProtocolError(_))
    ));
}

#[test]
fn every_gate_names_its_feature() {
    let mut client = capable("{}");
    assert_eq!(client.list_resources(0), Err(Error::UnsupportedFeature("Resources".to_string())));
    assert_eq!(client.list_resource_templates(0), Err(Error::UnsupportedFeature("Resources".to_string())));
    assert_eq!(client.read_resource("u", 0), Err(Error::UnsupportedFeature("Resources".to_string())));
    assert_eq!(
        client.subscribe_resource("u", 0),
        Err(Error::UnsupportedFeature("Resource subscriptions".to_string()))
    );
    assert_eq!(
        client.unsubscribe_resource("u", 0),
        Err(Error::UnsupportedFeature("Resource subscriptions".to_string()))
    );
    assert_eq!(client.list_prompts(0), Err(Error::UnsupportedFeature("Prompts".to_string())));
    assert_eq!(client.get_prompt("p", None, 0), Err(Error::UnsupportedFeature("Prompts".to_string())));
    assert_eq!(client.list_tools(0), Err(Error::UnsupportedFeature("Tools".to_string())));
    assert_eq!(
        client.set_logging_level(mcpx::protocol::logging::LoggingLevel::Info, 0),
        Err(Error::UnsupportedFeature("Logging".to_string()))
    );
    assert_eq!(
        client.get_completions(mcpx::client::CompletionReferenceType::Prompt, "p", "a", "v", 0),
        Err(Error::UnsupportedFeature("Completions".to_string()))
    );
    assert!(client.ping(0).is_ok());
    assert!(client.list_roots(0).is_ok());
}

#[test]
fn resource_subscription_needs_resources_too() {
    let mut client = capable(r#"{"resources":{"subscribe":true}}"#);
    let request = client.subscribe_resource("resource://a", 0).unwrap();
    assert_eq!(request.method, "resources/subscribe");
    let mut client = capable(r#"{"resources":{"subscribe":false}}"#);
    assert_eq!(
        client.subscribe_resource("resource://a", 0),
        Err(Error::UnsupportedFeature("Resource subscriptions".to_string()))
    );
}

#[test]
fn resource_update() {
    let mut client = capable(r#"{"resources":{"subscribe":true}}"#);
    let request = client.subscribe_resource("resource://a", 0).unwrap();
    let sent = wire(&JSONRPCMessage::Request(request.clone()));
    assert_eq!(sent["method"], "resources/subscribe");
    assert_eq!(sent["params"], value(r#"{"uri":"resource://a"}"#));

    let outcome = client
        .handle_message(message(
            r#"{"jsonrpc":"2.0","method":"notifications/resources/updated","params":{"uri":"resource://a"}}"#,
        ))
        .unwrap();
    assert_eq!(
        outcome,
        Inbound::Emit { event: ClientEvent::ResourceUpdated { uri: "resource://a".to_string() } }
    );
}

#[test]
fn tool_error() {
    let mut client = capable(r#"{"tools":{}}"#);
    let request = client.call_tool("search", None, 0).unwrap();
    assert_eq!(
        wire(&JSONRPCMessage::Request(request.clone()))["params"],
        value(r#"{"name":"search"}"#)
    );
    let id = match &request.id {
        RequestId::String(s) => s.clone(),
        other => panic!("unexpected: {:?}", other),
    };
    let response = format!(
        r#"{{"jsonrpc":"2.0","id":"{}","result":{{"content":[{{"type":"text","text":"boom"}}],"isError":true}}}}"#,
        id
    );
    let delivered = match client.handle_message(message(&response)).unwrap() {
        Inbound::Deliver { pending, message } => {
            assert_eq!(pending.method, "tools/call");
            message
        }
        other => panic!("unexpected: {:?}", other),
    };
    let result = Client::call_tool_result(delivered).unwrap();
    assert_eq!(result.is_error, Some(true));
    assert_eq!(result.content.len(), 1);
    match &result.content[0] {
        PromptContent::Text(text) => assert_eq!(text.text, "boom"),
        other => panic!("unexpected: {:?}", other),
    }
}

#[test]
fn timeout() {
    let mut client = connected(100, HELLO);
    let request = client.ping(1000).unwrap();
    assert!(client.is_pending(&request.id));
    // No response within 100 ms.
    let error = client.timeout_request(&request.id);
    assert_eq!(error, Some(Error::Timeout("Request timed out after 100 ms".to_string())));
    assert!(!client.is_pending(&request.id));
    // A late response is refused and changes nothing.
    let late = JSONRPCMessage::Response(mcpx::protocol::json_rpc::JSONRPCResponse::new(
        request.id.clone(),
        Json::empty_object(),
    ));
    assert!(matches!(client.handle_message(late), Err(Error::ProtocolError(_))));
    assert_eq!(client.timeout_request(&request.id), None);
}

#[test]
fn timeout_and_response_exclude_each_other() {
    let mut client = connected(100, HELLO);
    let request = client.ping(0).unwrap();
    let response = JSONRPCMessage::Response(mcpx::protocol::json_rpc::JSONRPCResponse::new(
        request.id.clone(),
        Json::empty_object(),
    ));
    // The response arrives first: it is delivered, and the timer finds nothing.
    assert!(matches!(client.handle_message(response.clone()), Ok(Inbound::Deliver { .. })));
    assert_eq!(client.timeout_request(&request.id), None);
    // A second response for the same id is not delivered again.
    assert!(matches!(client.handle_message(response), Err(Error::ProtocolError(_))));
}

#[test]
fn cancellation() {
    let mut client = connected(30000, HELLO);
    let request = JSONRPCRequest::new(RequestId::Integer(7), "ping", None);
    client.send_request(&request, 0).unwrap();
    assert!(client.is_pending(&RequestId::Integer(7)));

    let cancellation = client.cancel_request(RequestId::Integer(7), Some("user abort".to_string()));
    assert_eq!(
        wire(&JSONRPCMessage::Notification(cancellation.notification)),
        value(
            r#"{"jsonrpc":"2.0","method":"notifications/cancelled","params":{"requestId":7,"reason":"user abort"}}"#
        )
    );
    assert_eq!(cancellation.pending.map(|p| p.method), Some("ping".to_string()));
    assert_eq!(cancellation.error, Error::Cancelled("user abort".to_string()));
    assert!(!client.is_pending(&RequestId::Integer(7)));

    // Cancelling without a reason sends no reason, and an id that is not
    // outstanding has no waiter.
    let again = client.cancel_request(RequestId::Integer(7), None);
    assert_eq!(
        wire(&JSONRPCMessage::Notification(again.notification))["params"],
        value(r#"{"requestId":7}"#)
    );
    assert_eq!(again.pending, None);
    assert_eq!(again.error, Error::Cancelled(String::new()));
}

#[test]
fn request_id_collision() {
    let mut client = connected(30000, HELLO);
    let request = JSONRPCRequest::new(RequestId::from_str("dup"), "ping", None);
    assert_eq!(client.send_request(&request, 0), Ok(()));
    let r = client.send_request(&request, 5);
    assert!(matches!(r, Err(Error::InternalError(_))), "{:?}", r);
    // The first request is still outstanding, once.
    assert!(client.is_pending(&RequestId::from_str("dup")));
    let response = message(r#"{"jsonrpc":"2.0","id":"dup","result":{}}"#);
    assert!(matches!(client.handle_message(response.clone()), Ok(Inbound::Deliver { .. })));
    assert!(matches!(client.handle_message(response), Err(Error::ProtocolError(_))));
}

#[test]
fn requests_before_the_handshake_are_refused() {
    let mut client = Client::new(options(30000));
    assert_eq!(client.ping(0), Err(Error::NotInitialized));
    assert_eq!(client.list_tools(0), Err(Error::NotInitialized));
    client.connect();
    assert_eq!(client.ping(0), Err(Error::NotInitialized));
    client.initialize(0).unwrap();
    assert_eq!(client.ping(0), Err(Error::NotInitialized));
    assert_eq!(client.call_tool("x", None, 0), Err(Error::NotInitialized));
    let other = JSONRPCRequest::new(RequestId::Integer(1), "initialize", None);
    assert_eq!(client.send_request(&other, 0), Ok(()));
}

#[test]
fn disconnect_fails_every_outstanding_request() {
    let mut client = connected(30000, HELLO);
    let a = client.ping(0).unwrap();
    let b = client.list_resources(0).unwrap();
    let disconnection = client.disconnect("transport closed");
    assert_eq!(
        disconnection.event,
        ClientEvent::Disconnected { reason: "transport closed".to_string() }
    );
    assert_eq!(disconnection.error, Error::ConnectionClosed("transport closed".to_string()));
    let mut failed = disconnection.failed.clone();
    failed.sort_by_key(|id| format!("{:?}", id));
    let mut expected = vec![a.id.clone(), b.id.clone()];
    expected.sort_by_key(|id| format!("{:?}", id));
    assert_eq!(failed, expected);
    assert_eq!(client.connection_state(), ConnectionState::Disconnected);
    assert!(!client.is_pending(&a.id));
    assert!(!client.is_pending(&b.id));
    assert_eq!(client.ping(0), Err(Error::NotInitialized));
    assert!(client.disconnect("again").failed.is_empty());
}
