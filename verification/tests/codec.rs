use mcpx::error::Error;
use mcpx::json::{found_members, Json, Number};
use mcpx::protocol::annotations::Annotations;
use mcpx::protocol::completion::{CompleteRequest, CompleteResult, CompletionReference};
use mcpx::protocol::json_rpc::error_codes;
use mcpx::protocol::json_rpc::{
    JSONRPCBatchRequestItem, JSONRPCBatchResponseItem, JSONRPCError, JSONRPCMessage,
    JSONRPCNotification, JSONRPCRequest, JSONRPCResponse,
};
use mcpx::protocol::logging::{
    alert, critical, debug, emergency, error, info, notice, warning, LoggingLevel,
    LoggingMessageNotification, SetLevelRequest,
};
use mcpx::protocol::messages::{
    CancelledNotification, EmptyResult, NotificationImpl, NotificationMeta, NotificationParams,
    PaginatedRequest, PaginatedResult, ProgressNotification, RequestImpl, RequestMeta,
    RequestParams, ResultMeta,
};
use mcpx::protocol::prompts::{GetPromptRequest, ListPromptsRequest, PromptContent, PromptMessage};
use mcpx::protocol::resources::{
    EmbeddedResource, ListResourcesRequest, ListResourcesResult, ReadResourceRequest, Resource,
    ResourceContent, ResourceListChangedNotification, ResourceTemplate, SubscribeRequest,
    TextResourceContents,
};
use mcpx::protocol::roots::{ListRootsResult, Root};
use mcpx::protocol::sampling::{
    ContentType, CreateMessageRequest, IncludeContext, ModelHint, ModelPreferences,
    SamplingMessage, TextContent,
};
use mcpx::protocol::tools::{CallToolResult, Tool, ToolAnnotations};
use mcpx::protocol::wire::{list_from_json, list_to_json, Wire};
use mcpx::protocol::{Implementation, ProgressToken, RequestId, Role};

fn from_value(v: &serde_json::Value) -> Json {
    match v {
        serde_json::Value::Null => Json::Null,
        serde_json::Value::Bool(b) => Json::Bool(*b),
        serde_json::Value::Number(n) => {
            if let Some(u) = n.as_u64() {
                Json::Number(Number::PosInt(u))
            } else if let Some(i) = n.as_i64() {
                Json::Number(Number::NegInt(i))
            } else {
                Json::Number(Number::Float(n.as_f64().unwrap().to_bits()))
            }
        }
        serde_json::Value::String(s) => Json::Str(s.clone()),
        serde_json::Value::Array(items) => Json::Array(items.iter().map(from_value).collect()),
        serde_json::Value::Object(members) => {
            Json::Object(members.iter().map(|(k, v)| (k.clone(), from_value(v))).collect())
        }
    }
}

fn to_value(j: &Json) -> serde_json::Value {
    match j {
        Json::Null => serde_json::Value::Null,
        Json::Bool(b) => serde_json::Value::Bool(*b),
        Json::Number(Number::PosInt(u)) => serde_json::Value::from(*u),
        Json::Number(Number::NegInt(i)) => serde_json::Value::from(*i),
        Json::Number(Number::Float(bits)) => serde_json::Value::from(f64::from_bits(*bits)),
        Json::Str(s) => serde_json::Value::String(s.clone()),
        Json::Array(items) => serde_json::Value::Array(items.iter().map(to_value).collect()),
        Json::Object(members) => {
            let mut map = serde_json::Map::new();
            for (k, v) in members {
                map.insert(k.clone(), to_value(v));
            }
            serde_json::Value::Object(map)
        }
    }
}

fn value(text: &str) -> serde_json::Value {
    serde_json::from_str(text).unwrap()
}

fn json(text: &str) -> Json {
    from_value(&value(text))
}

fn decode(text: &str) -> Result<JSONRPCMessage, Error> {
    JSONRPCMessage::decode(&json(text))
}

#[test]
fn request_round_trip() {
    let request = JSONRPCRequest::new(RequestId::Integer(7), "ping", None);
    let wire = request.encode();
    let back = JSONRPCMessage::decode(&wire).unwrap();
    assert_eq!(back, JSONRPCMessage::Request(request));
    assert!(matches!(wire, Json::Object(_)));
}

#[test]
fn every_kind_of_envelope_round_trips() {
    let params = json(r#"{"uri": "resource://a", "n": [1, -2, 3.5, null]}"#);
    let messages = vec![
        JSONRPCMessage::Request(JSONRPCRequest::new(
            RequestId::from_str("a"),
            "resources/read",
            Some(params.clone()),
        )),
        JSONRPCMessage::Request(JSONRPCRequest::new(RequestId::Integer(-3), "ping", None)),
        JSONRPCMessage::Notification(JSONRPCNotification::new("notifications/initialized", None)),
        JSONRPCMessage::Notification(JSONRPCNotification::new("n", Some(json("[1]")))),
        JSONRPCMessage::Response(JSONRPCResponse::new(RequestId::Integer(1), Json::Null)),
        JSONRPCMessage::Response(JSONRPCResponse::new(RequestId::from_str("r"), params.clone())),
        JSONRPCMessage::Error(JSONRPCError::new(
            RequestId::Integer(i64::MIN),
            error_codes::METHOD_NOT_FOUND,
            "Method not found",
            None,
        )),
        JSONRPCMessage::Error(JSONRPCError::new(
            RequestId::Integer(i64::MAX),
            i32::MIN,
            "",
            Some(params.clone()),
        )),
        JSONRPCMessage::BatchRequest(vec![
            JSONRPCBatchRequestItem::Notification(JSONRPCNotification::new("n", None)),
            JSONRPCBatchRequestItem::Request(JSONRPCRequest::new(RequestId::Integer(1), "m", None)),
        ]),
        JSONRPCMessage::BatchResponse(vec![
            JSONRPCBatchResponseItem::Response(JSONRPCResponse::new(
                RequestId::Integer(1),
                Json::Bool(true),
            )),
            JSONRPCBatchResponseItem::Error(JSONRPCError::new(RequestId::Integer(2), -1, "e", None)),
        ]),
        JSONRPCMessage::BatchResponse(Vec::new()),
    ];
    for message in messages {
        let wire = message.encode();
        assert_eq!(JSONRPCMessage::decode(&wire), Ok(message.clone()), "{:?}", message);
        // Encoding what was decoded gives the same document.
        assert_eq!(JSONRPCMessage::decode(&wire).unwrap().encode(), wire);
    }
}

#[test]
fn encode_after_decode_gives_the_wire_up_to_member_order() {
    for text in [
        r#"{"method":"tools/call","params":{"name":"x"},"id":"q","jsonrpc":"2.0"}"#,
        r#"{"params":[],"method":"n","jsonrpc":"2.0"}"#,
        r#"{"result":{"b":1,"a":2},"jsonrpc":"2.0","id":5}"#,
        r#"{"error":{"message":"m","data":{"x":1},"code":-32000},"id":5,"jsonrpc":"2.0"}"#,
        r#"[{"id":1,"method":"a","jsonrpc":"2.0"},{"method":"b","jsonrpc":"2.0"}]"#,
    ] {
        let message = decode(text).unwrap();
        assert_eq!(to_value(&message.encode()), value(text), "{}", text);
    }
}

#[test]
fn encoding_writes_the_members_in_order_and_no_null() {
    let request = JSONRPCRequest::new(RequestId::from_str("init"), "initialize", None);
    assert_eq!(
        request.encode(),
        Json::Object(vec![
            ("jsonrpc".to_string(), Json::string("2.0")),
            ("id".to_string(), Json::string("init")),
            ("method".to_string(), Json::string("initialize")),
        ])
    );
    let error = JSONRPCError::new(RequestId::Integer(1), -32601, "nope", None);
    assert_eq!(
        to_value(&error.encode()),
        value(r#"{"jsonrpc":"2.0","id":1,"error":{"code":-32601,"message":"nope"}}"#)
    );
}

#[test]
fn the_keys_decide_the_kind() {
    assert!(matches!(decode(r#"{"jsonrpc":"2.0","id":1,"method":"m"}"#), Ok(JSONRPCMessage::Request(_))));
    assert!(matches!(decode(r#"{"jsonrpc":"2.0","method":"m"}"#), Ok(JSONRPCMessage::Notification(_))));
    assert!(matches!(
        decode(r#"{"jsonrpc":"2.0","id":null,"method":"m"}"#),
        Ok(JSONRPCMessage::Notification(_))
    ));
    assert!(matches!(decode(r#"{"jsonrpc":"2.0","id":1,"result":null}"#), Ok(JSONRPCMessage::Response(_))));
    assert!(matches!(
        decode(r#"{"jsonrpc":"2.0","id":1,"error":{"code":1,"message":"m"}}"#),
        Ok(JSONRPCMessage::Error(_))
    ));
    // `method` wins over `result`, and `result` over `error`.
    assert!(matches!(
        decode(r#"{"jsonrpc":"2.0","id":1,"method":"m","result":1}"#),
        Ok(JSONRPCMessage::Request(_))
    ));
    assert!(matches!(
        decode(r#"{"jsonrpc":"2.0","id":1,"result":1,"error":{"code":1,"message":"m"}}"#),
        Ok(JSONRPCMessage::Response(_))
    ));
    // Unknown members are passed over, and a null in place of the parameters is none.
    assert_eq!(
        decode(r#"{"jsonrpc":"2.0","id":1,"method":"m","params":null,"extra":true}"#),
        Ok(JSONRPCMessage::Request(JSONRPCRequest::new(RequestId::Integer(1), "m", None)))
    );
}

#[test]
fn what_is_no_envelope_is_a_protocol_error() {
    for text in [
        "{}",
        "1",
        "\"text\"",
        "null",
        r#"{"jsonrpc":"2.0"}"#,
        r#"{"jsonrpc":"2.0","id":1}"#,
        r#"{"jsonrpc":"1.0","id":1,"method":"m"}"#,
        r#"{"id":1,"method":"m"}"#,
        r#"{"jsonrpc":2.0,"method":"m"}"#,
        r#"{"jsonrpc":"2.0","id":1,"result":1,"x":[]}"#.replace("\"jsonrpc\":\"2.0\",", "").as_str(),
        "[[]]",
        r#"[{"jsonrpc":"2.0","id":1,"method":"m"},{"jsonrpc":"2.0","id":1,"result":1}]"#,
        r#"[{"jsonrpc":"2.0","method":"m"}]"#,
        r#"[{"jsonrpc":"2.0","method":"m"},{"jsonrpc":"2.0","id":1,"result":1}]"#,
    ] {
        let r = decode(text);
        assert!(matches!(r, Err(Error::ProtocolError(_))), "{} gave {:?}", text, r);
    }
}

#[test]
fn a_member_of_the_wrong_type_is_a_parse_error() {
    for text in [
        r#"{"jsonrpc":"2.0","id":1,"method":5}"#,
        r#"{"jsonrpc":"2.0","id":true,"method":"m"}"#,
        r#"{"jsonrpc":"2.0","id":1.5,"method":"m"}"#,
        r#"{"jsonrpc":"2.0","id":18446744073709551615,"method":"m"}"#,
        r#"{"jsonrpc":"2.0","method":[]}"#,
        r#"{"jsonrpc":"2.0","result":1}"#,
        r#"{"jsonrpc":"2.0","id":{},"result":1}"#,
        r#"{"jsonrpc":"2.0","id":1,"error":"boom"}"#,
        r#"{"jsonrpc":"2.0","id":1,"error":{"code":"x","message":"m"}}"#,
        r#"{"jsonrpc":"2.0","id":1,"error":{"code":2147483648,"message":"m"}}"#,
        r#"{"jsonrpc":"2.0","id":1,"error":{"code":1}}"#,
        r#"{"jsonrpc":"1.0","id":1,"method":5}"#,
        r#"[{"jsonrpc":"2.0","id":1,"method":"m"},{"jsonrpc":"2.0","id":1,"method":5}]"#,
    ] {
        let r = decode(text);
        assert!(matches!(r, Err(Error::ParseError(_))), "{} gave {:?}", text, r);
    }
}

#[test]
fn the_first_element_that_cannot_be_read_decides_the_error_of_a_batch() {
    let r = decode(r#"[{"jsonrpc":"2.0","method":5},{}]"#);
    assert!(matches!(r, Err(Error::ParseError(_))), "{:?}", r);
    let r = decode(r#"[{},{"jsonrpc":"2.0","method":5}]"#);
    assert!(matches!(r, Err(Error::ProtocolError(_))), "{:?}", r);
}

#[test]
fn ids_and_tokens() {
    assert_eq!(RequestId::from_json(&json("\"a\"")), Ok(RequestId::from_str("a")));
    assert_eq!(RequestId::from_json(&json("-5")), Ok(RequestId::from_i64(-5)));
    assert_eq!(RequestId::from_json(&json("9223372036854775807")), Ok(RequestId::Integer(i64::MAX)));
    assert!(matches!(RequestId::from_json(&json("9223372036854775808")), Err(Error::ParseError(_))));
    assert!(matches!(RequestId::from_json(&json("1.0")), Err(Error::ParseError(_))));
    assert!(matches!(RequestId::from_json(&json("null")), Err(Error::ParseError(_))));
    assert_eq!(RequestId::Integer(-1).to_json(), Json::Number(Number::NegInt(-1)));
    assert_eq!(RequestId::Integer(0).to_json(), Json::Number(Number::PosInt(0)));
    assert!(RequestId::from_str("a").same(&RequestId::from_str("a")));
    assert!(!RequestId::from_str("1").same(&RequestId::Integer(1)));
    assert_eq!(RequestId::Integer(4).duplicate(), RequestId::Integer(4));
    let token = ProgressToken::from_json(&json("\"t\"")).unwrap();
    assert_eq!(token.to_request_id(), RequestId::from_str("t"));
    assert_eq!(token.duplicate().to_json(), Json::string("t"));
}

#[test]
fn numbers() {
    assert_eq!(Number::from_i64(5), Number::PosInt(5));
    assert_eq!(Number::from_i64(-5), Number::NegInt(-5));
    assert_eq!(Number::PosInt(u64::MAX).as_i64(), None);
    assert_eq!(Number::PosInt(i64::MAX as u64).as_i64(), Some(i64::MAX));
    assert_eq!(Number::NegInt(i64::MIN).as_i64(), Some(i64::MIN));
    assert_eq!(Number::Float(1.5f64.to_bits()).as_i64(), None);
}

#[test]
fn json_accessors() {
    let doc = json(r#"{"s":"x","b":true,"i":-3,"n":null,"a":[1],"o":{"k":1},"s2":"y"}"#);
    assert_eq!(doc.get_str("s"), Some("x"));
    assert_eq!(doc.get_str("b"), None);
    assert_eq!(doc.opt_str("n"), Some(None));
    assert_eq!(doc.opt_str("missing"), Some(None));
    assert_eq!(doc.opt_str("s"), Some(Some("x".to_string())));
    assert_eq!(doc.opt_str("b"), None);
    assert_eq!(doc.opt_bool("b"), Some(Some(true)));
    assert_eq!(doc.opt_bool("s"), None);
    assert_eq!(doc.opt_i64("i"), Some(Some(-3)));
    assert_eq!(doc.opt_i64("s"), None);
    assert_eq!(doc.opt_number("i"), Some(Some(Number::NegInt(-3))));
    assert_eq!(doc.get_array("a").map(|a| a.len()), Some(1));
    assert!(doc.get("n").unwrap().is_null());
    assert!(doc.get_present("n").is_none());
    assert!(doc.get("o").unwrap().is_object());
    assert_eq!(doc.get("o").unwrap().as_object().map(|m| m.len()), Some(1));
    assert_eq!(doc.get("a").unwrap().get("x"), None);
    assert_eq!(doc.duplicate(), doc);
    assert_eq!(doc.clone(), doc);
    // The first member with a key is the one that is found.
    let twice = Json::Object(vec![
        ("k".to_string(), Json::integer(1)),
        ("k".to_string(), Json::integer(2)),
    ]);
    assert_eq!(twice.get("k"), Some(&Json::integer(1)));
}

#[test]
fn resource_codec() {
    let resource = Resource::with_description("file:///a", "a", "the file a")
        .with_mime_type("text/plain")
        .with_annotations(Annotations::with_audience(vec![Role::User, Role::Assistant]))
        .with_size(12);
    let wire = resource.to_json();
    assert_eq!(
        to_value(&wire),
        value(
            r#"{"uri":"file:///a","name":"a","description":"the file a","mimeType":"text/plain","annotations":{"audience":["user","assistant"]},"size":12}"#
        )
    );
    assert_eq!(Resource::from_json(&wire), Ok(resource));
    assert_eq!(to_value(&Resource::new("u", "n").to_json()), value(r#"{"uri":"u","name":"n"}"#));
    assert_eq!(Resource::from_json(&json(r#"{"uri":"u","name":"n","size":null}"#)), Ok(Resource::new("u", "n")));
    assert_eq!(Resource::default(), Resource::new("", ""));
    for bad in [
        r#"{"uri":"u"}"#,
        r#"{"uri":1,"name":"n"}"#,
        r#"{"uri":"u","name":"n","size":"big"}"#,
        r#"{"uri":"u","name":"n","annotations":{"audience":["nobody"]}}"#,
        r#"[]"#,
    ] {
        assert!(matches!(Resource::from_json(&json(bad)), Err(Error::ParseError(_))), "{}", bad);
    }
    let template = ResourceTemplate::with_description("file:///{path}", "files", "all files").with_mime_type("text/plain");
    assert_eq!(ResourceTemplate::from_json(&template.to_json()), Ok(template.clone()));
    assert_eq!(to_value(&template.to_json())["uriTemplate"], "file:///{path}");
}

#[test]
fn resource_content_is_told_apart_by_its_members() {
    let text = json(r#"{"uri":"u","text":"t","mimeType":"text/plain"}"#);
    assert_eq!(
        ResourceContent::from_json(&text),
        Ok(ResourceContent::Text(TextResourceContents::with_mime_type("u", "t", "text/plain")))
    );
    let blob = json(r#"{"uri":"u","blob":"AAAA"}"#);
    assert!(matches!(ResourceContent::from_json(&blob), Ok(ResourceContent::Blob(_))));
    assert_eq!(
        ResourceContent::from_json(&json(r#"{"uri":"u"}"#)),
        Err(Error::ParseError("Unknown resource content type".to_string()))
    );
    assert!(matches!(ResourceContent::from_json(&json(r#"{"text":"t"}"#)), Err(Error::ParseError(_))));
}

#[test]
fn content_is_strict_or_lenient_about_unknown_kinds() {
    let known = json(r#"{"type":"text","text":"hi"}"#);
    let unknown = json(r#"{"type":"video","data":"..."}"#);
    let untyped = json(r#"{"text":"hi"}"#);
    let broken = json(r#"{"type":"image","data":"..."}"#);
    assert_eq!(PromptContent::from_json(&known), Ok(PromptContent::Text(TextContent::new("hi"))));
    assert!(matches!(PromptContent::from_json(&unknown), Err(Error::ParseError(_))));
    assert!(matches!(PromptContent::from_json(&untyped), Err(Error::ParseError(_))));
    assert!(matches!(PromptContent::from_json(&broken), Err(Error::ParseError(_))));
    assert_eq!(PromptContent::from_json_lenient(&known), Ok(PromptContent::Text(TextContent::new("hi"))));
    assert_eq!(PromptContent::from_json_lenient(&unknown), Ok(PromptContent::Opaque(unknown.clone())));
    assert_eq!(PromptContent::from_json_lenient(&untyped), Ok(PromptContent::Opaque(untyped.clone())));
    assert!(matches!(PromptContent::from_json_lenient(&broken), Err(Error::ParseError(_))));
    assert_eq!(PromptContent::Opaque(unknown.clone()).to_json(), unknown);
    let embedded = PromptContent::Resource(EmbeddedResource::text("u", "t"));
    assert_eq!(
        to_value(&embedded.to_json()),
        value(r#"{"type":"resource","resource":{"uri":"u","text":"t"}}"#)
    );
    assert_eq!(PromptContent::from_json(&embedded.to_json()), Ok(embedded));
    assert!(matches!(ContentType::from_json(&json(r#"{"type":"resource"}"#)), Err(Error::ParseError(_))));
}

#[test]
fn prompt_messages_hold_role_and_content() {
    let message = PromptMessage { role: Role::Assistant, content: PromptContent::Text(TextContent::new("hi")) };
    assert_eq!(
        to_value(&message.to_json()),
        value(r#"{"role":"assistant","content":{"type":"text","text":"hi"}}"#)
    );
    assert_eq!(PromptMessage::from_json(&message.to_json()), Ok(message));
    assert_eq!(Role::parse("user"), Some(Role::User));
    assert_eq!(Role::parse("User"), None);
    assert_eq!(Role::Assistant.as_str(), "assistant");
}

#[test]
fn tool_codec() {
    let tool = Tool::new("search", "searches")
        .with_schema(json(r#"{"q":{"type":"string"}}"#), vec!["q".to_string()])
        .with_annotations(ToolAnnotations::new().with_title("Search").read_only().destructive(false).idempotent(true).open_world(true));
    assert_eq!(
        to_value(&tool.to_json()),
        value(
            r#"{"name":"search","description":"searches","inputSchema":{"type":"object","properties":{"q":{"type":"string"}},"required":["q"]},"annotations":{"title":"Search","readOnlyHint":true,"destructiveHint":false,"idempotentHint":true,"openWorldHint":true}}"#
        )
    );
    assert_eq!(Tool::from_json(&tool.to_json()), Ok(tool));
    let result = CallToolResult::from_json(&json(r#"{"content":[],"isError":false}"#)).unwrap();
    assert_eq!(result.is_error, Some(false));
    assert!(matches!(CallToolResult::from_json(&json(r#"{"isError":false}"#)), Err(Error::ParseError(_))));
    assert!(matches!(CallToolResult::from_json(&json(r#"{"content":{}}"#)), Err(Error::ParseError(_))));
}

#[test]
fn typed_requests_carry_their_method() {
    assert_eq!(to_value(&ListResourcesRequest::new().to_json()), value(r#"{"method":"resources/list"}"#));
    assert_eq!(
        to_value(&ListResourcesRequest::with_cursor("c").to_json()),
        value(r#"{"method":"resources/list","params":{"cursor":"c"}}"#)
    );
    assert_eq!(
        to_value(&ReadResourceRequest::new("u").to_json()),
        value(r#"{"method":"resources/read","params":{"uri":"u"}}"#)
    );
    assert_eq!(SubscribeRequest::new("u").method, "resources/subscribe");
    assert_eq!(ListPromptsRequest::with_cursor("c").params.unwrap().cursor, Some("c".to_string()));
    assert_eq!(
        to_value(&GetPromptRequest::with_arguments("p", &vec![("a".to_string(), "1".to_string())]).to_json()),
        value(r#"{"method":"prompts/get","params":{"name":"p","arguments":{"a":"1"}}}"#)
    );
    assert_eq!(
        to_value(&SetLevelRequest::new(LoggingLevel::Warning).to_json()),
        value(r#"{"method":"logging/setLevel","params":{"level":"warning"}}"#)
    );
    assert_eq!(
        to_value(&CompleteRequest::for_prompt("p", "a", "v").to_json()),
        value(
            r#"{"method":"completion/complete","params":{"ref":{"type":"ref/prompt","name":"p"},"argument":{"name":"a","value":"v"}}}"#
        )
    );
    match CompleteRequest::for_resource("u", "a", "v").params.ref_type {
        CompletionReference::Resource(r) => assert_eq!((r.kind.as_str(), r.uri.as_str()), ("ref/resource", "u")),
        other => panic!("unexpected: {:?}", other),
    }
    assert_eq!(
        to_value(&CancelledNotification::with_reason(RequestId::Integer(7), "user abort").to_json()),
        value(r#"{"method":"notifications/cancelled","params":{"requestId":7,"reason":"user abort"}}"#)
    );
    assert_eq!(CancelledNotification::new(RequestId::Integer(7)).params.reason, None);
    assert_eq!(
        to_value(
            &ProgressNotification::with_total_and_message(
                ProgressToken::Integer(1),
                Number::Float(0.5f64.to_bits()),
                Number::PosInt(2),
                "half"
            )
            .to_json()
        ),
        value(
            r#"{"method":"notifications/progress","params":{"progressToken":1,"progress":0.5,"total":2,"message":"half"}}"#
        )
    );
    assert_eq!(
        to_value(&RequestImpl::with_progress_token("m", ProgressToken::String("t".to_string())).to_json()),
        value(r#"{"method":"m","params":{"progressToken":"t"}}"#)
    );
    assert_eq!(
        to_value(&CompleteResult::with_pagination(vec!["a".to_string()], 10, true).to_json()),
        value(r#"{"completion":{"values":["a"],"total":10,"hasMore":true}}"#)
    );
    let request = CreateMessageRequest::new(vec![SamplingMessage::text(Role::User, "hi")], 100);
    assert_eq!(
        to_value(&request.to_json()),
        value(
            r#"{"method":"sampling/createMessage","params":{"messages":[{"role":"user","content":{"type":"text","text":"hi"}}],"maxTokens":100}}"#
        )
    );
    assert_eq!(CreateMessageRequest::from_json(&request.to_json()), Ok(request));
}

#[test]
fn logging_levels() {
    let levels = [
        (LoggingLevel::Emergency, "emergency", 0),
        (LoggingLevel::Alert, "alert", 1),
        (LoggingLevel::Critical, "critical", 2),
        (LoggingLevel::Error, "error", 3),
        (LoggingLevel::Warning, "warning", 4),
        (LoggingLevel::Notice, "notice", 5),
        (LoggingLevel::Info, "info", 6),
        (LoggingLevel::Debug, "debug", 7),
    ];
    for (i, (level, name, severity)) in levels.iter().enumerate() {
        assert_eq!(level.as_severity(), *severity);
        assert_eq!(level.as_str(), *name);
        assert_eq!(LoggingLevel::parse(name), Some(*level));
        assert_eq!(LoggingLevel::from_json(&Json::string(name)), Ok(*level));
        for (j, (other, _, _)) in levels.iter().enumerate() {
            assert_eq!(level.is_at_least_as_severe_as(other), i <= j);
        }
    }
    assert_eq!(LoggingLevel::parse("fatal"), None);
    assert!(LoggingLevel::Emergency.is_at_least_as_severe_as(&LoggingLevel::Debug));
    assert!(!LoggingLevel::Debug.is_at_least_as_severe_as(&LoggingLevel::Emergency));
    assert_eq!(debug("m"), LoggingMessageNotification::new_text(LoggingLevel::Debug, "m"));
    assert_eq!(info("m").params.level, LoggingLevel::Info);
    assert_eq!(notice("m").params.level, LoggingLevel::Notice);
    assert_eq!(warning("m").params.level, LoggingLevel::Warning);
    assert_eq!(error("m").params.level, LoggingLevel::Error);
    assert_eq!(critical("m").params.level, LoggingLevel::Critical);
    assert_eq!(alert("m").params.level, LoggingLevel::Alert);
    assert_eq!(emergency("m").params.data, Json::string("m"));
    assert_eq!(
        to_value(&LoggingMessageNotification::new_structured_with_logger(LoggingLevel::Info, "db", json(r#"{"rows":3}"#)).to_json()),
        value(r#"{"method":"notifications/message","params":{"level":"info","logger":"db","data":{"rows":3}}}"#)
    );
    assert_eq!(LoggingMessageNotification::new_text_with_logger(LoggingLevel::Info, "db", "m").params.logger, Some("db".to_string()));
}

#[test]
fn roots_and_models() {
    assert!(Root::new("file:///home").is_valid());
    assert!(Root::with_name("file://", "empty").is_valid());
    assert!(!Root::new("http://example.com").is_valid());
    assert!(!Root::new("file:/").is_valid());
    assert!(!Root::new("").is_valid());
    assert_eq!(ListRootsResult::with_single_root("file:///a"), ListRootsResult::new(vec![Root::new("file:///a")]));
    assert_eq!(IncludeContext::parse("thisServer"), Some(IncludeContext::ThisServer));
    assert_eq!(IncludeContext::NoServers.as_str(), "none");
    assert_eq!(IncludeContext::AllServers.as_str(), "allServers");
    let mut preferences = ModelPreferences::new();
    preferences.add_hint(ModelHint::new("a"));
    preferences.add_hint(ModelHint::new("b"));
    assert_eq!(preferences.hints, Some(vec![ModelHint::new("a"), ModelHint::new("b")]));
    assert_eq!(ModelHint::new("a").additional, Vec::new());
    let mut annotations = Annotations::new();
    annotations.add_audience(Role::User);
    annotations.add_audience(Role::Assistant);
    assert_eq!(annotations, Annotations::with_audience(vec![Role::User, Role::Assistant]));
    assert_eq!(Implementation::new("a", "1").duplicate(), Implementation::new("a", "1"));
}

#[test]
fn lists() {
    let roots = vec![Root::new("file:///a"), Root::with_name("file:///b", "b")];
    let wire = list_to_json(&roots);
    assert_eq!(to_value(&wire), value(r#"[{"uri":"file:///a"},{"uri":"file:///b","name":"b"}]"#));
    assert_eq!(list_from_json::<Root>(&wire), Ok(roots));
    assert!(matches!(list_from_json::<Root>(&json(r#"[{"uri":"a"},{"name":"b"}]"#)), Err(Error::ParseError(_))));
    assert!(matches!(list_from_json::<Root>(&json(r#"{"uri":"a"}"#)), Err(Error::ParseError(_))));
    assert_eq!(list_from_json::<String>(&json("[]")), Ok(Vec::new()));
    assert_eq!(i32::from_json(&json("-2147483648")), Ok(i32::MIN));
    assert!(matches!(i32::from_json(&json("2147483648")), Err(Error::ParseError(_))));
    assert_eq!(bool::from_json(&json("true")), Ok(true));
    assert!(matches!(i64::from_json(&json("1.5")), Err(Error::ParseError(_))));
}

#[test]
fn errors_carry_their_message() {
    assert_eq!(Error::NotInitialized.message(), "Not initialized");
    assert_eq!(Error::Timeout("t".to_string()).message(), "t");
    assert_eq!(Error::ServerError(-1, "s".to_string(), None).message(), "s");
    assert_eq!(Error::parse("p"), Error::ParseError("p".to_string()));
    assert_eq!(Error::protocol("p"), Error::ProtocolError("p".to_string()));
    assert_eq!(Error::internal("p"), Error::InternalError("p".to_string()));
    assert_eq!(Error::unsupported("p"), Error::UnsupportedFeature("p".to_string()));
    for e in [
        Error::InternalError("m".to_string()),
        Error::TransportError("m".to_string()),
        Error::AuthError("m".to_string()),
        Error::ConfigError("m".to_string()),
        Error::ConnectionClosed("m".to_string()),
        Error::JsonError("m".to_string()),
        Error::IoError("m".to_string()),
        Error::UrlError("m".to_string()),
        Error::Cancelled("m".to_string()),
    ] {
        assert_eq!(e.message(), "m");
    }
}

#[test]
fn errors_are_written_out_with_their_kind() {
    assert_eq!(Error::InternalError("m".to_string()).describe(), "Internal error: m");
    assert_eq!(Error::TransportError("m".to_string()).describe(), "Transport error: m");
    assert_eq!(Error::ProtocolError("m".to_string()).describe(), "Protocol error: m");
    assert_eq!(Error::ParseError("m".to_string()).describe(), "Parse error: m");
    assert_eq!(Error::AuthError("m".to_string()).describe(), "Authentication error: m");
    assert_eq!(Error::ConfigError("m".to_string()).describe(), "Configuration error: m");
    assert_eq!(Error::ServerError(-32601, "m".to_string(), None).describe(), "Server error -32601: m");
    assert_eq!(Error::ServerError(0, "m".to_string(), None).describe(), "Server error 0: m");
    assert_eq!(
        Error::ServerError(i32::MIN, "m".to_string(), None).describe(),
        "Server error -2147483648: m"
    );
    assert_eq!(Error::Timeout("m".to_string()).describe(), "Timeout: m");
    assert_eq!(Error::UnsupportedFeature("m".to_string()).describe(), "Unsupported feature: m");
    assert_eq!(Error::NotInitialized.describe(), "Not initialized");
    assert_eq!(Error::ConnectionClosed("m".to_string()).describe(), "Connection closed: m");
    assert_eq!(Error::JsonError("m".to_string()).describe(), "JSON error: m");
    assert_eq!(Error::IoError("m".to_string()).describe(), "IO error: m");
    assert_eq!(Error::UrlError("m".to_string()).describe(), "Invalid URL: m");
    assert_eq!(Error::Cancelled("m".to_string()).describe(), "Cancelled: m");
}

#[test]
fn ids_from_plain_values() {
    assert_eq!(RequestId::from("a".to_string()), RequestId::String("a".to_string()));
    assert_eq!(RequestId::from(-7i64), RequestId::Integer(-7));
    assert_eq!(RequestId::from(-7i32), RequestId::Integer(-7));
    assert_eq!(RequestId::from(7u32), RequestId::Integer(7));
    let id: RequestId = u32::MAX.into();
    assert_eq!(id, RequestId::Integer(4294967295));
}

#[test]
fn typed_requests_become_envelopes() {
    let request = JSONRPCRequest::from_request(RequestId::Integer(1), &ReadResourceRequest::new("u"));
    assert_eq!(request, JSONRPCRequest::new(RequestId::Integer(1), "resources/read", Some(json(r#"{"uri":"u"}"#))));
    let request = JSONRPCRequest::from_request(RequestId::Integer(2), &ListResourcesRequest::new());
    assert_eq!(request, JSONRPCRequest::new(RequestId::Integer(2), "resources/list", None));
    let request = JSONRPCRequest::from_request(RequestId::Integer(3), &ListResourcesRequest::with_cursor("c"));
    assert_eq!(request.params.as_ref().map(to_value), Some(value(r#"{"cursor":"c"}"#)));
    let request = JSONRPCRequest::from_request(RequestId::Integer(4), &RequestImpl::with_params("m", json("[1]")));
    assert_eq!(request, JSONRPCRequest::new(RequestId::Integer(4), "m", Some(json("[1]"))));
    let request = JSONRPCRequest::from_request(RequestId::Integer(5), &PaginatedRequest::with_cursor("m", "c"));
    assert_eq!(request.params.as_ref().map(to_value), Some(value(r#"{"cursor":"c"}"#)));
    assert_eq!(PaginatedRequest::new("m").params, None);

    let notification = JSONRPCNotification::from_notification(&CancelledNotification::new(RequestId::Integer(7)));
    assert_eq!(
        to_value(&notification.encode()),
        value(r#"{"jsonrpc":"2.0","method":"notifications/cancelled","params":{"requestId":7}}"#)
    );
    let notification = JSONRPCNotification::from_notification(&ResourceListChangedNotification::new());
    assert_eq!(notification, JSONRPCNotification::new("notifications/resources/list_changed", None));
    let notification = JSONRPCNotification::from_notification(&NotificationImpl::new("n"));
    assert_eq!(notification, JSONRPCNotification::new("n", None));

    let response = JSONRPCResponse::from_result(
        RequestId::Integer(1),
        &ListResourcesResult::with_next_cursor(vec![Resource::new("u", "n")], "c"),
    );
    assert_eq!(
        to_value(&response.encode()),
        value(r#"{"jsonrpc":"2.0","id":1,"result":{"resources":[{"uri":"u","name":"n"}],"nextCursor":"c"}}"#)
    );
    let response = JSONRPCResponse::from_result(RequestId::Integer(1), &EmptyResult::new());
    assert_eq!(to_value(&response.encode())["result"], value("{}"));

    // Parameters and results with members of their own.
    let mut params = RequestParams::new();
    params.add("b", &2i64);
    params.add("a", &"x".to_string());
    params.add("b", &true);
    params.set_progress_token(ProgressToken::Integer(9));
    assert_eq!(to_value(&params.to_json()), value(r#"{"_meta":{"progressToken":9},"b":true,"a":"x"}"#));
    assert_eq!(params.additional, vec![("b".to_string(), Json::Bool(true)), ("a".to_string(), Json::string("x"))]);
    assert_eq!(RequestParams::from_json(&params.to_json()), Ok(params.clone()));
    assert_eq!(params.meta, Some(RequestMeta { progress_token: Some(ProgressToken::Integer(9)) }));
    assert!(matches!(RequestParams::from_json(&json("[]")), Err(Error::ParseError(_))));
    assert!(matches!(RequestParams::from_json(&json(r#"{"_meta":5}"#)), Err(Error::ParseError(_))));

    let mut meta = NotificationMeta::new();
    meta.add("k", &Json::Null);
    let mut params = NotificationParams::new();
    params.meta = Some(meta);
    params.add("x", &1i64);
    assert_eq!(to_value(&params.to_json()), value(r#"{"_meta":{"k":null},"x":1}"#));
    assert_eq!(NotificationParams::from_json(&json(r#"{"x":1,"_meta":{"k":null}}"#)), Ok(params));

    let mut result = PaginatedResult::with_next_cursor("c");
    result.add("items", &vec![1i64].iter().map(|i| Json::integer(*i)).collect::<Vec<_>>().len().to_string());
    let mut meta = ResultMeta::new();
    meta.add("m", &true);
    result.meta = Some(meta);
    let wire = result.to_json();
    assert_eq!(to_value(&wire), value(r#"{"nextCursor":"c","_meta":{"m":true},"items":"1"}"#));
    assert_eq!(PaginatedResult::from_json(&wire), Ok(result));
    assert_eq!(PaginatedResult::new().to_json(), Json::Object(Vec::new()));
    let mut result = EmptyResult::new();
    result.add("x", &1i64);
    assert_eq!(to_value(&result.to_json()), value(r#"{"x":1}"#));

    let mut hint = ModelHint::new("fast");
    hint.add_property("family", &"large".to_string());
    assert_eq!(to_value(&hint.to_json()), value(r#"{"name":"fast","family":"large"}"#));
    assert_eq!(ModelHint::from_json(&json(r#"{"family":"large","name":"fast"}"#)), Ok(hint));
}

#[test]
fn a_failed_tool_call_is_a_result() {
    let failed = CallToolResult::failure("boom");
    assert_eq!(
        to_value(&failed.to_json()),
        value(r#"{"content":[{"type":"text","text":"boom"}],"isError":true}"#)
    );
    assert_eq!(CallToolResult::from_json(&failed.to_json()), Ok(failed));
}

#[test]
fn payloads_read_back_as_written() {
    let mut params = RequestParams::new();
    params.set_progress_token(ProgressToken::String("t-1".to_string()));
    params.add("depth", &3i64);
    params.add("name", &"north".to_string());
    assert_eq!(
        to_value(&params.to_json()),
        value(r#"{"_meta":{"progressToken":"t-1"},"depth":3,"name":"north"}"#)
    );
    assert_eq!(RequestParams::from_json(&params.to_json()), Ok(params));

    let hint = ModelHint { name: Some("fast".to_string()), additional: vec![("tier".to_string(), Json::integer(2))] };
    assert_eq!(ModelHint::from_json(&hint.to_json()), Ok(hint));

    for level in [
        LoggingLevel::Debug,
        LoggingLevel::Info,
        LoggingLevel::Notice,
        LoggingLevel::Warning,
        LoggingLevel::Error,
        LoggingLevel::Critical,
        LoggingLevel::Alert,
        LoggingLevel::Emergency,
    ] {
        assert_eq!(LoggingLevel::from_json(&level.to_json()), Ok(level));
    }
    for context in [IncludeContext::NoServers, IncludeContext::ThisServer, IncludeContext::AllServers] {
        assert_eq!(IncludeContext::from_json(&context.to_json()), Ok(context));
    }
    let blob = ResourceContent::from_json(&json(r#"{"uri":"u","mimeType":"image/png","blob":"AAAA"}"#)).unwrap();
    assert_eq!(ResourceContent::from_json(&blob.to_json()), Ok(blob));
}

#[test]
fn what_the_wire_cannot_keep_apart_is_read_back_changed() {
    // An additional member under the name of a named member is read as that member.
    let shadowed = ModelHint { name: None, additional: vec![("name".to_string(), Json::string("fast"))] };
    assert_eq!(
        ModelHint::from_json(&shadowed.to_json()),
        Ok(ModelHint { name: Some("fast".to_string()), additional: vec![] })
    );
    // A `null` in an optional place is read as an absent member.
    let request = RequestImpl { method: "ping".to_string(), params: Some(Json::Null) };
    assert_eq!(
        RequestImpl::from_json(&request.to_json()),
        Ok(RequestImpl { method: "ping".to_string(), params: None })
    );
    // Content of a known kind under another `type` is refused by strict reading.
    let mut text = TextContent::new("hi");
    text.kind = "image".to_string();
    assert!(matches!(
        PromptContent::from_json(&PromptContent::Text(text).to_json()),
        Err(Error::ParseError(_))
    ));
}

#[test]
fn of_members_with_one_key_the_first_is_found() {
    let members = vec![
        ("a".to_string(), Json::integer(1)),
        ("b".to_string(), Json::integer(2)),
        ("a".to_string(), Json::integer(3)),
        ("c".to_string(), Json::integer(4)),
        ("b".to_string(), Json::integer(5)),
    ];
    assert_eq!(found_members(&members), vec![0, 1, 3]);
    assert_eq!(found_members(&Vec::new()), Vec::<usize>::new());
    assert_eq!(Json::object(members).get("a"), Some(&Json::integer(1)));
}
