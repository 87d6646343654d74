use mcpx::error::Error;
use mcpx::json::{Json, Number};
use mcpx::transport::{HttpTransport, WebSocketTransport};
use mcpx::utils::base64::{decode_base64, encode_base64};
use mcpx::utils::json::{
    json_path_get, json_path_set, merge_json_objects, parse_index, split,
};
use mcpx::utils::text::{decimal_string, starts_with, trim_end, trim_slashes};
use mcpx::utils::uri::{
    is_valid_uri, join_uri_paths, parse_uri_template, read_url, uri_path_segments,
};

fn from_value(v: &serde_json::Value) -> Json {
    match v {
        serde_json::Value::Null => Json::Null,
        serde_json::Value::Bool(b) => Json::Bool(*b),
        serde_json::Value::Number(n) => {
            if let Some(u) = n.as_u64() {
                Json::Number(Number::PosInt(u))
            } else if let Some(i) = n.as_i64() {
                Json::Number(Number::NegInt(i))
            } else {
                Json::Number(Number::Float(n.as_f64().unwrap().to_bits()))
            }
        }
        serde_json::Value::String(s) => Json::Str(s.clone()),
        serde_json::Value::Array(items) => Json::Array(items.iter().map(from_value).collect()),
        serde_json::Value::Object(members) => {
            Json::Object(members.iter().map(|(k, v)| (k.clone(), from_value(v))).collect())
        }
    }
}

fn to_value(j: &Json) -> serde_json::Value {
    match j {
        Json::Null => serde_json::Value::Null,
        Json::Bool(b) => serde_json::Value::Bool(*b),
        Json::Number(Number::PosInt(u)) => serde_json::Value::from(*u),
        Json::Number(Number::NegInt(i)) => serde_json::Value::from(*i),
        Json::Number(Number::Float(bits)) => serde_json::Value::from(f64::from_bits(*bits)),
        Json::Str(s) => serde_json::Value::String(s.clone()),
        Json::Array(items) => serde_json::Value::Array(items.iter().map(to_value).collect()),
        Json::Object(members) => {
            let mut map = serde_json::Map::new();
            for (k, v) in members {
                map.insert(k.clone(), to_value(v));
            }
            serde_json::Value::Object(map)
        }
    }
}

fn json(text: &str) -> Json {
    from_value(&serde_json::from_str(text).unwrap())
}

fn value(text: &str) -> serde_json::Value {
    serde_json::from_str(text).unwrap()
}

#[test]
fn test_encode_decode() {
    let original = b"Hello, World!";
    let encoded = encode_base64(original);
    let decoded = decode_base64(&encoded).unwrap();
    assert_eq!(original, decoded.as_slice());
}

#[test]
fn base64_has_the_standard_alphabet_and_padding() {
    assert_eq!(encode_base64(b"hello world"), "aGVsbG8gd29ybGQ=");
    assert_eq!(decode_base64("aGVsbG8gd29ybGQ=").unwrap(), b"hello world".to_vec());
    assert_eq!(encode_base64(b""), "");
}

#[test]
fn base64_refuses_what_is_not_base64() {
    match decode_base64("not base64!") {
        Err(Error::ParseError(message)) => {
            assert!(message.starts_with("Failed to decode base64: "));
            assert!(message.len() > "Failed to decode base64: ".len());
        }
        other => panic!("unexpected: {:?}", other),
    }
}

#[test]
fn test_merge_json_objects() {
    let mut target = json(
        r#"{
            "name": "John",
            "age": 30,
            "address": {
                "city": "New York"
            }
        }"#,
    );

    let source = json(
        r#"{
            "age": 31,
            "address": {
                "street": "Broadway"
            },
            "phone": "123-456-7890"
        }"#,
    );

    merge_json_objects(&mut target, &source);

    assert_eq!(
        to_value(&target),
        value(
            r#"{
                "name": "John",
                "age": 31,
                "address": {
                    "city": "New York",
                    "street": "Broadway"
                },
                "phone": "123-456-7890"
            }"#
        )
    );
}

#[test]
fn merge_keeps_what_is_no_object() {
    let mut target = json("[1, 2]");
    merge_json_objects(&mut target, &json(r#"{"a": 1}"#));
    assert_eq!(to_value(&target), value("[1, 2]"));

    let mut target = json(r#"{"a": 1}"#);
    merge_json_objects(&mut target, &json("7"));
    assert_eq!(to_value(&target), value(r#"{"a": 1}"#));
}

#[test]
fn merge_replaces_an_object_by_a_scalar_and_back() {
    let mut target = json(r#"{"a": {"x": 1}, "b": 2}"#);
    merge_json_objects(&mut target, &json(r#"{"a": 5, "b": {"y": 3}}"#));
    assert_eq!(to_value(&target), value(r#"{"a": 5, "b": {"y": 3}}"#));
}

#[test]
fn merge_keeps_the_order_of_the_target_and_appends() {
    let mut target = Json::Object(vec![
        ("z".to_string(), Json::integer(1)),
        ("a".to_string(), Json::integer(2)),
    ]);
    let source = Json::Object(vec![
        ("m".to_string(), Json::integer(3)),
        ("z".to_string(), Json::integer(4)),
    ]);
    merge_json_objects(&mut target, &source);
    assert_eq!(
        target,
        Json::Object(vec![
            ("z".to_string(), Json::integer(4)),
            ("a".to_string(), Json::integer(2)),
            ("m".to_string(), Json::integer(3)),
        ])
    );
}

#[test]
fn test_json_path_get() {
    let json = json(
        r#"{
            "user": {
                "name": "John",
                "contacts": [
                    { "type": "email", "value": "john@example.com" },
                    { "type": "phone", "value": "123-456-7890" }
                ]
            }
        }"#,
    );

    assert_eq!(json_path_get(&json, "user.name").unwrap(), &Json::string("John"));
    assert_eq!(
        json_path_get(&json, "user.contacts.0.value").unwrap(),
        &Json::string("john@example.com")
    );
    assert_eq!(json_path_get(&json, "user.age"), None);
}

#[test]
fn path_get_edges() {
    let doc = json(r#"{"a": [10, 20], "": {"b": true}, "s": "text"}"#);
    assert_eq!(json_path_get(&doc, "a.1"), Some(&Json::integer(20)));
    assert_eq!(json_path_get(&doc, "a.+1"), Some(&Json::integer(20)));
    assert_eq!(json_path_get(&doc, "a.2"), None);
    assert_eq!(json_path_get(&doc, "a.x"), None);
    assert_eq!(json_path_get(&doc, "a.-1"), None);
    assert_eq!(json_path_get(&doc, "s.x"), None);
    assert_eq!(json_path_get(&doc, ".b"), Some(&Json::Bool(true)));
    assert_eq!(json_path_get(&doc, "a."), None);
}

#[test]
fn test_json_path_set() {
    let mut json = json(
        r#"{
            "user": {
                "name": "John",
                "contacts": [
                    { "type": "email", "value": "john@example.com" }
                ]
            }
        }"#,
    );

    json_path_set(&mut json, "user.age", Json::integer(31)).unwrap();
    json_path_set(&mut json, "user.contacts.0.value", Json::string("new-email@example.com"))
        .unwrap();
    json_path_set(&mut json, "user.settings.theme", Json::string("dark")).unwrap();

    assert_eq!(
        to_value(&json),
        value(
            r#"{
                "user": {
                    "name": "John",
                    "age": 31,
                    "contacts": [
                        { "type": "email", "value": "new-email@example.com" }
                    ],
                    "settings": {
                        "theme": "dark"
                    }
                }
            }"#
        )
    );
}

#[test]
fn path_set_reports_each_fault() {
    let mut doc = json(r#"{"a": [1, 2], "s": "text"}"#);
    assert_eq!(
        json_path_set(&mut doc, "a.5", Json::Null),
        Err(Error::ParseError("Array index out of bounds: 5".to_string()))
    );
    assert_eq!(
        json_path_set(&mut doc, "a.x", Json::Null),
        Err(Error::ParseError("Invalid array index: x".to_string()))
    );
    assert_eq!(
        json_path_set(&mut doc, "s.x", Json::Null),
        Err(Error::ParseError("Cannot set value on non-object or non-array".to_string()))
    );
    assert_eq!(
        json_path_set(&mut doc, "s.x.y", Json::Null),
        Err(Error::ParseError("Cannot traverse non-object or non-array".to_string()))
    );
    assert_eq!(
        json_path_set(&mut doc, "a.7.y", Json::Null),
        Err(Error::ParseError("Array index out of bounds: 7".to_string()))
    );
    assert_eq!(to_value(&doc), value(r#"{"a": [1, 2], "s": "text"}"#));
}

#[test]
fn path_set_keeps_what_it_made_before_a_fault() {
    let mut doc = json("{}");
    let r = json_path_set(&mut doc, "list.0", Json::integer(1));
    assert_eq!(r, Err(Error::ParseError("Array index out of bounds: 0".to_string())));
    assert_eq!(to_value(&doc), value(r#"{"list": []}"#));
}

#[test]
fn path_set_into_an_array_item() {
    let mut doc = json(r#"[{"a": 1}, 2]"#);
    json_path_set(&mut doc, "0.b", Json::Bool(true)).unwrap();
    json_path_set(&mut doc, "1", Json::string("two")).unwrap();
    assert_eq!(to_value(&doc), value(r#"[{"a": 1, "b": true}, "two"]"#));
}

#[test]
fn split_gives_every_part() {
    assert_eq!(split("a.b.c", '.'), vec!["a", "b", "c"]);
    assert_eq!(split("", '.'), vec![""]);
    assert_eq!(split(".", '.'), vec!["", ""]);
    assert_eq!(split("a..b", '.'), vec!["a", "", "b"]);
    assert_eq!(split("häß.ü", '.'), vec!["häß", "ü"]);
}

#[test]
fn parse_index_reads_what_usize_reads() {
    for text in ["0", "7", "+7", "007", "18446744073709551615"] {
        assert_eq!(parse_index(text), text.parse::<usize>().ok(), "{}", text);
    }
    for text in ["", "+", "-1", "1.5", " 1", "1 ", "x", "18446744073709551616", "१"] {
        assert_eq!(parse_index(text), None, "{}", text);
        assert_eq!(text.parse::<usize>().ok(), None, "{}", text);
    }
    assert_eq!(parse_index("42"), Some(42));
}

#[test]
fn text_helpers() {
    assert!(starts_with("file:///tmp", "file://"));
    assert!(!starts_with("file:/", "file://"));
    assert!(!starts_with("http://x", "file://"));
    assert!(starts_with("abc", ""));
    assert_eq!(trim_end("/api///", '/'), "/api");
    assert_eq!(trim_end("///", '/'), "");
    assert_eq!(trim_slashes("//users/123/"), "users/123");
    assert_eq!(trim_slashes("/"), "");
    assert_eq!(decimal_string(0), "0");
    assert_eq!(decimal_string(100), "100");
    assert_eq!(decimal_string(u64::MAX), "18446744073709551615");
}

#[test]
fn test_is_valid_uri() {
    assert!(is_valid_uri("http://example.com"));
    assert!(is_valid_uri("file:///path/to/file"));
    assert!(!is_valid_uri("invalid uri"));
}

#[test]
fn test_parse_uri_template() {
    let template = "http://example.com/{path}/{id}";
    let params = vec![
        ("path".to_string(), "users".to_string()),
        ("id".to_string(), "123".to_string()),
    ];

    let result = parse_uri_template(template, &params).unwrap();
    assert_eq!(result, "http://example.com/users/123");
}

#[test]
fn a_later_template_value_replaces_an_earlier_one() {
    let params = vec![
        ("id".to_string(), "1".to_string()),
        ("id".to_string(), "2".to_string()),
    ];
    assert_eq!(parse_uri_template("/{id}", &params).unwrap(), "/2");
    assert_eq!(parse_uri_template("/{id}", &Vec::new()).unwrap(), "/");
}

#[test]
fn a_text_that_is_no_template_is_refused() {
    match parse_uri_template("http://example.com/{unclosed", &Vec::new()) {
        Err(Error::ParseError(message)) => assert!(message.starts_with("Invalid URI template: ")),
        other => panic!("unexpected: {:?}", other),
    }
}

#[test]
fn test_uri_path_segments() {
    let uri = "http://example.com/foo/bar/baz";
    let segments = uri_path_segments(uri).unwrap();
    assert_eq!(segments, vec!["foo", "bar", "baz"]);
}

#[test]
fn path_segments_edges() {
    assert_eq!(uri_path_segments("mailto:someone@example.com").unwrap(), Vec::<String>::new());
    assert_eq!(uri_path_segments("http://example.com").unwrap(), vec![""]);
    match uri_path_segments("invalid uri") {
        Err(Error::ParseError(message)) => assert!(message.starts_with("Invalid URI: ")),
        other => panic!("unexpected: {:?}", other),
    }
}

#[test]
fn test_join_uri_paths() {
    let base = "http://example.com/api";
    let path = "users/123";
    let joined = join_uri_paths(base, path).unwrap();
    assert_eq!(joined, "http://example.com/api/users/123");
}

#[test]
fn join_trims_the_slashes_between() {
    assert_eq!(
        join_uri_paths("http://example.com/api//", "//users/123/").unwrap(),
        "http://example.com/api/users/123"
    );
    assert_eq!(join_uri_paths("http://example.com", "x").unwrap(), "http://example.com/x");
    match join_uri_paths("no base", "x") {
        Err(Error::ParseError(message)) => assert!(message.starts_with("Invalid base URI: ")),
        other => panic!("unexpected: {:?}", other),
    }
}

#[test]
fn read_url_reads_scheme_path_and_text() {
    let url = read_url("HTTP://Example.com/a/b?q=1").unwrap();
    assert_eq!(url.scheme, "http");
    assert_eq!(url.path, "/a/b");
    assert_eq!(url.segments, Some(vec!["a".to_string(), "b".to_string()]));
    assert_eq!(url.text, "http://example.com/a/b?q=1");
    assert!(read_url("::").is_err());
}

#[test]
fn test_http_transport_new() {
    // Valid URL
    let transport = HttpTransport::new("http://localhost:8080").unwrap();
    assert_eq!(transport.url(), "http://localhost:8080");

    // Invalid URL
    let result = HttpTransport::new("invalid-url");
    assert!(result.is_err());

    // Invalid scheme
    let result = HttpTransport::new("ftp://localhost:8080");
    assert!(result.is_err());
}

#[test]
fn http_transport_names_the_wrong_scheme() {
    assert_eq!(
        HttpTransport::new("ftp://localhost:8080"),
        Err(Error::UrlError("Invalid URL scheme: ftp. Expected http or https".to_string()))
    );
    assert!(matches!(HttpTransport::new("invalid-url"), Err(Error::UrlError(_))));
    assert!(HttpTransport::new("https://localhost").is_ok());
}

#[test]
fn websocket_transport_takes_any_url() {
    assert_eq!(WebSocketTransport::new("ws://localhost:9000/mcp").unwrap().url(), "ws://localhost:9000/mcp");
    assert!(WebSocketTransport::new("ftp://localhost").is_ok());
    assert!(matches!(WebSocketTransport::new("not a url"), Err(Error::UrlError(_))));
}

#[test]
fn decoding_undoes_encoding() {
    for data in [&b""[..], &b"f"[..], &b"fo"[..], &b"foo"[..], &[0u8, 255, 128, 7][..]] {
        assert_eq!(decode_base64(&encode_base64(data)), Ok(data.to_vec()));
    }
    assert_eq!(encode_base64(b"fo"), "Zm8=");
}
