use stdiobus::json::{parse_i64, parse_json, parse_u64, quote_json_string};
use stdiobus::text::signed_decimal_string;
use stdiobus::{JsonRpcError, JsonRpcRequest, JsonRpcResponse, JsonValue};

fn from_serde(v: serde_json::Value) -> JsonValue {
    match v {
        serde_json::Value::Null => JsonValue::Null,
        serde_json::Value::Bool(b) => JsonValue::Bool(b),
        serde_json::Value::Number(n) => JsonValue::Number(n.to_string()),
        serde_json::Value::String(s) => JsonValue::String(s),
        serde_json::Value::Array(a) => JsonValue::Array(a.into_iter().map(from_serde).collect()),
        serde_json::Value::Object(m) => JsonValue::Object(m.into_iter().map(|(k, v)| (k, from_serde(v))).collect()),
    }
}

fn to_serde(v: &JsonValue) -> serde_json::Value {
    match v {
        JsonValue::Null => serde_json::Value::Null,
        JsonValue::Bool(b) => serde_json::Value::Bool(*b),
        JsonValue::Number(t) => serde_json::from_str(t).unwrap(),
        JsonValue::String(s) => serde_json::Value::String(s.clone()),
        JsonValue::Array(a) => serde_json::Value::Array(a.iter().map(to_serde).collect()),
        JsonValue::Object(es) => {
            let mut m = serde_json::Map::new();
            for (k, v) in es {
                if !m.contains_key(k) {
                    m.insert(k.clone(), to_serde(v));
                }
            }
            serde_json::Value::Object(m)
        }
    }
}

fn parse(text: &str) -> JsonValue {
    from_serde(serde_json::from_str(text).unwrap())
}

fn object(entries: Vec<(&str, JsonValue)>) -> JsonValue {
    JsonValue::Object(entries.into_iter().map(|(k, v)| (k.to_string(), v)).collect())
}

fn text(s: &str) -> JsonValue {
    JsonValue::String(s.to_string())
}

#[test]
fn test_json_rpc_request_new() {
    let req = JsonRpcRequest::new("test/method", Some(object(vec![("key", text("value"))])));

    assert_eq!(req.jsonrpc, "2.0");
    assert_eq!(req.method, "test/method");
    assert!(req.id.is_some());
    assert!(req.params.is_some());
}

#[test]
fn test_json_rpc_request_no_params() {
    let req = JsonRpcRequest::new("test/method", None);

    assert_eq!(req.jsonrpc, "2.0");
    assert_eq!(req.method, "test/method");
    assert!(req.id.is_some());
    assert!(req.params.is_none());
}

#[test]
fn test_json_rpc_notification() {
    let req = JsonRpcRequest::notification("test/notify", None);

    assert_eq!(req.jsonrpc, "2.0");
    assert_eq!(req.method, "test/notify");
    assert!(req.id.is_none());
}

#[test]
fn test_json_rpc_with_session_id() {
    let req = JsonRpcRequest::new("test/method", None).with_session_id("session-123");

    assert_eq!(req.session_id, Some("session-123".to_string()));
}

#[test]
fn request_ids_are_uuid_text() {
    let a = JsonRpcRequest::new("m", None);
    let b = JsonRpcRequest::new("m", None);
    let ida = a.id_text().unwrap().clone();
    let idb = b.id_text().unwrap().clone();
    assert_eq!(ida.len(), 36);
    assert_eq!(&ida[14..15], "4");
    assert_ne!(ida, idb);
}

#[test]
fn test_json_rpc_serialization() {
    let req = JsonRpcRequest::new("test/method", Some(object(vec![("foo", text("bar"))])));
    let json = serde_json::to_string(&to_serde(&req.into_value())).unwrap();

    assert!(json.contains("\"jsonrpc\":\"2.0\""));
    assert!(json.contains("\"method\":\"test/method\""));
    assert!(json.contains("\"foo\":\"bar\""));
}

#[test]
fn request_into_value_members_in_order() {
    let req = JsonRpcRequest::with_id("tools/list", Some(object(vec![])), "r-1".to_string())
        .with_session_id("s-1")
        .with_agent_id("a-1");
    match req.into_value() {
        JsonValue::Object(es) => {
            let keys: Vec<&str> = es.iter().map(|(k, _)| k.as_str()).collect();
            assert_eq!(keys, vec!["jsonrpc", "id", "method", "params", "sessionId", "agentId"]);
            assert!(matches!(&es[1].1, JsonValue::String(s) if s == "r-1"));
            assert!(matches!(&es[4].1, JsonValue::String(s) if s == "s-1"));
        }
        other => panic!("unexpected {:?}", other),
    }
    let note = JsonRpcRequest::notification("ping", None);
    match note.into_value() {
        JsonValue::Object(es) => {
            let keys: Vec<&str> = es.iter().map(|(k, _)| k.as_str()).collect();
            assert_eq!(keys, vec!["jsonrpc", "method"]);
        }
        other => panic!("unexpected {:?}", other),
    }
}

#[test]
fn test_json_rpc_response_success() {
    let resp = JsonRpcResponse::from_value(parse(r#"{"jsonrpc":"2.0","id":"123","result":{"status":"ok"}}"#)).unwrap();

    assert_eq!(resp.jsonrpc, "2.0");
    assert!(resp.result.is_some());
    assert!(resp.error.is_none());
}

#[test]
fn test_json_rpc_response_error() {
    let resp = JsonRpcResponse::from_value(parse(
        r#"{"jsonrpc":"2.0","id":"123","error":{"code":-32600,"message":"Invalid Request"}}"#,
    ))
    .unwrap();

    assert!(resp.result.is_none());
    assert!(resp.error.is_some());
    let err = resp.error.unwrap();
    assert_eq!(err.code, -32600);
    assert_eq!(err.message, "Invalid Request");
}

#[test]
fn response_decoding_edge_cases() {
    // jsonrpc is required and must be a string
    assert!(JsonRpcResponse::from_value(parse(r#"{"id":"1","result":1}"#)).is_none());
    assert!(JsonRpcResponse::from_value(parse(r#"{"jsonrpc":2,"id":"1"}"#)).is_none());
    // not an object
    assert!(JsonRpcResponse::from_value(parse(r#"[1,2]"#)).is_none());
    // null members count as absent
    let r = JsonRpcResponse::from_value(parse(r#"{"jsonrpc":"2.0","id":null,"result":null,"error":null}"#)).unwrap();
    assert!(r.id.is_none() && r.result.is_none() && r.error.is_none());
    // an error must carry an integer code and a string message
    assert!(JsonRpcResponse::from_value(parse(r#"{"jsonrpc":"2.0","error":{"code":1.5,"message":"x"}}"#)).is_none());
    assert!(JsonRpcResponse::from_value(parse(r#"{"jsonrpc":"2.0","error":{"code":1}}"#)).is_none());
    let big = r#"{"jsonrpc":"2.0","error":{"code":9223372036854775808,"message":"x"}}"#;
    assert!(JsonRpcResponse::from_value(parse(big)).is_none());
    let min = r#"{"jsonrpc":"2.0","error":{"code":-9223372036854775808,"message":"x"}}"#;
    assert_eq!(JsonRpcResponse::from_value(parse(min)).unwrap().error.unwrap().code, i64::MIN);
    // unknown members are ignored
    let r = JsonRpcResponse::from_value(parse(r#"{"jsonrpc":"2.0","extra":true,"result":[]}"#)).unwrap();
    assert!(matches!(r.result, Some(JsonValue::Array(_))));
}

#[test]
fn test_json_rpc_error_with_data() {
    let err = JsonRpcError {
        code: -32000,
        message: "Server error".to_string(),
        data: Some(object(vec![("details", text("more info"))])),
    };
    let decoded = JsonRpcError::from_value(object(vec![
        ("code", JsonValue::Number(err.code.to_string())),
        ("message", text(&err.message)),
        ("data", object(vec![("details", text("more info"))])),
    ]))
    .unwrap();
    assert_eq!(decoded.code, -32000);
    assert_eq!(decoded.message, "Server error");
    let data = serde_json::to_string(&to_serde(decoded.data.as_ref().unwrap())).unwrap();
    assert!(data.contains("\"details\":\"more info\""));
    assert!(err.data.is_some());
}

#[test]
fn json_value_get_and_insert() {
    let mut v = parse(r#"{"a":1,"b":"x"}"#);
    assert!(matches!(v.get("b"), Some(JsonValue::String(s)) if s == "x"));
    assert!(v.get("c").is_none());
    assert!(text("s").get("a").is_none());
    v.insert("b".to_string(), text("y"));
    v.insert("c".to_string(), JsonValue::Null);
    match &v {
        JsonValue::Object(es) => {
            assert_eq!(es.len(), 3);
            assert!(matches!(&es[1].1, JsonValue::String(s) if s == "y"));
        }
        _ => panic!(),
    }
    let mut not_object = text("s");
    not_object.insert("k".to_string(), JsonValue::Null);
    assert!(matches!(not_object, JsonValue::String(_)));
}

#[test]
fn parse_i64_cases() {
    assert_eq!(parse_i64("0"), Some(0));
    assert_eq!(parse_i64("-32600"), Some(-32600));
    assert_eq!(parse_i64("9223372036854775807"), Some(i64::MAX));
    assert_eq!(parse_i64("9223372036854775808"), None);
    assert_eq!(parse_i64("-9223372036854775808"), Some(i64::MIN));
    assert_eq!(parse_i64("-9223372036854775809"), None);
    assert_eq!(parse_i64("1.0"), None);
    assert_eq!(parse_i64("-"), None);
    assert_eq!(parse_i64(""), None);
    assert_eq!(parse_i64("12a"), None);
}

#[test]
fn decimal_text_reads_back() {
    for x in [0i64, 7, -7, 42, -32601, 1_000_000, i64::MAX, i64::MIN, i64::MIN + 1] {
        let t = signed_decimal_string(x);
        assert_eq!(t, x.to_string());
        assert_eq!(parse_i64(&t), Some(x));
    }
}

#[test]
fn test_json_rpc_deserialization() {
    let json = r#"{"jsonrpc":"2.0","method":"test","id":"123","params":{"x":1}}"#;
    let req = JsonRpcRequest::from_value(parse_json(json).unwrap()).unwrap();

    assert_eq!(req.jsonrpc, "2.0");
    assert_eq!(req.method, "test");
    assert!(matches!(req.id, Some(JsonValue::String(ref s)) if s == "123"));
}

#[test]
fn request_reading_cases() {
    let read = |t: &str| JsonRpcRequest::from_value(parse_json(t).unwrap());
    let r = read(r#"{"jsonrpc":"2.0","method":"m","sessionId":"s1","agentId":null,"id":null}"#).unwrap();
    assert_eq!(r.session_id.as_deref(), Some("s1"));
    assert!(r.agent_id.is_none());
    assert!(r.id.is_none());
    assert!(r.params.is_none());
    assert!(read(r#"{"jsonrpc":"2.0"}"#).is_none());
    assert!(read(r#"{"jsonrpc":2,"method":"m"}"#).is_none());
    assert!(read(r#"{"jsonrpc":"2.0","method":"m","sessionId":5}"#).is_none());
    assert!(read(r#""text""#).is_none());
}

#[test]
fn parse_json_cases() {
    assert!(parse_json("not json").is_none());
    assert!(parse_json("{\"a\":").is_none());
    assert!(matches!(parse_json("null"), Some(JsonValue::Null)));
    match parse_json(r#"{"b":[1,true],"a":"x"}"#) {
        Some(JsonValue::Object(es)) => {
            assert_eq!(es.len(), 2);
            assert_eq!(es[0].0, "a");
            assert!(matches!(es[1].1, JsonValue::Array(ref items) if items.len() == 2));
        }
        _ => panic!(),
    }
}

#[test]
fn parse_u64_cases() {
    assert_eq!(parse_u64("0"), Some(0));
    assert_eq!(parse_u64("-0"), Some(0));
    assert_eq!(parse_u64("18446744073709551615"), Some(u64::MAX));
    assert_eq!(parse_u64("18446744073709551616"), None);
    assert_eq!(parse_u64("-1"), None);
    assert_eq!(parse_u64("1e3"), None);
    assert_eq!(parse_u64(""), None);
}

#[test]
fn quoting_matches_serde_json() {
    for s in ["", "plain", "say \"hi\"", "back\\slash", "tab\tnl\ncr\r", "\u{8}\u{c}", "\u{0}\u{1f}\u{7f}", "ünï €", "/"] {
        assert_eq!(quote_json_string(s), serde_json::to_string(s).unwrap());
    }
    assert_eq!(quote_json_string("\u{1}"), "\"\\u0001\"");
}
