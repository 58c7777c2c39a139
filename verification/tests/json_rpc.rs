use ruos_mcp::json::{Json, JsonNumber};
use ruos_mcp::rpc::{handle, message_text, reply, reply_err, Dispatch};
use serde_json::Value;

fn to_value(j: &Json) -> Value {
    match j {
        Json::Null => Value::Null,
        Json::Bool(b) => Value::Bool(*b),
        Json::Number(JsonNumber::PosInt(u)) => Value::from(*u),
        Json::Number(JsonNumber::NegInt(i)) => Value::from(*i),
        Json::Number(JsonNumber::Float(bits)) => Value::from(f64::from_bits(*bits)),
        Json::Str(s) => Value::String(s.clone()),
        Json::Array(xs) => Value::Array(xs.iter().map(to_value).collect()),
        Json::Object(ms) => {
            let mut m = serde_json::Map::new();
            for (k, v) in ms {
                m.insert(k.clone(), to_value(v));
            }
            Value::Object(m)
        }
    }
}

fn from_value(v: &Value) -> Json {
    match v {
        Value::Null => Json::Null,
        Value::Bool(b) => Json::Bool(*b),
        Value::Number(n) => Json::Number(if let Some(u) = n.as_u64() {
            JsonNumber::PosInt(u)
        } else if let Some(i) = n.as_i64() {
            JsonNumber::NegInt(i)
        } else {
            JsonNumber::Float(n.as_f64().unwrap_or(0.0).to_bits())
        }),
        Value::String(s) => Json::Str(s.clone()),
        Value::Array(xs) => Json::Array(xs.iter().map(from_value).collect()),
        Value::Object(m) => Json::Object(m.iter().map(|(k, v)| (k.clone(), from_value(v))).collect()),
    }
}

fn dispatch(line: &str) -> Dispatch {
    let v: Value = serde_json::from_str(line).unwrap();
    handle(&from_value(&v))
}

fn answer(line: &str) -> String {
    match dispatch(line) {
        Dispatch::Reply(j) => to_value(&j).to_string(),
        other => panic!("expected a reply, got {:?}", other),
    }
}

#[test]
fn initialize_echoes_the_protocol_version() {
    assert_eq!(
        answer(r#"{"jsonrpc":"2.0","id":1,"method":"initialize","params":{"protocolVersion":"2024-11-05"}}"#),
        r#"{"id":1,"jsonrpc":"2.0","result":{"capabilities":{"tools":{}},"protocolVersion":"2024-11-05","serverInfo":{"name":"ruos-mcp","version":"0.1.0"}}}"#
    );
}

#[test]
fn initialize_defaults_the_protocol_version() {
    assert_eq!(
        answer(r#"{"jsonrpc":"2.0","id":"a","method":"initialize"}"#),
        r#"{"id":"a","jsonrpc":"2.0","result":{"capabilities":{"tools":{}},"protocolVersion":"2025-06-18","serverInfo":{"name":"ruos-mcp","version":"0.1.0"}}}"#
    );
}

#[test]
fn ping_answers_an_empty_result() {
    assert_eq!(answer(r#"{"jsonrpc":"2.0","id":7,"method":"ping"}"#), r#"{"id":7,"jsonrpc":"2.0","result":{}}"#);
}

#[test]
fn tools_list_answers_the_catalog() {
    let v: Value = serde_json::from_str(&answer(r#"{"jsonrpc":"2.0","id":2,"method":"tools/list"}"#)).unwrap();
    assert_eq!(v["id"], 2);
    assert_eq!(v["result"]["tools"].as_array().unwrap().len(), 16);
}

#[test]
fn notifications_get_no_response() {
    assert!(matches!(dispatch(r#"{"jsonrpc":"2.0","method":"notifications/initialized"}"#), Dispatch::Silent));
    assert!(matches!(dispatch(r#"{"jsonrpc":"2.0","method":"ping"}"#), Dispatch::Silent));
}

#[test]
fn null_id_is_still_answered() {
    assert_eq!(answer(r#"{"id":null,"method":"ping"}"#), r#"{"id":null,"jsonrpc":"2.0","result":{}}"#);
}

#[test]
fn unknown_method_is_an_error() {
    assert_eq!(
        answer(r#"{"jsonrpc":"2.0","id":3,"method":"resources/list"}"#),
        r#"{"error":{"code":-32601,"message":"method not found"},"id":3,"jsonrpc":"2.0"}"#
    );
    assert_eq!(
        answer(r#"{"id":4}"#),
        r#"{"error":{"code":-32601,"message":"method not found"},"id":4,"jsonrpc":"2.0"}"#
    );
}

#[test]
fn tools_call_without_a_name_is_an_error() {
    assert_eq!(
        answer(r#"{"jsonrpc":"2.0","id":5,"method":"tools/call","params":{"arguments":{}}}"#),
        r#"{"error":{"code":-32602,"message":"missing tool name"},"id":5,"jsonrpc":"2.0"}"#
    );
    assert_eq!(
        answer(r#"{"jsonrpc":"2.0","id":6,"method":"tools/call"}"#),
        r#"{"error":{"code":-32602,"message":"missing tool name"},"id":6,"jsonrpc":"2.0"}"#
    );
}

#[test]
fn tools_call_hands_over_the_id_name_and_arguments() {
    match dispatch(r#"{"jsonrpc":"2.0","id":9.5,"method":"tools/call","params":{"name":"run_shell","arguments":{"command":"ls"}}}"#) {
        Dispatch::CallTool(id, name, args) => {
            assert_eq!(to_value(&id).to_string(), "9.5");
            assert_eq!(name, "run_shell");
            assert_eq!(to_value(&args).to_string(), r#"{"command":"ls"}"#);
        }
        other => panic!("{:?}", other),
    }
    match dispatch(r#"{"id":1,"method":"tools/call","params":{"name":"screenshot"}}"#) {
        Dispatch::CallTool(_, name, args) => {
            assert_eq!(name, "screenshot");
            assert_eq!(to_value(&args).to_string(), "{}");
        }
        other => panic!("{:?}", other),
    }
}

#[test]
fn replies_carry_jsonrpc_and_id() {
    assert_eq!(
        to_value(&reply(Json::Number(JsonNumber::PosInt(3)), Json::Bool(true))).to_string(),
        r#"{"id":3,"jsonrpc":"2.0","result":true}"#
    );
    assert_eq!(
        to_value(&reply_err(Json::Str("x".to_string()), -32601, "method not found")).to_string(),
        r#"{"error":{"code":-32601,"message":"method not found"},"id":"x","jsonrpc":"2.0"}"#
    );
}

#[test]
fn message_text_skips_blank_lines_and_trims_others() {
    assert_eq!(message_text(""), None);
    assert_eq!(message_text(" \t\r"), None);
    assert_eq!(message_text("  {\"id\":1}\r"), Some("{\"id\":1}".to_string()));
    assert_eq!(message_text("\u{a0}{}"), Some("{}".to_string()));
}
