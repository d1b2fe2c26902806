use mcp_client_rust::JsonValue;
use mcp_client_rust::JsonRpcRequest;
use mcp_client_rust::codec::{request_to_json, request_from_json, listing_from_json};
use mcp_client_rust::client::interpret_response;
use mcp_client_rust::client::ClientError;
use mcp_client_rust::wire::{render_text, parse_text, encode_frame, decode_frame};
use mcp_client_rust::Tool;

fn obj(entries: Vec<(&str, JsonValue)>) -> JsonValue {
    JsonValue::Obj(entries.into_iter().map(|(k, v)| (k.to_string(), v)).collect())
}

fn s(text: &str) -> JsonValue {
    JsonValue::Str(text.to_string())
}

#[test]
fn round_trip_request_without_params() {
    let req = JsonRpcRequest {
        jsonrpc: "2.0".to_string(),
        id: 1,
        method: "tools/list".to_string(),
        params: None,
    };
    let v = request_to_json(req);
    let back = request_from_json(v).expect("round trip");
    assert_eq!(back.jsonrpc, "2.0");
    assert_eq!(back.id, 1);
    assert_eq!(back.method, "tools/list");
    assert_eq!(back.params, None);
}

#[test]
fn round_trip_request_with_params() {
    let params = obj(vec![("name", s("greet")), ("arguments", obj(vec![("name", s("Alice"))]))]);
    let req = JsonRpcRequest {
        jsonrpc: "2.0".to_string(),
        id: 7,
        method: "tools/call".to_string(),
        params: Some(params),
    };
    let expected_params =
        obj(vec![("name", s("greet")), ("arguments", obj(vec![("name", s("Alice"))]))]);
    let v = request_to_json(req);
    let back = request_from_json(v).expect("round trip");
    assert_eq!(back.jsonrpc, "2.0");
    assert_eq!(back.id, 7);
    assert_eq!(back.method, "tools/call");
    assert_eq!(back.params, Some(expected_params));
}

#[test]
fn round_trip_through_rendered_text() {
    let req = JsonRpcRequest {
        jsonrpc: "2.0".to_string(),
        id: 3,
        method: "resources/list".to_string(),
        params: None,
    };
    let v = request_to_json(req);
    let text = render_text(&v);
    let parsed = parse_text(&text).expect("well-formed text parses");
    let back = request_from_json(parsed).expect("envelope survives the text");
    assert_eq!(back.jsonrpc, "2.0");
    assert_eq!(back.id, 3);
    assert_eq!(back.method, "resources/list");
    assert_eq!(back.params, None);
}

#[test]
fn rendered_frame_is_expected_wire_text() {
    let req = JsonRpcRequest {
        jsonrpc: "2.0".to_string(),
        id: 1,
        method: "tools/list".to_string(),
        params: None,
    };
    let frame = encode_frame(req);
    assert_eq!(frame, "{\"id\":1,\"jsonrpc\":\"2.0\",\"method\":\"tools/list\"}\n");
}

#[test]
fn parses_example_wire_request() {
    let v = parse_text("{\"jsonrpc\":\"2.0\",\"id\":1,\"method\":\"tools/list\"}")
        .expect("parses");
    let req = request_from_json(v).expect("decodes");
    assert_eq!(req.jsonrpc, "2.0");
    assert_eq!(req.id, 1);
    assert_eq!(req.method, "tools/list");
    assert_eq!(req.params, None);
}

#[test]
fn decode_frame_refuses_garbage() {
    let r = decode_frame("{not json");
    assert!(r.is_err());
}

#[test]
fn decode_frame_accepts_reply() {
    let v = decode_frame("{\"jsonrpc\":\"2.0\",\"id\":1,\"result\":{}}").expect("parses");
    match v {
        JsonValue::Obj(entries) => {
            assert!(entries.iter().any(|e| e.0 == "result"));
        },
        _ => panic!("expected an object"),
    }
}

#[test]
fn response_with_result_yields_the_result() {
    let v = obj(vec![("jsonrpc", s("2.0")), ("id", JsonValue::Int(1)), ("result", s("ok"))]);
    let r = interpret_response(v);
    assert_eq!(r, Ok(s("ok")));
}

#[test]
fn response_with_error_yields_its_message() {
    let err = obj(vec![("code", JsonValue::Int(-32600)), ("message", s("boom"))]);
    let v = obj(vec![("jsonrpc", s("2.0")), ("id", JsonValue::Int(1)), ("error", err)]);
    match interpret_response(v) {
        Err(ClientError::RequestFailed(m)) => assert_eq!(m, "boom"),
        other => panic!("unexpected outcome: {:?}", other),
    }
}

#[test]
fn response_error_without_message_reads_unknown() {
    let err = obj(vec![("code", JsonValue::Int(-1))]);
    let v = obj(vec![("error", err)]);
    match interpret_response(v) {
        Err(ClientError::RequestFailed(m)) => assert_eq!(m, "Unknown error"),
        other => panic!("unexpected outcome: {:?}", other),
    }
}

#[test]
fn response_with_neither_is_a_protocol_violation() {
    let v = obj(vec![("jsonrpc", s("2.0")), ("id", JsonValue::Int(1))]);
    match interpret_response(v) {
        Err(ClientError::RequestFailed(m)) => {
            assert_eq!(m, "No result or error in response")
        },
        other => panic!("unexpected outcome: {:?}", other),
    }
}

#[test]
fn tools_listing_decodes_fields() {
    let tool = obj(vec![
        ("name", s("greet")),
        ("description", s("says hello")),
        ("inputSchema", obj(vec![])),
    ]);
    let payload = obj(vec![("tools", JsonValue::Arr(vec![tool]))]);
    let tools: Vec<Tool> = listing_from_json(payload, "tools").expect("decodes");
    assert_eq!(tools.len(), 1);
    assert_eq!(tools[0].name, "greet");
    assert_eq!(tools[0].description.as_deref(), Some("says hello"));
    assert_eq!(tools[0].input_schema, JsonValue::Obj(vec![]));
}

#[test]
fn tools_listing_defaults_to_empty() {
    let payload = obj(vec![("other", s("x"))]);
    let tools: Vec<Tool> = listing_from_json(payload, "tools").expect("decodes");
    assert!(tools.is_empty());
}

#[test]
fn tools_listing_refuses_nameless_tool() {
    let tool = obj(vec![("inputSchema", obj(vec![]))]);
    let payload = obj(vec![("tools", JsonValue::Arr(vec![tool]))]);
    let tools: Option<Vec<Tool>> = listing_from_json(payload, "tools");
    assert!(tools.is_none());
}

#[test]
fn request_with_negative_id_is_refused() {
    let v = obj(vec![
        ("jsonrpc", s("2.0")),
        ("id", JsonValue::Int(-4)),
        ("method", s("tools/list")),
    ]);
    assert!(request_from_json(v).is_none());
}

#[test]
fn request_without_method_is_refused() {
    let v = obj(vec![("jsonrpc", s("2.0")), ("id", JsonValue::Int(1))]);
    assert!(request_from_json(v).is_none());
}

#[test]
fn result_takes_precedence_over_error() {
    let err = obj(vec![("message", s("ignored"))]);
    let v = obj(vec![("result", s("win")), ("error", err)]);
    assert_eq!(interpret_response(v), Ok(s("win")));
}
