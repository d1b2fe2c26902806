use mcp_client_rust::JsonValue;
use mcp_client_rust::{MCPClient, ClientError, ClientInfo, JsonRpcRequest};
use mcp_client_rust::{Transport, TransportError};
use mcp_client_rust::ToolResultContent;

fn obj(entries: Vec<(&str, JsonValue)>) -> JsonValue {
    JsonValue::Obj(entries.into_iter().map(|(k, v)| (k.to_string(), v)).collect())
}

fn s(text: &str) -> JsonValue {
    JsonValue::Str(text.to_string())
}

fn result_payload(inner: JsonValue) -> JsonValue {
    obj(vec![("jsonrpc", s("2.0")), ("id", JsonValue::Int(1)), ("result", inner)])
}

/// A scripted channel: records what was sent, replays canned replies.
struct ScriptedTransport {
    replies: Vec<Result<JsonValue, TransportError>>,
    next_reply: usize,
    sent: Vec<JsonRpcRequest>,
    close_calls: usize,
}

impl ScriptedTransport {
    fn new(replies: Vec<Result<JsonValue, TransportError>>) -> Self {
        ScriptedTransport { replies, next_reply: 0, sent: Vec::new(), close_calls: 0 }
    }
}

impl Transport for ScriptedTransport {
    fn send(&mut self, message: &JsonRpcRequest) -> Result<(), TransportError> {
        self.sent.push(JsonRpcRequest {
            jsonrpc: message.jsonrpc.clone(),
            id: message.id,
            method: message.method.clone(),
            params: None,
        });
        Ok(())
    }

    fn receive(&mut self) -> Result<JsonValue, TransportError> {
        if self.next_reply < self.replies.len() {
            let r = std::mem::replace(
                &mut self.replies[self.next_reply],
                Err(TransportError::Closed),
            );
            self.next_reply += 1;
            r
        } else {
            Err(TransportError::Closed)
        }
    }

    fn close(&mut self) -> Result<(), TransportError> {
        self.close_calls += 1;
        Ok(())
    }
}

fn client_info() -> ClientInfo {
    ClientInfo { name: "TestClient".to_string(), version: "1.0.0".to_string() }
}

#[test]
fn initialize_records_server_info() {
    let init_reply = result_payload(obj(vec![(
        "serverInfo",
        obj(vec![("name", s("demo-server")), ("version", s("0.2"))]),
    )]));
    let transport = ScriptedTransport::new(vec![Ok(init_reply)]);
    let mut client = MCPClient::new(transport, client_info());
    assert!(client.initialize().is_ok());
    assert_eq!(client.server_info.as_ref().map(|i| i.name.as_str()), Some("demo-server"));
}

#[test]
fn list_tools_returns_the_served_tool() {
    let init_reply = result_payload(obj(vec![]));
    let tool = obj(vec![("name", s("greet")), ("inputSchema", obj(vec![]))]);
    let tools_reply = result_payload(obj(vec![("tools", JsonValue::Arr(vec![tool]))]));
    let transport = ScriptedTransport::new(vec![Ok(init_reply), Ok(tools_reply)]);
    let mut client = MCPClient::new(transport, client_info());
    client.initialize().expect("handshake");
    let tools = client.list_tools().expect("listing");
    assert_eq!(tools.len(), 1);
    assert_eq!(tools[0].name, "greet");
    assert_eq!(tools[0].description, None);
}

#[test]
fn call_tool_returns_text_content() {
    let init_reply = result_payload(obj(vec![]));
    let call_reply = result_payload(obj(vec![(
        "content",
        JsonValue::Arr(vec![obj(vec![("text", s("Hello, Alice"))])]),
    )]));
    let transport = ScriptedTransport::new(vec![Ok(init_reply), Ok(call_reply)]);
    let mut client = MCPClient::new(transport, client_info());
    client.initialize().expect("handshake");
    let arguments = obj(vec![("name", s("Alice"))]);
    let result = client.call_tool("greet", arguments).expect("tool call");
    assert_eq!(result.content.len(), 1);
    match &result.content[0] {
        ToolResultContent::Text { text } => assert_eq!(text, "Hello, Alice"),
        other => panic!("unexpected content: {:?}", other),
    }
    assert_eq!(result.is_error, None);
}

#[test]
fn request_ids_increase_from_one() {
    let replies = vec![
        Ok(result_payload(obj(vec![]))),
        Ok(result_payload(obj(vec![]))),
        Ok(result_payload(obj(vec![]))),
        Ok(result_payload(obj(vec![]))),
    ];
    let transport = ScriptedTransport::new(replies);
    let mut client = MCPClient::new(transport, client_info());
    client.initialize().expect("handshake");
    let _ = client.list_tools();
    let _ = client.list_prompts();
    let _ = client.list_resources();
    let ids: Vec<u64> = client.transport.sent.iter().map(|r| r.id).collect();
    assert_eq!(ids, vec![1, 2, 3, 4]);
    for w in ids.windows(2) {
        assert!(w[0] < w[1]);
    }
}

#[test]
fn operations_before_initialize_fail_cleanly() {
    let transport = ScriptedTransport::new(vec![]);
    let mut client = MCPClient::new(transport, client_info());
    match client.list_tools() {
        Err(ClientError::RequestFailed(m)) => assert_eq!(m, "client not initialized"),
        other => panic!("unexpected outcome: {:?}", other),
    }
    assert!(client.transport.sent.is_empty());
}

#[test]
fn initialize_twice_is_refused() {
    let transport = ScriptedTransport::new(vec![Ok(result_payload(obj(vec![])))]);
    let mut client = MCPClient::new(transport, client_info());
    client.initialize().expect("first handshake");
    match client.initialize() {
        Err(ClientError::RequestFailed(m)) => assert_eq!(m, "client already initialized"),
        other => panic!("unexpected outcome: {:?}", other),
    }
}

#[test]
fn close_twice_touches_the_transport_once() {
    let transport = ScriptedTransport::new(vec![Ok(result_payload(obj(vec![])))]);
    let mut client = MCPClient::new(transport, client_info());
    client.initialize().expect("handshake");
    assert!(client.close().is_ok());
    assert!(client.close().is_ok());
    assert_eq!(client.transport.close_calls, 1);
}

#[test]
fn operations_after_close_fail_cleanly() {
    let transport = ScriptedTransport::new(vec![Ok(result_payload(obj(vec![])))]);
    let mut client = MCPClient::new(transport, client_info());
    client.initialize().expect("handshake");
    client.close().expect("teardown");
    match client.list_tools() {
        Err(ClientError::RequestFailed(m)) => assert_eq!(m, "client not initialized"),
        other => panic!("unexpected outcome: {:?}", other),
    }
}

#[test]
fn server_error_reply_surfaces_its_message() {
    let init_reply = result_payload(obj(vec![]));
    let error_reply = obj(vec![(
        "error",
        obj(vec![("code", JsonValue::Int(-32601)), ("message", s("method not found"))]),
    )]);
    let transport = ScriptedTransport::new(vec![Ok(init_reply), Ok(error_reply)]);
    let mut client = MCPClient::new(transport, client_info());
    client.initialize().expect("handshake");
    match client.list_tools() {
        Err(ClientError::RequestFailed(m)) => assert_eq!(m, "method not found"),
        other => panic!("unexpected outcome: {:?}", other),
    }
}

#[test]
fn failed_call_leaves_the_client_usable() {
    let init_reply = result_payload(obj(vec![]));
    let error_reply = obj(vec![("error", obj(vec![("message", s("busy"))]))]);
    let tools_reply = result_payload(obj(vec![("tools", JsonValue::Arr(vec![]))]));
    let transport = ScriptedTransport::new(vec![
        Ok(init_reply),
        Ok(error_reply),
        Ok(tools_reply),
    ]);
    let mut client = MCPClient::new(transport, client_info());
    client.initialize().expect("handshake");
    assert!(client.list_tools().is_err());
    let tools = client.list_tools().expect("second listing");
    assert!(tools.is_empty());
}

#[test]
fn transport_failure_is_carried_through() {
    let init_reply = result_payload(obj(vec![]));
    let transport = ScriptedTransport::new(vec![
        Ok(init_reply),
        Err(TransportError::Closed),
    ]);
    let mut client = MCPClient::new(transport, client_info());
    client.initialize().expect("handshake");
    match client.list_tools() {
        Err(ClientError::TransportError(TransportError::Closed)) => {},
        other => panic!("unexpected outcome: {:?}", other),
    }
}

#[test]
fn error_messages_render_with_their_prefixes() {
    let e = ClientError::TransportError(TransportError::Closed);
    assert_eq!(e.message(), "Transport error: Transport closed");
    let f = ClientError::RequestFailed("nope".to_string());
    assert_eq!(f.message(), "Request failed: nope");
}
