use mcp_client_rust::JsonValue;
use mcp_client_rust::{Transport, TransportError, JsonRpcRequest, McpError};
use mcp_client_rust::multi_server::{MultiServerManager, ServerConfig};

fn obj(entries: Vec<(&str, JsonValue)>) -> JsonValue {
    JsonValue::Obj(entries.into_iter().map(|(k, v)| (k.to_string(), v)).collect())
}

fn s(text: &str) -> JsonValue {
    JsonValue::Str(text.to_string())
}

fn result_payload(inner: JsonValue) -> JsonValue {
    obj(vec![("jsonrpc", s("2.0")), ("id", JsonValue::Int(1)), ("result", inner)])
}

fn tools_reply(names: Vec<&str>) -> JsonValue {
    let tools: Vec<JsonValue> = names
        .into_iter()
        .map(|n| obj(vec![("name", s(n)), ("inputSchema", obj(vec![]))]))
        .collect();
    result_payload(obj(vec![("tools", JsonValue::Arr(tools))]))
}

/// A scripted channel for driving the manager.
struct ScriptedTransport {
    replies: Vec<Result<JsonValue, TransportError>>,
    next_reply: usize,
}

impl ScriptedTransport {
    fn new(replies: Vec<Result<JsonValue, TransportError>>) -> Self {
        ScriptedTransport { replies, next_reply: 0 }
    }
}

impl Transport for ScriptedTransport {
    fn send(&mut self, _message: &JsonRpcRequest) -> Result<(), TransportError> {
        Ok(())
    }

    fn receive(&mut self) -> Result<JsonValue, TransportError> {
        if self.next_reply < self.replies.len() {
            let r = std::mem::replace(
                &mut self.replies[self.next_reply],
                Err(TransportError::Closed),
            );
            self.next_reply += 1;
            r
        } else {
            Err(TransportError::Closed)
        }
    }

    fn close(&mut self) -> Result<(), TransportError> {
        Ok(())
    }
}

fn config(id: &str) -> ServerConfig {
    ServerConfig {
        id: id.to_string(),
        name: format!("server {}", id),
        url: format!("http://localhost/{}", id),
        headers: None,
    }
}

#[test]
fn one_failing_session_does_not_hide_the_other() {
    let mut manager = MultiServerManager::new();
    let healthy = ScriptedTransport::new(vec![
        Ok(result_payload(obj(vec![]))),
        Ok(tools_reply(vec!["greet", "sum"])),
    ]);
    let failing = ScriptedTransport::new(vec![
        Ok(result_payload(obj(vec![]))),
        Err(TransportError::Closed),
    ]);
    manager.add_server(healthy, config("alpha")).expect("first session");
    manager.add_server(failing, config("beta")).expect("second session");

    let pairs = manager.get_all_tools().expect("fan-out never aborts");
    assert_eq!(pairs.len(), 2);
    assert!(pairs.iter().all(|p| p.0 == "alpha"));
    let names: Vec<&str> = pairs.iter().map(|p| p.1.name.as_str()).collect();
    assert_eq!(names, vec!["greet", "sum"]);
}

#[test]
fn remove_server_on_unknown_id_is_a_no_op_success() {
    let mut manager: MultiServerManager<ScriptedTransport> = MultiServerManager::new();
    assert!(manager.remove_server("nobody").is_ok());
    assert!(manager.get_server_ids().is_empty());
}

#[test]
fn remove_server_drops_the_session() {
    let mut manager = MultiServerManager::new();
    let t = ScriptedTransport::new(vec![Ok(result_payload(obj(vec![])))]);
    manager.add_server(t, config("alpha")).expect("session");
    assert_eq!(manager.get_server_ids(), vec!["alpha".to_string()]);
    manager.remove_server("alpha").expect("teardown");
    assert!(manager.get_server_ids().is_empty());
    assert!(manager.get_client("alpha").is_none());
}

#[test]
fn failed_handshake_registers_nothing() {
    let mut manager = MultiServerManager::new();
    let t = ScriptedTransport::new(vec![Err(TransportError::ConnectionError(
        "refused".to_string(),
    ))]);
    match manager.add_server(t, config("alpha")) {
        Err(McpError::ClientError(_)) => {},
        other => panic!("unexpected outcome: {:?}", other.map(|_| ())),
    }
    assert!(manager.get_server_ids().is_empty());
}

#[test]
fn duplicate_id_replaces_the_session() {
    let mut manager = MultiServerManager::new();
    let first = ScriptedTransport::new(vec![
        Ok(result_payload(obj(vec![]))),
        Ok(tools_reply(vec!["old"])),
    ]);
    let second = ScriptedTransport::new(vec![
        Ok(result_payload(obj(vec![]))),
        Ok(tools_reply(vec!["new"])),
    ]);
    manager.add_server(first, config("alpha")).expect("first registration");
    manager.add_server(second, config("alpha")).expect("replacement");
    assert_eq!(manager.get_server_ids(), vec!["alpha".to_string()]);
    let pairs = manager.get_all_tools().expect("fan-out");
    assert_eq!(pairs.len(), 1);
    assert_eq!(pairs[0].1.name, "new");
}

#[test]
fn get_client_finds_registered_sessions() {
    let mut manager = MultiServerManager::new();
    let t = ScriptedTransport::new(vec![Ok(result_payload(obj(vec![])))]);
    manager.add_server(t, config("alpha")).expect("session");
    assert!(manager.get_client("alpha").is_some());
    assert!(manager.get_client("beta").is_none());
}
