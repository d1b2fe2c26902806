use mcp_client_rust::JsonValue;
use mcp_client_rust::{MCPClient, ClientInfo, ClientError, JsonRpcRequest, McpError};
use mcp_client_rust::{Transport, TransportError};
use mcp_client_rust::ContentItem;

fn obj(entries: Vec<(&str, JsonValue)>) -> JsonValue {
    JsonValue::Obj(entries.into_iter().map(|(k, v)| (k.to_string(), v)).collect())
}

fn s(text: &str) -> JsonValue {
    JsonValue::Str(text.to_string())
}

fn result_payload(inner: JsonValue) -> JsonValue {
    obj(vec![("jsonrpc", s("2.0")), ("id", JsonValue::Int(1)), ("result", inner)])
}

/// A scripted channel that also keeps the methods it saw.
struct ReplayTransport {
    replies: Vec<Result<JsonValue, TransportError>>,
    next_reply: usize,
    methods: Vec<String>,
}

impl ReplayTransport {
    fn new(replies: Vec<Result<JsonValue, TransportError>>) -> Self {
        ReplayTransport { replies, next_reply: 0, methods: Vec::new() }
    }
}

impl Transport for ReplayTransport {
    fn send(&mut self, message: &JsonRpcRequest) -> Result<(), TransportError> {
        self.methods.push(message.method.clone());
        Ok(())
    }

    fn receive(&mut self) -> Result<JsonValue, TransportError> {
        if self.next_reply < self.replies.len() {
            let r = std::mem::replace(
                &mut self.replies[self.next_reply],
                Err(TransportError::Closed),
            );
            self.next_reply += 1;
            r
        } else {
            Err(TransportError::Closed)
        }
    }

    fn close(&mut self) -> Result<(), TransportError> {
        Ok(())
    }
}

fn ready_client(replies: Vec<Result<JsonValue, TransportError>>) -> MCPClient<ReplayTransport> {
    let mut all = vec![Ok(result_payload(obj(vec![])))];
    all.extend(replies);
    let transport = ReplayTransport::new(all);
    let info = ClientInfo { name: "TestClient".to_string(), version: "1.0.0".to_string() };
    let mut client = MCPClient::new(transport, info);
    client.initialize().expect("handshake");
    client
}

#[test]
fn read_resource_returns_contents() {
    let reply = result_payload(obj(vec![(
        "contents",
        JsonValue::Arr(vec![
            obj(vec![("text", s("hello config"))]),
            obj(vec![("blob", s("AAECAw=="))]),
        ]),
    )]));
    let mut client = ready_client(vec![Ok(reply)]);
    let content = client.read_resource("config://app").expect("read");
    assert_eq!(content.contents.len(), 2);
    assert!(matches!(&content.contents[0], ContentItem::Text { text } if text == "hello config"));
    assert!(matches!(&content.contents[1], ContentItem::Blob { blob } if blob == "AAECAw=="));
    assert_eq!(client.transport.methods, vec!["initialize", "resources/read"]);
}

#[test]
fn get_prompt_returns_messages() {
    let reply = result_payload(obj(vec![(
        "messages",
        JsonValue::Arr(vec![obj(vec![("role", s("user")), ("content", s("review this"))])]),
    )]));
    let mut client = ready_client(vec![Ok(reply)]);
    let prompts = client
        .get_prompt(
            "review-code",
            Some(vec![("code".to_string(), "fn main() {}".to_string())]),
        )
        .expect("prompt");
    assert_eq!(prompts.messages.len(), 1);
    assert_eq!(prompts.messages[0].role, "user");
    assert_eq!(prompts.messages[0].content, "review this");
    assert_eq!(client.transport.methods, vec!["initialize", "prompts/get"]);
}

#[test]
fn list_resources_returns_both_listings() {
    let reply = result_payload(obj(vec![
        (
            "resources",
            JsonValue::Arr(vec![obj(vec![("uri", s("config://app")), ("name", s("config"))])]),
        ),
        (
            "resourceTemplates",
            JsonValue::Arr(vec![obj(vec![
                ("uri_template", s("file://{path}")),
                ("name", s("files")),
                ("description", s("any file")),
            ])]),
        ),
    ]));
    let mut client = ready_client(vec![Ok(reply)]);
    let (resources, templates) = client.list_resources().expect("listing");
    assert_eq!(resources.len(), 1);
    assert_eq!(resources[0].uri, "config://app");
    assert_eq!(resources[0].name, "config");
    assert_eq!(resources[0].description, None);
    assert_eq!(templates.len(), 1);
    assert_eq!(templates[0].uri_template, "file://{path}");
    assert_eq!(templates[0].description.as_deref(), Some("any file"));
}

#[test]
fn list_resources_defaults_to_empty_listings() {
    let mut client = ready_client(vec![Ok(result_payload(obj(vec![])))]);
    let (resources, templates) = client.list_resources().expect("listing");
    assert!(resources.is_empty());
    assert!(templates.is_empty());
}

#[test]
fn list_prompts_decodes_arguments() {
    let prompt = obj(vec![
        ("name", s("review-code")),
        ("description", s("reviews code")),
        (
            "arguments",
            JsonValue::Arr(vec![obj(vec![
                ("name", s("code")),
                ("required", JsonValue::Bool(true)),
            ])]),
        ),
    ]);
    let reply = result_payload(obj(vec![("prompts", JsonValue::Arr(vec![prompt]))]));
    let mut client = ready_client(vec![Ok(reply)]);
    let prompts = client.list_prompts().expect("listing");
    assert_eq!(prompts.len(), 1);
    assert_eq!(prompts[0].name, "review-code");
    let args = prompts[0].arguments.as_ref().expect("arguments");
    assert_eq!(args.len(), 1);
    assert_eq!(args[0].name, "code");
    assert_eq!(args[0].required, Some(true));
    assert_eq!(args[0].description, None);
}

#[test]
fn malformed_payload_is_a_json_error() {
    let reply = result_payload(obj(vec![("tools", s("not a list"))]));
    let mut client = ready_client(vec![Ok(reply)]);
    match client.list_tools() {
        Err(ClientError::JsonError(_)) => {},
        other => panic!("unexpected outcome: {:?}", other),
    }
}

#[test]
fn top_level_error_conversions_keep_the_failure() {
    let t = McpError::from(TransportError::Closed);
    assert!(matches!(&t, McpError::Transport(m) if m == "Transport closed"));
    assert_eq!(t.message(), "Transport error: Transport closed");

    let c = McpError::from(ClientError::RequestFailed("nope".to_string()));
    assert!(matches!(&c, McpError::ClientError(ClientError::RequestFailed(m)) if m == "nope"));
    assert_eq!(c.message(), "Client error: Request failed: nope");
}

#[test]
fn transport_error_messages_render() {
    assert_eq!(
        TransportError::IoError("broken pipe".to_string()).message(),
        "IO error: broken pipe",
    );
    assert_eq!(
        TransportError::ConnectionError("refused".to_string()).message(),
        "Connection error: refused",
    );
    assert_eq!(
        TransportError::JsonError("bad frame".to_string()).message(),
        "JSON error: bad frame",
    );
}
