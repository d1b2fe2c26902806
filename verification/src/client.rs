use vstd::prelude::*;
use vstd::string::StringExecFns;
use crate::json::{JsonValue, assoc_find};
use crate::types::{
    ClientInfo, ServerInfo, Tool, Resource, ResourceTemplate, Prompt, PromptsResult,
    ToolResult, ResourceContent, JsonRpcRequest,
};
use crate::transport::{Transport, TransportError, transport_error_text};
use crate::codec::{
    MAX_REQUEST_ID, FromJson, listing_decodable, listing_decodes, listing_from_json,
    resources_from_json, response_result, response_error, error_message_view,
    call_tool_params, read_resource_params, get_prompt_params, initialize_params,
    encodes_call_params, encodes_read_params, encodes_prompt_params, encodes_initialize_params,
    handshake_server_info, server_info_from_json,
};

verus! {

/// A failure surfaced by the protocol client: a transport failure
/// carried through, a malformed payload, a request the server refused,
/// or an absent tool or resource.
#[derive(Debug, Clone, PartialEq)]
pub enum ClientError {
    TransportError(TransportError),
    JsonError(String),
    RequestFailed(String),
    ToolNotFound(String),
    ResourceNotFound(String),
}

/// The text a client failure reads as.
pub open spec fn client_error_text(e: ClientError) -> Seq<char> {
    match e {
        ClientError::TransportError(t) => "Transport error: "@ + transport_error_text(t),
        ClientError::JsonError(s) => "JSON error: "@ + s@,
        ClientError::RequestFailed(s) => "Request failed: "@ + s@,
        ClientError::ToolNotFound(s) => "Tool not found: "@ + s@,
        ClientError::ResourceNotFound(s) => "Resource not found: "@ + s@,
    }
}

impl ClientError {
    /// Human-readable text of the failure.
    pub fn message(&self) -> (r: String)
        ensures
            r@ == client_error_text(*self),
    {
        match self {
            ClientError::TransportError(t) => {
                let inner = t.message();
                "Transport error: ".to_owned().concat(inner.as_str())
            },
            ClientError::JsonError(s) => "JSON error: ".to_owned().concat(s.as_str()),
            ClientError::RequestFailed(s) => "Request failed: ".to_owned().concat(s.as_str()),
            ClientError::ToolNotFound(s) => "Tool not found: ".to_owned().concat(s.as_str()),
            ClientError::ResourceNotFound(s) => {
                "Resource not found: ".to_owned().concat(s.as_str())
            },
        }
    }
}

pub type ClientResult<T> = Result<T, ClientError>;

/// Protocol phase of a client: a fresh client must complete the
/// handshake before any operation; teardown is terminal.
#[derive(Debug, Clone, Copy, PartialEq, Eq)]
pub enum ClientState {
    Uninitialized,
    Initialized,
    Closed,
}

/// Interprets the one message read back for a request: a result payload
/// is the outcome; a structured error surfaces its message; a reply
/// with neither is a protocol violation.
pub fn interpret_response(v: JsonValue) -> (r: Result<JsonValue, ClientError>)
    ensures
        response_result(v) matches Some(p) ==> r == Ok::<JsonValue, ClientError>(p),
        r matches Ok(p) ==> response_result(v) == Some(p),
        response_result(v) is None ==> (response_error(v) matches Some(e)
            ==> (r matches Err(ClientError::RequestFailed(m)) && m@ == error_message_view(e))),
        response_result(v) is None && response_error(v) is None
            ==> (r matches Err(ClientError::RequestFailed(m))
                && m@ == "No result or error in response"@),
{
    match v {
        JsonValue::Obj(es) => {
            let mut es = es;
            if let Some(i) = assoc_find(&es, "result") {
                return Ok(es.remove(i).1);
            }
            match assoc_find(&es, "error") {
                Some(i) => {
                    let err = es.remove(i).1;
                    let msg: String = match err {
                        JsonValue::Obj(mes) => match assoc_find(&mes, "message") {
                            Some(j) => match &mes[j].1 {
                                JsonValue::Str(s) => s.clone(),
                                _ => "Unknown error".to_owned(),
                            },
                            None => "Unknown error".to_owned(),
                        },
                        _ => "Unknown error".to_owned(),
                    };
                    Err(ClientError::RequestFailed(msg))
                },
                None => Err(ClientError::RequestFailed(
                    "No result or error in response".to_owned(),
                )),
            }
        },
        _ => Err(ClientError::RequestFailed("No result or error in response".to_owned())),
    }
}

/// The protocol client: owns one transport, assigns monotonically
/// increasing request ids, performs the handshake, and exposes the
/// typed operations. At most one request is in flight at a time; the
/// reply to a request is the next message read from the transport.
///
/// Two ghost transcripts record the traffic: `sent` holds every
/// envelope handed to the transport, `received` every message read
/// back, and the contracts of the operations speak of both.
pub struct MCPClient<T: Transport> {
    pub transport: T,
    pub client_info: ClientInfo,
    pub server_info: Option<ServerInfo>,
    pub next_id: u64,
    pub state: ClientState,
    pub sent: Ghost<Seq<JsonRpcRequest>>,
    pub received: Ghost<Seq<JsonValue>>,
}

impl<T: Transport> MCPClient<T> {
    /// The envelopes sent so far carried exactly the ids 1, 2, 3, ...
    /// and the next id continues the run.
    pub open spec fn inv(&self) -> bool {
        &&& 1 <= self.next_id <= MAX_REQUEST_ID + 1
        &&& self.sent@.len() == self.next_id - 1
        &&& forall|i: int| 0 <= i < self.sent@.len() ==> (#[trigger] self.sent@[i]).id == i + 1
    }

    /// Nothing about the session changed.
    pub open spec fn same_session(pre: Self, post: Self) -> bool {
        &&& post.client_info == pre.client_info
        &&& post.server_info == pre.server_info
        &&& post.state == pre.state
        &&& post.next_id == pre.next_id
        &&& post.sent@ == pre.sent@
        &&& post.received@ == pre.received@
    }

    /// One attempted exchange for `method`: unless the id space was
    /// exhausted, exactly one envelope was handed to the transport —
    /// protocol tag "2.0", the id taken from the counter, the given
    /// method — and the counter advanced.
    pub open spec fn stepped(pre: Self, post: Self, method: Seq<char>) -> bool {
        &&& post.client_info == pre.client_info
        &&& if pre.next_id <= MAX_REQUEST_ID {
            &&& post.next_id == pre.next_id + 1
            &&& post.sent@.len() == pre.sent@.len() + 1
            &&& post.sent@.drop_last() == pre.sent@
            &&& post.sent@.last().jsonrpc@ == "2.0"@
            &&& post.sent@.last().id == pre.next_id
            &&& post.sent@.last().method@ == method
        } else {
            post.next_id == pre.next_id && post.sent@ == pre.sent@
        }
    }

    /// One message was read back and recorded.
    pub open spec fn got_reply(pre: Self, post: Self) -> bool {
        &&& post.received@.len() == pre.received@.len() + 1
        &&& post.received@.drop_last() == pre.received@
    }

    /// The last sent envelope carried the given parameters.
    pub open spec fn sent_params(post: Self, params: Option<JsonValue>) -> bool {
        post.sent@.len() >= 1 && post.sent@.last().params == params
    }

    /// Request ids are strictly increasing across any sequence of
    /// operations on one client, and start at 1: the sent envelopes
    /// carry exactly the ids 1, 2, 3, ...
    pub proof fn lemma_request_ids_strictly_increasing(self, i: int, j: int)
        requires
            self.inv(),
            0 <= i < j < self.sent@.len(),
        ensures
            self.sent@[i].id == i + 1,
            self.sent@[j].id == j + 1,
            self.sent@[i].id < self.sent@[j].id,
    {
    }

    /// A fresh client over a transport: uninitialized, next id 1,
    /// nothing sent or received.
    pub fn new(transport: T, client_info: ClientInfo) -> (c: Self)
        ensures
            c.inv(),
            c.state is Uninitialized,
            c.next_id == 1,
            c.sent@ == Seq::<JsonRpcRequest>::empty(),
            c.received@ == Seq::<JsonValue>::empty(),
            c.client_info == client_info,
            c.server_info is None,
            c.transport == transport,
    {
        MCPClient {
            transport,
            client_info,
            server_info: None,
            next_id: 1,
            state: ClientState::Uninitialized,
            sent: Ghost(Seq::empty()),
            received: Ghost(Seq::empty()),
        }
    }

    /// The request/response primitive: takes the next id, hands the
    /// envelope to the transport, reads the next inbound message back
    /// and interprets it.
    fn send_request(&mut self, method: &str, params: Option<JsonValue>) -> (r: Result<
        JsonValue,
        ClientError,
    >)
        requires
            old(self).inv(),
        ensures
            final(self).inv(),
            final(self).client_info == old(self).client_info,
            final(self).server_info == old(self).server_info,
            final(self).state == old(self).state,
            Self::stepped(*old(self), *final(self), method@),
            old(self).next_id <= MAX_REQUEST_ID ==> Self::sent_params(*final(self), params),
            old(self).next_id > MAX_REQUEST_ID ==> (r matches Err(
                ClientError::RequestFailed(m),
            ) && m@ == "request id space exhausted"@),
            r matches Ok(p) ==> Self::got_reply(*old(self), *final(self))
                && response_result(final(self).received@.last()) == Some(p),
            final(self).received@ == old(self).received@
                || Self::got_reply(*old(self), *final(self)),
    {
        if self.next_id > MAX_REQUEST_ID {
            return Err(ClientError::RequestFailed("request id space exhausted".to_owned()));
        }
        let id = self.next_id;
        let request = JsonRpcRequest {
            jsonrpc: "2.0".to_owned(),
            id,
            method: method.to_owned(),
            params,
        };
        self.next_id = id + 1;
        let ghost pre_sent: Seq<JsonRpcRequest> = self.sent@;
        let ghost greq: JsonRpcRequest = request;
        proof {
            self.sent@ = self.sent@.push(greq);
            assert(pre_sent.push(greq).drop_last() =~= pre_sent);
        }
        match self.transport.send(&request) {
            Ok(_) => {},
            Err(e) => {
                return Err(ClientError::TransportError(e));
            },
        }
        let msg = match self.transport.receive() {
            Ok(m) => m,
            Err(e) => {
                return Err(ClientError::TransportError(e));
            },
        };
        let ghost pre_received: Seq<JsonValue> = self.received@;
        let ghost gmsg: JsonValue = msg;
        proof {
            self.received@ = self.received@.push(gmsg);
            assert(pre_received.push(gmsg).drop_last() =~= pre_received);
        }
        interpret_response(msg)
    }

    /// The handshake reply was recorded and the server identity read
    /// out of its result payload.
    pub open spec fn handshake_reply(pre: Self, post: Self) -> bool {
        &&& Self::got_reply(pre, post)
        &&& response_result(post.received@.last()) matches Some(p)
            && handshake_server_info(p, post.server_info)
    }

    /// The handshake: hands the transport an "initialize" envelope
    /// carrying the protocol version, the declared capabilities and
    /// the client identity, and records the server's identity from the
    /// reply. Legal exactly once, on a fresh client.
    pub fn initialize(&mut self) -> (r: ClientResult<()>)
        requires
            old(self).inv(),
        ensures
            final(self).inv(),
            final(self).client_info == old(self).client_info,
            old(self).state !is Uninitialized ==> Self::same_session(*old(self), *final(self))
                && (r matches Err(ClientError::RequestFailed(m))
                && m@ == "client already initialized"@),
            final(self).received@ == old(self).received@ || Self::got_reply(
                *old(self),
                *final(self),
            ),
            old(self).state is Uninitialized ==> Self::stepped(
                *old(self),
                *final(self),
                "initialize"@,
            ),
            old(self).state is Uninitialized && old(self).next_id <= MAX_REQUEST_ID ==> (
            final(self).sent@.last().params matches Some(p) && encodes_initialize_params(
                old(self).client_info,
                p,
            )),
            old(self).state is Uninitialized && old(self).next_id > MAX_REQUEST_ID ==> (
            r matches Err(ClientError::RequestFailed(m))
                && m@ == "request id space exhausted"@),
            old(self).state is Uninitialized && r is Ok ==> final(self).state is Initialized
                && Self::handshake_reply(*old(self), *final(self)),
            old(self).state is Uninitialized && r is Err ==> final(self).state is Uninitialized
                && final(self).server_info == old(self).server_info,
    {
        match self.state {
            ClientState::Uninitialized => {},
            _ => {
                return Err(ClientError::RequestFailed("client already initialized".to_owned()));
            },
        }
        let params = initialize_params(&self.client_info);
        let payload = match self.send_request("initialize", Some(params)) {
            Ok(p) => p,
            Err(e) => {
                return Err(e);
            },
        };
        let ghost gp: JsonValue = payload;
        self.server_info = server_info_from_json(payload);
        self.state = ClientState::Initialized;
        proof {
            assert(handshake_server_info(gp, self.server_info));
        }
        Ok(())
    }

    /// The reply to a listing request was recorded and `ts` is the
    /// listing under `key` of its result payload.
    pub open spec fn listing_reply<R: FromJson>(
        pre: Self,
        post: Self,
        key: Seq<char>,
        ts: Seq<R>,
    ) -> bool {
        &&& Self::got_reply(pre, post)
        &&& response_result(post.received@.last()) matches Some(p)
            && listing_decodable::<R>(p, key) && listing_decodes::<R>(p, key, ts)
    }

    /// Lists the tools the server exposes; an absent listing reads as
    /// empty.
    pub fn list_tools(&mut self) -> (r: ClientResult<Vec<Tool>>)
        requires
            old(self).inv(),
        ensures
            final(self).inv(),
            final(self).state == old(self).state,
            final(self).server_info == old(self).server_info,
            final(self).client_info == old(self).client_info,
            old(self).state !is Initialized ==> Self::same_session(*old(self), *final(self))
                && (r matches Err(ClientError::RequestFailed(m))
                && m@ == "client not initialized"@),
            final(self).received@ == old(self).received@ || Self::got_reply(
                *old(self),
                *final(self),
            ),
            old(self).state is Initialized ==> Self::stepped(
                *old(self),
                *final(self),
                "tools/list"@,
            ),
            old(self).state is Initialized && old(self).next_id <= MAX_REQUEST_ID
                ==> Self::sent_params(*final(self), None),
            old(self).state is Initialized && old(self).next_id > MAX_REQUEST_ID ==> (
            r matches Err(ClientError::RequestFailed(m))
                && m@ == "request id space exhausted"@),
            r matches Ok(ts) ==> Self::listing_reply::<Tool>(
                *old(self),
                *final(self),
                "tools"@,
                ts@,
            ),
    {
        match self.state {
            ClientState::Initialized => {},
            _ => {
                return Err(ClientError::RequestFailed("client not initialized".to_owned()));
            },
        }
        let payload = match self.send_request("tools/list", None) {
            Ok(p) => p,
            Err(e) => {
                return Err(e);
            },
        };
        let ghost gp: JsonValue = payload;
        match listing_from_json::<Tool>(payload, "tools") {
            Some(ts) => {
                proof {
                    assert(listing_decodable::<Tool>(gp, "tools"@)
                        && listing_decodes::<Tool>(gp, "tools"@, ts@));
                }
                Ok(ts)
            },
            None => Err(ClientError::JsonError("malformed result payload".to_owned())),
        }
    }

    /// The reply to a resource listing was recorded and the pair holds
    /// both listings of its result payload.
    pub open spec fn resources_reply(
        pre: Self,
        post: Self,
        rs: Seq<Resource>,
        ts: Seq<ResourceTemplate>,
    ) -> bool {
        &&& Self::got_reply(pre, post)
        &&& response_result(post.received@.last()) matches Some(p)
            && listing_decodes::<Resource>(p, "resources"@, rs)
            && listing_decodes::<ResourceTemplate>(p, "resourceTemplates"@, ts)
    }

    /// Lists the resources and resource templates the server exposes;
    /// absent listings read as empty.
    pub fn list_resources(&mut self) -> (r: ClientResult<(Vec<Resource>, Vec<ResourceTemplate>)>)
        requires
            old(self).inv(),
        ensures
            final(self).inv(),
            final(self).state == old(self).state,
            final(self).server_info == old(self).server_info,
            final(self).client_info == old(self).client_info,
            old(self).state !is Initialized ==> Self::same_session(*old(self), *final(self))
                && (r matches Err(ClientError::RequestFailed(m))
                && m@ == "client not initialized"@),
            final(self).received@ == old(self).received@ || Self::got_reply(
                *old(self),
                *final(self),
            ),
            old(self).state is Initialized ==> Self::stepped(
                *old(self),
                *final(self),
                "resources/list"@,
            ),
            old(self).state is Initialized && old(self).next_id <= MAX_REQUEST_ID
                ==> Self::sent_params(*final(self), None),
            old(self).state is Initialized && old(self).next_id > MAX_REQUEST_ID ==> (
            r matches Err(ClientError::RequestFailed(m))
                && m@ == "request id space exhausted"@),
            r matches Ok(pair) ==> Self::resources_reply(
                *old(self),
                *final(self),
                pair.0@,
                pair.1@,
            ),
    {
        match self.state {
            ClientState::Initialized => {},
            _ => {
                return Err(ClientError::RequestFailed("client not initialized".to_owned()));
            },
        }
        let payload = match self.send_request("resources/list", None) {
            Ok(p) => p,
            Err(e) => {
                return Err(e);
            },
        };
        let ghost gp: JsonValue = payload;
        match resources_from_json(payload) {
            Some(pair) => {
                proof {
                    assert(listing_decodes::<Resource>(gp, "resources"@, pair.0@)
                        && listing_decodes::<ResourceTemplate>(
                        gp,
                        "resourceTemplates"@,
                        pair.1@,
                    ));
                }
                Ok(pair)
            },
            None => Err(ClientError::JsonError("malformed result payload".to_owned())),
        }
    }

    /// Lists the prompts the server serves; an absent listing reads as
    /// empty.
    pub fn list_prompts(&mut self) -> (r: ClientResult<Vec<Prompt>>)
        requires
            old(self).inv(),
        ensures
            final(self).inv(),
            final(self).state == old(self).state,
            final(self).server_info == old(self).server_info,
            final(self).client_info == old(self).client_info,
            old(self).state !is Initialized ==> Self::same_session(*old(self), *final(self))
                && (r matches Err(ClientError::RequestFailed(m))
                && m@ == "client not initialized"@),
            final(self).received@ == old(self).received@ || Self::got_reply(
                *old(self),
                *final(self),
            ),
            old(self).state is Initialized ==> Self::stepped(
                *old(self),
                *final(self),
                "prompts/list"@,
            ),
            old(self).state is Initialized && old(self).next_id <= MAX_REQUEST_ID
                ==> Self::sent_params(*final(self), None),
            old(self).state is Initialized && old(self).next_id > MAX_REQUEST_ID ==> (
            r matches Err(ClientError::RequestFailed(m))
                && m@ == "request id space exhausted"@),
            r matches Ok(ps) ==> Self::listing_reply::<Prompt>(
                *old(self),
                *final(self),
                "prompts"@,
                ps@,
            ),
    {
        match self.state {
            ClientState::Initialized => {},
            _ => {
                return Err(ClientError::RequestFailed("client not initialized".to_owned()));
            },
        }
        let payload = match self.send_request("prompts/list", None) {
            Ok(p) => p,
            Err(e) => {
                return Err(e);
            },
        };
        let ghost gp: JsonValue = payload;
        match listing_from_json::<Prompt>(payload, "prompts") {
            Some(ps) => {
                proof {
                    assert(listing_decodable::<Prompt>(gp, "prompts"@)
                        && listing_decodes::<Prompt>(gp, "prompts"@, ps@));
                }
                Ok(ps)
            },
            None => Err(ClientError::JsonError("malformed result payload".to_owned())),
        }
    }

    /// The reply to a request was recorded and `t` is the record its
    /// result payload reads as.
    pub open spec fn record_reply<R: FromJson>(pre: Self, post: Self, t: R) -> bool {
        &&& Self::got_reply(pre, post)
        &&& response_result(post.received@.last()) matches Some(p) && R::decodable(p)
            && R::decodes(p, t)
    }

    /// Calls one tool by name with a structured argument value.
    pub fn call_tool(&mut self, tool_name: &str, arguments: JsonValue) -> (r: ClientResult<
        ToolResult,
    >)
        requires
            old(self).inv(),
        ensures
            final(self).inv(),
            final(self).state == old(self).state,
            final(self).server_info == old(self).server_info,
            final(self).client_info == old(self).client_info,
            old(self).state !is Initialized ==> Self::same_session(*old(self), *final(self))
                && (r matches Err(ClientError::RequestFailed(m))
                && m@ == "client not initialized"@),
            final(self).received@ == old(self).received@ || Self::got_reply(
                *old(self),
                *final(self),
            ),
            old(self).state is Initialized ==> Self::stepped(
                *old(self),
                *final(self),
                "tools/call"@,
            ),
            old(self).state is Initialized && old(self).next_id <= MAX_REQUEST_ID ==> (
            final(self).sent@.last().params matches Some(p) && encodes_call_params(
                tool_name@,
                arguments,
                p,
            )),
            old(self).state is Initialized && old(self).next_id > MAX_REQUEST_ID ==> (
            r matches Err(ClientError::RequestFailed(m))
                && m@ == "request id space exhausted"@),
            r matches Ok(t) ==> Self::record_reply::<ToolResult>(*old(self), *final(self), t),
    {
        match self.state {
            ClientState::Initialized => {},
            _ => {
                return Err(ClientError::RequestFailed("client not initialized".to_owned()));
            },
        }
        let params = call_tool_params(tool_name, arguments);
        let payload = match self.send_request("tools/call", Some(params)) {
            Ok(p) => p,
            Err(e) => {
                return Err(e);
            },
        };
        let ghost gp: JsonValue = payload;
        match ToolResult::from_json(payload) {
            Some(t) => {
                proof {
                    assert(ToolResult::decodable(gp) && ToolResult::decodes(gp, t));
                }
                Ok(t)
            },
            None => Err(ClientError::JsonError("malformed result payload".to_owned())),
        }
    }

    /// Reads one resource by URI.
    pub fn read_resource(&mut self, uri: &str) -> (r: ClientResult<ResourceContent>)
        requires
            old(self).inv(),
        ensures
            final(self).inv(),
            final(self).state == old(self).state,
            final(self).server_info == old(self).server_info,
            final(self).client_info == old(self).client_info,
            old(self).state !is Initialized ==> Self::same_session(*old(self), *final(self))
                && (r matches Err(ClientError::RequestFailed(m))
                && m@ == "client not initialized"@),
            final(self).received@ == old(self).received@ || Self::got_reply(
                *old(self),
                *final(self),
            ),
            old(self).state is Initialized ==> Self::stepped(
                *old(self),
                *final(self),
                "resources/read"@,
            ),
            old(self).state is Initialized && old(self).next_id <= MAX_REQUEST_ID ==> (
            final(self).sent@.last().params matches Some(p) && encodes_read_params(uri@, p)),
            old(self).state is Initialized && old(self).next_id > MAX_REQUEST_ID ==> (
            r matches Err(ClientError::RequestFailed(m))
                && m@ == "request id space exhausted"@),
            r matches Ok(c) ==> Self::record_reply::<ResourceContent>(
                *old(self),
                *final(self),
                c,
            ),
    {
        match self.state {
            ClientState::Initialized => {},
            _ => {
                return Err(ClientError::RequestFailed("client not initialized".to_owned()));
            },
        }
        let params = read_resource_params(uri);
        let payload = match self.send_request("resources/read", Some(params)) {
            Ok(p) => p,
            Err(e) => {
                return Err(e);
            },
        };
        let ghost gp: JsonValue = payload;
        match ResourceContent::from_json(payload) {
            Some(c) => {
                proof {
                    assert(ResourceContent::decodable(gp) && ResourceContent::decodes(gp, c));
                }
                Ok(c)
            },
            None => Err(ClientError::JsonError("malformed result payload".to_owned())),
        }
    }

    /// Requests one prompt by name with string-valued arguments; an
    /// absent argument map is sent as the empty object.
    pub fn get_prompt(&mut self, name: &str, arguments: Option<Vec<(String, String)>>) -> (r:
        ClientResult<PromptsResult>)
        requires
            old(self).inv(),
        ensures
            final(self).inv(),
            final(self).state == old(self).state,
            final(self).server_info == old(self).server_info,
            final(self).client_info == old(self).client_info,
            old(self).state !is Initialized ==> Self::same_session(*old(self), *final(self))
                && (r matches Err(ClientError::RequestFailed(m))
                && m@ == "client not initialized"@),
            final(self).received@ == old(self).received@ || Self::got_reply(
                *old(self),
                *final(self),
            ),
            old(self).state is Initialized ==> Self::stepped(
                *old(self),
                *final(self),
                "prompts/get"@,
            ),
            old(self).state is Initialized && old(self).next_id <= MAX_REQUEST_ID ==> (
            final(self).sent@.last().params matches Some(p) && encodes_prompt_params(
                name@,
                arguments,
                p,
            )),
            old(self).state is Initialized && old(self).next_id > MAX_REQUEST_ID ==> (
            r matches Err(ClientError::RequestFailed(m))
                && m@ == "request id space exhausted"@),
            r matches Ok(pr) ==> Self::record_reply::<PromptsResult>(
                *old(self),
                *final(self),
                pr,
            ),
    {
        match self.state {
            ClientState::Initialized => {},
            _ => {
                return Err(ClientError::RequestFailed("client not initialized".to_owned()));
            },
        }
        let params = get_prompt_params(name, arguments);
        let payload = match self.send_request("prompts/get", Some(params)) {
            Ok(p) => p,
            Err(e) => {
                return Err(e);
            },
        };
        let ghost gp: JsonValue = payload;
        match PromptsResult::from_json(payload) {
            Some(pr) => {
                proof {
                    assert(PromptsResult::decodable(gp) && PromptsResult::decodes(gp, pr));
                }
                Ok(pr)
            },
            None => Err(ClientError::JsonError("malformed result payload".to_owned())),
        }
    }

    /// Tears the session down: delegates to the transport once and is
    /// the terminal transition; closing an already closed client does
    /// nothing and succeeds.
    pub fn close(&mut self) -> (r: ClientResult<()>)
        requires
            old(self).inv(),
        ensures
            final(self).inv(),
            final(self).state is Closed,
            final(self).next_id == old(self).next_id,
            final(self).sent@ == old(self).sent@,
            final(self).received@ == old(self).received@,
            final(self).client_info == old(self).client_info,
            final(self).server_info == old(self).server_info,
            old(self).state is Closed ==> r is Ok,
    {
        match self.state {
            ClientState::Closed => Ok(()),
            _ => {
                self.state = ClientState::Closed;
                match self.transport.close() {
                    Ok(_) => Ok(()),
                    Err(e) => Err(ClientError::TransportError(e)),
                }
            },
        }
    }
}

} // verus!
