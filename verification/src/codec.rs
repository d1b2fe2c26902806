use vstd::prelude::*;
use crate::json::{JsonValue, assoc_lookup, assoc_find, lemma_assoc_at, lemma_assoc_absent};
use crate::types::{
    JsonRpcRequest, ClientInfo, ServerInfo, Tool, Resource, ResourceTemplate, Prompt,
    PromptArgument, PromptMessage, PromptsResult, ToolResult, ToolResultContent,
    ResourceContent, ContentItem,
};

verus! {

/// Highest request id the envelope encoding carries: ids are rendered
/// as signed 64-bit wire integers.
pub const MAX_REQUEST_ID: u64 = 0x7fff_ffff_ffff_ffff;

// ------------------------------------------------------------------
// Request envelope <-> message value
// ------------------------------------------------------------------

/// `v` is the object encoding of `req`: the keys "jsonrpc", "id" and
/// "method" in that order, then "params" when present.
pub open spec fn encodes_request(req: JsonRpcRequest, v: JsonValue) -> bool {
    &&& v matches JsonValue::Obj(es)
    &&& es@.len() == (if req.params is Some { 4int } else { 3int })
    &&& es@[0].0@ == "jsonrpc"@
    &&& es@[0].1 == JsonValue::Str(req.jsonrpc)
    &&& es@[1].0@ == "id"@
    &&& es@[1].1 == JsonValue::Int(req.id as i64)
    &&& es@[2].0@ == "method"@
    &&& es@[2].1 == JsonValue::Str(req.method)
    &&& (req.params matches Some(p) ==> es@[3].0@ == "params"@ && es@[3].1 == p)
}

/// Builds the object encoding of a request envelope.
pub fn request_to_json(req: JsonRpcRequest) -> (v: JsonValue)
    requires
        req.id <= MAX_REQUEST_ID,
    ensures
        encodes_request(req, v),
{
    let mut es: Vec<(String, JsonValue)> = Vec::new();
    es.push(("jsonrpc".to_owned(), JsonValue::Str(req.jsonrpc)));
    es.push(("id".to_owned(), JsonValue::Int(req.id as i64)));
    es.push(("method".to_owned(), JsonValue::Str(req.method)));
    match req.params {
        Some(p) => {
            es.push(("params".to_owned(), p));
        },
        None => {},
    }
    JsonValue::Obj(es)
}

/// The request envelope read back from a message value: the first
/// entries of the keys "jsonrpc", "id" and "method" (the id a
/// nonnegative integer), and the first "params" entry when present.
pub open spec fn request_of_json(v: JsonValue) -> Option<JsonRpcRequest> {
    match v {
        JsonValue::Obj(es) => {
            match (assoc_lookup(es@, "jsonrpc"@), assoc_lookup(es@, "id"@), assoc_lookup(es@, "method"@)) {
                (Some(JsonValue::Str(ver)), Some(JsonValue::Int(n)), Some(JsonValue::Str(m))) => {
                    if 0 <= n {
                        Some(JsonRpcRequest {
                            jsonrpc: ver,
                            id: n as u64,
                            method: m,
                            params: assoc_lookup(es@, "params"@),
                        })
                    } else {
                        None
                    }
                },
                _ => None,
            }
        },
        _ => None,
    }
}

/// Parses a request envelope out of a message value.
pub fn request_from_json(v: JsonValue) -> (r: Option<JsonRpcRequest>)
    ensures
        r == request_of_json(v),
{
    match v {
        JsonValue::Obj(es) => {
            let mut es = es;
            let jsonrpc: String = match assoc_find(&es, "jsonrpc") {
                Some(i) => match &es[i].1 {
                    JsonValue::Str(s) => s.clone(),
                    _ => {
                        return None;
                    },
                },
                None => {
                    return None;
                },
            };
            let id: u64 = match assoc_find(&es, "id") {
                Some(i) => match &es[i].1 {
                    JsonValue::Int(n) => {
                        if *n >= 0 {
                            *n as u64
                        } else {
                            return None;
                        }
                    },
                    _ => {
                        return None;
                    },
                },
                None => {
                    return None;
                },
            };
            let method: String = match assoc_find(&es, "method") {
                Some(i) => match &es[i].1 {
                    JsonValue::Str(s) => s.clone(),
                    _ => {
                        return None;
                    },
                },
                None => {
                    return None;
                },
            };
            let params: Option<JsonValue> = match assoc_find(&es, "params") {
                Some(i) => Some(es.remove(i).1),
                None => None,
            };
            Some(JsonRpcRequest { jsonrpc, id, method, params })
        },
        _ => None,
    }
}

/// Round trip: a request envelope, encoded and read back, is returned
/// field for field.
pub proof fn lemma_request_round_trip(req: JsonRpcRequest, v: JsonValue)
    requires
        req.id <= MAX_REQUEST_ID,
        encodes_request(req, v),
    ensures
        request_of_json(v) == Some(req),
{
    reveal_strlit("jsonrpc");
    reveal_strlit("id");
    reveal_strlit("method");
    reveal_strlit("params");
    let es = v->Obj_0;
    assert("jsonrpc"@.len() == 7);
    assert("id"@.len() == 2);
    assert("method"@.len() == 6);
    assert("params"@.len() == 6);
    assert("method"@ != "params"@) by {
        assert("method"@[0] == 'm');
        assert("params"@[0] == 'p');
    }
    lemma_assoc_at(es@, "jsonrpc"@, 0);
    lemma_assoc_at(es@, "id"@, 1);
    lemma_assoc_at(es@, "method"@, 2);
    match req.params {
        Some(p) => {
            lemma_assoc_at(es@, "params"@, 3);
        },
        None => {
            lemma_assoc_absent(es@, "params"@);
        },
    }
    assert((req.id as i64) as u64 == req.id);
}

// ------------------------------------------------------------------
// Reply payloads
// ------------------------------------------------------------------

/// The result payload of a reply, when one is present.
pub open spec fn response_result(v: JsonValue) -> Option<JsonValue> {
    match v {
        JsonValue::Obj(es) => assoc_lookup(es@, "result"@),
        _ => None,
    }
}

/// The error payload of a reply, when one is present.
pub open spec fn response_error(v: JsonValue) -> Option<JsonValue> {
    match v {
        JsonValue::Obj(es) => assoc_lookup(es@, "error"@),
        _ => None,
    }
}

/// The message text surfaced for an error payload: its "message" string
/// when one is there, a fixed fallback otherwise.
pub open spec fn error_message_view(e: JsonValue) -> Seq<char> {
    match e {
        JsonValue::Obj(es) => match assoc_lookup(es@, "message"@) {
            Some(JsonValue::Str(s)) => s@,
            _ => "Unknown error"@,
        },
        _ => "Unknown error"@,
    }
}

// ------------------------------------------------------------------
// Typed results
// ------------------------------------------------------------------

/// A typed record read out of a message value, shaped as the protocol's
/// reply payloads are.
pub trait FromJson: Sized {
    /// Whether `v` is a record this type accepts.
    spec fn decodable(v: JsonValue) -> bool;

    /// `t` is the record read out of `v`.
    spec fn decodes(v: JsonValue, t: Self) -> bool;

    fn from_json(v: JsonValue) -> (r: Option<Self>)
        ensures
            r matches Some(t) ==> Self::decodable(v) && Self::decodes(v, t),
            r is None ==> !Self::decodable(v),
    ;
}

/// Every element of `a` is an acceptable record.
pub open spec fn seq_decodable<T: FromJson>(a: Seq<JsonValue>) -> bool {
    forall|i: int| 0 <= i < a.len() ==> T::decodable(#[trigger] a[i])
}

/// `ts` reads the elements of `a`, in order.
pub open spec fn seq_decodes<T: FromJson>(a: Seq<JsonValue>, ts: Seq<T>) -> bool {
    ts.len() == a.len() && forall|i: int| 0 <= i < a.len() ==> T::decodes(a[i], #[trigger] ts[i])
}

/// Decodes every element of `a`, in order; one bad element refuses the
/// whole list.
pub fn vec_from_json<T: FromJson>(a: Vec<JsonValue>) -> (r: Option<Vec<T>>)
    ensures
        r matches Some(ts) ==> seq_decodable::<T>(a@) && seq_decodes::<T>(a@, ts@),
        r is None ==> !seq_decodable::<T>(a@),
{
    let ghost orig: Seq<JsonValue> = a@;
    let mut rest = a;
    let mut out: Vec<T> = Vec::new();
    while rest.len() > 0
        invariant
            orig == a@,
            out@.len() + rest@.len() == orig.len(),
            rest@ == orig.skip(out@.len() as int),
            forall|i: int| 0 <= i < out@.len()
                ==> T::decodable(#[trigger] orig[i]) && T::decodes(orig[i], out@[i]),
        decreases rest@.len(),
    {
        let ghost k: int = out@.len() as int;
        let h = rest.remove(0);
        proof {
            assert(h == orig[k]);
            assert(rest@ =~= orig.skip(k + 1));
        }
        match T::from_json(h) {
            Some(t) => {
                out.push(t);
            },
            None => {
                proof {
                    assert(!T::decodable(orig[k]));
                    assert(!seq_decodable::<T>(orig));
                }
                return None;
            },
        }
    }
    Some(out)
}

/// How an optional string field reads: absent or null is no value, a
/// string is the value, anything else refuses the record.
pub open spec fn opt_string(o: Option<JsonValue>) -> Option<Option<String>> {
    match o {
        None => Some(None),
        Some(JsonValue::Null) => Some(None),
        Some(JsonValue::Str(s)) => Some(Some(s)),
        Some(_) => None,
    }
}

/// How an optional boolean field reads.
pub open spec fn opt_bool(o: Option<JsonValue>) -> Option<Option<bool>> {
    match o {
        None => Some(None),
        Some(JsonValue::Null) => Some(None),
        Some(JsonValue::Bool(b)) => Some(Some(b)),
        Some(_) => None,
    }
}

impl FromJson for Tool {
    open spec fn decodable(v: JsonValue) -> bool {
        &&& v matches JsonValue::Obj(es)
        &&& assoc_lookup(es@, "name"@) matches Some(JsonValue::Str(n))
        &&& opt_string(assoc_lookup(es@, "description"@)) is Some
        &&& assoc_lookup(es@, "inputSchema"@) is Some
    }

    open spec fn decodes(v: JsonValue, t: Self) -> bool {
        &&& v matches JsonValue::Obj(es)
        &&& assoc_lookup(es@, "name"@) == Some(JsonValue::Str(t.name))
        &&& opt_string(assoc_lookup(es@, "description"@)) == Some(t.description)
        &&& assoc_lookup(es@, "inputSchema"@) == Some(t.input_schema)
    }

    fn from_json(v: JsonValue) -> (r: Option<Self>) {
        match v {
            JsonValue::Obj(es) => {
                let mut es = es;
                let name: String = match assoc_find(&es, "name") {
                    Some(i) => match &es[i].1 {
                        JsonValue::Str(s) => s.clone(),
                        _ => {
                            return None;
                        },
                    },
                    None => {
                        return None;
                    },
                };
                let description: Option<String> = match assoc_find(&es, "description") {
                    Some(i) => match &es[i].1 {
                        JsonValue::Str(s) => Some(s.clone()),
                        JsonValue::Null => None,
                        _ => {
                            return None;
                        },
                    },
                    None => None,
                };
                let input_schema: JsonValue = match assoc_find(&es, "inputSchema") {
                    Some(i) => es.remove(i).1,
                    None => {
                        return None;
                    },
                };
                Some(Tool { name, description, input_schema })
            },
            _ => None,
        }
    }
}

impl FromJson for Resource {
    open spec fn decodable(v: JsonValue) -> bool {
        &&& v matches JsonValue::Obj(es)
        &&& assoc_lookup(es@, "uri"@) matches Some(JsonValue::Str(u))
        &&& assoc_lookup(es@, "name"@) matches Some(JsonValue::Str(n))
        &&& opt_string(assoc_lookup(es@, "description"@)) is Some
    }

    open spec fn decodes(v: JsonValue, t: Self) -> bool {
        &&& v matches JsonValue::Obj(es)
        &&& assoc_lookup(es@, "uri"@) == Some(JsonValue::Str(t.uri))
        &&& assoc_lookup(es@, "name"@) == Some(JsonValue::Str(t.name))
        &&& opt_string(assoc_lookup(es@, "description"@)) == Some(t.description)
    }

    fn from_json(v: JsonValue) -> (r: Option<Self>) {
        match v {
            JsonValue::Obj(es) => {
                let uri: String = match assoc_find(&es, "uri") {
                    Some(i) => match &es[i].1 {
                        JsonValue::Str(s) => s.clone(),
                        _ => {
                            return None;
                        },
                    },
                    None => {
                        return None;
                    },
                };
                let name: String = match assoc_find(&es, "name") {
                    Some(i) => match &es[i].1 {
                        JsonValue::Str(s) => s.clone(),
                        _ => {
                            return None;
                        },
                    },
                    None => {
                        return None;
                    },
                };
                let description: Option<String> = match assoc_find(&es, "description") {
                    Some(i) => match &es[i].1 {
                        JsonValue::Str(s) => Some(s.clone()),
                        JsonValue::Null => None,
                        _ => {
                            return None;
                        },
                    },
                    None => None,
                };
                Some(Resource { uri, name, description })
            },
            _ => None,
        }
    }
}

impl FromJson for ResourceTemplate {
    open spec fn decodable(v: JsonValue) -> bool {
        &&& v matches JsonValue::Obj(es)
        &&& assoc_lookup(es@, "uri_template"@) matches Some(JsonValue::Str(u))
        &&& assoc_lookup(es@, "name"@) matches Some(JsonValue::Str(n))
        &&& opt_string(assoc_lookup(es@, "description"@)) is Some
    }

    open spec fn decodes(v: JsonValue, t: Self) -> bool {
        &&& v matches JsonValue::Obj(es)
        &&& assoc_lookup(es@, "uri_template"@) == Some(JsonValue::Str(t.uri_template))
        &&& assoc_lookup(es@, "name"@) == Some(JsonValue::Str(t.name))
        &&& opt_string(assoc_lookup(es@, "description"@)) == Some(t.description)
    }

    fn from_json(v: JsonValue) -> (r: Option<Self>) {
        match v {
            JsonValue::Obj(es) => {
                let uri_template: String = match assoc_find(&es, "uri_template") {
                    Some(i) => match &es[i].1 {
                        JsonValue::Str(s) => s.clone(),
                        _ => {
                            return None;
                        },
                    },
                    None => {
                        return None;
                    },
                };
                let name: String = match assoc_find(&es, "name") {
                    Some(i) => match &es[i].1 {
                        JsonValue::Str(s) => s.clone(),
                        _ => {
                            return None;
                        },
                    },
                    None => {
                        return None;
                    },
                };
                let description: Option<String> = match assoc_find(&es, "description") {
                    Some(i) => match &es[i].1 {
                        JsonValue::Str(s) => Some(s.clone()),
                        JsonValue::Null => None,
                        _ => {
                            return None;
                        },
                    },
                    None => None,
                };
                Some(ResourceTemplate { uri_template, name, description })
            },
            _ => None,
        }
    }
}

impl FromJson for PromptArgument {
    open spec fn decodable(v: JsonValue) -> bool {
        &&& v matches JsonValue::Obj(es)
        &&& assoc_lookup(es@, "name"@) matches Some(JsonValue::Str(n))
        &&& opt_string(assoc_lookup(es@, "description"@)) is Some
        &&& opt_bool(assoc_lookup(es@, "required"@)) is Some
    }

    open spec fn decodes(v: JsonValue, t: Self) -> bool {
        &&& v matches JsonValue::Obj(es)
        &&& assoc_lookup(es@, "name"@) == Some(JsonValue::Str(t.name))
        &&& opt_string(assoc_lookup(es@, "description"@)) == Some(t.description)
        &&& opt_bool(assoc_lookup(es@, "required"@)) == Some(t.required)
    }

    fn from_json(v: JsonValue) -> (r: Option<Self>) {
        match v {
            JsonValue::Obj(es) => {
                let name: String = match assoc_find(&es, "name") {
                    Some(i) => match &es[i].1 {
                        JsonValue::Str(s) => s.clone(),
                        _ => {
                            return None;
                        },
                    },
                    None => {
                        return None;
                    },
                };
                let description: Option<String> = match assoc_find(&es, "description") {
                    Some(i) => match &es[i].1 {
                        JsonValue::Str(s) => Some(s.clone()),
                        JsonValue::Null => None,
                        _ => {
                            return None;
                        },
                    },
                    None => None,
                };
                let required: Option<bool> = match assoc_find(&es, "required") {
                    Some(i) => match &es[i].1 {
                        JsonValue::Bool(b) => Some(*b),
                        JsonValue::Null => None,
                        _ => {
                            return None;
                        },
                    },
                    None => None,
                };
                Some(PromptArgument { name, description, required })
            },
            _ => None,
        }
    }
}

impl FromJson for Prompt {
    open spec fn decodable(v: JsonValue) -> bool {
        &&& v matches JsonValue::Obj(es)
        &&& assoc_lookup(es@, "name"@) matches Some(JsonValue::Str(n))
        &&& opt_string(assoc_lookup(es@, "description"@)) is Some
        &&& match assoc_lookup(es@, "arguments"@) {
            None => true,
            Some(JsonValue::Null) => true,
            Some(JsonValue::Arr(a)) => seq_decodable::<PromptArgument>(a@),
            Some(_) => false,
        }
    }

    open spec fn decodes(v: JsonValue, t: Self) -> bool {
        &&& v matches JsonValue::Obj(es)
        &&& assoc_lookup(es@, "name"@) == Some(JsonValue::Str(t.name))
        &&& opt_string(assoc_lookup(es@, "description"@)) == Some(t.description)
        &&& match assoc_lookup(es@, "arguments"@) {
            None => t.arguments is None,
            Some(JsonValue::Null) => t.arguments is None,
            Some(JsonValue::Arr(a)) => t.arguments matches Some(ps)
                && seq_decodes::<PromptArgument>(a@, ps@),
            Some(_) => false,
        }
    }

    fn from_json(v: JsonValue) -> (r: Option<Self>) {
        match v {
            JsonValue::Obj(es) => {
                let mut es = es;
                let name: String = match assoc_find(&es, "name") {
                    Some(i) => match &es[i].1 {
                        JsonValue::Str(s) => s.clone(),
                        _ => {
                            return None;
                        },
                    },
                    None => {
                        return None;
                    },
                };
                let description: Option<String> = match assoc_find(&es, "description") {
                    Some(i) => match &es[i].1 {
                        JsonValue::Str(s) => Some(s.clone()),
                        JsonValue::Null => None,
                        _ => {
                            return None;
                        },
                    },
                    None => None,
                };
                let arguments: Option<Vec<PromptArgument>> = match assoc_find(&es, "arguments") {
                    Some(i) => match es.remove(i).1 {
                        JsonValue::Null => None,
                        JsonValue::Arr(a) => match vec_from_json::<PromptArgument>(a) {
                            Some(ps) => Some(ps),
                            None => {
                                return None;
                            },
                        },
                        _ => {
                            return None;
                        },
                    },
                    None => None,
                };
                Some(Prompt { name, description, arguments })
            },
            _ => None,
        }
    }
}

impl FromJson for PromptMessage {
    open spec fn decodable(v: JsonValue) -> bool {
        &&& v matches JsonValue::Obj(es)
        &&& assoc_lookup(es@, "role"@) matches Some(JsonValue::Str(ro))
        &&& assoc_lookup(es@, "content"@) matches Some(JsonValue::Str(c))
    }

    open spec fn decodes(v: JsonValue, t: Self) -> bool {
        &&& v matches JsonValue::Obj(es)
        &&& assoc_lookup(es@, "role"@) == Some(JsonValue::Str(t.role))
        &&& assoc_lookup(es@, "content"@) == Some(JsonValue::Str(t.content))
    }

    fn from_json(v: JsonValue) -> (r: Option<Self>) {
        match v {
            JsonValue::Obj(es) => {
                let role: String = match assoc_find(&es, "role") {
                    Some(i) => match &es[i].1 {
                        JsonValue::Str(s) => s.clone(),
                        _ => {
                            return None;
                        },
                    },
                    None => {
                        return None;
                    },
                };
                let content: String = match assoc_find(&es, "content") {
                    Some(i) => match &es[i].1 {
                        JsonValue::Str(s) => s.clone(),
                        _ => {
                            return None;
                        },
                    },
                    None => {
                        return None;
                    },
                };
                Some(PromptMessage { role, content })
            },
            _ => None,
        }
    }
}

impl FromJson for ToolResultContent {
    open spec fn decodable(v: JsonValue) -> bool {
        &&& v matches JsonValue::Obj(es)
        &&& {
            ||| assoc_lookup(es@, "text"@) matches Some(JsonValue::Str(t))
            ||| assoc_lookup(es@, "blob"@) matches Some(JsonValue::Str(b))
        }
    }

    open spec fn decodes(v: JsonValue, t: Self) -> bool {
        &&& v matches JsonValue::Obj(es)
        &&& match assoc_lookup(es@, "text"@) {
            Some(JsonValue::Str(s)) => t == (ToolResultContent::Text { text: s }),
            _ => assoc_lookup(es@, "blob"@) matches Some(JsonValue::Str(b))
                && t == (ToolResultContent::Blob { blob: b }),
        }
    }

    fn from_json(v: JsonValue) -> (r: Option<Self>) {
        match v {
            JsonValue::Obj(es) => {
                match assoc_find(&es, "text") {
                    Some(i) => match &es[i].1 {
                        JsonValue::Str(s) => {
                            return Some(ToolResultContent::Text { text: s.clone() });
                        },
                        _ => {},
                    },
                    None => {},
                }
                match assoc_find(&es, "blob") {
                    Some(i) => match &es[i].1 {
                        JsonValue::Str(s) => Some(ToolResultContent::Blob { blob: s.clone() }),
                        _ => None,
                    },
                    None => None,
                }
            },
            _ => None,
        }
    }
}

impl FromJson for ContentItem {
    open spec fn decodable(v: JsonValue) -> bool {
        &&& v matches JsonValue::Obj(es)
        &&& {
            ||| assoc_lookup(es@, "text"@) matches Some(JsonValue::Str(t))
            ||| assoc_lookup(es@, "blob"@) matches Some(JsonValue::Str(b))
        }
    }

    open spec fn decodes(v: JsonValue, t: Self) -> bool {
        &&& v matches JsonValue::Obj(es)
        &&& match assoc_lookup(es@, "text"@) {
            Some(JsonValue::Str(s)) => t == (ContentItem::Text { text: s }),
            _ => assoc_lookup(es@, "blob"@) matches Some(JsonValue::Str(b))
                && t == (ContentItem::Blob { blob: b }),
        }
    }

    fn from_json(v: JsonValue) -> (r: Option<Self>) {
        match v {
            JsonValue::Obj(es) => {
                match assoc_find(&es, "text") {
                    Some(i) => match &es[i].1 {
                        JsonValue::Str(s) => {
                            return Some(ContentItem::Text { text: s.clone() });
                        },
                        _ => {},
                    },
                    None => {},
                }
                match assoc_find(&es, "blob") {
                    Some(i) => match &es[i].1 {
                        JsonValue::Str(s) => Some(ContentItem::Blob { blob: s.clone() }),
                        _ => None,
                    },
                    None => None,
                }
            },
            _ => None,
        }
    }
}

impl FromJson for ToolResult {
    open spec fn decodable(v: JsonValue) -> bool {
        &&& v matches JsonValue::Obj(es)
        &&& assoc_lookup(es@, "content"@) matches Some(JsonValue::Arr(a))
            && seq_decodable::<ToolResultContent>(a@)
        &&& opt_bool(assoc_lookup(es@, "isError"@)) is Some
    }

    open spec fn decodes(v: JsonValue, t: Self) -> bool {
        &&& v matches JsonValue::Obj(es)
        &&& assoc_lookup(es@, "content"@) matches Some(JsonValue::Arr(a))
            && seq_decodes::<ToolResultContent>(a@, t.content@)
        &&& opt_bool(assoc_lookup(es@, "isError"@)) == Some(t.is_error)
    }

    fn from_json(v: JsonValue) -> (r: Option<Self>) {
        match v {
            JsonValue::Obj(es) => {
                let mut es = es;
                let is_error: Option<bool> = match assoc_find(&es, "isError") {
                    Some(i) => match &es[i].1 {
                        JsonValue::Bool(b) => Some(*b),
                        JsonValue::Null => None,
                        _ => {
                            return None;
                        },
                    },
                    None => None,
                };
                let content: Vec<ToolResultContent> = match assoc_find(&es, "content") {
                    Some(i) => match es.remove(i).1 {
                        JsonValue::Arr(a) => match vec_from_json::<ToolResultContent>(a) {
                            Some(cs) => cs,
                            None => {
                                return None;
                            },
                        },
                        _ => {
                            return None;
                        },
                    },
                    None => {
                        return None;
                    },
                };
                Some(ToolResult { content, is_error })
            },
            _ => None,
        }
    }
}

impl FromJson for ResourceContent {
    open spec fn decodable(v: JsonValue) -> bool {
        &&& v matches JsonValue::Obj(es)
        &&& assoc_lookup(es@, "contents"@) matches Some(JsonValue::Arr(a))
            && seq_decodable::<ContentItem>(a@)
    }

    open spec fn decodes(v: JsonValue, t: Self) -> bool {
        &&& v matches JsonValue::Obj(es)
        &&& assoc_lookup(es@, "contents"@) matches Some(JsonValue::Arr(a))
            && seq_decodes::<ContentItem>(a@, t.contents@)
    }

    fn from_json(v: JsonValue) -> (r: Option<Self>) {
        match v {
            JsonValue::Obj(es) => {
                let mut es = es;
                let contents: Vec<ContentItem> = match assoc_find(&es, "contents") {
                    Some(i) => match es.remove(i).1 {
                        JsonValue::Arr(a) => match vec_from_json::<ContentItem>(a) {
                            Some(cs) => cs,
                            None => {
                                return None;
                            },
                        },
                        _ => {
                            return None;
                        },
                    },
                    None => {
                        return None;
                    },
                };
                Some(ResourceContent { contents })
            },
            _ => None,
        }
    }
}

impl FromJson for PromptsResult {
    open spec fn decodable(v: JsonValue) -> bool {
        &&& v matches JsonValue::Obj(es)
        &&& assoc_lookup(es@, "messages"@) matches Some(JsonValue::Arr(a))
            && seq_decodable::<PromptMessage>(a@)
    }

    open spec fn decodes(v: JsonValue, t: Self) -> bool {
        &&& v matches JsonValue::Obj(es)
        &&& assoc_lookup(es@, "messages"@) matches Some(JsonValue::Arr(a))
            && seq_decodes::<PromptMessage>(a@, t.messages@)
    }

    fn from_json(v: JsonValue) -> (r: Option<Self>) {
        match v {
            JsonValue::Obj(es) => {
                let mut es = es;
                let messages: Vec<PromptMessage> = match assoc_find(&es, "messages") {
                    Some(i) => match es.remove(i).1 {
                        JsonValue::Arr(a) => match vec_from_json::<PromptMessage>(a) {
                            Some(ms) => ms,
                            None => {
                                return None;
                            },
                        },
                        _ => {
                            return None;
                        },
                    },
                    None => {
                        return None;
                    },
                };
                Some(PromptsResult { messages })
            },
            _ => None,
        }
    }
}

impl FromJson for ServerInfo {
    open spec fn decodable(v: JsonValue) -> bool {
        &&& v matches JsonValue::Obj(es)
        &&& assoc_lookup(es@, "name"@) matches Some(JsonValue::Str(n))
        &&& assoc_lookup(es@, "version"@) matches Some(JsonValue::Str(ver))
    }

    open spec fn decodes(v: JsonValue, t: Self) -> bool {
        &&& v matches JsonValue::Obj(es)
        &&& assoc_lookup(es@, "name"@) == Some(JsonValue::Str(t.name))
        &&& assoc_lookup(es@, "version"@) == Some(JsonValue::Str(t.version))
    }

    fn from_json(v: JsonValue) -> (r: Option<Self>) {
        match v {
            JsonValue::Obj(es) => {
                let name: String = match assoc_find(&es, "name") {
                    Some(i) => match &es[i].1 {
                        JsonValue::Str(s) => s.clone(),
                        _ => {
                            return None;
                        },
                    },
                    None => {
                        return None;
                    },
                };
                let version: String = match assoc_find(&es, "version") {
                    Some(i) => match &es[i].1 {
                        JsonValue::Str(s) => s.clone(),
                        _ => {
                            return None;
                        },
                    },
                    None => {
                        return None;
                    },
                };
                Some(ServerInfo { name, version })
            },
            _ => None,
        }
    }
}

// ------------------------------------------------------------------
// Listings: array-valued payload fields that default to empty
// ------------------------------------------------------------------

/// Whether the list under `key` of a reply payload decodes: an absent
/// key, or a payload that is no object, reads as the empty list.
pub open spec fn listing_decodable<T: FromJson>(v: JsonValue, key: Seq<char>) -> bool {
    match v {
        JsonValue::Obj(es) => match assoc_lookup(es@, key) {
            None => true,
            Some(JsonValue::Arr(a)) => seq_decodable::<T>(a@),
            Some(_) => false,
        },
        _ => true,
    }
}

/// `ts` is the list under `key` of a reply payload.
pub open spec fn listing_decodes<T: FromJson>(v: JsonValue, key: Seq<char>, ts: Seq<T>) -> bool {
    match v {
        JsonValue::Obj(es) => match assoc_lookup(es@, key) {
            None => ts.len() == 0,
            Some(JsonValue::Arr(a)) => seq_decodes::<T>(a@, ts),
            Some(_) => false,
        },
        _ => ts.len() == 0,
    }
}

/// Reads the list under `key` of a reply payload, absent meaning empty.
pub fn listing_from_json<T: FromJson>(v: JsonValue, key: &str) -> (r: Option<Vec<T>>)
    ensures
        r matches Some(ts) ==> listing_decodable::<T>(v, key@) && listing_decodes::<T>(v, key@, ts@),
        r is None ==> !listing_decodable::<T>(v, key@),
{
    match v {
        JsonValue::Obj(es) => {
            let mut es = es;
            match assoc_find(&es, key) {
                None => Some(Vec::new()),
                Some(i) => match es.remove(i).1 {
                    JsonValue::Arr(a) => vec_from_json::<T>(a),
                    _ => None,
                },
            }
        },
        _ => Some(Vec::new()),
    }
}

/// Decodes one extracted listing value, which must be an array.
fn listing_value<T: FromJson>(x: JsonValue) -> (r: Option<Vec<T>>)
    ensures
        r matches Some(ts) ==> x matches JsonValue::Arr(a)
            && seq_decodable::<T>(a@) && seq_decodes::<T>(a@, ts@),
        r is None ==> !(x matches JsonValue::Arr(a) && seq_decodable::<T>(a@)),
{
    match x {
        JsonValue::Arr(a) => vec_from_json::<T>(a),
        _ => None,
    }
}

/// Reads the "resources" and "resourceTemplates" listings of one reply
/// payload; either one absent means empty.
pub fn resources_from_json(v: JsonValue) -> (r: Option<(Vec<Resource>, Vec<ResourceTemplate>)>)
    ensures
        r matches Some(pair) ==> {
            &&& listing_decodable::<Resource>(v, "resources"@)
            &&& listing_decodes::<Resource>(v, "resources"@, pair.0@)
            &&& listing_decodable::<ResourceTemplate>(v, "resourceTemplates"@)
            &&& listing_decodes::<ResourceTemplate>(v, "resourceTemplates"@, pair.1@)
        },
        r is None ==> !listing_decodable::<Resource>(v, "resources"@)
            || !listing_decodable::<ResourceTemplate>(v, "resourceTemplates"@),
{
    match v {
        JsonValue::Obj(es) => {
            let mut es = es;
            let ir = assoc_find(&es, "resources");
            let it = assoc_find(&es, "resourceTemplates");
            match (ir, it) {
                (Some(i), Some(j)) => {
                    let ghost es0: Seq<(String, JsonValue)> = es@;
                    proof {
                        reveal_strlit("resources");
                        reveal_strlit("resourceTemplates");
                        assert("resources"@.len() == 9);
                        assert("resourceTemplates"@.len() == 17);
                        assert(i != j);
                    }
                    let (xr, xt): (JsonValue, JsonValue) = if i < j {
                        let xt = es.remove(j).1;
                        let xr = es.remove(i).1;
                        proof {
                            assert(es0.remove(j as int)[i as int] == es0[i as int]);
                        }
                        (xr, xt)
                    } else {
                        let xr = es.remove(i).1;
                        let xt = es.remove(j).1;
                        proof {
                            assert(es0.remove(i as int)[j as int] == es0[j as int]);
                        }
                        (xr, xt)
                    };
                    let rs: Vec<Resource> = match listing_value::<Resource>(xr) {
                        Some(rs) => rs,
                        None => {
                            return None;
                        },
                    };
                    let ts: Vec<ResourceTemplate> = match listing_value::<ResourceTemplate>(xt) {
                        Some(ts) => ts,
                        None => {
                            return None;
                        },
                    };
                    Some((rs, ts))
                },
                (Some(i), None) => {
                    let xr = es.remove(i).1;
                    match listing_value::<Resource>(xr) {
                        Some(rs) => Some((rs, Vec::new())),
                        None => None,
                    }
                },
                (None, Some(j)) => {
                    let xt = es.remove(j).1;
                    match listing_value::<ResourceTemplate>(xt) {
                        Some(ts) => Some((Vec::new(), ts)),
                        None => None,
                    }
                },
                (None, None) => Some((Vec::new(), Vec::new())),
            }
        },
        _ => Some((Vec::new(), Vec::new())),
    }
}

/// Some reply payload reads `ts` as its listing under `key`.
pub open spec fn some_listing<T: FromJson>(key: Seq<char>, ts: Seq<T>) -> bool {
    exists|p: JsonValue| listing_decodable::<T>(p, key)
        && #[trigger] listing_decodes::<T>(p, key, ts)
}

// ------------------------------------------------------------------
// Parameter objects the client sends
// ------------------------------------------------------------------

/// `v` is the parameter object of a tool call: the tool's name, then
/// its argument value.
pub open spec fn encodes_call_params(name: Seq<char>, arguments: JsonValue, v: JsonValue) -> bool {
    &&& v matches JsonValue::Obj(es)
    &&& es@.len() == 2
    &&& es@[0].0@ == "name"@
    &&& es@[0].1 matches JsonValue::Str(n) && n@ == name
    &&& es@[1].0@ == "arguments"@
    &&& es@[1].1 == arguments
}

/// Builds the parameter object of a tool call.
pub fn call_tool_params(tool_name: &str, arguments: JsonValue) -> (v: JsonValue)
    ensures
        encodes_call_params(tool_name@, arguments, v),
{
    let mut es: Vec<(String, JsonValue)> = Vec::new();
    es.push(("name".to_owned(), JsonValue::Str(tool_name.to_owned())));
    es.push(("arguments".to_owned(), arguments));
    JsonValue::Obj(es)
}

/// `v` is the parameter object of a resource read: the one key "uri".
pub open spec fn encodes_read_params(uri: Seq<char>, v: JsonValue) -> bool {
    &&& v matches JsonValue::Obj(es)
    &&& es@.len() == 1
    &&& es@[0].0@ == "uri"@
    &&& es@[0].1 matches JsonValue::Str(u) && u@ == uri
}

/// Builds the parameter object of a resource read.
pub fn read_resource_params(uri: &str) -> (v: JsonValue)
    ensures
        encodes_read_params(uri@, v),
{
    let mut es: Vec<(String, JsonValue)> = Vec::new();
    es.push(("uri".to_owned(), JsonValue::Str(uri.to_owned())));
    JsonValue::Obj(es)
}

/// `v` is the parameter object of a prompt request: the prompt's name,
/// then its arguments as a string-valued object (empty when none were
/// given).
pub open spec fn encodes_prompt_params(
    name: Seq<char>,
    arguments: Option<Vec<(String, String)>>,
    v: JsonValue,
) -> bool {
    &&& v matches JsonValue::Obj(es)
    &&& es@.len() == 2
    &&& es@[0].0@ == "name"@
    &&& es@[0].1 matches JsonValue::Str(n) && n@ == name
    &&& es@[1].0@ == "arguments"@
    &&& es@[1].1 matches JsonValue::Obj(ps)
    &&& match arguments {
        Some(pairs) => {
            es@[1].1 matches JsonValue::Obj(ps)
            && ps@.len() == pairs@.len()
            && forall|i: int| 0 <= i < pairs@.len()
                ==> (#[trigger] ps@[i]).0 == pairs@[i].0
                    && ps@[i].1 == JsonValue::Str(pairs@[i].1)
        },
        None => es@[1].1 matches JsonValue::Obj(ps) && ps@.len() == 0,
    }
}

/// Builds the parameter object of a prompt request.
pub fn get_prompt_params(name: &str, arguments: Option<Vec<(String, String)>>) -> (v: JsonValue)
    ensures
        encodes_prompt_params(name@, arguments, v),
{
    let mut ps: Vec<(String, JsonValue)> = Vec::new();
    match arguments {
        Some(pairs) => {
            let ghost orig: Seq<(String, String)> = pairs@;
            let mut rest = pairs;
            while rest.len() > 0
                invariant
                    ps@.len() + rest@.len() == orig.len(),
                    rest@ == orig.skip(ps@.len() as int),
                    forall|i: int| 0 <= i < ps@.len()
                        ==> (#[trigger] ps@[i]).0 == orig[i].0
                            && ps@[i].1 == JsonValue::Str(orig[i].1),
                decreases rest@.len(),
            {
                let ghost k: int = ps@.len() as int;
                let (pk, pv) = rest.remove(0);
                proof {
                    assert(rest@ =~= orig.skip(k + 1));
                }
                ps.push((pk, JsonValue::Str(pv)));
            }
        },
        None => {},
    }
    let mut es: Vec<(String, JsonValue)> = Vec::new();
    es.push(("name".to_owned(), JsonValue::Str(name.to_owned())));
    es.push(("arguments".to_owned(), JsonValue::Obj(ps)));
    JsonValue::Obj(es)
}

/// `v` is the handshake parameter object: the protocol version, the
/// declared capability set, and the client's identity.
pub open spec fn encodes_initialize_params(info: ClientInfo, v: JsonValue) -> bool {
    &&& v matches JsonValue::Obj(es)
    &&& es@.len() == 3
    &&& es@[0].0@ == "protocolVersion"@
    &&& es@[0].1 matches JsonValue::Str(pv) && pv@ == "2024-11-05"@
    &&& es@[1].0@ == "capabilities"@
    &&& es@[1].1 matches JsonValue::Obj(cs)
        && cs@.len() == 3
        && cs@[0].0@ == "tools"@ && (cs@[0].1 matches JsonValue::Obj(c0) && c0@.len() == 0)
        && cs@[1].0@ == "resources"@ && (cs@[1].1 matches JsonValue::Obj(c1) && c1@.len() == 0)
        && cs@[2].0@ == "prompts"@ && (cs@[2].1 matches JsonValue::Obj(c2) && c2@.len() == 0)
    &&& es@[2].0@ == "clientInfo"@
    &&& es@[2].1 matches JsonValue::Obj(ci)
        && ci@.len() == 2
        && ci@[0].0@ == "name"@ && ci@[0].1 == JsonValue::Str(info.name)
        && ci@[1].0@ == "version"@ && ci@[1].1 == JsonValue::Str(info.version)
}

/// Builds the handshake parameter object.
pub fn initialize_params(info: &ClientInfo) -> (v: JsonValue)
    ensures
        encodes_initialize_params(*info, v),
{
    let mut cs: Vec<(String, JsonValue)> = Vec::new();
    cs.push(("tools".to_owned(), JsonValue::Obj(Vec::new())));
    cs.push(("resources".to_owned(), JsonValue::Obj(Vec::new())));
    cs.push(("prompts".to_owned(), JsonValue::Obj(Vec::new())));
    let mut ci: Vec<(String, JsonValue)> = Vec::new();
    ci.push(("name".to_owned(), JsonValue::Str(info.name.clone())));
    ci.push(("version".to_owned(), JsonValue::Str(info.version.clone())));
    let mut es: Vec<(String, JsonValue)> = Vec::new();
    es.push(("protocolVersion".to_owned(), JsonValue::Str("2024-11-05".to_owned())));
    es.push(("capabilities".to_owned(), JsonValue::Obj(cs)));
    es.push(("clientInfo".to_owned(), JsonValue::Obj(ci)));
    JsonValue::Obj(es)
}

/// The server identity recorded from a handshake payload: its
/// "serverInfo" record when present and well-formed, nothing otherwise.
pub open spec fn handshake_server_info(v: JsonValue, si: Option<ServerInfo>) -> bool {
    match v {
        JsonValue::Obj(es) => match assoc_lookup(es@, "serverInfo"@) {
            Some(x) => match si {
                Some(s) => ServerInfo::decodable(x) && ServerInfo::decodes(x, s),
                None => !ServerInfo::decodable(x),
            },
            None => si is None,
        },
        _ => si is None,
    }
}

/// Reads the server identity out of a handshake payload.
pub fn server_info_from_json(v: JsonValue) -> (r: Option<ServerInfo>)
    ensures
        handshake_server_info(v, r),
{
    match v {
        JsonValue::Obj(es) => {
            let mut es = es;
            match assoc_find(&es, "serverInfo") {
                Some(i) => ServerInfo::from_json(es.remove(i).1),
                None => None,
            }
        },
        _ => None,
    }
}

} // verus!

