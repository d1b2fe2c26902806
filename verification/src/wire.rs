use vstd::prelude::*;
use vstd::string::StringExecFns;
use crate::json::JsonValue;
use crate::types::JsonRpcRequest;
use crate::transport::TransportError;
use crate::codec::{MAX_REQUEST_ID, encodes_request, request_to_json};

verus! {

/// Declares the structured value type of the serde_json crate, carried
/// opaquely between the conversion helpers below.
#[verifier::external_type_specification]
#[verifier::external_body]
pub struct ExValue(serde_json::Value);

/// The one-line JSON text serde_json renders for a message value; a
/// function of the value alone.
pub uninterp spec fn rendered_text(v: JsonValue) -> Seq<char>;

/// The message value serde_json reads out of a text, when the text is
/// well-formed JSON; a function of the text alone.
pub uninterp spec fn parsed_value(s: Seq<char>) -> Option<JsonValue>;

/// Relies on serde_json::Value's constructors: builds the serde value
/// mirroring `v` variant for variant.
#[verifier::external_body]
fn to_serde(v: &JsonValue) -> serde_json::Value {
    match v {
        JsonValue::Null => serde_json::Value::Null,
        JsonValue::Bool(b) => serde_json::Value::Bool(*b),
        JsonValue::Int(i) => serde_json::Value::from(*i),
        JsonValue::Str(s) => serde_json::Value::String(s.clone()),
        JsonValue::Arr(a) => serde_json::Value::Array(a.iter().map(to_serde).collect()),
        JsonValue::Obj(o) => serde_json::Value::Object(
            o.iter().map(|p| (p.0.clone(), to_serde(&p.1))).collect(),
        ),
    }
}

/// Relies on serde_json::Value's accessors: reads the serde value back
/// variant for variant; a number that is no signed 64-bit integer
/// reads as null.
#[verifier::external_body]
fn from_serde(v: serde_json::Value) -> JsonValue {
    match v {
        serde_json::Value::Null => JsonValue::Null,
        serde_json::Value::Bool(b) => JsonValue::Bool(b),
        serde_json::Value::Number(n) => match n.as_i64() {
            Some(i) => JsonValue::Int(i),
            None => JsonValue::Null,
        },
        serde_json::Value::String(s) => JsonValue::Str(s),
        serde_json::Value::Array(a) => JsonValue::Arr(a.into_iter().map(from_serde).collect()),
        serde_json::Value::Object(o) => JsonValue::Obj(
            o.into_iter().map(|p| (p.0, from_serde(p.1))).collect(),
        ),
    }
}

/// Relies on serde_json::to_string: renders one value as one JSON
/// text, deterministically from the value alone. The compact form
/// emits no whitespace of its own and escapes control characters
/// inside strings, so no raw newline appears in the text.
#[verifier::external_body]
pub fn render_text(v: &JsonValue) -> (r: String)
    ensures
        r@ == rendered_text(*v),
        forall|i: int| 0 <= i < r@.len() ==> r@[i] != '\n',
{
    serde_json::to_string(&to_serde(v)).unwrap_or_default()
}

/// Relies on serde_json::from_str: parses one JSON text,
/// deterministically from the text alone; ill-formed text gives
/// nothing.
#[verifier::external_body]
pub fn parse_text(s: &str) -> (r: Option<JsonValue>)
    ensures
        r == parsed_value(s@),
{
    match serde_json::from_str::<serde_json::Value>(s) {
        Ok(v) => Some(from_serde(v)),
        Err(_) => None,
    }
}

/// Renders a request envelope as one newline-terminated frame, as the
/// process channel writes it: the frame holds exactly one newline, at
/// its end.
pub fn encode_frame(req: JsonRpcRequest) -> (r: String)
    requires
        req.id <= MAX_REQUEST_ID,
    ensures
        exists|v: JsonValue| #[trigger] encodes_request(req, v) && r@ == rendered_text(v) + "\n"@,
        r@.len() >= 1,
        r@.last() == '\n',
        forall|i: int| 0 <= i < r@.len() - 1 ==> r@[i] != '\n',
{
    let v = request_to_json(req);
    let ghost gv: JsonValue = v;
    let mut s = render_text(&v);
    s.append("\n");
    proof {
        assert(encodes_request(req, gv) && s@ == rendered_text(gv) + "\n"@);
        reveal_strlit("\n");
        assert(s@.last() == '\n');
    }
    s
}

/// Parses one received frame into a message value; ill-formed text is
/// a deserialization failure.
pub fn decode_frame(line: &str) -> (r: Result<JsonValue, TransportError>)
    ensures
        parsed_value(line@) matches Some(v) ==> r == Ok::<JsonValue, TransportError>(v),
        parsed_value(line@) is None ==> (r matches Err(TransportError::JsonError(m))
            && m@ == "malformed frame"@),
{
    match parse_text(line) {
        Some(v) => Ok(v),
        None => Err(TransportError::JsonError("malformed frame".to_owned())),
    }
}

} // verus!
