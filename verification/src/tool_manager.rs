use vstd::prelude::*;
use vstd::string::StringExecFns;
use crate::json::JsonValue;
use crate::types::Tool;

verus! {

/// Structural equality of two message values, by contents.
pub open spec fn same_json(a: JsonValue, b: JsonValue) -> bool
    decreases a,
{
    match (a, b) {
        (JsonValue::Null, JsonValue::Null) => true,
        (JsonValue::Bool(x), JsonValue::Bool(y)) => x == y,
        (JsonValue::Int(x), JsonValue::Int(y)) => x == y,
        (JsonValue::Str(x), JsonValue::Str(y)) => x@ == y@,
        (JsonValue::Arr(x), JsonValue::Arr(y)) => x@.len() == y@.len()
            && forall|i: int| 0 <= i < x@.len() ==> same_json(#[trigger] x@[i], y@[i]),
        (JsonValue::Obj(x), JsonValue::Obj(y)) => x@.len() == y@.len()
            && forall|i: int| 0 <= i < x@.len()
                ==> (#[trigger] x@[i]).0@ == y@[i].0@ && same_json(x@[i].1, y@[i].1),
        _ => false,
    }
}

/// A deep copy of a message value, equal to it by contents.
#[verifier::loop_isolation(false)]
pub fn clone_json(v: &JsonValue) -> (r: JsonValue)
    ensures
        same_json(*v, r),
    decreases *v,
{
    match v {
        JsonValue::Null => JsonValue::Null,
        JsonValue::Bool(b) => JsonValue::Bool(*b),
        JsonValue::Int(n) => JsonValue::Int(*n),
        JsonValue::Str(s) => JsonValue::Str(s.clone()),
        JsonValue::Arr(a) => {
            let mut out: Vec<JsonValue> = Vec::new();
            let mut i: usize = 0;
            while i < a.len()
                invariant
                    i <= a@.len(),
                    out@.len() == i,
                    forall|l: int| 0 <= l < i ==> same_json(#[trigger] a@[l], out@[l]),
                decreases a@.len() - i,
            {
                proof {
                    assert(decreases_to!(*v => v->Arr_0));
                    assert(decreases_to!(*a => a@));
                    assert(decreases_to!(a@ => a@[i as int]));
                }
                let c = clone_json(&a[i]);
                out.push(c);
                i = i + 1;
            }
            JsonValue::Arr(out)
        },
        JsonValue::Obj(es) => {
            let mut out: Vec<(String, JsonValue)> = Vec::new();
            let mut i: usize = 0;
            while i < es.len()
                invariant
                    i <= es@.len(),
                    out@.len() == i,
                    forall|l: int| 0 <= l < i
                        ==> (#[trigger] es@[l]).0@ == out@[l].0@ && same_json(es@[l].1, out@[l].1),
                decreases es@.len() - i,
            {
                proof {
                    assert(decreases_to!(*v => v->Obj_0));
                    assert(decreases_to!(*es => es@));
                    assert(decreases_to!(es@ => es@[i as int]));
                    assert(decreases_to!(es@[i as int] => es@[i as int].1));
                }
                let c = clone_json(&es[i].1);
                let k = es[i].0.clone();
                out.push((k, c));
                i = i + 1;
            }
            JsonValue::Obj(out)
        },
    }
}

/// Holds a fixed tool inventory and serves lookups over it, plus the
/// rendering the LLM collaborator is handed.
pub struct ToolManager {
    pub tools: Vec<Tool>,
}

impl ToolManager {
    /// One rendered inventory entry: the tool's name, its description
    /// (a fixed wording naming the tool when none was given), and its
    /// parameter schema, carried over by contents.
    pub open spec fn llm_entry(t: Tool, v: JsonValue) -> bool {
        &&& v matches JsonValue::Obj(es)
        &&& es@.len() == 3
        &&& es@[0].0@ == "name"@
        &&& es@[0].1 == JsonValue::Str(t.name)
        &&& es@[1].0@ == "description"@
        &&& (es@[1].1 matches JsonValue::Str(d) && d@ == (match t.description {
            Some(ds) => ds@,
            None => "Tool: "@ + t.name@,
        }))
        &&& es@[2].0@ == "parameters"@
        &&& same_json(t.input_schema, es@[2].1)
    }

    pub fn new(tools: Vec<Tool>) -> (m: Self)
        ensures
            m.tools == tools,
    {
        ToolManager { tools }
    }

    /// Renders every tool of the inventory, in order, for the LLM.
    pub fn format_for_llm(&self) -> (r: Vec<JsonValue>)
        ensures
            r@.len() == self.tools@.len(),
            forall|i: int| 0 <= i < r@.len()
                ==> Self::llm_entry(self.tools@[i], #[trigger] r@[i]),
    {
        let mut out: Vec<JsonValue> = Vec::new();
        let mut i: usize = 0;
        while i < self.tools.len()
            invariant
                i <= self.tools@.len(),
                out@.len() == i,
                forall|l: int| 0 <= l < i
                    ==> Self::llm_entry(self.tools@[l], #[trigger] out@[l]),
            decreases self.tools@.len() - i,
        {
            let t = &self.tools[i];
            let description: String = match &t.description {
                Some(d) => d.clone(),
                None => "Tool: ".to_owned().concat(t.name.as_str()),
            };
            let mut es: Vec<(String, JsonValue)> = Vec::new();
            es.push(("name".to_owned(), JsonValue::Str(t.name.clone())));
            es.push(("description".to_owned(), JsonValue::Str(description)));
            es.push(("parameters".to_owned(), clone_json(&t.input_schema)));
            out.push(JsonValue::Obj(es));
            i = i + 1;
        }
        out
    }

    /// The first tool of the given name, if any.
    pub fn find_tool(&self, name: &str) -> (r: Option<&Tool>)
        ensures
            match r {
                Some(t) => exists|i: int| 0 <= i < self.tools@.len()
                    && (#[trigger] self.tools@[i]).name@ == name@ && *t == self.tools@[i]
                    && (forall|l: int| 0 <= l < i
                        ==> (#[trigger] self.tools@[l]).name@ != name@),
                None => forall|i: int| 0 <= i < self.tools@.len()
                    ==> (#[trigger] self.tools@[i]).name@ != name@,
            },
    {
        let probe: String = name.to_owned();
        let mut i: usize = 0;
        while i < self.tools.len()
            invariant
                i <= self.tools@.len(),
                probe@ == name@,
                forall|l: int| 0 <= l < i ==> (#[trigger] self.tools@[l]).name@ != name@,
            decreases self.tools@.len() - i,
        {
            if self.tools[i].name == probe {
                return Some(&self.tools[i]);
            }
            i = i + 1;
        }
        None
    }

    /// The whole inventory.
    pub fn get_all_tools(&self) -> (r: &Vec<Tool>)
        ensures
            r == &self.tools,
    {
        &self.tools
    }
}

} // verus!
