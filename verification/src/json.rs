use vstd::prelude::*;

verus! {

/// A structured message value as carried by the wire protocol: null,
/// booleans, integers, strings, arrays, and objects. Objects keep their
/// entries in insertion order; a lookup takes the first entry whose key
/// matches, later duplicates are ignored.
#[derive(Debug, PartialEq)]
pub enum JsonValue {
    Null,
    Bool(bool),
    Int(i64),
    Str(String),
    Arr(Vec<JsonValue>),
    Obj(Vec<(String, JsonValue)>),
}

/// The value of the first entry of `entries` whose key reads `key`, if any.
pub open spec fn assoc_lookup<V>(entries: Seq<(String, V)>, key: Seq<char>) -> Option<V>
    decreases entries.len(),
{
    if entries.len() == 0 {
        None
    } else if entries[0].0@ == key {
        Some(entries[0].1)
    } else {
        assoc_lookup(entries.drop_first(), key)
    }
}

/// A lookup lands on position `j` when `j` holds the key and no earlier
/// position does.
pub proof fn lemma_assoc_at<V>(entries: Seq<(String, V)>, key: Seq<char>, j: int)
    requires
        0 <= j < entries.len(),
        entries[j].0@ == key,
        forall|l: int| 0 <= l < j ==> entries[l].0@ != key,
    ensures
        assoc_lookup(entries, key) == Some(entries[j].1),
    decreases j,
{
    if j > 0 {
        assert(entries.drop_first()[j - 1] == entries[j]);
        assert(forall|l: int| 0 <= l < j - 1 ==> entries.drop_first()[l] == entries[l + 1]);
        lemma_assoc_at(entries.drop_first(), key, j - 1);
    }
}

/// A lookup misses when no position holds the key.
pub proof fn lemma_assoc_absent<V>(entries: Seq<(String, V)>, key: Seq<char>)
    requires
        forall|l: int| 0 <= l < entries.len() ==> entries[l].0@ != key,
    ensures
        assoc_lookup(entries, key) is None,
    decreases entries.len(),
{
    if entries.len() > 0 {
        assert(forall|l: int| 0 <= l < entries.len() - 1
            ==> entries.drop_first()[l] == entries[l + 1]);
        lemma_assoc_absent(entries.drop_first(), key);
    }
}

/// Position of the first entry of `entries` whose key reads `key`.
pub fn assoc_find<V>(entries: &Vec<(String, V)>, key: &str) -> (r: Option<usize>)
    ensures
        match r {
            Some(i) => {
                &&& i < entries@.len()
                &&& entries@[i as int].0@ == key@
                &&& forall|l: int| 0 <= l < i ==> entries@[l].0@ != key@
                &&& assoc_lookup(entries@, key@) == Some(entries@[i as int].1)
            },
            None => assoc_lookup(entries@, key@) is None
                && forall|l: int| 0 <= l < entries@.len() ==> entries@[l].0@ != key@,
        },
{
    let probe: String = key.to_owned();
    let mut i: usize = 0;
    while i < entries.len()
        invariant
            i <= entries@.len(),
            probe@ == key@,
            forall|l: int| 0 <= l < i ==> entries@[l].0@ != key@,
        decreases entries@.len() - i,
    {
        if entries[i].0 == probe {
            proof {
                lemma_assoc_at(entries@, key@, i as int);
            }
            return Some(i);
        }
        i = i + 1;
    }
    proof {
        lemma_assoc_absent(entries@, key@);
    }
    None
}

} // verus!
