//! The part of a JSON value that tool inputs are read through.
//!
//! A `serde_json::Value` is opaque here; callers hand over this mirror of it.
//! Objects keep one entry per key, as a JSON object does.

use vstd::prelude::*;

use crate::text::str_eq;

verus! {

/// A JSON number as `serde_json` holds it: a non-negative integer, a negative
/// integer, or a float (whose value no tool input reads).
#[derive(Debug, Clone, Copy, PartialEq, Eq, Structural)]
pub enum JsonNumber {
    PosInt(u64),
    NegInt(i64),
    Float,
}

/// A JSON value.
#[derive(Debug)]
pub enum Json {
    Null,
    Bool(bool),
    Number(JsonNumber),
    String(String),
    Array(Vec<Json>),
    Object(Vec<(String, Json)>),
}

impl Json {
    /// The value under `key` of an object (its first entry with that key);
    /// nothing for other values or missing keys.
    pub open spec fn field(self, key: Seq<char>) -> Option<Json> {
        match self {
            Json::Object(entries) => {
                if exists|i: int| 0 <= i < entries@.len() && entries@[i].0@ == key {
                    Some(
                        entries@[choose|i: int|
                            0 <= i < entries@.len() && entries@[i].0@ == key && forall|j: int|
                                0 <= j < i ==> entries@[j].0@ != key].1,
                    )
                } else {
                    None
                }
            },
            _ => None,
        }
    }

    /// `Value::get` with a string key.
    pub fn get(&self, key: &str) -> (r: Option<&Json>)
        ensures
            r matches Some(v) ==> self.field(key@) == Some(*v),
            r is None ==> self.field(key@) is None,
    {
        match self {
            Json::Object(entries) => {
                let mut i: usize = 0;
                while i < entries.len()
                    invariant
                        i <= entries@.len(),
                        *self == Json::Object(*entries),
                        forall|j: int| 0 <= j < i ==> entries@[j].0@ != key@,
                    decreases entries@.len() - i,
                {
                    if str_eq(entries[i].0.as_str(), key) {
                        proof {
                            let es = entries@;
                            let w = choose|k: int|
                                0 <= k < es.len() && es[k].0@ == key@ && forall|j: int|
                                    0 <= j < k ==> es[j].0@ != key@;
                            if w < i {
                            } else if w > i {
                                assert(es[i as int].0@ != key@);
                            }
                        }
                        return Some(&entries[i].1);
                    }
                    i = i + 1;
                }
                None
            },
            _ => None,
        }
    }
}

} // verus!
