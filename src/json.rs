//! A schema-less JSON document and defensive field lookup on it.

use vstd::prelude::*;

verus! {

/// A JSON value. Numbers keep their textual form; object entries keep their
/// order.
#[derive(Debug)]
pub enum JsonValue {
    Null,
    Bool(bool),
    Number(String),
    String(String),
    Array(Vec<JsonValue>),
    Object(Vec<(String, JsonValue)>),
}

/// The value of the first entry whose key is `key`.
pub open spec fn lookup<V>(entries: Seq<(Seq<char>, V)>, key: Seq<char>) -> Option<V>
    decreases entries.len(),
{
    if entries.len() == 0 {
        None
    } else if entries[0].0 == key {
        Some(entries[0].1)
    } else {
        lookup(entries.drop_first(), key)
    }
}

pub open spec fn member_view(e: (String, JsonValue)) -> (Seq<char>, JsonValue) {
    (e.0@, e.1)
}

pub open spec fn members_view(s: Seq<(String, JsonValue)>) -> Seq<(Seq<char>, JsonValue)> {
    s.map_values(|e: (String, JsonValue)| member_view(e))
}

/// The member `key` of an object; absent for any other value.
pub open spec fn member(v: JsonValue, key: Seq<char>) -> Option<JsonValue> {
    match v {
        JsonValue::Object(entries) => lookup(members_view(entries@), key),
        _ => None,
    }
}

/// The member at `outer`, then `inner`.
pub open spec fn member_at(v: JsonValue, outer: Seq<char>, inner: Seq<char>) -> Option<JsonValue> {
    match member(v, outer) {
        Some(o) => member(o, inner),
        None => None,
    }
}

pub open spec fn text_of(v: Option<JsonValue>) -> Option<Seq<char>> {
    match v {
        Some(JsonValue::String(s)) => Some(s@),
        _ => None,
    }
}

pub open spec fn flag_of(v: Option<JsonValue>) -> Option<bool> {
    match v {
        Some(JsonValue::Bool(b)) => Some(b),
        _ => None,
    }
}

proof fn lemma_lookup_skip<V>(entries: Seq<(Seq<char>, V)>, i: int, key: Seq<char>)
    requires
        0 <= i < entries.len(),
        entries[i].0 != key,
    ensures
        lookup(entries.subrange(i, entries.len() as int), key) == lookup(
            entries.subrange(i + 1, entries.len() as int),
            key,
        ),
{
    assert(entries.subrange(i, entries.len() as int).drop_first() =~= entries.subrange(
        i + 1,
        entries.len() as int,
    ));
}

/// Scans `entries` for `key`; the result is the index of the first match.
pub fn find_key<V>(entries: &Vec<(String, V)>, key: &str) -> (r: Option<usize>)
    ensures
        lookup(entries@.map_values(|e: (String, V)| (e.0@, e.1)), key@) == match r {
            Some(i) => Some(entries@[i as int].1),
            None => None::<V>,
        },
        r matches Some(i) ==> i < entries@.len(),
{
    let ghost s = entries@.map_values(|e: (String, V)| (e.0@, e.1));
    let k = String::from_str(key);
    let mut i: usize = 0;
    assert(s.subrange(0, s.len() as int) =~= s);
    while i < entries.len()
        invariant
            0 <= i <= entries@.len(),
            s.len() == entries@.len(),
            s == entries@.map_values(|e: (String, V)| (e.0@, e.1)),
            k@ == key@,
            lookup(s, key@) == lookup(s.subrange(i as int, s.len() as int), key@),
        decreases entries@.len() - i,
    {
        if entries[i].0 == k {
            assert(s.subrange(i as int, s.len() as int)[0] == s[i as int]);
            return Some(i);
        }
        proof {
            lemma_lookup_skip(s, i as int, key@);
        }
        i = i + 1;
    }
    None
}

impl JsonValue {
    /// The member `key` of an object; absent when `self` is no object or has
    /// no such member.
    pub fn get(&self, key: &str) -> (r: Option<&JsonValue>)
        ensures
            match r {
                Some(v) => member(*self, key@) == Some(*v),
                None => member(*self, key@) is None,
            },
    {
        match self {
            JsonValue::Object(entries) => {
                assert(members_view(entries@) =~= entries@.map_values(
                    |e: (String, JsonValue)| (e.0@, e.1),
                ));
                match find_key(entries, key) {
                    Some(i) => Some(&entries[i].1),
                    None => None,
                }
            },
            _ => None,
        }
    }

    /// The text of a string value.
    pub fn as_str(&self) -> (r: Option<&String>)
        ensures
            text_of(Some(*self)) == match r {
                Some(s) => Some(s@),
                None => None::<Seq<char>>,
            },
    {
        match self {
            JsonValue::String(s) => Some(s),
            _ => None,
        }
    }

    /// The flag of a boolean value.
    pub fn as_bool(&self) -> (r: Option<bool>)
        ensures
            r == flag_of(Some(*self)),
    {
        match self {
            JsonValue::Bool(b) => Some(*b),
            _ => None,
        }
    }
}

} // verus!
