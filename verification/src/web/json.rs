//! A JSON document model for configuration data, with the lookups that the
//! stream and template logic performs on it.
use vstd::prelude::*;

use crate::text::{str_chars, chars_eq};

verus! {

/// A JSON number as it was written: a non-negative integer, a negative
/// integer, or any other number (kept as the bit pattern of its IEEE-754
/// double, which the logic here never reads).
#[derive(Debug)]
pub enum JsonNumber {
    PosInt(u64),
    NegInt(i64),
    Float(u64),
}

/// A JSON value.  Objects keep their members in order; lookups find the
/// first member with a given key.
#[derive(Debug)]
pub enum JsonValue {
    Null,
    Bool(bool),
    Number(JsonNumber),
    Str(String),
    Array(Vec<JsonValue>),
    Object(Vec<(String, JsonValue)>),
}

/// The value of the first member of `entries` whose key is `key`.
pub open spec fn entry_lookup(entries: Seq<(String, JsonValue)>, key: Seq<char>) -> Option<
    JsonValue,
>
    decreases entries.len(),
{
    if entries.len() == 0 {
        None
    } else if entries[0].0@ == key {
        Some(entries[0].1)
    } else {
        entry_lookup(entries.drop_first(), key)
    }
}

/// `value.get(key)`: the member `key` of an object, nothing for other values.
pub open spec fn json_get(v: JsonValue, key: Seq<char>) -> Option<JsonValue> {
    match v {
        JsonValue::Object(es) => entry_lookup(es@, key),
        _ => None,
    }
}

/// The text of a string value.
pub open spec fn json_as_str(v: JsonValue) -> Option<Seq<char>> {
    match v {
        JsonValue::Str(s) => Some(s@),
        _ => None,
    }
}

/// The value of a non-negative integer.
pub open spec fn json_as_u64(v: JsonValue) -> Option<u64> {
    match v {
        JsonValue::Number(JsonNumber::PosInt(n)) => Some(n),
        _ => None,
    }
}

/// The value of a boolean.
pub open spec fn json_as_bool(v: JsonValue) -> Option<bool> {
    match v {
        JsonValue::Bool(b) => Some(b),
        _ => None,
    }
}

/// `value.get(key).and_then(as_str)`.
pub open spec fn get_str(v: JsonValue, key: Seq<char>) -> Option<Seq<char>> {
    match json_get(v, key) {
        Some(x) => json_as_str(x),
        None => None,
    }
}

/// `value.get(key).and_then(as_u64)`.
pub open spec fn get_u64(v: JsonValue, key: Seq<char>) -> Option<u64> {
    match json_get(v, key) {
        Some(x) => json_as_u64(x),
        None => None,
    }
}

/// `value.get(key).and_then(as_bool)`.
pub open spec fn get_bool(v: JsonValue, key: Seq<char>) -> Option<bool> {
    match json_get(v, key) {
        Some(x) => json_as_bool(x),
        None => None,
    }
}

/// Whether `entries` has a member named `key`.
pub open spec fn has_key(entries: Seq<(String, JsonValue)>, key: Seq<char>) -> bool {
    entry_lookup(entries, key) is Some
}

proof fn lemma_lookup_push(es: Seq<(String, JsonValue)>, e: (String, JsonValue), k: Seq<char>)
    ensures
        entry_lookup(es.push(e), k) == (match entry_lookup(es, k) {
            Some(v) => Some(v),
            None => if e.0@ == k {
                Some(e.1)
            } else {
                None
            },
        }),
    decreases es.len(),
{
    if es.len() > 0 {
        assert(es.push(e)[0] == es[0]);
        assert(es.push(e).drop_first() =~= es.drop_first().push(e));
        lemma_lookup_push(es.drop_first(), e, k);
    } else {
        assert(es.push(e)[0] == e);
        assert(es.push(e).drop_first() =~= Seq::<(String, JsonValue)>::empty());
        assert(entry_lookup(Seq::<(String, JsonValue)>::empty(), k) is None);
    }
}

proof fn lemma_lookup_update(
    es: Seq<(String, JsonValue)>,
    i: int,
    e: (String, JsonValue),
    k: Seq<char>,
)
    requires
        0 <= i < es.len(),
        es[i].0@ == e.0@,
        forall|j: int| 0 <= j < i ==> es[j].0@ != e.0@,
    ensures
        entry_lookup(es.update(i, e), k) == if k == e.0@ {
            Some(e.1)
        } else {
            entry_lookup(es, k)
        },
    decreases i,
{
    if i > 0 {
        assert(es.update(i, e)[0] == es[0]);
        assert(es.update(i, e).drop_first() =~= es.drop_first().update(i - 1, e));
        lemma_lookup_update(es.drop_first(), i - 1, e, k);
    } else {
        assert(es.update(0, e)[0] == e);
        assert(es.update(0, e).drop_first() =~= es.drop_first());
    }
}

/// Index of the first member named `key`, if any.
pub fn find_member(entries: &Vec<(String, JsonValue)>, key: &[char]) -> (r: Option<usize>)
    ensures
        match r {
            Some(i) => i < entries@.len() && entries@[i as int].0@ == key@ && (forall|j: int|
                0 <= j < i ==> entries@[j].0@ != key@) && entry_lookup(entries@, key@) == Some(
                entries@[i as int].1,
            ),
            None => entry_lookup(entries@, key@) is None,
        },
{
    let mut i: usize = 0;
    assert(entries@.skip(0) =~= entries@);
    while i < entries.len()
        invariant
            i <= entries@.len(),
            forall|j: int| 0 <= j < i ==> entries@[j].0@ != key@,
            entry_lookup(entries@, key@) == entry_lookup(entries@.skip(i as int), key@),
        decreases entries@.len() - i,
    {
        let k = str_chars(entries[i].0.as_str());
        let ghost rest = entries@.skip(i as int);
        assert(rest[0] == entries@[i as int]);
        assert(rest.drop_first() =~= entries@.skip(i + 1));
        if chars_eq(k.as_slice(), key) {
            return Some(i);
        }
        i += 1;
    }
    None
}

impl JsonValue {
    /// An object with no members.
    pub fn empty_object() -> (r: JsonValue)
        ensures
            r matches JsonValue::Object(es) && es@.len() == 0,
    {
        JsonValue::Object(Vec::new())
    }

    /// A string value.
    pub fn from_str_value(s: &str) -> (r: JsonValue)
        ensures
            r matches JsonValue::Str(t) && t@ == s@,
    {
        JsonValue::Str(String::from_str(s))
    }

    /// `value.get(key)`.
    pub fn get(&self, key: &str) -> (r: Option<&JsonValue>)
        ensures
            match r {
                Some(x) => json_get(*self, key@) == Some(*x),
                None => json_get(*self, key@) is None,
            },
    {
        match self {
            JsonValue::Object(es) => {
                let k = str_chars(key);
                match find_member(es, k.as_slice()) {
                    Some(i) => Some(&es[i].1),
                    None => None,
                }
            },
            _ => None,
        }
    }

    /// `value.as_str()`.
    pub fn as_str(&self) -> (r: Option<&str>)
        ensures
            match r {
                Some(s) => json_as_str(*self) == Some(s@),
                None => json_as_str(*self) is None,
            },
    {
        match self {
            JsonValue::Str(s) => Some(s.as_str()),
            _ => None,
        }
    }

    /// `value.as_u64()`.
    pub fn as_u64(&self) -> (r: Option<u64>)
        ensures
            r == json_as_u64(*self),
    {
        match self {
            JsonValue::Number(JsonNumber::PosInt(n)) => Some(*n),
            _ => None,
        }
    }

    /// `value.as_bool()`.
    pub fn as_bool(&self) -> (r: Option<bool>)
        ensures
            r == json_as_bool(*self),
    {
        match self {
            JsonValue::Bool(b) => Some(*b),
            _ => None,
        }
    }

    /// `value.is_string()`.
    pub fn is_string(&self) -> (r: bool)
        ensures
            r == (*self is Str),
    {
        match self {
            JsonValue::Str(_) => true,
            _ => false,
        }
    }

    /// `value.is_boolean()`.
    pub fn is_boolean(&self) -> (r: bool)
        ensures
            r == (*self is Bool),
    {
        match self {
            JsonValue::Bool(_) => true,
            _ => false,
        }
    }

    /// `value.is_number()`.
    pub fn is_number(&self) -> (r: bool)
        ensures
            r == (*self is Number),
    {
        match self {
            JsonValue::Number(_) => true,
            _ => false,
        }
    }

    /// `value.is_object()`.
    pub fn is_object(&self) -> (r: bool)
        ensures
            r == (*self is Object),
    {
        match self {
            JsonValue::Object(_) => true,
            _ => false,
        }
    }

    /// The members of an object.
    pub fn as_object(&self) -> (r: Option<&Vec<(String, JsonValue)>>)
        ensures
            match r {
                Some(es) => *self == JsonValue::Object(*es),
                None => !(*self is Object),
            },
    {
        match self {
            JsonValue::Object(es) => Some(es),
            _ => None,
        }
    }

    /// Sets member `key` of an object to `value` (replacing an existing member
    /// of that name, else adding one); other values are left unchanged.
    pub fn insert(&mut self, key: &str, value: JsonValue)
        ensures
            match *old(self) {
                JsonValue::Object(_) => (*final(self) is Object) && forall|k: Seq<char>|
                    #![trigger json_get(*final(self), k)]
                    json_get(*final(self), k) == if k == key@ {
                        Some(value)
                    } else {
                        json_get(*old(self), k)
                    },
                _ => *final(self) == *old(self),
            },
    {
        match self {
            JsonValue::Object(es) => {
                object_insert(es, key, value);
            },
            _ => {},
        }
    }
}

/// Sets member `key` of an object's members to `value`: the first member
/// of that name changes, else the member is appended.
pub fn object_insert(es: &mut Vec<(String, JsonValue)>, key: &str, value: JsonValue)
    ensures
        forall|k: Seq<char>|
            #![trigger entry_lookup(final(es)@, k)]
            entry_lookup(final(es)@, k) == if k == key@ {
                Some(value)
            } else {
                entry_lookup(old(es)@, k)
            },
        final(es)@.len() >= old(es)@.len(),
{
    let k = str_chars(key);
    let ghost before = es@;
    match find_member(es, k.as_slice()) {
        Some(i) => {
            let e = (String::from_str(key), value);
            es.set(i, e);
            proof {
                assert forall|kk: Seq<char>|
                    #![trigger entry_lookup(es@, kk)]
                    entry_lookup(es@, kk) == if kk == key@ {
                        Some(value)
                    } else {
                        entry_lookup(before, kk)
                    } by {
                    lemma_lookup_update(before, i as int, e, kk);
                }
            }
        },
        None => {
            let e = (String::from_str(key), value);
            es.push(e);
            proof {
                assert forall|kk: Seq<char>|
                    #![trigger entry_lookup(es@, kk)]
                    entry_lookup(es@, kk) == if kk == key@ {
                        Some(value)
                    } else {
                        entry_lookup(before, kk)
                    } by {
                    lemma_lookup_push(before, e, kk);
                }
            }
        },
    }
}

proof fn lemma_lookup_remove(es: Seq<(String, JsonValue)>, i: int, k: Seq<char>)
    requires
        0 <= i < es.len(),
        es[i].0@ != k,
    ensures
        entry_lookup(es.remove(i), k) == entry_lookup(es, k),
    decreases i,
{
    if i > 0 {
        assert(es.remove(i)[0] == es[0]);
        assert(es.remove(i).drop_first() =~= es.drop_first().remove(i - 1));
        lemma_lookup_remove(es.drop_first(), i - 1, k);
    } else {
        assert(es.remove(0) =~= es.drop_first());
    }
}

/// Removes the first member named `key` and returns its value.
pub fn take_member(es: &mut Vec<(String, JsonValue)>, key: &str) -> (r: Option<JsonValue>)
    ensures
        r == entry_lookup(old(es)@, key@),
        forall|k: Seq<char>|
            k != key@ ==> #[trigger] entry_lookup(final(es)@, k) == entry_lookup(old(es)@, k),
{
    let k = str_chars(key);
    let ghost before = es@;
    match find_member(es, k.as_slice()) {
        Some(i) => {
            let (_, v) = es.remove(i);
            proof {
                assert forall|kk: Seq<char>|
                    kk != key@ implies #[trigger] entry_lookup(es@, kk) == entry_lookup(before, kk) by {
                    lemma_lookup_remove(before, i as int, kk);
                }
            }
            Some(v)
        },
        None => None,
    }
}

} // verus!
