//! The JSON documents that the IP services and the FRKN API answer with,
//! held as plain values, and the accessors that read them.
use vstd::prelude::*;

use crate::text::str_eq;

verus! {

/// A JSON value. A number is held by what the reading logic takes from it:
/// its value when it is a non-negative integer that fits in `u64`, else `None`.
/// An object keeps its members in order; a key names its first member.
#[derive(Debug)]
pub enum JsonValue {
    Null,
    Bool(bool),
    Number(Option<u64>),
    Str(String),
    Array(Vec<JsonValue>),
    Object(Vec<(String, JsonValue)>),
}

/// The value of the first member named `key`.
pub open spec fn member(entries: Seq<(String, JsonValue)>, key: Seq<char>) -> Option<JsonValue>
    decreases entries.len(),
{
    if entries.len() == 0 {
        None
    } else if entries[0].0@ == key {
        Some(entries[0].1)
    } else {
        member(entries.drop_first(), key)
    }
}

impl JsonValue {
    /// `value[key]`: the member named `key` of an object, `Null` when there is
    /// none or the value is not an object.
    pub open spec fn field(self, key: Seq<char>) -> JsonValue {
        match self {
            JsonValue::Object(entries) => match member(entries@, key) {
                Some(v) => v,
                None => JsonValue::Null,
            },
            _ => JsonValue::Null,
        }
    }

    /// The text of a string value.
    pub open spec fn text(self) -> Option<Seq<char>> {
        match self {
            JsonValue::Str(s) => Some(s@),
            _ => None,
        }
    }

    /// The value of a number that is a non-negative integer within `u64`.
    pub open spec fn unsigned(self) -> Option<u64> {
        match self {
            JsonValue::Number(n) => n,
            _ => None,
        }
    }

    /// The value of a boolean.
    pub open spec fn boolean(self) -> Option<bool> {
        match self {
            JsonValue::Bool(b) => Some(b),
            _ => None,
        }
    }

    /// The elements of an array.
    pub open spec fn elements(self) -> Option<Seq<JsonValue>> {
        match self {
            JsonValue::Array(items) => Some(items@),
            _ => None,
        }
    }

    /// The member named `key` of an object.
    pub fn get(&self, key: &str) -> (r: Option<&JsonValue>)
        ensures
            r matches Some(v) ==> *v == self.field(key@),
            r is None ==> self.field(key@) == JsonValue::Null,
    {
        match self {
            JsonValue::Object(entries) => {
                let n = entries.len();
                let mut i: usize = 0;
                assert(entries@.subrange(0, n as int) =~= entries@);
                while i < n
                    invariant
                        n == entries@.len(),
                        i <= n,
                        self.field(key@) == (match member(entries@, key@) {
                            Some(v) => v,
                            None => JsonValue::Null,
                        }),
                        member(entries@.subrange(i as int, n as int), key@) == member(
                            entries@,
                            key@,
                        ),
                    decreases n - i,
                {
                    let entry = &entries[i];
                    assert(entries@.subrange(i as int, n as int)[0] == *entry);
                    if str_eq(entry.0.as_str(), key) {
                        assert(member(entries@.subrange(i as int, n as int), key@) == Some(entry.1));
                        assert(self.field(key@) == entry.1);
                        return Some(&entry.1);
                    }
                    assert(entries@.subrange(i as int, n as int).drop_first() =~= entries@.subrange(
                        i + 1,
                        n as int,
                    ));
                    i = i + 1;
                }
                None
            },
            _ => None,
        }
    }

    /// The text of a string value.
    pub fn as_str(&self) -> (r: Option<&str>)
        ensures
            r matches Some(s) ==> self.text() == Some(s@),
            r is None ==> self.text() is None,
    {
        match self {
            JsonValue::Str(s) => Some(s.as_str()),
            _ => None,
        }
    }

    /// The value of a number that is a non-negative integer within `u64`.
    pub fn as_u64(&self) -> (r: Option<u64>)
        ensures
            r == self.unsigned(),
    {
        match self {
            JsonValue::Number(n) => *n,
            _ => None,
        }
    }

    /// The value of a boolean.
    pub fn as_bool(&self) -> (r: Option<bool>)
        ensures
            r == self.boolean(),
    {
        match self {
            JsonValue::Bool(b) => Some(*b),
            _ => None,
        }
    }

    /// The elements of an array.
    pub fn as_array(&self) -> (r: Option<&Vec<JsonValue>>)
        ensures
            r matches Some(v) ==> self.elements() == Some(v@),
            r is None ==> self.elements() is None,
    {
        match self {
            JsonValue::Array(items) => Some(items),
            _ => None,
        }
    }
}

} // verus!
