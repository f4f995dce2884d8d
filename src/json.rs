use vstd::prelude::*;

verus! {

/// A JSON value as the handlers read and build it.
///
/// An object is the ordered list of its entries. Where two entries share a
/// key, the first one is the one that lookups see.
#[derive(Debug, PartialEq, Eq)]
pub enum Json {
    Null,
    Bool(bool),
    /// A non-negative integer.
    UInt(u64),
    /// An integer that fits `i64`; a negative number is held here.
    Int(i64),
    /// Any other number, kept as its decimal text.
    Float(String),
    Str(String),
    Array(Vec<Json>),
    Object(Vec<(String, Json)>),
}

/// The value of the first entry at or after position `i` whose key is `key`.
pub open spec fn lookup_from(entries: Seq<(String, Json)>, key: Seq<char>, i: int) -> Option<Json>
    decreases entries.len() - i,
{
    if i < 0 || i >= entries.len() {
        None
    } else if entries[i].0@ == key {
        Some(entries[i].1)
    } else {
        lookup_from(entries, key, i + 1)
    }
}

/// The value stored under `key` among an object's entries.
pub open spec fn lookup(entries: Seq<(String, Json)>, key: Seq<char>) -> Option<Json> {
    lookup_from(entries, key, 0)
}

/// What `v.get(key)` finds: the entry's value when `v` is an object that has
/// `key`, nothing otherwise.
pub open spec fn field(v: Json, key: Seq<char>) -> Option<Json> {
    match v {
        Json::Object(entries) => lookup(entries@, key),
        _ => None,
    }
}

/// The value as an unsigned 64-bit integer, when it is a non-negative integer.
pub open spec fn u64_value(v: Json) -> Option<u64> {
    match v {
        Json::UInt(n) => Some(n),
        Json::Int(i) => if i >= 0 {
            Some(i as u64)
        } else {
            None
        },
        _ => None,
    }
}

impl Json {
    /// The entries of an object.
    pub fn as_object(&self) -> (r: Option<&Vec<(String, Json)>>)
        ensures
            match self {
                Json::Object(entries) => r == Some(entries),
                _ => r is None,
            },
    {
        match self {
            Json::Object(entries) => Some(entries),
            _ => None,
        }
    }

    /// The text of a string value.
    pub fn as_str(&self) -> (r: Option<&String>)
        ensures
            match self {
                Json::Str(s) => r == Some(s),
                _ => r is None,
            },
    {
        match self {
            Json::Str(s) => Some(s),
            _ => None,
        }
    }

    /// The value as a `u64`, when it is a non-negative integer.
    pub fn as_u64(&self) -> (r: Option<u64>)
        ensures
            r == u64_value(*self),
    {
        match self {
            Json::UInt(n) => Some(*n),
            Json::Int(i) => if *i >= 0 {
                Some(*i as u64)
            } else {
                None
            },
            _ => None,
        }
    }

    /// The value stored under `key`, when `self` is an object that has it.
    pub fn get(&self, key: &str) -> (r: Option<&Json>)
        ensures
            field(*self, key@) == match r {
                Some(v) => Some(*v),
                None => None,
            },
    {
        match self {
            Json::Object(entries) => {
                let wanted = key.to_string();
                let mut i: usize = 0;
                while i < entries.len()
                    invariant
                        i <= entries@.len(),
                        wanted@ == key@,
                        field(*self, key@) == lookup(entries@, key@),
                        lookup(entries@, key@) == lookup_from(entries@, key@, i as int),
                    decreases entries@.len() - i,
                {
                    if entries[i].0 == wanted {
                        return Some(&entries[i].1);
                    }
                    i = i + 1;
                }
                None
            },
            _ => None,
        }
    }
}

} // verus!
