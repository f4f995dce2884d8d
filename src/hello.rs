use vstd::prelude::*;
use crate::json::{Json, field};

verus! {

/// The name that the greeting handler greets: the string stored under
/// "name" when the input is an object that has one, "World" otherwise.
pub open spec fn greeting_name(event: Option<Json>) -> Seq<char> {
    match event {
        Some(v) => match field(v, "name"@) {
            Some(Json::Str(s)) => s@,
            _ => "World"@,
        },
        None => "World"@,
    }
}

/// The name that `v` greets, when `v` is an object `{"Hello": name}` with a
/// string `name`.
pub open spec fn greeted(v: Json) -> Option<Seq<char>> {
    match v {
        Json::Object(entries) => if entries@.len() == 1 && entries@[0].0@ == "Hello"@ {
            match entries@[0].1 {
                Json::Str(s) => Some(s@),
                _ => None,
            }
        } else {
            None
        },
        _ => None,
    }
}

/// `v` is the object `{"Hello": name}`.
pub open spec fn is_greeting(v: Json, name: Seq<char>) -> bool {
    greeted(v) == Some(name)
}

/// The name to greet, read from the input as the greeting handler reads it.
pub fn name_of(event: &Option<Json>) -> (r: String)
    ensures
        r@ == greeting_name(*event),
{
    match event {
        Some(v) => match v.get("name") {
            Some(found) => match found.as_str() {
                Some(s) => s.clone(),
                None => "World".to_string(),
            },
            None => "World".to_string(),
        },
        None => "World".to_string(),
    }
}

/// The object `{"Hello": name}`.
pub fn greeting(name: String) -> (r: Json)
    ensures
        is_greeting(r, name@),
{
    let mut entries: Vec<(String, Json)> = Vec::new();
    entries.push(("Hello".to_string(), Json::Str(name)));
    Json::Object(entries)
}

/// The greeting handler: answers `{"Hello": name}`, where `name` is the
/// string under "name" in the input object, or "World" when the input is
/// absent, is not an object, has no "name", or holds a non-string there.
/// It never fails.
pub fn function(event: Option<Json>) -> (r: Option<Json>)
    ensures
        r matches Some(v) && is_greeting(v, greeting_name(event)),
{
    let name = name_of(&event);
    Some(greeting(name))
}

/// With no input, or an empty object, the greeting is for "World".
pub proof fn lemma_greets_world_by_default(event: Option<Json>)
    requires
        event is None || (event matches Some(Json::Object(entries)) && entries@.len() == 0),
    ensures
        greeting_name(event) == "World"@,
{
}

/// An input `{"name": s}` with a string `s` is greeted by `s`.
pub proof fn lemma_greets_given_name(event: Option<Json>, s: String)
    requires
        event matches Some(Json::Object(entries)) && entries@.len() == 1
            && entries@[0].0@ == "name"@ && entries@[0].1 == Json::Str(s),
    ensures
        greeting_name(event) == s@,
{
}

/// A "name" that holds anything but a string leaves the greeting for "World".
pub proof fn lemma_non_string_name_greets_world(event: Option<Json>)
    requires
        event matches Some(v) && field(v, "name"@) matches Some(n) && !(n is Str),
    ensures
        greeting_name(event) == "World"@,
{
}

/// Greeting the same input twice gives the same greeting.
pub proof fn lemma_greeting_deterministic(event: Option<Json>, r1: Option<Json>, r2: Option<Json>)
    requires
        r1 matches Some(v) && is_greeting(v, greeting_name(event)),
        r2 matches Some(v) && is_greeting(v, greeting_name(event)),
    ensures
        r1 is Some && r2 is Some,
        greeted(r1->Some_0) == greeted(r2->Some_0),
{
}

} // verus!
