use vstd::prelude::*;
use crate::envelope::{Envelope, Payload, same_metadata};
use crate::error::HandlerError;
use crate::hello::{greeting_name, name_of};
use crate::json::{Json, u64_value};
use crate::primes::{is_nth_prime, max_prime_index, nth_prime, prime_at};

verus! {

/// The index of the prime that the plain handler reports.
pub const PLAIN_PRIME_INDEX: u64 = 10;

/// The prime index that an event asks for, or the message of the
/// bad-request error that the envelope handler answers it with.
pub open spec fn requested_index(event: Option<Envelope>) -> Result<u64, Seq<char>> {
    match event {
        None => Err("Expecting a non empty json payload"@),
        Some(e) => match e.payload {
            Payload::Absent => Err("Expecting a non empty json payload"@),
            Payload::Malformed(m) => Err(m@),
            Payload::Value(v) => match u64_value(v) {
                None => Err("Expecting a number"@),
                Some(n) => if 1 <= n <= max_prime_index() {
                    Ok(n)
                } else {
                    Err("Expecting a positive number within the supported range"@)
                },
            },
        },
    }
}

/// `out` answers `input` with the prime `p`: same metadata, content type
/// "application/json", and `p` as the payload.
pub open spec fn is_prime_answer(input: Envelope, out: Envelope, p: int) -> bool {
    &&& same_metadata(input, out)
    &&& out.content_type matches Some(c) && c@ == "application/json"@
    &&& out.payload matches Payload::Value(Json::UInt(q)) && q == p
}

/// `out` answers `input` with the n-th prime.
pub open spec fn is_nth_prime_answer(input: Envelope, out: Envelope, n: int) -> bool {
    &&& is_prime_answer(input, out, prime_at(n))
    &&& out.payload matches Payload::Value(Json::UInt(q)) && is_nth_prime(n, q as int)
}

/// `r` is what the envelope handler answers to `event`.
pub open spec fn answers(event: Option<Envelope>, r: Result<Option<Envelope>, HandlerError>) -> bool {
    match requested_index(event) {
        Err(msg) => r matches Err(HandlerError::BadRequest(m)) && m@ == msg,
        Ok(n) => r matches Ok(Some(out)) && is_nth_prime_answer(event->Some_0, out, n as int),
    }
}

/// Two handler results that a caller cannot tell apart: the same error kind
/// with the same message, or envelopes with the same metadata, content type
/// and payload.
pub open spec fn same_reply(
    r1: Result<Option<Envelope>, HandlerError>,
    r2: Result<Option<Envelope>, HandlerError>,
) -> bool {
    match (r1, r2) {
        (Err(HandlerError::BadRequest(a)), Err(HandlerError::BadRequest(b))) => a@ == b@,
        (Err(HandlerError::InternalError(a)), Err(HandlerError::InternalError(b))) => a@ == b@,
        (Ok(None), Ok(None)) => true,
        (Ok(Some(x)), Ok(Some(y))) => {
            &&& same_metadata(x, y)
            &&& match (x.content_type, y.content_type) {
                (Some(a), Some(b)) => a@ == b@,
                (None, None) => true,
                _ => false,
            }
            &&& x.payload == y.payload
        },
        _ => false,
    }
}

/// The envelope handler: reads a number `n` from the event's payload and
/// answers with a new envelope that keeps the event's metadata, has content
/// type "application/json" and carries the n-th prime as its payload.
/// A missing event or payload, a payload that could not be read, one that is
/// not a non-negative integer, the index 0 (there is no 0th prime), and an
/// index past `max_prime_index()` are bad requests.
pub fn function(event: Option<Envelope>) -> (r: Result<Option<Envelope>, HandlerError>)
    ensures
        answers(event, r),
{
    let e = match event {
        Some(e) => e,
        None => {
            return Err(HandlerError::BadRequest("Expecting a non empty json payload".to_string()));
        },
    };
    let n = match e.read_payload() {
        Payload::Value(v) => match v.as_u64() {
            Some(n) => n,
            None => {
                return Err(HandlerError::BadRequest("Expecting a number".to_string()));
            },
        },
        Payload::Malformed(m) => {
            return Err(HandlerError::BadRequest(m.clone()));
        },
        Payload::Absent => {
            return Err(HandlerError::BadRequest("Expecting a non empty json payload".to_string()));
        },
    };
    let p = match nth_prime(n) {
        Some(p) => p,
        None => {
            return Err(
                HandlerError::BadRequest("Expecting a positive number within the supported range".to_string()),
            );
        },
    };
    Ok(Some(e.with_new_payload("application/json", Json::UInt(p))))
}

/// Running the envelope handler twice on the same event gives results that
/// cannot be told apart.
pub proof fn lemma_function_deterministic(
    event: Option<Envelope>,
    r1: Result<Option<Envelope>, HandlerError>,
    r2: Result<Option<Envelope>, HandlerError>,
)
    requires
        answers(event, r1),
        answers(event, r2),
    ensures
        same_reply(r1, r2),
{
}

/// `v` is the object `{"Hello": name, "A_fibonacci_number": p}`, where `p`
/// is the n-th prime.
pub open spec fn is_plain_reply(v: Json, name: Seq<char>, n: int) -> bool {
    &&& v matches Json::Object(entries)
    &&& entries@.len() == 2
    &&& entries@[0].0@ == "Hello"@
    &&& entries@[0].1 matches Json::Str(s) && s@ == name
    &&& entries@[1].0@ == "A_fibonacci_number"@
    &&& entries@[1].1 matches Json::UInt(q) && q == prime_at(n) && is_nth_prime(n, q as int)
}

/// The plain prime handler: greets as the greeting handler does and adds
/// the tenth prime under "A_fibonacci_number". It never fails.
pub fn plain_function(event: Option<Json>) -> (r: Option<Json>)
    ensures
        r matches Some(v) && is_plain_reply(v, greeting_name(event), PLAIN_PRIME_INDEX as int),
{
    let name = name_of(&event);
    let p = nth_prime(PLAIN_PRIME_INDEX).unwrap();
    let mut entries: Vec<(String, Json)> = Vec::new();
    entries.push(("Hello".to_string(), Json::Str(name)));
    entries.push(("A_fibonacci_number".to_string(), Json::UInt(p)));
    Some(Json::Object(entries))
}

/// Running the plain handler twice on the same input gives the same name
/// and the same prime.
pub proof fn lemma_plain_function_deterministic(
    event: Option<Json>,
    r1: Option<Json>,
    r2: Option<Json>,
)
    requires
        r1 matches Some(v) && is_plain_reply(v, greeting_name(event), PLAIN_PRIME_INDEX as int),
        r2 matches Some(v) && is_plain_reply(v, greeting_name(event), PLAIN_PRIME_INDEX as int),
    ensures
        r1 is Some && r2 is Some,
        forall|name: Seq<char>, n: int|
            is_plain_reply(r1->Some_0, name, n) <==> is_plain_reply(r2->Some_0, name, n),
{
}

} // verus!
