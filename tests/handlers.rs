use handler_templates::envelope::{Envelope, Payload};
use handler_templates::error::HandlerError;
use handler_templates::hello;
use handler_templates::json::Json;
use handler_templates::prime;
use handler_templates::primes::{nth_prime, prime_index_limit, MAX_PRIME_INDEX_32, MAX_PRIME_INDEX_64};

fn object(entries: Vec<(&str, Json)>) -> Json {
    Json::Object(entries.into_iter().map(|(k, v)| (k.to_string(), v)).collect())
}

fn greeting(name: &str) -> Json {
    object(vec![("Hello", Json::Str(name.to_string()))])
}

fn event_with(payload: Payload) -> Envelope {
    let mut e = Envelope::new("A234-1234-1234".to_string(), "/mycontext".to_string(), "com.example.someevent".to_string());
    e.attributes.push(("subject".to_string(), "larger-context".to_string()));
    e.content_type = Some("text/plain".to_string());
    e.payload = payload;
    e
}

fn bad_request_message(r: Result<Option<Envelope>, HandlerError>) -> String {
    match r {
        Err(HandlerError::BadRequest(m)) => m,
        other => panic!("expected a bad request, got {:?}", other),
    }
}

#[test]
fn hello_absent_input_greets_world() {
    assert_eq!(hello::function(None), Some(greeting("World")));
}

#[test]
fn hello_empty_object_greets_world() {
    assert_eq!(hello::function(Some(object(vec![]))), Some(greeting("World")));
}

#[test]
fn hello_greets_given_name() {
    let input = object(vec![("name", Json::Str("Ada".to_string()))]);
    assert_eq!(hello::function(Some(input)), Some(greeting("Ada")));
}

#[test]
fn hello_greets_empty_name() {
    let input = object(vec![("name", Json::Str(String::new()))]);
    assert_eq!(hello::function(Some(input)), Some(greeting("")));
}

#[test]
fn hello_number_name_greets_world() {
    let input = object(vec![("name", Json::UInt(42))]);
    assert_eq!(hello::function(Some(input)), Some(greeting("World")));
}

#[test]
fn hello_null_and_object_names_greet_world() {
    let input = object(vec![("name", Json::Null)]);
    assert_eq!(hello::function(Some(input)), Some(greeting("World")));
    let input = object(vec![("name", object(vec![("first", Json::Str("Ada".to_string()))]))]);
    assert_eq!(hello::function(Some(input)), Some(greeting("World")));
}

#[test]
fn hello_non_object_input_greets_world() {
    assert_eq!(hello::function(Some(Json::Str("name".to_string()))), Some(greeting("World")));
    assert_eq!(hello::function(Some(Json::Null)), Some(greeting("World")));
    let list = Json::Array(vec![Json::Str("Ada".to_string())]);
    assert_eq!(hello::function(Some(list)), Some(greeting("World")));
}

#[test]
fn hello_ignores_other_fields() {
    let input = object(vec![("age", Json::UInt(3)), ("name", Json::Str("Bob".to_string()))]);
    assert_eq!(hello::function(Some(input)), Some(greeting("Bob")));
}

#[test]
fn hello_is_idempotent() {
    let make = || object(vec![("name", Json::Str("Eve".to_string()))]);
    assert_eq!(hello::function(Some(make())), hello::function(Some(make())));
}

#[test]
fn json_get_finds_first_entry() {
    let input = object(vec![("name", Json::Str("first".to_string())), ("name", Json::Str("second".to_string()))]);
    assert_eq!(input.get("name"), Some(&Json::Str("first".to_string())));
    assert_eq!(input.get("missing"), None);
    assert_eq!(Json::UInt(1).get("name"), None);
}

#[test]
fn json_as_u64_reads_non_negative_integers() {
    assert_eq!(Json::UInt(7).as_u64(), Some(7));
    assert_eq!(Json::Int(7).as_u64(), Some(7));
    assert_eq!(Json::Int(-7).as_u64(), None);
    assert_eq!(Json::Float("1.5".to_string()).as_u64(), None);
    assert_eq!(Json::Str("5".to_string()).as_u64(), None);
}

#[test]
fn nth_prime_small_indices() {
    assert_eq!(nth_prime(1), Some(2));
    assert_eq!(nth_prime(2), Some(3));
    assert_eq!(nth_prime(3), Some(5));
    assert_eq!(nth_prime(4), Some(7));
    assert_eq!(nth_prime(5), Some(11));
    assert_eq!(nth_prime(10), Some(29));
    assert_eq!(nth_prime(1000), Some(7919));
    assert_eq!(nth_prime(1_000_000), Some(15_485_863));
}

#[test]
fn prime_index_limit_follows_word_size() {
    let expected = if usize::BITS == 64 { MAX_PRIME_INDEX_64 } else { MAX_PRIME_INDEX_32 };
    assert_eq!(prime_index_limit(), expected);
    assert!(prime_index_limit() > 100_000_001);
}

#[test]
fn nth_prime_out_of_range() {
    assert_eq!(nth_prime(0), None);
    assert_eq!(nth_prime(prime_index_limit() + 1), None);
    assert_eq!(nth_prime(u64::MAX), None);
}

#[test]
fn plain_prime_handler_reports_tenth_prime() {
    let expected = object(vec![("Hello", Json::Str("World".to_string())), ("A_fibonacci_number", Json::UInt(29))]);
    assert_eq!(prime::plain_function(None), Some(expected));
    let input = object(vec![("name", Json::Str("Ada".to_string()))]);
    let expected = object(vec![("Hello", Json::Str("Ada".to_string())), ("A_fibonacci_number", Json::UInt(29))]);
    assert_eq!(prime::plain_function(Some(input)), Some(expected));
}

#[test]
fn envelope_fifth_prime() {
    let out = prime::function(Some(event_with(Payload::Value(Json::UInt(5))))).unwrap().unwrap();
    assert_eq!(out.payload, Payload::Value(Json::UInt(11)));
    assert_eq!(out.content_type, Some("application/json".to_string()));
    assert_eq!(out.id, "A234-1234-1234");
    assert_eq!(out.source, "/mycontext");
    assert_eq!(out.event_type, "com.example.someevent");
    assert_eq!(out.attributes, vec![("subject".to_string(), "larger-context".to_string())]);
}

#[test]
fn envelope_small_primes() {
    for (n, p) in [(1u64, 2u64), (2, 3), (10, 29)] {
        let out = prime::function(Some(event_with(Payload::Value(Json::UInt(n))))).unwrap().unwrap();
        assert_eq!(out.payload, Payload::Value(Json::UInt(p)));
    }
}

#[test]
fn envelope_accepts_positive_signed_integer() {
    let out = prime::function(Some(event_with(Payload::Value(Json::Int(3))))).unwrap().unwrap();
    assert_eq!(out.payload, Payload::Value(Json::UInt(5)));
}

#[test]
fn envelope_string_payload_is_bad_request() {
    let r = prime::function(Some(event_with(Payload::Value(Json::Str("abc".to_string())))));
    assert_eq!(bad_request_message(r), "Expecting a number");
}

#[test]
fn envelope_negative_and_fractional_payloads_are_bad_requests() {
    let r = prime::function(Some(event_with(Payload::Value(Json::Int(-3)))));
    assert_eq!(bad_request_message(r), "Expecting a number");
    let r = prime::function(Some(event_with(Payload::Value(Json::Float("2.5".to_string())))));
    assert_eq!(bad_request_message(r), "Expecting a number");
}

#[test]
fn envelope_absent_payload_is_bad_request() {
    let r = prime::function(Some(event_with(Payload::Absent)));
    assert_eq!(bad_request_message(r), "Expecting a non empty json payload");
}

#[test]
fn envelope_absent_event_is_bad_request() {
    assert_eq!(bad_request_message(prime::function(None)), "Expecting a non empty json payload");
}

#[test]
fn envelope_malformed_payload_passes_reader_message() {
    let r = prime::function(Some(event_with(Payload::Malformed("expected value at line 1".to_string()))));
    assert_eq!(bad_request_message(r), "expected value at line 1");
}

#[test]
fn envelope_index_out_of_range_is_bad_request() {
    let r = prime::function(Some(event_with(Payload::Value(Json::UInt(0)))));
    assert_eq!(bad_request_message(r), "Expecting a positive number within the supported range");
    let r = prime::function(Some(event_with(Payload::Value(Json::UInt(u64::MAX)))));
    assert_eq!(bad_request_message(r), "Expecting a positive number within the supported range");
    let r = prime::function(Some(event_with(Payload::Value(Json::UInt(prime_index_limit() + 1)))));
    assert_eq!(bad_request_message(r), "Expecting a positive number within the supported range");
}

#[test]
fn envelope_handler_is_idempotent() {
    let first = prime::function(Some(event_with(Payload::Value(Json::UInt(7)))));
    let second = prime::function(Some(event_with(Payload::Value(Json::UInt(7)))));
    assert_eq!(first, second);
    let first = prime::function(Some(event_with(Payload::Value(Json::Str("abc".to_string())))));
    let second = prime::function(Some(event_with(Payload::Value(Json::Str("abc".to_string())))));
    assert_eq!(first, second);
}

#[test]
fn with_new_payload_keeps_metadata() {
    let out = event_with(Payload::Absent).with_new_payload("application/json", Json::Bool(true));
    assert_eq!(out.id, "A234-1234-1234");
    assert_eq!(out.content_type, Some("application/json".to_string()));
    assert_eq!(out.payload, Payload::Value(Json::Bool(true)));
    assert_eq!(out.read_payload(), &Payload::Value(Json::Bool(true)));
}

#[test]
fn error_message_is_carried() {
    assert_eq!(HandlerError::BadRequest("x".to_string()).message(), "x");
    assert_eq!(HandlerError::InternalError("y".to_string()).message(), "y");
}
