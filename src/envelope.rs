use vstd::prelude::*;
use crate::json::Json;

verus! {

/// The payload of an event as it was read from the envelope.
#[derive(Debug, PartialEq, Eq)]
pub enum Payload {
    /// The event carries no payload.
    Absent,
    /// The payload could not be read as JSON; the reader's message.
    Malformed(String),
    /// The payload, read as JSON.
    Value(Json),
}

/// An event envelope: identifying metadata, a content type and a payload.
#[derive(Debug, PartialEq, Eq)]
pub struct Envelope {
    pub id: String,
    pub source: String,
    pub event_type: String,
    /// Every other metadata attribute, as name and value, kept as given.
    pub attributes: Vec<(String, String)>,
    pub content_type: Option<String>,
    pub payload: Payload,
}

/// `out` carries the metadata of `input` unchanged.
pub open spec fn same_metadata(input: Envelope, out: Envelope) -> bool {
    &&& out.id == input.id
    &&& out.source == input.source
    &&& out.event_type == input.event_type
    &&& out.attributes == input.attributes
}

impl Envelope {
    /// An envelope with the given metadata, no other attributes, no content
    /// type and no payload.
    pub fn new(id: String, source: String, event_type: String) -> (r: Envelope)
        ensures
            r.id == id,
            r.source == source,
            r.event_type == event_type,
            r.attributes@.len() == 0,
            r.content_type is None,
            r.payload == Payload::Absent,
    {
        Envelope {
            id,
            source,
            event_type,
            attributes: Vec::new(),
            content_type: None,
            payload: Payload::Absent,
        }
    }

    /// The payload as read from the envelope.
    pub fn read_payload(&self) -> (r: &Payload)
        ensures
            *r == self.payload,
    {
        &self.payload
    }

    /// A new envelope with the metadata of `self`, the given content type and
    /// the given payload.
    pub fn with_new_payload(self, content_type: &str, payload: Json) -> (r: Envelope)
        ensures
            same_metadata(self, r),
            r.content_type matches Some(c) && c@ == content_type@,
            r.payload == Payload::Value(payload),
    {
        Envelope {
            id: self.id,
            source: self.source,
            event_type: self.event_type,
            attributes: self.attributes,
            content_type: Some(content_type.to_string()),
            payload: Payload::Value(payload),
        }
    }
}

} // verus!
