//! The two envelopes of the channel handshake.
use vstd::prelude::*;
use vstd::string::StringExecFns;
use crate::json::{json_member, json_parsed, json_quoted, json_string, member, parse, quote, string_of};
use crate::text::{chunk_text, decode_chunk, text_eq};

verus! {

/// The envelope that opens a channel, as the client writes it.
#[derive(Clone, Debug, PartialEq, Eq)]
pub struct InitMessage {
    pub message_type: String,
    pub event_category: String,
    pub context_id: String,
}

/// The envelope with which the server answers an `InitMessage`.
#[derive(Clone, Debug, PartialEq, Eq)]
pub struct ServerMessage {
    pub message_type: String,
    pub body: String,
}

/// The JSON text of an init envelope with the given field values: an object of
/// the three members `messageType`, `eventCategory` and `contextId`, in that
/// order and without white space.
pub open spec fn init_text(message_type: Seq<char>, event_category: Seq<char>, context_id: Seq<char>) -> Seq<char> {
    "{\"messageType\":"@ + json_quoted(message_type) + ",\"eventCategory\":"@ + json_quoted(
        event_category,
    ) + ",\"contextId\":"@ + json_quoted(context_id) + "}"@
}

/// The two fields of an acknowledgment, as a parsed JSON value holds them: the
/// value is an object whose members `messageType` and `body` are strings.
pub open spec fn ack_fields(value: serde_json::Value) -> Option<(Seq<char>, Seq<char>)> {
    match (string_member(value, "messageType"@), string_member(value, "body"@)) {
        (Some(kind), Some(body)) => Some((kind, body)),
        _ => None,
    }
}

/// The text of the member under a key, where the value is an object that has
/// the key with a string under it.
pub open spec fn string_member(value: serde_json::Value, key: Seq<char>) -> Option<Seq<char>> {
    match json_member(value, key) {
        Some(found) => json_string(found),
        None => None,
    }
}

/// The two fields of the acknowledgment that a text holds.
pub open spec fn ack_of_text(text: Seq<char>) -> Option<(Seq<char>, Seq<char>)> {
    match json_parsed(text) {
        Some(value) => ack_fields(value),
        None => None,
    }
}

/// The two fields of the acknowledgment that a chunk of bytes holds: the bytes
/// are UTF-8, and their text is an acknowledgment.
pub open spec fn ack_of_bytes(bytes: Seq<u8>) -> Option<(Seq<char>, Seq<char>)> {
    match chunk_text(bytes) {
        Some(text) => ack_of_text(text),
        None => None,
    }
}

/// Whether an acknowledgment of this type accepts the channel.
pub open spec fn accepts(message_type: Seq<char>) -> bool {
    message_type == "success"@
}

impl InitMessage {
    /// The envelope for a category tag and a context.
    pub fn new(event_category: String, context_id: String) -> (message: InitMessage)
        ensures
            message.message_type@ == "init"@,
            message.event_category == event_category,
            message.context_id == context_id,
    {
        InitMessage { message_type: String::from_str("init"), event_category, context_id }
    }

    /// The JSON text of this envelope.
    pub open spec fn text(&self) -> Seq<char> {
        init_text(self.message_type@, self.event_category@, self.context_id@)
    }

    /// Writes the envelope as JSON.
    pub fn encode(&self) -> (json: String)
        ensures
            json@ == self.text(),
    {
        let kind = quote(self.message_type.as_str());
        let category = quote(self.event_category.as_str());
        let context = quote(self.context_id.as_str());
        assemble_init(kind.as_str(), category.as_str(), context.as_str())
    }
}

/// Puts the three quoted field values of an init envelope between the member
/// names.
pub fn assemble_init(message_type: &str, event_category: &str, context_id: &str) -> (json: String)
    ensures
        json@ == "{\"messageType\":"@ + message_type@ + ",\"eventCategory\":"@ + event_category@
            + ",\"contextId\":"@ + context_id@ + "}"@,
{
    let mut json = String::from_str("{\"messageType\":");
    json.append(message_type);
    json.append(",\"eventCategory\":");
    json.append(event_category);
    json.append(",\"contextId\":");
    json.append(context_id);
    json.append("}");
    json
}

impl ServerMessage {
    /// The two field values.
    pub open spec fn fields(&self) -> (Seq<char>, Seq<char>) {
        (self.message_type@, self.body@)
    }

    /// The acknowledgment with the given field values, where both are there.
    pub fn from_fields(message_type: Option<&str>, body: Option<&str>) -> (message: Option<
        ServerMessage,
    >)
        ensures
            message is Some <==> message_type is Some && body is Some,
            message matches Some(m) ==> m.fields() == (message_type.unwrap()@, body.unwrap()@),
    {
        match message_type {
            Some(k) => match body {
                Some(b) => Some(ServerMessage { message_type: k.to_owned(), body: b.to_owned() }),
                None => None,
            },
            None => None,
        }
    }

    /// Reads the acknowledgment out of a parsed JSON value.
    pub fn from_value(value: &serde_json::Value) -> (message: Option<ServerMessage>)
        ensures
            message is Some <==> ack_fields(*value) is Some,
            message matches Some(m) ==> Some(m.fields()) == ack_fields(*value),
    {
        let kind = match member(value, "messageType") {
            Some(found) => string_of(found),
            None => None,
        };
        let body = match member(value, "body") {
            Some(found) => string_of(found),
            None => None,
        };
        ServerMessage::from_fields(kind, body)
    }

    /// Reads the acknowledgment from its JSON text.
    pub fn decode(text: &str) -> (message: Option<ServerMessage>)
        ensures
            message is Some <==> ack_of_text(text@) is Some,
            message matches Some(m) ==> Some(m.fields()) == ack_of_text(text@),
    {
        match parse(text) {
            Ok(value) => ServerMessage::from_value(&value),
            Err(_) => None,
        }
    }

    /// Reads the acknowledgment from the bytes of one read.
    pub fn from_bytes(bytes: &[u8]) -> (message: Option<ServerMessage>)
        ensures
            message is Some <==> ack_of_bytes(bytes@) is Some,
            message matches Some(m) ==> Some(m.fields()) == ack_of_bytes(bytes@),
    {
        match decode_chunk(bytes) {
            Some(text) => ServerMessage::decode(text.as_str()),
            None => None,
        }
    }

    /// Whether the server accepted the channel.
    pub fn is_success(&self) -> (accepted: bool)
        ensures
            accepted == accepts(self.message_type@),
    {
        text_eq(self.message_type.as_str(), "success")
    }
}

} // verus!
