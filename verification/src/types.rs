//! Wire-shaped data types for the two protocols the relay translates between:
//! the messaging platform's webhook events and the completion API's
//! request/response bodies. These are plain transient values; nothing here
//! persists past a single request.

use vstd::prelude::*;

verus! {

/// The body of an inbound webhook delivery: a list of entries, each holding a
/// list of messaging events. Only the first event of the first entry is acted
/// upon; an empty list at either level is a malformed payload.
pub struct WebhookPayload {
    pub entry: Vec<Entry>,
}

/// One entry of a webhook delivery.
pub struct Entry {
    pub messaging: Vec<IncomingMessage>,
}

/// One inbound messaging event: who sent it, to which page, when
/// (milliseconds since the epoch), and the message itself.
pub struct IncomingMessage {
    pub sender: Sender,
    pub recipient: Recipient,
    pub timestamp: u128,
    pub message: Message,
}

/// The body posted back to the platform's send API.
pub struct OutgoingMessage {
    pub recipient: Recipient,
    pub messaging_type: MessagingType,
    pub message: Message,
}

/// The platform's messaging-type tag on an outbound message.
#[derive(Debug, PartialEq, Eq, Structural)]
pub enum MessagingType {
    Response,
    Update,
}

/// The author of an inbound message.
pub struct Sender {
    pub id: String,
}

/// The destination of a message.
pub struct Recipient {
    pub id: String,
}

/// A message body: an optional platform message id and the text payload.
pub struct Message {
    pub mid: Option<String>,
    pub text: String,
}

/// A request to the completion API: a model identifier and a list of
/// role/content turns. The relay always sends exactly one turn with role
/// "user".
pub struct OpenAIRequest {
    pub model: String,
    pub messages: Vec<OpenAIMessage>,
}

/// A response from the completion API: a list of choices, of which only the
/// first is used.
pub struct OpenAIResponse {
    pub choices: Vec<OpenAIChoice>,
}

/// One generated choice of a completion response.
pub struct OpenAIChoice {
    pub message: OpenAIMessage,
}

/// One role/content turn of a completion conversation.
pub struct OpenAIMessage {
    pub role: String,
    pub content: String,
}

} // verus!
