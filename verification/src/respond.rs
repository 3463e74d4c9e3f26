//! The responder: plan the completion call for an inbound text, extract the
//! reply from the completion API's answer, and build the outbound message.
//!
//! The network calls themselves are made by the unverified binary; it carries
//! out the [`CompletionPlan`] this module produces and hands the API's answer
//! back to [`extract_reply`] and [`respond`].

use vstd::prelude::*;

use crate::error::RelayError;
use crate::types::{Message, MessagingType, OpenAIMessage, OpenAIRequest, OpenAIResponse,
    OutgoingMessage, Recipient};

verus! {

/// How to obtain the reply text for an inbound query.
pub enum CompletionPlan {
    /// Answer with this text immediately; no network call is to be made.
    Bypass(String),
    /// Post this request to the completion API.
    Call(OpenAIRequest),
}

/// Decides how to answer a query: the literal query "ping" is answered
/// "pong" without contacting the completion service (a zero-cost health
/// check); every other query becomes one completion request with the fixed
/// model identifier and a single "user" turn carrying the query verbatim.
pub fn plan_completion(query: &String) -> (p: CompletionPlan)
    ensures
        query@ == "ping"@ ==> (p matches CompletionPlan::Bypass(r) && r@ == "pong"@),
        query@ != "ping"@ ==> (p matches CompletionPlan::Call(req)
            && req.model@ == "gpt-3.5-turbo"@
            && req.messages@.len() == 1
            && req.messages@[0].role@ == "user"@
            && req.messages@[0].content == *query),
{
    let ping = String::from_str("ping");
    if *query == ping {
        CompletionPlan::Bypass(String::from_str("pong"))
    } else {
        CompletionPlan::Call(OpenAIRequest {
            model: String::from_str("gpt-3.5-turbo"),
            messages: vec![OpenAIMessage {
                role: String::from_str("user"),
                content: query.clone(),
            }],
        })
    }
}

/// The reply a completion response yields: the first choice's content, or an
/// explicit error when the API returned no choices at all.
pub open spec fn spec_extract_reply(resp: OpenAIResponse) -> Result<String, RelayError> {
    if resp.choices@.len() == 0 {
        Err(RelayError::EmptyCompletion)
    } else {
        Ok(resp.choices@[0].message.content)
    }
}

/// Extracts the reply text from a completion response: the first choice's
/// message content. An empty choices list is an explicit error, never a
/// crash.
pub fn extract_reply(resp: OpenAIResponse) -> (r: Result<String, RelayError>)
    ensures
        r == spec_extract_reply(resp),
{
    let mut choices = resp.choices;
    if choices.len() == 0 {
        return Err(RelayError::EmptyCompletion);
    }
    let first = choices.remove(0);
    Ok(first.message.content)
}

/// The outbound message for a recipient and a reply text: messaging type
/// `Response`, no message id, the reply as the text.
pub open spec fn spec_outgoing(recipient_id: String, reply: String) -> OutgoingMessage {
    OutgoingMessage {
        recipient: Recipient { id: recipient_id },
        messaging_type: MessagingType::Response,
        message: Message { mid: None, text: reply },
    }
}

/// Builds the body to post to the platform's send API: the reply text goes
/// out verbatim, tagged `Response`, with no message id.
pub fn build_outgoing(recipient_id: String, reply: String) -> (m: OutgoingMessage)
    ensures
        m == spec_outgoing(recipient_id, reply),
{
    OutgoingMessage {
        recipient: Recipient { id: recipient_id },
        messaging_type: MessagingType::Response,
        message: Message { mid: None, text: reply },
    }
}

/// The responder's decision for a completion outcome: a failed completion is
/// propagated and nothing is sent; a successful one is wrapped into exactly
/// one outbound message carrying the reply verbatim.
pub open spec fn spec_respond(recipient_id: String, completion: Result<String, RelayError>)
    -> Result<OutgoingMessage, RelayError> {
    match completion {
        Ok(reply) => Ok(spec_outgoing(recipient_id, reply)),
        Err(e) => Err(e),
    }
}

/// Turns the completion outcome into the message to send, propagating any
/// failure from the completion step to the caller; no retry is added.
pub fn respond(recipient_id: String, completion: Result<String, RelayError>)
    -> (r: Result<OutgoingMessage, RelayError>)
    ensures
        r == spec_respond(recipient_id, completion),
{
    match completion {
        Ok(reply) => Ok(build_outgoing(recipient_id, reply)),
        Err(e) => Err(e),
    }
}

/// Relay faithfulness: whenever the completion API answers with at least one
/// choice, the responder sends exactly one outbound message, addressed to the
/// given recipient, whose text is the first choice's content verbatim.
pub proof fn lemma_relay_posts_completion_reply(recipient_id: String, resp: OpenAIResponse)
    requires
        resp.choices@.len() > 0,
    ensures
        spec_respond(recipient_id, spec_extract_reply(resp)) matches Ok(m)
            && m.recipient.id == recipient_id
            && m.message.text == resp.choices@[0].message.content,
{
}

/// An empty completion result never reaches the send step: when the
/// completion API returns zero choices, the responder surfaces the explicit
/// error and produces no outbound message.
pub proof fn lemma_empty_completion_never_sent(recipient_id: String, resp: OpenAIResponse)
    requires
        resp.choices@.len() == 0,
    ensures
        spec_respond(recipient_id, spec_extract_reply(resp))
            == Err::<OutgoingMessage, RelayError>(RelayError::EmptyCompletion),
{
}

} // verus!
