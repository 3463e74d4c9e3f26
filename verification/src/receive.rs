//! The webhook receiver: extract the first messaging event from an inbound
//! payload, judge its staleness, and decide the endpoint's HTTP answer.
//!
//! A malformed payload is answered with a client error — never a crash on
//! attacker-controlled input. A downstream failure while handling a *stale*
//! event (older than the staleness threshold) is forgiven and acknowledged
//! with success anyway, so that the platform does not redeliver an event that
//! can no longer be meaningfully answered; a failure on a fresh event is
//! reported honestly as a server error.

use vstd::prelude::*;

use crate::error::RelayError;
use crate::status::{STATUS_BAD_REQUEST, STATUS_SERVER_ERROR};
use crate::types::{IncomingMessage, WebhookPayload};

verus! {

/// How old an event may be, in milliseconds, before a downstream failure
/// while answering it is forgiven: five minutes.
pub const STALENESS_THRESHOLD_MILLIS: u128 = 1000 * 60 * 5;

/// A payload is well formed when it carries at least one entry and that
/// entry carries at least one messaging event.
pub open spec fn payload_well_formed(p: WebhookPayload) -> bool {
    p.entry@.len() > 0 && p.entry@[0].messaging@.len() > 0
}

/// The event a well-formed payload is acted upon: the first messaging event
/// of the first entry.
pub open spec fn spec_first_event(p: WebhookPayload) -> IncomingMessage {
    p.entry@[0].messaging@[0]
}

/// Extracts the event to act upon from an inbound payload: the first
/// messaging event of the first entry. An empty entry list or an empty
/// messaging list is a malformed payload and an explicit error.
pub fn extract_event(payload: WebhookPayload) -> (r: Result<IncomingMessage, RelayError>)
    ensures
        payload_well_formed(payload) ==> r == Ok::<IncomingMessage, RelayError>(
            spec_first_event(payload)),
        !payload_well_formed(payload) ==> r == Err::<IncomingMessage, RelayError>(
            RelayError::MalformedPayload),
{
    let mut entries = payload.entry;
    if entries.len() == 0 {
        return Err(RelayError::MalformedPayload);
    }
    let mut first = entries.remove(0);
    if first.messaging.len() == 0 {
        return Err(RelayError::MalformedPayload);
    }
    Ok(first.messaging.remove(0))
}

/// An event is stale when it is older than the staleness threshold: its
/// timestamp lies more than five minutes before the present moment. An event
/// with a timestamp at or ahead of the present is not stale.
pub open spec fn spec_is_stale(now_millis: u128, timestamp: u128) -> bool {
    now_millis - timestamp > STALENESS_THRESHOLD_MILLIS
}

/// Judges whether an event is stale, given the present moment and the
/// event's timestamp, both in milliseconds since the epoch.
pub fn is_stale(now_millis: u128, timestamp: u128) -> (r: bool)
    ensures
        r == spec_is_stale(now_millis, timestamp),
{
    now_millis > timestamp && now_millis - timestamp > STALENESS_THRESHOLD_MILLIS
}

/// What the receiver decides to do with one inbound delivery.
pub enum ReceiveDecision {
    /// The payload was malformed: answer with this client-error status and
    /// make no outbound call at all.
    Reject { status: u16 },
    /// Hand the event to the responder: answer this sender, with a reply to
    /// this text. `stale` records whether the event was already older than
    /// the staleness threshold on arrival.
    Dispatch { sender_id: String, text: String, stale: bool },
}

/// The receiver's decision for a payload arriving at a given moment.
pub open spec fn spec_receive(payload: WebhookPayload, now_millis: u128) -> ReceiveDecision {
    if payload_well_formed(payload) {
        ReceiveDecision::Dispatch {
            sender_id: spec_first_event(payload).sender.id,
            text: spec_first_event(payload).message.text,
            stale: spec_is_stale(now_millis, spec_first_event(payload).timestamp),
        }
    } else {
        ReceiveDecision::Reject { status: STATUS_BAD_REQUEST }
    }
}

/// Decides what to do with an inbound delivery: reject a malformed payload
/// with a client error, or dispatch the first event's sender and text to the
/// responder, noting whether the event is already stale.
pub fn receive_webhook(payload: WebhookPayload, now_millis: u128) -> (d: ReceiveDecision)
    ensures
        d == spec_receive(payload, now_millis),
{
    match extract_event(payload) {
        Err(_) => ReceiveDecision::Reject { status: STATUS_BAD_REQUEST },
        Ok(event) => {
            let stale = is_stale(now_millis, event.timestamp);
            ReceiveDecision::Dispatch {
                sender_id: event.sender.id,
                text: event.message.text,
                stale,
            }
        },
    }
}

/// Decides the webhook endpoint's answer once the responder has run (or was
/// skipped): a fresh event whose handling failed is an honest server error;
/// everything else — success, or a failure on a stale event — is acknowledged
/// with the fixed success body.
pub fn conclude_webhook(stale: bool, respond_ok: bool) -> (r: Result<String, u16>)
    ensures
        respond_ok || stale ==> (r matches Ok(body) && body@ == "Message received!"@),
        !respond_ok && !stale ==> r == Err::<String, u16>(STATUS_SERVER_ERROR),
{
    if !respond_ok && !stale {
        Err(STATUS_SERVER_ERROR)
    } else {
        Ok(String::from_str("Message received!"))
    }
}

/// A malformed payload — an empty entry list, or a first entry with an empty
/// messaging list — is rejected with a client error; no event is dispatched,
/// so no outbound call is made for it.
pub proof fn lemma_malformed_payload_rejected(payload: WebhookPayload, now_millis: u128)
    requires
        payload.entry@.len() == 0 || payload.entry@[0].messaging@.len() == 0,
    ensures
        spec_receive(payload, now_millis) == (ReceiveDecision::Reject {
            status: STATUS_BAD_REQUEST,
        }),
{
}

} // verus!
