//! A verified core for a webhook chat relay.
//!
//! The relay receives inbound chat messages from a messaging platform's
//! webhook, forwards the message text to a text-completion service, and posts
//! the generated reply back to the platform. This crate holds the relay's
//! decision logic — handshake verification, payload extraction, staleness
//! grace, completion planning, reply extraction, and response-status policy —
//! as pure functions with proved contracts. The surrounding HTTP server and
//! the outbound network calls live in an ordinary, unverified binary that
//! feeds plain values into these functions and carries their decisions out.

pub mod error;
pub mod receive;
pub mod respond;
pub mod status;
pub mod types;
pub mod verify;
