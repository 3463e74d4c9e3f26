//! The webhook verifier: the platform's one-time subscription handshake.
//!
//! The platform calls the webhook with three query parameters — a mode, a
//! verify token, and a challenge — and expects the challenge echoed back
//! verbatim when the mode is "subscribe" and the token matches the configured
//! secret. The check is pure and idempotent; the unverified binary merely
//! looks the three parameters up in the query string and maps the decision to
//! an HTTP response.

use vstd::prelude::*;

use crate::status::{STATUS_BAD_REQUEST, STATUS_FORBIDDEN, STATUS_OK};

verus! {

/// The verifier's answer to a handshake request.
pub enum VerifyDecision {
    /// The handshake is valid: echo this challenge value as the response
    /// body, with a success status.
    Accept(String),
    /// All parameters were present but the mode or the token was wrong.
    Forbidden,
    /// At least one of the three required parameters was missing.
    BadRequest,
}

/// The handshake decision for the three query parameters (each `None` when
/// absent from the request) and the configured secret: missing parameters are
/// a bad request; a "subscribe" mode with the matching token is accepted,
/// echoing the challenge; anything else is forbidden.
pub open spec fn spec_verify(
    mode: Option<String>,
    verify_token: Option<String>,
    challenge: Option<String>,
    expected_token: String,
) -> VerifyDecision {
    match (mode, verify_token, challenge) {
        (Some(m), Some(t), Some(c)) => if m@ == "subscribe"@ && t@ == expected_token@ {
            VerifyDecision::Accept(c)
        } else {
            VerifyDecision::Forbidden
        },
        _ => VerifyDecision::BadRequest,
    }
}

/// Decides the subscription handshake: requires all three parameters, then
/// accepts exactly a "subscribe" mode carrying the configured token, echoing
/// the challenge back unchanged.
pub fn verify_webhook(
    mode: Option<String>,
    verify_token: Option<String>,
    challenge: Option<String>,
    expected_token: &String,
) -> (d: VerifyDecision)
    ensures
        d == spec_verify(mode, verify_token, challenge, *expected_token),
{
    match (mode, verify_token, challenge) {
        (Some(m), Some(t), Some(c)) => {
            let subscribe = String::from_str("subscribe");
            if m == subscribe && t == *expected_token {
                VerifyDecision::Accept(c)
            } else {
                VerifyDecision::Forbidden
            }
        },
        _ => VerifyDecision::BadRequest,
    }
}

impl VerifyDecision {
    /// The HTTP status this decision answers with.
    pub fn status(&self) -> (c: u16)
        ensures
            self is Accept ==> c == STATUS_OK,
            self is Forbidden ==> c == STATUS_FORBIDDEN,
            self is BadRequest ==> c == STATUS_BAD_REQUEST,
    {
        match self {
            VerifyDecision::Accept(_) => STATUS_OK,
            VerifyDecision::Forbidden => STATUS_FORBIDDEN,
            VerifyDecision::BadRequest => STATUS_BAD_REQUEST,
        }
    }
}

/// Every well-formed handshake — all three parameters present, mode
/// "subscribe", token matching the secret — is accepted, and the response
/// body is the supplied challenge value, passed through unchanged.
pub proof fn lemma_valid_handshake_echoes_challenge(
    mode: String,
    verify_token: String,
    challenge: String,
    expected_token: String,
)
    requires
        mode@ == "subscribe"@,
        verify_token@ == expected_token@,
    ensures
        spec_verify(Some(mode), Some(verify_token), Some(challenge), expected_token)
            == VerifyDecision::Accept(challenge),
{
}

/// Every handshake whose token does not match the secret is forbidden,
/// whatever the mode; and so is one whose mode is not "subscribe".
pub proof fn lemma_wrong_token_forbidden(
    mode: String,
    verify_token: String,
    challenge: String,
    expected_token: String,
)
    requires
        verify_token@ != expected_token@ || mode@ != "subscribe"@,
    ensures
        spec_verify(Some(mode), Some(verify_token), Some(challenge), expected_token)
            is Forbidden,
{
}

/// Every handshake missing one of the three required parameters is a bad
/// request, whatever the others hold.
pub proof fn lemma_missing_parameter_rejected(
    mode: Option<String>,
    verify_token: Option<String>,
    challenge: Option<String>,
    expected_token: String,
)
    requires
        mode is None || verify_token is None || challenge is None,
    ensures
        spec_verify(mode, verify_token, challenge, expected_token) is BadRequest,
{
}

} // verus!
