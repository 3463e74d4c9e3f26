//! HTTP status codes the relay answers with, and the response-status policy.
//!
//! The platform redelivers a webhook event until it sees a success status.
//! For event kinds this relay does not understand, an honest error status
//! would therefore cause an endless redelivery storm. The relay can be run
//! with a policy that forces the webhook endpoint's status to success
//! regardless of the handler's real outcome — a deliberate trade-off that
//! swallows real failures to stop redelivery. The policy is an explicit,
//! testable parameter here, not hidden middleware.

use vstd::prelude::*;

verus! {

/// Success.
pub const STATUS_OK: u16 = 200;

/// The request was malformed (missing handshake parameter, malformed body).
pub const STATUS_BAD_REQUEST: u16 = 400;

/// The handshake was refused (wrong mode or token).
pub const STATUS_FORBIDDEN: u16 = 403;

/// A downstream call failed while handling a fresh event.
pub const STATUS_SERVER_ERROR: u16 = 500;

/// How the webhook endpoint's HTTP status is reported to the platform.
#[derive(PartialEq, Eq, Structural)]
pub enum StatusPolicy {
    /// Report the handler's real outcome.
    Honest,
    /// Force success whatever the handler's outcome, so that the platform
    /// never redelivers an event — at the cost of hiding real failures.
    AlwaysAcknowledge,
}

/// Applies the configured status policy to the handler's real status.
pub fn apply_status_policy(policy: &StatusPolicy, status: u16) -> (r: u16)
    ensures
        policy is AlwaysAcknowledge ==> r == STATUS_OK,
        policy is Honest ==> r == status,
{
    match policy {
        StatusPolicy::AlwaysAcknowledge => STATUS_OK,
        StatusPolicy::Honest => status,
    }
}

} // verus!
