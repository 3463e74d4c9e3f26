//! The relay's error taxonomy.

use vstd::prelude::*;

verus! {

/// What can go wrong while handling one webhook delivery.
///
/// Handshake refusals are not errors of this kind: the verifier answers them
/// directly with a Forbidden or BadRequest status.
#[derive(Clone, Copy, Debug, PartialEq, Eq, Structural)]
pub enum RelayError {
    /// The inbound payload was malformed: its entry list, or the first
    /// entry's messaging list, was empty.
    MalformedPayload,
    /// An outbound call failed: a network error or a non-success status from
    /// the completion API or the send API.
    Upstream,
    /// The completion API answered with an empty list of choices.
    EmptyCompletion,
}

} // verus!
