//! A job-dispatch broker: authenticated clients submit long-running encoding
//! jobs, receive a unique subscription identifier, and are streamed progress
//! notifications until the job completes or is aborted.

use vstd::prelude::*;

pub mod descriptor;
pub mod encoding;
pub mod laws;
pub mod middleware;
pub mod remote;

verus! {

/// Why a start request was turned away without admitting a job.
#[derive(Clone, Copy, Debug, PartialEq, Eq, Structural)]
pub enum RejectionError {
    /// The descriptor failed validation: no identifier was allocated,
    /// no sink was created, and the registry was not touched.
    InvalidParameters,
    /// The subscriber was gone before a sink could be bound to the
    /// freshly allocated identifier; the identifier is spent.
    SinkUnavailable,
    /// The encoder collaborator declined the job; the sink is discarded
    /// and the identifier is spent, never to be reused.
    EncoderDeclined,
}

/// Outcome of pushing a progress payload towards a subscriber.
#[derive(Clone, Copy, Debug, PartialEq, Eq, Structural)]
pub enum PushOutcome {
    /// The payload was handed to the subscriber's channel.
    Delivered,
    /// The subscription is gone or its channel refused the payload;
    /// delivery is best-effort, so this is not a fault.
    Undeliverable,
}

/// Credential rejection by the identity collaborator: no token is
/// produced and the registry is never touched.
#[derive(Clone, Copy, Debug, PartialEq, Eq, Structural)]
pub enum AuthError {
    Rejected,
}

/// The encoder collaborator's refusal of a job, e.g. on resource
/// exhaustion; the broker then discards the sink and registers nothing.
#[derive(Clone, Copy, Debug, PartialEq, Eq, Structural)]
pub enum EncoderError {
    Declined,
}

} // verus!
