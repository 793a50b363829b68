//! Failure taxonomy and the outcome reported once for every job.

use vstd::prelude::*;

verus! {

/// Why a job was refused before any encryption or signing took place.
#[derive(Clone, Copy, Debug, PartialEq, Eq, Structural)]
pub enum ValidationError {
    /// The endpoint is not an absolute `http`/`https` URL with a host.
    MalformedEndpoint,
    /// The subscriber's public key is not base64url text of 65 bytes.
    MalformedPublicKey,
    /// The subscriber's auth secret is not base64url text of 16 bytes.
    MalformedAuthSecret,
    /// The payload is longer than the push service accepts.
    PayloadTooLarge,
    /// The time-to-live is negative or does not fit the wire format.
    InvalidTtl,
}

/// Why no authentication token could be issued.
#[derive(Clone, Copy, Debug, PartialEq, Eq, Structural)]
pub enum SignatureError {
    /// The private key material could not be read.
    KeyLoad,
    /// The requested lifetime of the token exceeds the allowed window.
    InvalidExpiry,
    /// A claim could not be encoded into the token.
    InvalidClaims,
}

/// How the push service, or the path to it, failed a delivery attempt.
#[derive(Clone, Copy, Debug, PartialEq, Eq, Structural)]
pub enum DeliveryError {
    /// The subscription no longer exists; the caller should prune it.
    Gone,
    /// The push service asked the sender to slow down.
    RateLimited,
    /// The request did not reach the push service, or it answered with an
    /// error that says nothing about the subscription.
    TransportError,
    /// The delivery attempt was abandoned after its time allowance.
    Timeout,
}

/// Every failure this library reports.
#[derive(Clone, Copy, Debug, PartialEq, Eq, Structural)]
pub enum PushError {
    Validation(ValidationError),
    /// Key derivation or the cipher failed.
    Encryption,
    Signature(SignatureError),
    Delivery(DeliveryError),
    /// The queue has been closed; no further job is accepted.
    QueueClosed,
    /// The queue is at capacity; the job was handed back.
    QueueFull,
}

/// What the delivery collaborator reports for one attempt.
#[derive(Clone, Copy, Debug, PartialEq, Eq, Structural)]
pub enum DeliveryResponse {
    Accepted,
    Gone,
    RateLimited,
    TransportError,
    Timeout,
}

/// The single result of a job, carried by its completion handle.
#[derive(Clone, Copy, Debug, PartialEq, Eq, Structural)]
pub enum Outcome {
    Delivered,
    Failed(PushError),
}

/// The outcome that a delivery response stands for.
pub open spec fn outcome_of_response(response: DeliveryResponse) -> Outcome {
    match response {
        DeliveryResponse::Accepted => Outcome::Delivered,
        DeliveryResponse::Gone => Outcome::Failed(PushError::Delivery(DeliveryError::Gone)),
        DeliveryResponse::RateLimited => Outcome::Failed(
            PushError::Delivery(DeliveryError::RateLimited),
        ),
        DeliveryResponse::TransportError => Outcome::Failed(
            PushError::Delivery(DeliveryError::TransportError),
        ),
        DeliveryResponse::Timeout => Outcome::Failed(PushError::Delivery(DeliveryError::Timeout)),
    }
}

/// Classifies what the delivery collaborator reported into the job's outcome.
pub fn classify_response(response: DeliveryResponse) -> (outcome: Outcome)
    ensures
        outcome == outcome_of_response(response),
{
    match response {
        DeliveryResponse::Accepted => Outcome::Delivered,
        DeliveryResponse::Gone => Outcome::Failed(PushError::Delivery(DeliveryError::Gone)),
        DeliveryResponse::RateLimited => Outcome::Failed(
            PushError::Delivery(DeliveryError::RateLimited),
        ),
        DeliveryResponse::TransportError => Outcome::Failed(
            PushError::Delivery(DeliveryError::TransportError),
        ),
        DeliveryResponse::Timeout => Outcome::Failed(PushError::Delivery(DeliveryError::Timeout)),
    }
}

/// The HTTP status that tells a submitter of an outcome. A validation
/// error is the client's (400); a dead subscription is answered with 410,
/// so that the client subscribes anew; every other failure is the server's:
/// 502 where the push service could not be reached, 503 where it or the
/// queue asks for patience, 504 on a timeout, 500 otherwise.
pub open spec fn status_of(outcome: Outcome) -> u16 {
    match outcome {
        Outcome::Delivered => 200,
        Outcome::Failed(PushError::Validation(_)) => 400,
        Outcome::Failed(PushError::Delivery(DeliveryError::Gone)) => 410,
        Outcome::Failed(PushError::Delivery(DeliveryError::TransportError)) => 502,
        Outcome::Failed(PushError::Delivery(DeliveryError::RateLimited)) => 503,
        Outcome::Failed(PushError::Delivery(DeliveryError::Timeout)) => 504,
        Outcome::Failed(PushError::QueueClosed) => 503,
        Outcome::Failed(PushError::QueueFull) => 503,
        Outcome::Failed(PushError::Encryption) => 500,
        Outcome::Failed(PushError::Signature(_)) => 500,
    }
}

/// Gives the HTTP status that answers a submitter with an outcome.
pub fn response_status(outcome: Outcome) -> (status: u16)
    ensures
        status == status_of(outcome),
{
    match outcome {
        Outcome::Delivered => 200,
        Outcome::Failed(error) => match error {
            PushError::Validation(_) => 400,
            PushError::Delivery(DeliveryError::Gone) => 410,
            PushError::Delivery(DeliveryError::TransportError) => 502,
            PushError::Delivery(DeliveryError::RateLimited) => 503,
            PushError::Delivery(DeliveryError::Timeout) => 504,
            PushError::QueueClosed => 503,
            PushError::QueueFull => 503,
            PushError::Encryption => 500,
            PushError::Signature(_) => 500,
        },
    }
}

/// Distinct delivery responses give distinct outcomes: in particular a dead
/// subscription is never reported as a transport failure, nor the reverse.
pub proof fn lemma_outcomes_distinguish_responses(a: DeliveryResponse, b: DeliveryResponse)
    ensures
        outcome_of_response(a) == outcome_of_response(b) <==> a == b,
        outcome_of_response(a) == Outcome::Delivered <==> a == DeliveryResponse::Accepted,
        status_of(outcome_of_response(DeliveryResponse::Gone)) != status_of(
            outcome_of_response(DeliveryResponse::TransportError),
        ),
{
}

} // verus!
