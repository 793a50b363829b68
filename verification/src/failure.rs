//! Reading the failures that the `web_push` crate reports.

use crate::outcome::{DeliveryResponse, PushError, SignatureError, ValidationError};
use crate::text::same_text;
use vstd::prelude::*;

verus! {

/// `web_push::WebPushError`: a public enum, read as it is defined.
#[verifier::external_type_specification]
pub struct ExWebPushError(web_push::WebPushError);

/// The error that a failure of the message builder stands for.
pub open spec fn builder_error_of(failure: web_push::WebPushError) -> PushError {
    match failure {
        web_push::WebPushError::InvalidUri => PushError::Validation(
            ValidationError::MalformedEndpoint,
        ),
        web_push::WebPushError::PayloadTooLarge => PushError::Validation(
            ValidationError::PayloadTooLarge,
        ),
        web_push::WebPushError::InvalidTtl => PushError::Validation(ValidationError::InvalidTtl),
        _ => PushError::Encryption,
    }
}

/// The error that a failure of the signer stands for.
pub open spec fn signer_error_of(failure: web_push::WebPushError) -> PushError {
    match failure {
        web_push::WebPushError::InvalidUri => PushError::Validation(
            ValidationError::MalformedEndpoint,
        ),
        web_push::WebPushError::InvalidClaims => PushError::Signature(
            SignatureError::InvalidClaims,
        ),
        _ => PushError::Signature(SignatureError::KeyLoad),
    }
}

/// The response that a delivery attempt stands for. A subscription that the
/// push service no longer knows (status 410 or 404) is `Gone`; a status
/// that the crate does not know and reports as the digits `429` is
/// `RateLimited`; every other failure is a transport error.
pub open spec fn response_of(result: Result<(), web_push::WebPushError>) -> DeliveryResponse {
    match result {
        Ok(_) => DeliveryResponse::Accepted,
        Err(web_push::WebPushError::EndpointNotValid) => DeliveryResponse::Gone,
        Err(web_push::WebPushError::EndpointNotFound) => DeliveryResponse::Gone,
        Err(web_push::WebPushError::Other(status)) => if status@ == "429"@ {
            DeliveryResponse::RateLimited
        } else {
            DeliveryResponse::TransportError
        },
        Err(_) => DeliveryResponse::TransportError,
    }
}

/// Maps a failure of the message builder to the library's error.
pub fn builder_error(failure: &web_push::WebPushError) -> (error: PushError)
    ensures
        error == builder_error_of(*failure),
{
    match failure {
        web_push::WebPushError::InvalidUri => PushError::Validation(
            ValidationError::MalformedEndpoint,
        ),
        web_push::WebPushError::PayloadTooLarge => PushError::Validation(
            ValidationError::PayloadTooLarge,
        ),
        web_push::WebPushError::InvalidTtl => PushError::Validation(ValidationError::InvalidTtl),
        _ => PushError::Encryption,
    }
}

/// Maps a failure of the signer to the library's error.
pub fn signer_error(failure: &web_push::WebPushError) -> (error: PushError)
    ensures
        error == signer_error_of(*failure),
{
    match failure {
        web_push::WebPushError::InvalidUri => PushError::Validation(
            ValidationError::MalformedEndpoint,
        ),
        web_push::WebPushError::InvalidClaims => PushError::Signature(
            SignatureError::InvalidClaims,
        ),
        _ => PushError::Signature(SignatureError::KeyLoad),
    }
}

/// Classifies what a delivery attempt through the `web_push` client
/// returned.
pub fn delivery_response(result: &Result<(), web_push::WebPushError>) -> (response:
    DeliveryResponse)
    ensures
        response == response_of(*result),
{
    match result {
        Ok(_) => DeliveryResponse::Accepted,
        Err(web_push::WebPushError::EndpointNotValid) => DeliveryResponse::Gone,
        Err(web_push::WebPushError::EndpointNotFound) => DeliveryResponse::Gone,
        Err(web_push::WebPushError::Other(status)) => if same_text(status.as_str(), "429") {
            DeliveryResponse::RateLimited
        } else {
            DeliveryResponse::TransportError
        },
        Err(_) => DeliveryResponse::TransportError,
    }
}

} // verus!
