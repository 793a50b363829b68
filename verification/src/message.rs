//! Building the encrypted push message for one job.

use crate::failure::{builder_error, builder_error_of};
use crate::outcome::{PushError, ValidationError};
use crate::signer::{subscription_info, AuthToken};
use crate::subscription::{is_key_text, text_bytes, Subscription, PUBLIC_KEY_SYMBOLS};
use crate::text::same_text;
use vstd::prelude::*;

verus! {

/// The longest plaintext, in bytes, that a push service accepts.
pub const MAX_PAYLOAD_LEN: usize = 4096;

/// The longest plaintext, in bytes, that the `web_push` crate encrypts.
pub const SEALABLE_PAYLOAD_LEN: usize = 3052;

/// The longest time-to-live, in seconds, that the wire format holds.
pub const MAX_TTL: i64 = 4_294_967_295;

/// A header of the push request: its name and its value.
#[derive(Clone, Debug)]
pub struct Header {
    pub name: String,
    pub value: String,
}

/// What encryption produced: the body and the headers that go with it.
#[derive(Clone, Debug)]
pub struct Sealed {
    pub body: Vec<u8>,
    pub headers: Vec<Header>,
}

/// A message ready for one delivery attempt.
#[derive(Clone, Debug)]
pub struct SignedMessage {
    /// The URL of the push service to deliver to.
    pub endpoint: String,
    /// How long the push service may hold the message, in seconds.
    pub ttl: u32,
    /// The encrypted body.
    pub body: Vec<u8>,
    /// The `Authorization` header, which carries the authentication token.
    pub authorization: String,
}

/// The text that `base64`'s URL-safe encoding without padding gives the
/// bytes, as the `web_push` crate writes a key into a header.
pub uninterp spec fn base64url_text(bytes: Seq<u8>) -> Seq<char>;

/// The value of an `Authorization` header that carries `token` and `key`:
/// the scheme `vapid`, the token, and the sender's public key in base64url.
pub open spec fn carries_token(value: Seq<char>, token: Seq<char>, key: Seq<u8>) -> bool {
    value == "vapid t="@ + token + ", k="@ + base64url_text(key)
}

/// `WebPushMessageBuilder::build` on a builder made by
/// `WebPushMessageBuilder::new` for `info` and given, through `set_payload`,
/// `set_ttl` and `set_vapid_signature`, the payload under the `aes128gcm`
/// encoding, the time-to-live and the signature. Encryption draws a random
/// salt and key, so of the bytes only this is claimed: the body is longer
/// than the payload (a header, the payload, padding and a tag), and the
/// headers hold `Authorization` with the signature's token and key. A payload of at
/// most [`SEALABLE_PAYLOAD_LEN`] bytes fails only on the endpoint or on the
/// keys. The subscriber's key must be text of 65 bytes: the cipher copies
/// the decoded key into a slot of that size and panics on any other.
#[verifier::external_body]
fn seal(
    info: &web_push::SubscriptionInfo,
    payload: &[u8],
    ttl: u32,
    signature: web_push::VapidSignature,
) -> (r: Result<Option<Sealed>, web_push::WebPushError>)
    requires
        is_key_text(text_bytes(info.keys.p256dh@), PUBLIC_KEY_SYMBOLS as int),
    ensures
        r matches Ok(sealed) ==> sealed is Some,
        r matches Ok(Some(parts)) ==> parts.body@.len() > payload@.len(),
        r matches Ok(Some(parts)) ==> header_value(
            parts.headers@,
            "Authorization"@,
            parts.headers@.len() as int,
        ) == Some("vapid t="@ + signature.auth_t@ + ", k="@ + base64url_text(signature.auth_k@)),
        r matches Err(failure) ==> payload@.len() > SEALABLE_PAYLOAD_LEN || failure
            == web_push::WebPushError::InvalidUri || failure
            == web_push::WebPushError::InvalidCryptoKeys,
{
    let mut builder = web_push::WebPushMessageBuilder::new(info)?;
    builder.set_payload(web_push::ContentEncoding::Aes128Gcm, payload);
    builder.set_ttl(ttl);
    builder.set_vapid_signature(signature);
    let message = builder.build()?;
    Ok(message.payload.map(|p| Sealed {
        body: p.content,
        headers: p.crypto_headers.into_iter().map(|(k, v)| Header { name: k.to_string(), value: v }).collect(),
    }))
}

/// The time-to-live that a job is sent with: its own where it has one, else
/// the default. A negative one, or one beyond [`MAX_TTL`], is invalid.
pub open spec fn ttl_of(ttl: Option<i64>, default_ttl: u32) -> Result<u32, ValidationError> {
    match ttl {
        None => Ok(default_ttl),
        Some(seconds) => if 0 <= seconds <= MAX_TTL {
            Ok(seconds as u32)
        } else {
            Err(ValidationError::InvalidTtl)
        },
    }
}

/// Settles the time-to-live of a job.
pub fn resolve_ttl(ttl: Option<i64>, default_ttl: u32) -> (r: Result<u32, ValidationError>)
    ensures
        r == ttl_of(ttl, default_ttl),
{
    match ttl {
        None => Ok(default_ttl),
        Some(seconds) => if 0 <= seconds && seconds <= MAX_TTL {
            Ok(seconds as u32)
        } else {
            Err(ValidationError::InvalidTtl)
        },
    }
}

/// The value of the first of the first `n` headers that is named `name`.
pub open spec fn header_value(headers: Seq<Header>, name: Seq<char>, n: int) -> Option<Seq<char>>
    decreases n,
{
    if n <= 0 {
        None
    } else {
        match header_value(headers, name, n - 1) {
            Some(value) => Some(value),
            None => if headers[n - 1].name@ == name {
                Some(headers[n - 1].value@)
            } else {
                None
            },
        }
    }
}

/// Looks a header up by its name.
pub fn find_header(headers: &Vec<Header>, name: &str) -> (r: Option<String>)
    ensures
        match header_value(headers@, name@, headers@.len() as int) {
            Some(value) => r matches Some(found) && found@ == value,
            None => r is None,
        },
{
    let mut i: usize = 0;
    while i < headers.len()
        invariant
            i <= headers.len(),
            header_value(headers@, name@, i as int) is None,
        decreases headers.len() - i,
    {
        if same_text(headers[i].name.as_str(), name) {
            proof {
                let n = headers@.len() as int;
                lemma_header_found(headers@, name@, i as int, n);
            }
            return Some(headers[i].value.clone());
        }
        i += 1;
    }
    None
}

/// Once a header of the name is found, later headers do not change the answer.
proof fn lemma_header_found(headers: Seq<Header>, name: Seq<char>, at: int, n: int)
    requires
        0 <= at < n <= headers.len(),
        header_value(headers, name, at) is None,
        headers[at].name@ == name,
    ensures
        header_value(headers, name, n) == Some(headers[at].value@),
    decreases n,
{
    if n > at + 1 {
        lemma_header_found(headers, name, at, n - 1);
    }
}

/// What the builder's result means to the library. A failure becomes the
/// error that it stands for. A result without a payload, or without an
/// `Authorization` header, is an encryption failure. Otherwise the message
/// is the body and that header, with the endpoint and time-to-live that it
/// was built for.
pub open spec fn message_of(
    endpoint: Seq<char>,
    ttl: u32,
    sealed: Result<Option<Sealed>, web_push::WebPushError>,
    message: Result<SignedMessage, PushError>,
) -> bool {
    match sealed {
        Err(failure) => message == Err::<SignedMessage, PushError>(builder_error_of(failure)),
        Ok(None) => message == Err::<SignedMessage, PushError>(PushError::Encryption),
        Ok(Some(parts)) => match header_value(
            parts.headers@,
            "Authorization"@,
            parts.headers@.len() as int,
        ) {
            None => message == Err::<SignedMessage, PushError>(PushError::Encryption),
            Some(value) => {
                &&& message matches Ok(m)
                &&& m.endpoint@ == endpoint
                &&& m.ttl == ttl
                &&& m.body@ == parts.body@
                &&& m.authorization@ == value
            },
        },
    }
}

/// Turns what the builder returned into the library's message or error.
pub fn assemble(
    endpoint: &String,
    ttl: u32,
    sealed: Result<Option<Sealed>, web_push::WebPushError>,
) -> (r: Result<SignedMessage, PushError>)
    ensures
        message_of(endpoint@, ttl, sealed, r),
{
    match sealed {
        Err(failure) => Err(builder_error(&failure)),
        Ok(None) => Err(PushError::Encryption),
        Ok(Some(parts)) => match find_header(&parts.headers, "Authorization") {
            None => Err(PushError::Encryption),
            Some(authorization) => Ok(
                SignedMessage { endpoint: endpoint.clone(), ttl, body: parts.body, authorization },
            ),
        },
    }
}

/// Why a message is refused before anything is encrypted: a payload beyond
/// [`MAX_PAYLOAD_LEN`] is too large; then an invalid time-to-live; then a
/// payload that the cipher cannot take, an empty one or one beyond
/// [`SEALABLE_PAYLOAD_LEN`], is an encryption failure.
pub open spec fn message_fault(payload: Seq<u8>, ttl: Option<i64>, default_ttl: u32) -> Option<
    PushError,
> {
    if payload.len() > MAX_PAYLOAD_LEN {
        Some(PushError::Validation(ValidationError::PayloadTooLarge))
    } else if ttl_of(ttl, default_ttl) is Err {
        Some(PushError::Validation(ValidationError::InvalidTtl))
    } else if payload.len() == 0 || payload.len() > SEALABLE_PAYLOAD_LEN {
        Some(PushError::Encryption)
    } else {
        None
    }
}

/// Judges a payload and a time-to-live before anything is encrypted, and
/// settles the time-to-live.
pub fn check_message(payload: &[u8], ttl: Option<i64>, default_ttl: u32) -> (r: Result<
    u32,
    PushError,
>)
    ensures
        match message_fault(payload@, ttl, default_ttl) {
            Some(fault) => r == Err::<u32, PushError>(fault),
            None => r is Ok && ttl_of(ttl, default_ttl) == Ok::<u32, ValidationError>(r->Ok_0),
        },
{
    if payload.len() > MAX_PAYLOAD_LEN {
        return Err(PushError::Validation(ValidationError::PayloadTooLarge));
    }
    let seconds: u32 = match resolve_ttl(ttl, default_ttl) {
        Ok(seconds) => seconds,
        Err(fault) => {
            return Err(PushError::Validation(fault));
        },
    };
    if payload.len() == 0 || payload.len() > SEALABLE_PAYLOAD_LEN {
        return Err(PushError::Encryption);
    }
    Ok(seconds)
}

/// Everything that is handed to the cipher for one message.
pub struct SealRequest<'a> {
    /// The subscription to encrypt for.
    pub info: web_push::SubscriptionInfo,
    /// The plaintext.
    pub payload: &'a [u8],
    /// How long the push service may hold the message, in seconds.
    pub ttl: u32,
    /// The token and the public key that go into the `Authorization` header.
    pub signature: web_push::VapidSignature,
}

impl<'a> SealRequest<'a> {
    /// The subscriber's key is text of 65 bytes, and the payload is one that
    /// the cipher takes.
    pub open spec fn well_formed(&self) -> bool {
        &&& is_key_text(text_bytes(self.info.keys.p256dh@), PUBLIC_KEY_SYMBOLS as int)
        &&& 0 < self.payload@.len() <= SEALABLE_PAYLOAD_LEN
    }
}

/// Settles what is encrypted, for whom and with what: the job's own
/// payload, the subscription's own endpoint and keys, the settled
/// time-to-live, and the token with its public key. A faulty payload or
/// time-to-live is refused here, before anything is encrypted.
pub fn seal_request<'a>(
    subscription: &Subscription,
    payload: &'a [u8],
    ttl: Option<i64>,
    default_ttl: u32,
    token: AuthToken,
) -> (r: Result<SealRequest<'a>, PushError>)
    ensures
        match message_fault(payload@, ttl, default_ttl) {
            Some(fault) => r matches Err(refused) && refused == fault,
            None => {
                &&& r matches Ok(request)
                &&& request.well_formed()
                &&& request.info.endpoint@ == subscription.endpoint_view()
                &&& request.info.keys.p256dh@ == subscription.p256dh_view()
                &&& request.info.keys.auth@ == subscription.auth_view()
                &&& request.payload@ == payload@
                &&& ttl_of(ttl, default_ttl) == Ok::<u32, ValidationError>(request.ttl)
                &&& request.signature.auth_t@ == token.token@
                &&& request.signature.auth_k@ == token.public_key@
            },
        },
{
    let seconds: u32 = match check_message(payload, ttl, default_ttl) {
        Ok(seconds) => seconds,
        Err(fault) => {
            return Err(fault);
        },
    };
    let info = subscription_info(subscription);
    let signature = web_push::VapidSignature { auth_t: token.token, auth_k: token.public_key };
    Ok(SealRequest { info, payload, ttl: seconds, signature })
}

/// Encrypts as the request says. Whether the keys are a point of the curve
/// and the cipher succeeds is the cipher's to say, and nothing else fails a
/// well-formed request but its endpoint. A message that comes back is for
/// the request's endpoint and time-to-live, its body is longer than the
/// payload, and its `Authorization` header carries the request's token
/// and key.
pub fn seal_message(request: SealRequest) -> (r: Result<SignedMessage, PushError>)
    requires
        request.well_formed(),
    ensures
        exists|sealed: Result<Option<Sealed>, web_push::WebPushError>| #[trigger]
            message_of(request.info.endpoint@, request.ttl, sealed, r),
        r matches Ok(message) ==> {
            &&& message.endpoint@ == request.info.endpoint@
            &&& message.ttl == request.ttl
            &&& message.body@.len() > request.payload@.len()
            &&& carries_token(
                message.authorization@,
                request.signature.auth_t@,
                request.signature.auth_k@,
            )
        },
        r matches Err(error) ==> error == PushError::Encryption || error == PushError::Validation(
            ValidationError::MalformedEndpoint,
        ),
{
    let SealRequest { info, payload, ttl, signature } = request;
    let sealed = seal(&info, payload, ttl, signature);
    let r = assemble(&info.endpoint, ttl, sealed);
    assert(message_of(info.endpoint@, ttl, sealed, r));
    r
}

/// Encrypts `payload` for `subscription` and attaches `token`.
///
/// A faulty payload or time-to-live is refused before anything is
/// encrypted, as [`message_fault`] says: in particular a payload is too
/// large exactly when it exceeds [`MAX_PAYLOAD_LEN`]. Past that the cipher
/// is handed what [`seal_request`] settles and the outcome is
/// [`seal_message`]'s.
pub fn build_message(
    subscription: &Subscription,
    payload: &[u8],
    ttl: Option<i64>,
    default_ttl: u32,
    token: AuthToken,
) -> (r: Result<SignedMessage, PushError>)
    ensures
        message_fault(payload@, ttl, default_ttl) matches Some(fault) ==> r == Err::<
            SignedMessage,
            PushError,
        >(fault),
        message_fault(payload@, ttl, default_ttl) is None ==> exists|sealed: Result<
            Option<Sealed>,
            web_push::WebPushError,
        >| #[trigger]
            message_of(
                subscription.endpoint_view(),
                ttl_of(ttl, default_ttl)->Ok_0,
                sealed,
                r,
            ),
        r matches Ok(message) ==> {
            &&& message_fault(payload@, ttl, default_ttl) is None
            &&& message.endpoint@ == subscription.endpoint_view()
            &&& ttl_of(ttl, default_ttl) == Ok::<u32, ValidationError>(message.ttl)
            &&& message.body@.len() > payload@.len()
            &&& carries_token(message.authorization@, token.token@, token.public_key@)
        },
        r == Err::<SignedMessage, PushError>(
            PushError::Validation(ValidationError::PayloadTooLarge),
        ) <==> payload@.len() > MAX_PAYLOAD_LEN,
        r == Err::<SignedMessage, PushError>(PushError::Validation(ValidationError::InvalidTtl))
            <==> payload@.len() <= MAX_PAYLOAD_LEN && ttl_of(ttl, default_ttl) is Err,
{
    match seal_request(subscription, payload, ttl, default_ttl, token) {
        Err(fault) => Err(fault),
        Ok(request) => {
            let r = seal_message(request);
            proof {
                let sealed = choose|sealed: Result<Option<Sealed>, web_push::WebPushError>|
                    #[trigger] message_of(request.info.endpoint@, request.ttl, sealed, r);
                assert(message_of(
                    subscription.endpoint_view(),
                    ttl_of(ttl, default_ttl)->Ok_0,
                    sealed,
                    r,
                ));
            }
            r
        },
    }
}

} // verus!
