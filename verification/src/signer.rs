//! Issuing the authentication token that proves the sender to the push service.

use crate::failure::{signer_error, signer_error_of};
use crate::outcome::{PushError, SignatureError};
use crate::subscription::{is_endpoint, text_bytes, Subscription};
use crate::text::{contains, occurs_in, same_text};
use vstd::prelude::*;

verus! {

/// `web_push::SubscriptionKeys`: plain data, two public text fields, read as
/// it is defined.
#[verifier::external_type_specification]
pub struct ExSubscriptionKeys(web_push::SubscriptionKeys);

/// `web_push::SubscriptionInfo`: plain data, the endpoint and the keys, all
/// public, read as it is defined.
#[verifier::external_type_specification]
pub struct ExSubscriptionInfo(web_push::SubscriptionInfo);

/// `web_push::VapidSignature`: plain data, the token and the public key,
/// both public, read as it is defined.
#[verifier::external_type_specification]
pub struct ExVapidSignature(web_push::VapidSignature);

/// `web_push::VapidSignatureBuilder`: the key, the subscription it is bound
/// to and the custom claims gathered so far. Nothing is seen inside it; the
/// two names below stand for the endpoint and the claims.
#[verifier::external_type_specification]
#[verifier::external_body]
pub struct ExVapidSignatureBuilder<'a>(web_push::VapidSignatureBuilder<'a>);

/// The longest a token may stay valid after it is issued, in seconds.
pub const MAX_TOKEN_LIFETIME: u64 = 86_400;

/// The length of a public key in its uncompressed form, in bytes.
pub const PUBLIC_KEY_LEN: usize = 65;

/// The latest expiry, in seconds since the epoch, that a token can carry.
pub const MAX_EXPIRY: u64 = 4_294_967_295;

/// The value of a claim.
#[derive(Clone, Debug)]
pub enum ClaimValue {
    Text(String),
    Number(u64),
}

/// A claim that the sender adds to the token.
#[derive(Clone, Debug)]
pub struct Claim {
    pub name: String,
    pub value: ClaimValue,
}

/// What a claim's value is, in contracts.
pub enum ClaimView {
    Text(Seq<char>),
    Number(u64),
}

impl View for ClaimValue {
    type V = ClaimView;

    open spec fn view(&self) -> ClaimView {
        match self {
            ClaimValue::Text(text) => ClaimView::Text(text@),
            ClaimValue::Number(n) => ClaimView::Number(*n),
        }
    }
}

/// The token and the public key that verifies it.
#[derive(Clone, Debug)]
pub struct AuthToken {
    /// The signed token, in its compact text form.
    pub token: String,
    /// The uncompressed public key of the signing key.
    pub public_key: Vec<u8>,
}

/// The custom claims that a signature builder has been given so far.
pub uninterp spec fn builder_claims(builder: web_push::VapidSignatureBuilder) -> Map<
    Seq<char>,
    ClaimView,
>;

/// The endpoint of the subscription that a signature builder was made for.
pub uninterp spec fn builder_endpoint(builder: web_push::VapidSignatureBuilder) -> Seq<char>;

/// The key material that a signature builder was made from.
pub uninterp spec fn builder_key(builder: web_push::VapidSignatureBuilder) -> Seq<u8>;

/// The public key of the private key that key material holds, as
/// `VapidSignature::auth_k` gives it: the uncompressed point.
pub uninterp spec fn public_key_of(pem: Seq<u8>) -> Seq<u8>;

/// The claims of a builder that has been given none.
pub open spec fn no_claims() -> Map<Seq<char>, ClaimView> {
    Map::empty()
}

/// The label of a SEC1 section in key material: `EC PRIVATE KEY`.
pub open spec fn sec1_label() -> Seq<u8> {
    seq![
        0x45u8, 0x43u8, 0x20u8, 0x50u8, 0x52u8, 0x49u8, 0x56u8, 0x41u8, 0x54u8, 0x45u8, 0x20u8,
        0x4bu8, 0x45u8, 0x59u8,
    ]
}

/// `VapidSignatureBuilder::from_pem`, reading the key from memory. The new
/// builder holds the key of `pem` and no custom claim, and is bound to
/// `info`. Key material with a
/// SEC1 section is left out: the crate's SEC1 reader can panic on it.
#[verifier::external_body]
fn builder_from_pem<'a>(pem: &[u8], info: &'a web_push::SubscriptionInfo) -> (r: Result<
    web_push::VapidSignatureBuilder<'a>,
    web_push::WebPushError,
>)
    requires
        !occurs_in(pem@, sec1_label()),
    ensures
        r matches Ok(builder) ==> builder_claims(builder) == no_claims(),
        r matches Ok(builder) ==> builder_endpoint(builder) == info.endpoint@,
        r matches Ok(builder) ==> builder_key(builder) == pem@,
{
    web_push::VapidSignatureBuilder::from_pem(pem, info)
}

/// `VapidSignatureBuilder::add_claim` with a text value: the claim is
/// inserted under its name, replacing an earlier claim of that name.
#[verifier::external_body]
fn add_text_claim<'a>(
    builder: &mut web_push::VapidSignatureBuilder<'a>,
    name: &'a str,
    value: &str,
)
    ensures
        builder_claims(*final(builder)) == builder_claims(*old(builder)).insert(
            name@,
            ClaimView::Text(value@),
        ),
        builder_endpoint(*final(builder)) == builder_endpoint(*old(builder)),
        builder_key(*final(builder)) == builder_key(*old(builder)),
{
    builder.add_claim(name, value)
}

/// `VapidSignatureBuilder::add_claim` with a number: the claim is inserted
/// under its name, replacing an earlier claim of that name.
#[verifier::external_body]
fn add_number_claim<'a>(
    builder: &mut web_push::VapidSignatureBuilder<'a>,
    name: &'a str,
    value: u64,
)
    ensures
        builder_claims(*final(builder)) == builder_claims(*old(builder)).insert(
            name@,
            ClaimView::Number(value),
        ),
        builder_endpoint(*final(builder)) == builder_endpoint(*old(builder)),
        builder_key(*final(builder)) == builder_key(*old(builder)),
{
    builder.add_claim(name, value)
}

/// `VapidSignatureBuilder::build`: signs the claims. The signature is
/// randomised, so of the token only this is claimed: it is not empty,
/// three parts joined by dots. The key that comes with it is the public
/// key of the builder's key, the uncompressed point, 65 bytes. The
/// audience that is signed is the scheme and the host of the builder's
/// endpoint, without user information or port. That endpoint must be an
/// absolute URL with a host: the crate panics where the scheme or the host
/// is missing. No claim may be named `aud`: the crate would sign such a
/// value with its quotes.
#[verifier::external_body]
fn build_signature(builder: web_push::VapidSignatureBuilder<'_>) -> (r: Result<
    web_push::VapidSignature,
    web_push::WebPushError,
>)
    requires
        is_endpoint(text_bytes(builder_endpoint(builder))),
        !builder_claims(builder).dom().contains("aud"@),
    ensures
        r matches Ok(signature) ==> signature.auth_k@ == public_key_of(builder_key(builder)),
        r matches Ok(signature) ==> signature.auth_k@.len() == PUBLIC_KEY_LEN,
        r matches Ok(signature) ==> signature.auth_t@.len() > 0,
{
    builder.build()
}

/// Private key material in PEM form, held for the life of the process.
#[derive(Debug)]
pub struct SigningKey {
    pem: Vec<u8>,
}

impl SigningKey {
    /// The key material holds no SEC1 section.
    #[verifier::type_invariant]
    pub open spec fn well_formed(&self) -> bool {
        !occurs_in(self.pem_view(), sec1_label())
    }

    pub closed spec fn pem_view(&self) -> Seq<u8> {
        self.pem@
    }

    /// Takes PKCS#8 key material. Material with a SEC1 section
    /// (`EC PRIVATE KEY`) is refused as a key-load failure.
    pub fn from_pem(pem: Vec<u8>) -> (r: Result<SigningKey, SignatureError>)
        ensures
            occurs_in(pem@, sec1_label()) ==> r == Err::<SigningKey, SignatureError>(
                SignatureError::KeyLoad,
            ),
            !occurs_in(pem@, sec1_label()) ==> (r matches Ok(key) && key.pem_view() == pem@),
    {
        let label: Vec<u8> = vec![
            0x45u8, 0x43u8, 0x20u8, 0x50u8, 0x52u8, 0x49u8, 0x56u8, 0x41u8, 0x54u8, 0x45u8,
            0x20u8, 0x4bu8, 0x45u8, 0x59u8,
        ];
        assert(label@ =~= sec1_label());
        if contains(pem.as_slice(), label.as_slice()) {
            Err(SignatureError::KeyLoad)
        } else {
            Ok(SigningKey { pem })
        }
    }

    pub fn pem(&self) -> (bytes: &Vec<u8>)
        ensures
            bytes@ == self.pem_view(),
            self.well_formed(),
    {
        proof {
            use_type_invariant(self);
        }
        &self.pem
    }
}

/// A name that the signer sets itself and no custom claim may take.
pub open spec fn is_reserved(name: Seq<char>) -> bool {
    name == "aud"@ || name == "exp"@ || name == "sub"@
}

/// Some claim among the first `n` has a reserved name.
pub open spec fn has_reserved(claims: Seq<Claim>, n: int) -> bool {
    exists|i: int| 0 <= i < n && is_reserved(#[trigger] claims[i].name@)
}

/// The claims that a builder holds once the first `n` of `claims` have been
/// added to `base` in order: a later claim replaces an earlier one of its name.
pub open spec fn with_claims(
    base: Map<Seq<char>, ClaimView>,
    claims: Seq<Claim>,
    n: int,
) -> Map<Seq<char>, ClaimView>
    decreases n,
{
    if n <= 0 {
        base
    } else {
        with_claims(base, claims, n - 1).insert(claims[n - 1].name@, claims[n - 1].value@)
    }
}

/// Everything a token is signed over: the subject, the expiry, then the
/// sender's own claims.
pub open spec fn token_claims(contact: Seq<char>, expires_at: u64, claims: Seq<Claim>) -> Map<
    Seq<char>,
    ClaimView,
> {
    with_claims(
        no_claims().insert("sub"@, ClaimView::Text(contact)).insert(
            "exp"@,
            ClaimView::Number(expires_at),
        ),
        claims,
        claims.len() as int,
    )
}

/// Why a token is refused before anything is signed: no lifetime at all, a
/// lifetime beyond the allowed window, or an expiry that a token cannot
/// carry, is an invalid expiry; a custom claim under a reserved name is an
/// invalid claim. Past this, the expiry lies after `now` and at most
/// [`MAX_TOKEN_LIFETIME`] seconds after it.
pub open spec fn signing_fault(claims: Seq<Claim>, now: u64, lifetime: u64) -> Option<
    SignatureError,
> {
    if lifetime == 0 || lifetime > MAX_TOKEN_LIFETIME || now + lifetime > MAX_EXPIRY {
        Some(SignatureError::InvalidExpiry)
    } else if has_reserved(claims, claims.len() as int) {
        Some(SignatureError::InvalidClaims)
    } else {
        None
    }
}

/// Tests whether a claim's name is reserved.
pub fn reserved(name: &str) -> (r: bool)
    ensures
        r == is_reserved(name@),
{
    same_text(name, "aud") || same_text(name, "exp") || same_text(name, "sub")
}

/// Tests whether any claim has a reserved name.
pub fn any_reserved(claims: &Vec<Claim>) -> (r: bool)
    ensures
        r == has_reserved(claims@, claims@.len() as int),
{
    let mut i: usize = 0;
    while i < claims.len()
        invariant
            i <= claims.len(),
            !has_reserved(claims@, i as int),
        decreases claims.len() - i,
    {
        if reserved(claims[i].name.as_str()) {
            return true;
        }
        i += 1;
    }
    false
}

/// Adding a claim under a name that is not `aud` leaves `aud` absent.
proof fn lemma_no_audience(base: Map<Seq<char>, ClaimView>, claims: Seq<Claim>, n: int)
    requires
        0 <= n <= claims.len(),
        !has_reserved(claims, n),
        !base.dom().contains("aud"@),
    ensures
        !with_claims(base, claims, n).dom().contains("aud"@),
    decreases n,
{
    if n > 0 {
        assert(!has_reserved(claims, n - 1));
        lemma_no_audience(base, claims, n - 1);
        assert(!is_reserved(claims[n - 1].name@));
    }
}

/// Adds the sender's claims to a builder, in order.
fn add_claims<'a>(builder: &mut web_push::VapidSignatureBuilder<'a>, claims: &'a Vec<Claim>)
    ensures
        builder_claims(*final(builder)) == with_claims(
            builder_claims(*old(builder)),
            claims@,
            claims@.len() as int,
        ),
        builder_endpoint(*final(builder)) == builder_endpoint(*old(builder)),
        builder_key(*final(builder)) == builder_key(*old(builder)),
{
    let mut i: usize = 0;
    while i < claims.len()
        invariant
            i <= claims.len(),
            builder_claims(*builder) == with_claims(builder_claims(*old(builder)), claims@, i as int),
            builder_endpoint(*builder) == builder_endpoint(*old(builder)),
            builder_key(*builder) == builder_key(*old(builder)),
        decreases claims.len() - i,
    {
        let claim: &'a Claim = &claims[i];
        match &claim.value {
            ClaimValue::Text(text) => add_text_claim(builder, claim.name.as_str(), text.as_str()),
            ClaimValue::Number(n) => add_number_claim(builder, claim.name.as_str(), *n),
        }
        i += 1;
    }
}

/// With no reserved name among the claims, the token is signed over no
/// audience of the sender's: the signer derives it from the endpoint.
proof fn lemma_no_audience_claim(contact: Seq<char>, expires_at: u64, claims: Seq<Claim>)
    requires
        !has_reserved(claims, claims.len() as int),
    ensures
        !token_claims(contact, expires_at, claims).dom().contains("aud"@),
{
    let base = no_claims().insert("sub"@, ClaimView::Text(contact)).insert(
        "exp"@,
        ClaimView::Number(expires_at),
    );
    reveal_strlit("sub");
    reveal_strlit("exp");
    reveal_strlit("aud");
    assert("sub"@[0] != "aud"@[0]);
    assert("exp"@[0] != "aud"@[0]);
    lemma_no_audience(base, claims, claims.len() as int);
}

/// Loads the signature builder that reading the key gave with everything
/// the token is signed over: the subject and the expiry are added to what
/// the builder held, then the sender's claims in order, and its key and the
/// endpoint it is bound to stay. Where the key could not be read, that failure is
/// handed on as it is.
fn load_builder<'a>(
    read: Result<web_push::VapidSignatureBuilder<'a>, web_push::WebPushError>,
    contact: &'a str,
    expires_at: u64,
    claims: &'a Vec<Claim>,
) -> (r: Result<web_push::VapidSignatureBuilder<'a>, web_push::WebPushError>)
    ensures
        match read {
            Ok(fresh) => {
                &&& r matches Ok(builder)
                &&& builder_endpoint(builder) == builder_endpoint(fresh)
                &&& builder_key(builder) == builder_key(fresh)
                &&& builder_claims(builder) == with_claims(
                    builder_claims(fresh).insert("sub"@, ClaimView::Text(contact@)).insert(
                        "exp"@,
                        ClaimView::Number(expires_at),
                    ),
                    claims@,
                    claims@.len() as int,
                )
            },
            Err(failure) => r matches Err(handed) && handed == failure,
        },
{
    match read {
        Err(failure) => Err(failure),
        Ok(mut builder) => {
            add_text_claim(&mut builder, "sub", contact);
            add_number_claim(&mut builder, "exp", expires_at);
            add_claims(&mut builder, claims);
            Ok(builder)
        },
    }
}

/// What the signer's result means to the library: a signature becomes the
/// token with its public key; a failure becomes its error.
pub open spec fn token_of(signed: Result<web_push::VapidSignature, web_push::WebPushError>) -> Result<
    AuthToken,
    PushError,
> {
    match signed {
        Ok(signature) => Ok(AuthToken { token: signature.auth_t, public_key: signature.auth_k }),
        Err(failure) => Err(signer_error_of(failure)),
    }
}

/// Turns what the signer returned into the library's token or error.
pub fn token_from(signed: Result<web_push::VapidSignature, web_push::WebPushError>) -> (r: Result<
    AuthToken,
    PushError,
>)
    ensures
        r == token_of(signed),
{
    match signed {
        Ok(signature) => Ok(AuthToken { token: signature.auth_t, public_key: signature.auth_k }),
        Err(failure) => Err(signer_error(&failure)),
    }
}

/// Everything that is handed to the signer for one token.
pub struct TokenRequest<'a> {
    /// The key to sign with.
    pub key: &'a SigningKey,
    /// The subscription that the token is for.
    pub info: web_push::SubscriptionInfo,
    /// The subject of the token.
    pub contact: &'a str,
    /// When the token expires, in seconds since the epoch.
    pub expires_at: u64,
    /// The sender's own claims.
    pub claims: &'a Vec<Claim>,
}

impl<'a> TokenRequest<'a> {
    /// The endpoint is an absolute URL and no claim has a reserved name.
    pub open spec fn well_formed(&self) -> bool {
        &&& is_endpoint(text_bytes(self.info.endpoint@))
        &&& !has_reserved(self.claims@, self.claims@.len() as int)
    }

    /// The claims that the token is signed over.
    pub open spec fn signed_claims(&self) -> Map<Seq<char>, ClaimView> {
        token_claims(self.contact@, self.expires_at, self.claims@)
    }
}

/// Settles what a token for `subscription` is signed with and over: the key,
/// the subscription's own endpoint and keys, the subject `contact`, the
/// expiry `now + lifetime`, and `claims`. An invalid expiry or claim is
/// refused here, before the key is touched.
pub fn token_request<'a>(
    key: &'a SigningKey,
    subscription: &Subscription,
    contact: &'a str,
    claims: &'a Vec<Claim>,
    now: u64,
    lifetime: u64,
) -> (r: Result<TokenRequest<'a>, SignatureError>)
    ensures
        match signing_fault(claims@, now, lifetime) {
            Some(fault) => r matches Err(refused) && refused == fault,
            None => {
                &&& r matches Ok(request)
                &&& request.well_formed()
                &&& request.key == key
                &&& request.info.endpoint@ == subscription.endpoint_view()
                &&& request.info.keys.p256dh@ == subscription.p256dh_view()
                &&& request.info.keys.auth@ == subscription.auth_view()
                &&& request.contact@ == contact@
                &&& request.expires_at == now + lifetime
                &&& now < request.expires_at <= now + MAX_TOKEN_LIFETIME
                &&& request.claims@ == claims@
            },
        },
{
    if lifetime == 0 || lifetime > MAX_TOKEN_LIFETIME || now > MAX_EXPIRY - lifetime {
        return Err(SignatureError::InvalidExpiry);
    }
    if any_reserved(claims) {
        return Err(SignatureError::InvalidClaims);
    }
    Ok(
        TokenRequest {
            key,
            info: subscription_info(subscription),
            contact,
            expires_at: now + lifetime,
            claims,
        },
    )
}

/// The subscription in the form that the `web_push` crate takes.
pub fn subscription_info(subscription: &Subscription) -> (info: web_push::SubscriptionInfo)
    ensures
        info.endpoint@ == subscription.endpoint_view(),
        info.keys.p256dh@ == subscription.p256dh_view(),
        info.keys.auth@ == subscription.auth_view(),
        subscription.well_formed(),
{
    web_push::SubscriptionInfo {
        endpoint: subscription.endpoint().clone(),
        keys: web_push::SubscriptionKeys {
            p256dh: subscription.p256dh().clone(),
            auth: subscription.auth().clone(),
        },
    }
}

/// The errors that the signer can fail a well-formed request with: the key
/// cannot be read, a claim cannot be encoded, or the endpoint is no URL.
pub open spec fn is_signer_error(error: PushError) -> bool {
    ||| error == PushError::Signature(SignatureError::KeyLoad)
    ||| error == PushError::Signature(SignatureError::InvalidClaims)
    ||| error == PushError::Validation(crate::outcome::ValidationError::MalformedEndpoint)
}

/// Signs a token as the request says: with its key, for its endpoint, over
/// exactly its [`TokenRequest::signed_claims`]. Whether the key can be read
/// and the signature made is the signer's to say. A token that comes back
/// is not empty and comes with the public key of the request's key, 65
/// bytes; a failure is one of [`is_signer_error`].
pub fn sign(request: &TokenRequest) -> (r: Result<AuthToken, PushError>)
    requires
        request.well_formed(),
    ensures
        exists|signed: Result<web_push::VapidSignature, web_push::WebPushError>|
            r == #[trigger] token_of(signed),
        r matches Ok(token) ==> {
            &&& token.public_key@ == public_key_of(request.key.pem_view())
            &&& token.public_key@.len() == PUBLIC_KEY_LEN
            &&& token.token@.len() > 0
        },
        r matches Err(error) ==> is_signer_error(error),
{
    let read = builder_from_pem(request.key.pem().as_slice(), &request.info);
    let signed: Result<web_push::VapidSignature, web_push::WebPushError> = match load_builder(
        read,
        request.contact,
        request.expires_at,
        request.claims,
    ) {
        Err(failure) => Err(failure),
        Ok(builder) => {
            proof {
                assert(read is Ok);
                assert(builder_endpoint(builder) == request.info.endpoint@);
                assert(builder_claims(builder) == request.signed_claims());
                assert(builder_key(builder) == request.key.pem_view());
                lemma_no_audience_claim(request.contact@, request.expires_at, request.claims@);
            }
            build_signature(builder)
        },
    };
    token_from(signed)
}

/// Issues a token for one subscription that expires `lifetime` seconds after
/// `now`, signed over the subject `contact`, the expiry and `claims`.
///
/// An invalid expiry and a reserved claim name are refused before the key
/// is touched, and an invalid expiry is reported for nothing else. Past
/// that the signer is handed what [`token_request`] settles, and the
/// outcome is the signer's: a token, not empty and with the public key of
/// `key`, or one of the errors of [`is_signer_error`].
pub fn issue_token(
    key: &SigningKey,
    subscription: &Subscription,
    contact: &str,
    claims: &Vec<Claim>,
    now: u64,
    lifetime: u64,
) -> (r: Result<AuthToken, PushError>)
    ensures
        signing_fault(claims@, now, lifetime) matches Some(fault) ==> r == Err::<
            AuthToken,
            PushError,
        >(PushError::Signature(fault)),
        signing_fault(claims@, now, lifetime) is None ==> exists|signed: Result<
            web_push::VapidSignature,
            web_push::WebPushError,
        >| r == #[trigger] token_of(signed),
        r matches Ok(token) ==> {
            &&& signing_fault(claims@, now, lifetime) is None
            &&& token.public_key@ == public_key_of(key.pem_view())
            &&& token.public_key@.len() == PUBLIC_KEY_LEN
            &&& token.token@.len() > 0
        },
        signing_fault(claims@, now, lifetime) is None ==> (r matches Err(error)
            ==> is_signer_error(error)),
        r == Err::<AuthToken, PushError>(PushError::Signature(SignatureError::InvalidExpiry))
            <==> signing_fault(claims@, now, lifetime) == Some(SignatureError::InvalidExpiry),
{
    match token_request(key, subscription, contact, claims, now, lifetime) {
        Err(fault) => Err(PushError::Signature(fault)),
        Ok(request) => sign(&request),
    }
}

} // verus!
