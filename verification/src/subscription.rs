//! The subscription a browser hands out, and the request that carries it.

use crate::outcome::ValidationError;
use vstd::prelude::*;
use vstd::utf8::encode_utf8;

verus! {

/// The bytes of a piece of text, as the validators read it.
pub open spec fn text_bytes(text: Seq<char>) -> Seq<u8> {
    encode_utf8(text)
}

pub open spec fn is_alphanumeric(b: u8) -> bool {
    (0x30 <= b <= 0x39) || (0x41 <= b <= 0x5a) || (0x61 <= b <= 0x7a)
}

/// A symbol of the URL-safe base64 alphabet.
pub open spec fn is_base64url_symbol(b: u8) -> bool {
    is_alphanumeric(b) || b == 0x2d || b == 0x5f
}

/// The number of `=` signs, at most two, that end the text.
pub open spec fn padding_len(s: Seq<u8>) -> int {
    if s.len() >= 1 && s[s.len() - 1] == 0x3d {
        if s.len() >= 2 && s[s.len() - 2] == 0x3d {
            2
        } else {
            1
        }
    } else {
        0
    }
}

/// Base64url text: at least one symbol of the alphabet, then at most two `=`
/// signs. The symbols cannot number one more than a multiple of four, and
/// where padding is present the whole text fills complete groups of four.
pub open spec fn is_base64url(s: Seq<u8>) -> bool {
    let pad = padding_len(s);
    let symbols = s.len() - pad;
    &&& symbols > 0
    &&& forall|i: int| 0 <= i < symbols ==> is_base64url_symbol(#[trigger] s[i])
    &&& symbols % 4 != 1
    &&& pad > 0 ==> s.len() % 4 == 0
}

/// The symbols of a subscriber's public key: 65 bytes, an uncompressed
/// point of the curve.
pub const PUBLIC_KEY_SYMBOLS: usize = 87;

/// The symbols of a subscriber's auth secret: 16 bytes.
pub const AUTH_SECRET_SYMBOLS: usize = 22;

/// The number of symbols before the padding.
pub open spec fn symbol_count(s: Seq<u8>) -> int {
    s.len() - padding_len(s)
}

/// Base64url text of exactly `symbols` symbols.
pub open spec fn is_key_text(s: Seq<u8>, symbols: int) -> bool {
    is_base64url(s) && symbol_count(s) == symbols
}

/// The byte in lower case, where it is an ASCII capital letter.
pub open spec fn lower(b: u8) -> u8 {
    if 0x41 <= b <= 0x5a {
        (b + 0x20) as u8
    } else {
        b
    }
}

/// `s` begins with `prefix`, whatever the case of its letters.
pub open spec fn begins_with(s: Seq<u8>, prefix: Seq<u8>) -> bool {
    &&& prefix.len() <= s.len()
    &&& forall|i: int| 0 <= i < prefix.len() ==> lower(#[trigger] s[i]) == prefix[i]
}

pub open spec fn https_prefix() -> Seq<u8> {
    seq![0x68u8, 0x74u8, 0x74u8, 0x70u8, 0x73u8, 0x3au8, 0x2fu8, 0x2fu8]
}

pub open spec fn http_prefix() -> Seq<u8> {
    seq![0x68u8, 0x74u8, 0x74u8, 0x70u8, 0x3au8, 0x2fu8, 0x2fu8]
}

/// The length of the `https://` or `http://` that begins the text, in
/// whatever case, or 0.
pub open spec fn scheme_len(s: Seq<u8>) -> int {
    if begins_with(s, https_prefix()) {
        8
    } else if begins_with(s, http_prefix()) {
        7
    } else {
        0
    }
}

/// A byte that ends the authority: `/`, `?` or `#`.
pub open spec fn ends_authority(b: u8) -> bool {
    b == 0x2f || b == 0x3f || b == 0x23
}

/// The number of bytes from `from` on that come before the first `/`, `?`
/// or `#`: the length of the authority that starts there.
pub open spec fn authority_run(s: Seq<u8>, from: int) -> int
    decreases s.len() - from,
{
    if 0 <= from < s.len() && !ends_authority(s[from]) {
        1 + authority_run(s, from + 1)
    } else {
        0
    }
}

/// Where the host and port of the authority `s[start..end]` begin: behind
/// its last `@`, or at its start where it has no user information.
pub open spec fn host_start(s: Seq<u8>, start: int, end: int) -> int
    decreases end - start,
{
    if end <= start {
        start
    } else if s[end - 1] == 0x40 {
        end
    } else {
        host_start(s, start, end - 1)
    }
}

/// A `]` stands somewhere in `s[from..end]`.
pub open spec fn closes_bracket(s: Seq<u8>, from: int, end: int) -> bool {
    exists|k: int| from <= k < end && #[trigger] s[k] == 0x5d
}

/// An absolute `http` or `https` URL with a host: the scheme, in whatever
/// case, then an authority whose host is not empty. The authority runs to
/// the end of the text or to the first `/`, `?` or `#`; it may begin with
/// user information and an `@`, and the host may be followed by `:` and a
/// port. The host is a name, or an address in brackets that are closed.
/// What follows the authority is not judged.
pub open spec fn is_endpoint(s: Seq<u8>) -> bool {
    let start = scheme_len(s);
    let end = start + authority_run(s, start);
    let host = host_start(s, start, end);
    &&& start > 0
    &&& host < end
    &&& s[host] != 0x3a
    &&& s[host] == 0x5b ==> closes_bracket(s, host + 1, end)
}

fn alphanumeric(b: u8) -> (r: bool)
    ensures
        r == is_alphanumeric(b),
{
    (0x30 <= b && b <= 0x39) || (0x41 <= b && b <= 0x5a) || (0x61 <= b && b <= 0x7a)
}

/// Decides whether `s` is base64url text of exactly `symbols` symbols.
pub fn check_key_text(s: &[u8], symbols: usize) -> (ok: bool)
    ensures
        ok == is_key_text(s@, symbols as int),
{
    let n: usize = s.len();
    let pad: usize = if n >= 1 && s[n - 1] == 0x3d {
        if n >= 2 && s[n - 2] == 0x3d {
            2
        } else {
            1
        }
    } else {
        0
    };
    n - pad == symbols && check_base64url(s)
}

/// Decides whether `s` is base64url text.
pub fn check_base64url(s: &[u8]) -> (ok: bool)
    ensures
        ok == is_base64url(s@),
{
    let n: usize = s.len();
    let pad: usize = if n >= 1 && s[n - 1] == 0x3d {
        if n >= 2 && s[n - 2] == 0x3d {
            2
        } else {
            1
        }
    } else {
        0
    };
    let symbols: usize = n - pad;
    if symbols == 0 || symbols % 4 == 1 || (pad > 0 && n % 4 != 0) {
        return false;
    }
    let mut i: usize = 0;
    while i < symbols
        invariant
            i <= symbols <= s.len(),
            symbols == s@.len() - padding_len(s@),
            forall|k: int| 0 <= k < i ==> is_base64url_symbol(#[trigger] s@[k]),
        decreases symbols - i,
    {
        let b: u8 = s[i];
        if !(alphanumeric(b) || b == 0x2d || b == 0x5f) {
            assert(!is_base64url_symbol(s@[i as int]));
            return false;
        }
        i += 1;
    }
    true
}

fn lowered(b: u8) -> (r: u8)
    ensures
        r == lower(b),
{
    if 0x41 <= b && b <= 0x5a {
        b + 0x20
    } else {
        b
    }
}

/// Tests whether `s` begins with `prefix`, whatever the case of its letters.
fn check_prefix(s: &[u8], prefix: &[u8]) -> (found: bool)
    ensures
        found == begins_with(s@, prefix@),
{
    if prefix.len() > s.len() {
        return false;
    }
    let mut i: usize = 0;
    while i < prefix.len()
        invariant
            i <= prefix.len() <= s.len(),
            forall|k: int| 0 <= k < i ==> lower(#[trigger] s@[k]) == prefix@[k],
        decreases prefix.len() - i,
    {
        if lowered(s[i]) != prefix[i] {
            return false;
        }
        i += 1;
    }
    true
}

/// The length of the scheme prefix of `s`.
fn scheme_length(s: &[u8]) -> (n: usize)
    ensures
        n == scheme_len(s@),
        n <= s.len(),
{
    let https: Vec<u8> = vec![0x68u8, 0x74u8, 0x74u8, 0x70u8, 0x73u8, 0x3au8, 0x2fu8, 0x2fu8];
    let http: Vec<u8> = vec![0x68u8, 0x74u8, 0x74u8, 0x70u8, 0x3au8, 0x2fu8, 0x2fu8];
    assert(https@ =~= https_prefix());
    assert(http@ =~= http_prefix());
    if check_prefix(s, https.as_slice()) {
        8
    } else if check_prefix(s, http.as_slice()) {
        7
    } else {
        0
    }
}

/// Where the authority that starts at `start` ends.
fn authority_end(s: &[u8], start: usize) -> (end: usize)
    requires
        start <= s.len(),
    ensures
        end == start + authority_run(s@, start as int),
        start <= end <= s.len(),
{
    let mut end: usize = start;
    while end < s.len() && !(s[end] == 0x2f || s[end] == 0x3f || s[end] == 0x23)
        invariant
            start <= end <= s.len(),
            authority_run(s@, start as int) == (end - start) + authority_run(s@, end as int),
        decreases s.len() - end,
    {
        end += 1;
    }
    end
}

/// Where the host and port of the authority `s[start..end]` begin.
fn host_begin(s: &[u8], start: usize, end: usize) -> (host: usize)
    requires
        start <= end <= s.len(),
    ensures
        host == host_start(s@, start as int, end as int),
        start <= host <= end,
{
    let mut host: usize = end;
    while host > start && s[host - 1] != 0x40
        invariant
            start <= host <= end <= s.len(),
            host_start(s@, start as int, end as int) == host_start(s@, start as int, host as int),
        decreases host - start,
    {
        host -= 1;
    }
    host
}

/// Tests whether a `]` stands in `s[from..end]`.
fn bracket_closes(s: &[u8], from: usize, end: usize) -> (found: bool)
    requires
        from <= end <= s.len(),
    ensures
        found == closes_bracket(s@, from as int, end as int),
{
    let mut k: usize = from;
    while k < end
        invariant
            from <= k <= end <= s.len(),
            !closes_bracket(s@, from as int, k as int),
        decreases end - k,
    {
        if s[k] == 0x5d {
            return true;
        }
        k += 1;
    }
    false
}

/// Decides whether `s` is an endpoint.
pub fn check_endpoint(s: &[u8]) -> (ok: bool)
    ensures
        ok == is_endpoint(s@),
{
    let start: usize = scheme_length(s);
    if start == 0 {
        return false;
    }
    let end: usize = authority_end(s, start);
    let host: usize = host_begin(s, start, end);
    if host >= end || s[host] == 0x3a {
        return false;
    }
    s[host] != 0x5b || bracket_closes(s, host + 1, end)
}

/// Encryption keys of a subscription, as the browser encodes them.
#[derive(Clone, Debug)]
pub struct Keys {
    pub p256dh: String,
    pub auth: String,
}

/// The body of a request to push one sentence to one subscription.
#[derive(Clone, Debug)]
pub struct PushRequest {
    pub endpoint: String,
    pub expiration_time: Option<String>,
    pub keys: Keys,
    pub sentence: String,
}

/// A validated subscription: where to send, and the keys to encrypt with.
#[derive(Debug)]
pub struct Subscription {
    endpoint: String,
    p256dh: String,
    auth: String,
}

/// The error that the three fields of a subscription call for, if any: the
/// endpoint is judged first, then the public key, then the auth secret.
pub open spec fn subscription_fault(
    endpoint: Seq<char>,
    p256dh: Seq<char>,
    auth: Seq<char>,
) -> Option<ValidationError> {
    if !is_endpoint(text_bytes(endpoint)) {
        Some(ValidationError::MalformedEndpoint)
    } else if !is_key_text(text_bytes(p256dh), PUBLIC_KEY_SYMBOLS as int) {
        Some(ValidationError::MalformedPublicKey)
    } else if !is_key_text(text_bytes(auth), AUTH_SECRET_SYMBOLS as int) {
        Some(ValidationError::MalformedAuthSecret)
    } else {
        None
    }
}

impl Subscription {
    /// All three fields are non-empty and validly encoded.
    #[verifier::type_invariant]
    pub open spec fn well_formed(&self) -> bool {
        subscription_fault(self.endpoint_view(), self.p256dh_view(), self.auth_view()) is None
    }

    pub closed spec fn endpoint_view(&self) -> Seq<char> {
        self.endpoint@
    }

    pub closed spec fn p256dh_view(&self) -> Seq<char> {
        self.p256dh@
    }

    pub closed spec fn auth_view(&self) -> Seq<char> {
        self.auth@
    }

    /// Builds a subscription from its three fields, or says which is malformed.
    pub fn new(endpoint: String, p256dh: String, auth: String) -> (r: Result<
        Subscription,
        ValidationError,
    >)
        ensures
            match subscription_fault(endpoint@, p256dh@, auth@) {
                Some(fault) => r == Err::<Subscription, ValidationError>(fault),
                None => r matches Ok(sub) && sub.endpoint_view() == endpoint@ && sub.p256dh_view()
                    == p256dh@ && sub.auth_view() == auth@,
            },
    {
        if !check_endpoint(endpoint.as_str().as_bytes()) {
            return Err(ValidationError::MalformedEndpoint);
        }
        if !check_key_text(p256dh.as_str().as_bytes(), PUBLIC_KEY_SYMBOLS) {
            return Err(ValidationError::MalformedPublicKey);
        }
        if !check_key_text(auth.as_str().as_bytes(), AUTH_SECRET_SYMBOLS) {
            return Err(ValidationError::MalformedAuthSecret);
        }
        Ok(Subscription { endpoint, p256dh, auth })
    }

    pub fn endpoint(&self) -> (s: &String)
        ensures
            s@ == self.endpoint_view(),
            self.well_formed(),
    {
        proof {
            use_type_invariant(self);
        }
        &self.endpoint
    }

    pub fn p256dh(&self) -> (s: &String)
        ensures
            s@ == self.p256dh_view(),
    {
        &self.p256dh
    }

    pub fn auth(&self) -> (s: &String)
        ensures
            s@ == self.auth_view(),
    {
        &self.auth
    }
}

impl Clone for Subscription {
    fn clone(&self) -> (copy: Self)
        ensures
            copy.endpoint_view() == self.endpoint_view(),
            copy.p256dh_view() == self.p256dh_view(),
            copy.auth_view() == self.auth_view(),
    {
        proof {
            use_type_invariant(self);
        }
        Subscription {
            endpoint: self.endpoint.clone(),
            p256dh: self.p256dh.clone(),
            auth: self.auth.clone(),
        }
    }
}

impl PushRequest {
    /// The subscription that the request names.
    pub fn subscription(&self) -> (r: Result<Subscription, ValidationError>)
        ensures
            match subscription_fault(self.endpoint@, self.keys.p256dh@, self.keys.auth@) {
                Some(fault) => r == Err::<Subscription, ValidationError>(fault),
                None => r matches Ok(sub) && sub.endpoint_view() == self.endpoint@
                    && sub.p256dh_view() == self.keys.p256dh@ && sub.auth_view()
                    == self.keys.auth@,
            },
    {
        Subscription::new(self.endpoint.clone(), self.keys.p256dh.clone(), self.keys.auth.clone())
    }

    /// The plaintext to deliver: the bytes of the sentence.
    pub fn payload(&self) -> (bytes: Vec<u8>)
        ensures
            bytes@ == text_bytes(self.sentence@),
    {
        self.sentence.as_str().as_bytes_vec()
    }
}

} // verus!
