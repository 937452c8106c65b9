use vstd::prelude::*;

use std::sync::Arc;

use actix_web_httpauth::headers::authorization::Bearer;
use actix_web_httpauth::headers::authorization::Scheme;

use crate::error::ApiError;

verus! {

/// A byte that `HeaderValue::to_str` accepts: visible ASCII or a tab.
pub open spec fn is_visible_ascii(b: u8) -> bool {
    (32 <= b && b < 127) || b == 9
}

/// The bytes of `"Bearer "`.
pub open spec fn bearer_prefix() -> Seq<u8> {
    seq![66u8, 101u8, 97u8, 114u8, 101u8, 114u8, 32u8]
}

/// The token that bearer authentication reads from an Authorization header
/// value: the header must be at least 8 bytes of visible ASCII starting with
/// `"Bearer "`, and the token is everything after that prefix.
pub open spec fn spec_bearer_token(header: Seq<u8>) -> Option<Seq<u8>> {
    if header.len() >= 8 && (forall|i: int| 0 <= i < header.len() ==> is_visible_ascii(#[trigger] header[i]))
        && header.take(7) == bearer_prefix() {
        Some(header.skip(7))
    } else {
        None
    }
}

/// The characters of ASCII bytes.
pub open spec fn ascii_chars(bytes: Seq<u8>) -> Seq<char> {
    bytes.map_values(|b: u8| b as char)
}

/// Parses an Authorization header value with `HeaderValue::from_bytes` and
/// `<Bearer as Scheme>::parse` from actix-web-httpauth, and returns the token.
///
/// Claimed of it, as both functions' source shows: `from_bytes` refuses control
/// bytes other than tab and DEL; `parse` refuses values shorter than 8 bytes,
/// values that are not visible ASCII (`to_str`), values whose text before the
/// first space is not `Bearer`, and values without a space; otherwise the token
/// is the text after the first space.
#[verifier::external_body]
fn bearer_token_of(header: &[u8]) -> (r: Option<String>)
    ensures
        match spec_bearer_token(header@) {
            Some(t) => r matches Some(s) && s@ == ascii_chars(t),
            None => r is None,
        },
{
    match actix_web::http::header::HeaderValue::from_bytes(header) {
        Ok(value) => match Bearer::parse(&value) {
            Ok(bearer) => Some(bearer.token().to_string()),
            Err(_) => None,
        },
        Err(_) => None,
    }
}

/// Middleware factory that guards a scope with bearer-token authentication.
pub struct AuthMiddleware;

/// Bearer-token guard around a service.
pub struct AuthMiddlewareMiddleware<S> {
    service: Arc<S>,
}

/// The next step of a guarded call.
#[derive(Debug, Clone)]
pub enum GateStep {
    /// Hand this token to the token verifier.
    VerifyToken(String),
    /// Pass the request on to the guarded service.
    Forward,
    /// Answer with this failure without calling the service.
    Reject(ApiError),
}

impl AuthMiddleware {
    /// Wraps `service` in the guard.
    pub fn new_transform<S>(&self, service: S) -> (m: AuthMiddlewareMiddleware<S>)
        ensures
            m.guarded() == service,
    {
        AuthMiddlewareMiddleware { service: Arc::new(service) }
    }
}

impl<S> AuthMiddlewareMiddleware<S> {
    /// The service behind the guard.
    pub closed spec fn guarded(&self) -> S {
        *self.service
    }

    /// The shared handle of the service behind the guard.
    pub fn service(&self) -> (s: &Arc<S>)
        ensures
            **s == self.guarded(),
    {
        &self.service
    }

    /// First step of a call: read the bearer token from the request's
    /// Authorization header (`None` when the request has none).
    pub fn begin(&self, authorization: Option<&[u8]>) -> (step: GateStep)
        ensures
            match authorization {
                None => step == GateStep::Reject(ApiError::InvalidToken),
                Some(h) => match spec_bearer_token(h@) {
                    Some(t) => step matches GateStep::VerifyToken(s) && s@ == ascii_chars(t),
                    None => step == GateStep::Reject(ApiError::InvalidToken),
                },
            },
    {
        match authorization {
            None => GateStep::Reject(ApiError::InvalidToken),
            Some(h) => match bearer_token_of(h) {
                Some(token) => GateStep::VerifyToken(token),
                None => GateStep::Reject(ApiError::InvalidToken),
            },
        }
    }

    /// Second step of a call, once the token validator answered: forward on
    /// success, otherwise reject with "Invalid or missing token" whatever the
    /// validator's reason.
    pub fn finish<C>(&self, validated: &Result<C, ApiError>) -> (step: GateStep)
        ensures
            validated is Ok ==> step == GateStep::Forward,
            validated is Err ==> step == GateStep::Reject(ApiError::InvalidToken),
    {
        match validated {
            Ok(_) => GateStep::Forward,
            Err(_) => GateStep::Reject(ApiError::InvalidToken),
        }
    }
}

/// Turns the token verifier's answer into the validator's: the claims on
/// success (to attach to the request), a 401 carrying the verifier's reason
/// otherwise.
pub fn auth_validator<C>(verification: Result<C, String>) -> (r: Result<C, ApiError>)
    ensures
        verification matches Ok(c) ==> r == Ok::<C, ApiError>(c),
        verification matches Err(reason) ==> r matches Err(ApiError::TokenRejected(m)) && m@ == reason@,
{
    match verification {
        Ok(claims) => Ok(claims),
        Err(reason) => Err(ApiError::TokenRejected(reason)),
    }
}

/// What a client writes as an Authorization header, `"Bearer "` followed by a
/// non-empty visible-ASCII token, is read back as that same token.
pub proof fn lemma_bearer_header_round_trip(token: Seq<u8>)
    requires
        token.len() >= 1,
        forall|i: int| 0 <= i < token.len() ==> is_visible_ascii(#[trigger] token[i]),
    ensures
        spec_bearer_token(bearer_prefix() + token) == Some(token),
{
    let h = bearer_prefix() + token;
    assert(h.take(7) =~= bearer_prefix());
    assert(h.skip(7) =~= token);
    assert forall|i: int| 0 <= i < h.len() implies is_visible_ascii(#[trigger] h[i]) by {
        if i >= 7 {
            assert(h[i] == token[i - 7]);
        }
    }
}

/// A header value shorter than 8 bytes, or holding a byte that is neither
/// visible ASCII nor a tab, carries no token; a token that is found is never
/// empty and is visible ASCII.
pub proof fn lemma_bearer_token_shape(header: Seq<u8>)
    ensures
        header.len() < 8 ==> spec_bearer_token(header) is None,
        (exists|i: int| 0 <= i < header.len() && !is_visible_ascii(#[trigger] header[i]))
            ==> spec_bearer_token(header) is None,
        spec_bearer_token(header) matches Some(t) ==> t.len() >= 1
            && t.len() == header.len() - 7
            && (forall|i: int| 0 <= i < t.len() ==> is_visible_ascii(#[trigger] t[i])),
{
    if spec_bearer_token(header) is Some {
        let t = header.skip(7);
        assert forall|i: int| 0 <= i < t.len() implies is_visible_ascii(#[trigger] t[i]) by {
            assert(t[i] == header[i + 7]);
        }
    }
}

/// A header value that does not start with `"Bearer "` carries no token.
pub proof fn lemma_other_scheme_rejected(header: Seq<u8>)
    requires
        header.len() < 7 || header.take(7) != bearer_prefix(),
    ensures
        spec_bearer_token(header) is None,
{
}

} // verus!
