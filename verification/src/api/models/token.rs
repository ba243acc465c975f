//! Tokens: issuing them, reading them back, and guarding a request by the
//! token in its authorization header. Time is a parameter wherever it
//! decides; the functions that read the clock say so.

use vstd::prelude::*;
use vstd::string::*;

use crate::api::models::error::{ApiError, ApiErrorView};
use crate::api::vendor::{jwt_claims, jwt_decode, jwt_encode, jwt_signed, strip_prefix, unix_now};

verus! {

/// The claims of a token: whom it was issued to, when, and until when it
/// holds, both in seconds since the epoch.
#[derive(Debug)]
pub struct JwtPayload {
    pub user_id: String,
    pub iss: u64,
    pub exp: u64,
}

/// The mathematical value of a [`JwtPayload`].
pub struct JwtPayloadView {
    pub user_id: Seq<char>,
    pub iss: u64,
    pub exp: u64,
}

impl View for JwtPayload {
    type V = JwtPayloadView;

    open spec fn view(&self) -> JwtPayloadView {
        JwtPayloadView { user_id: self.user_id@, iss: self.iss, exp: self.exp }
    }
}

/// A token as a client sends it back in a request body.
#[derive(Debug)]
pub struct Token {
    pub token: String,
}

/// How long a token holds from the time it was issued: thirty days.
pub const TOKEN_LIFETIME_SECS: u64 = 2_592_000;

/// By how many seconds a token may be past its expiry and still be taken, to
/// allow for clocks that disagree.
pub const CLOCK_LEEWAY_SECS: u64 = 60;

/// The header that carries the token, and what stands before the token in it.
pub const AUTHORIZATION_HEADER: &'static str = "Authorization";

pub const BEARER_PREFIX: &'static str = "Bearer ";

/// The value of a `Result` of a string or an error.
pub open spec fn text_result(r: Result<String, ApiError>) -> Result<Seq<char>, ApiErrorView> {
    match r {
        Ok(text) => Ok(text@),
        Err(e) => Err(e@),
    }
}

/// The value of an optional text.
pub open spec fn optional_text(text: Option<&str>) -> Option<Seq<char>> {
    match text {
        Some(value) => Some(value@),
        None => None,
    }
}

/// The value of a `Result` of claims or an error.
pub open spec fn claims_result(r: Result<JwtPayload, ApiError>) -> Result<
    JwtPayloadView,
    ApiErrorView,
> {
    match r {
        Ok(claims) => Ok(claims@),
        Err(e) => Err(e@),
    }
}

/// The failure to make a token.
pub open spec fn signing_fault() -> ApiErrorView {
    ApiErrorView::InternalServer("Failed to generate JWT."@)
}

/// The refusal of a request that carries no token.
pub open spec fn missing_token() -> ApiErrorView {
    ApiErrorView::Unauthorized("Missing Authorization Token."@)
}

/// The refusal of a token, whatever is wrong with it.
pub open spec fn invalid_token() -> ApiErrorView {
    ApiErrorView::Unauthorized("Invalid Authorization Token."@)
}

/// The token issued to a subject at a time: its claims are the subject, the
/// time, and the time thirty days later, signed under the secret.
pub open spec fn issued_token(user_id: Seq<char>, issued_at: u64, secret: Seq<u8>) -> Result<
    Seq<char>,
    ApiErrorView,
> {
    if issued_at + TOKEN_LIFETIME_SECS > u64::MAX {
        Err(signing_fault())
    } else {
        match jwt_signed(
            user_id,
            issued_at,
            (issued_at + TOKEN_LIFETIME_SECS) as u64,
            secret,
        ) {
            Some(token) => Ok(token),
            None => Err(signing_fault()),
        }
    }
}

/// A token that expires at `exp` is taken at `now` as long as `now` is no
/// more than the leeway past `exp`.
pub open spec fn token_is_live(exp: u64, now: u64) -> bool {
    now <= exp + CLOCK_LEEWAY_SECS
}

/// What is made of the claims read from a token whose signature held: they
/// are taken if the subject and both times are there and the token is live.
pub open spec fn accepted_claims(
    user_id: Option<Seq<char>>,
    iss: Option<u64>,
    exp: Option<u64>,
    now: u64,
) -> Result<JwtPayloadView, ApiErrorView> {
    if user_id is Some && iss is Some && exp is Some && token_is_live(exp->0, now) {
        Ok(JwtPayloadView { user_id: user_id->0, iss: iss->0, exp: exp->0 })
    } else {
        Err(invalid_token())
    }
}

/// What a token is taken for at a time under a secret.
pub open spec fn decoded_token(token: Seq<char>, secret: Seq<u8>, now: u64) -> Result<
    JwtPayloadView,
    ApiErrorView,
> {
    match jwt_claims(token, secret) {
        Some(claims) => accepted_claims(claims.0, claims.1, claims.2, now),
        None => Err(invalid_token()),
    }
}

/// The token in the value of an authorization header: what follows the
/// prefix `Bearer `.
pub open spec fn bearer_of(header: Seq<char>) -> Option<Seq<char>> {
    if BEARER_PREFIX@.is_prefix_of(header) {
        Some(header.skip(BEARER_PREFIX@.len() as int))
    } else {
        None
    }
}

/// What a request with the given authorization header, if any, is taken for.
pub open spec fn authorized(header: Option<Seq<char>>, secret: Seq<u8>, now: u64) -> Result<
    JwtPayloadView,
    ApiErrorView,
> {
    match header {
        Some(value) => match bearer_of(value) {
            Some(token) => decoded_token(token, secret, now),
            None => Err(missing_token()),
        },
        None => Err(missing_token()),
    }
}

/// Issues a token to a subject at a given time. It fails, as an internal
/// fault, where the expiry time does not fit in 64 bits or the signing fails.
/// A token that was issued reads back as the claims it was made of.
pub fn issue_token(user_id: &str, issued_at: u64, secret: &[u8]) -> (r: Result<String, ApiError>)
    ensures
        text_result(r) == issued_token(user_id@, issued_at, secret@),
        r matches Ok(token) ==> jwt_claims(token@, secret@) == Some(
            (Some(user_id@), Some(issued_at), Some((issued_at + TOKEN_LIFETIME_SECS) as u64)),
        ),
{
    match issued_at.checked_add(TOKEN_LIFETIME_SECS) {
        Some(expires_at) => match jwt_encode(user_id, issued_at, expires_at, secret) {
            Ok(token) => Ok(token),
            Err(_) => Err(ApiError::InternalServer(String::from_str("Failed to generate JWT."))),
        },
        None => Err(ApiError::InternalServer(String::from_str("Failed to generate JWT."))),
    }
}

/// The latest time that a clock can show.
pub const LATEST_TIME: u64 = 0x7fff_ffff_ffff_ffff;

/// Issues a token to a subject at the time the clock shows.
pub fn generate_token(user_id: String, secret: &[u8]) -> (r: Result<String, ApiError>)
    ensures
        exists|issued_at: u64|
            {
                &&& issued_at <= LATEST_TIME
                &&& text_result(r) == #[trigger] issued_token(user_id@, issued_at, secret@)
                &&& r matches Ok(token) ==> jwt_claims(token@, secret@) == Some(
                    (
                        Some(user_id@),
                        Some(issued_at),
                        Some((issued_at + TOKEN_LIFETIME_SECS) as u64),
                    ),
                )
            },
{
    let issued_at = clock();
    issue_token(user_id.as_str(), issued_at, secret)
}

/// The time the clock shows, in seconds since the epoch.
pub(crate) fn clock() -> (now: u64)
    ensures
        now <= LATEST_TIME,
{
    unix_now() as u64
}

impl JwtPayload {
    /// Takes or refuses the claims read from a token whose signature held.
    /// All refusals are the same: a missing claim and an expired token cannot
    /// be told apart.
    pub fn from_claims(
        user_id: Option<String>,
        iss: Option<u64>,
        exp: Option<u64>,
        now: u64,
    ) -> (r: Result<JwtPayload, ApiError>)
        ensures
            claims_result(r) == accepted_claims(
                match user_id {
                    Some(id) => Some(id@),
                    None => None,
                },
                iss,
                exp,
                now,
            ),
    {
        match (user_id, iss, exp) {
            (Some(user_id), Some(iss), Some(exp)) => {
                if now <= CLOCK_LEEWAY_SECS || now - CLOCK_LEEWAY_SECS <= exp {
                    Ok(JwtPayload { user_id, iss, exp })
                } else {
                    Err(ApiError::Unauthorized(String::from_str("Invalid Authorization Token.")))
                }
            },
            _ => Err(ApiError::Unauthorized(String::from_str("Invalid Authorization Token."))),
        }
    }

    /// Reads the claims of a token at a given time: the signature must hold
    /// under the secret and the token must not have expired.
    pub fn decode(token: &str, secret: &[u8], now: u64) -> (r: Result<JwtPayload, ApiError>)
        ensures
            claims_result(r) == decoded_token(token@, secret@, now),
    {
        match jwt_decode(token, secret) {
            Ok(claims) => JwtPayload::from_claims(claims.0, claims.1, claims.2, now),
            Err(_) => Err(ApiError::Unauthorized(String::from_str("Invalid Authorization Token."))),
        }
    }

    /// Guards a request at a given time: the value of its authorization
    /// header, if it has one, must be `Bearer ` and a token that
    /// [`JwtPayload::decode`] takes.
    pub fn authorize(header: Option<&str>, secret: &[u8], now: u64) -> (r: Result<
        JwtPayload,
        ApiError,
    >)
        ensures
            claims_result(r) == authorized(optional_text(header), secret@, now),
    {
        let token = match header {
            Some(value) => strip_prefix(value, BEARER_PREFIX),
            None => None,
        };
        match token {
            Some(token) => {
                proof {
                    let value = header.unwrap()@;
                    assert(BEARER_PREFIX@.is_prefix_of(value)) by {
                        assert(value.subrange(0, BEARER_PREFIX@.len() as int) =~= BEARER_PREFIX@);
                    }
                    assert(value.skip(BEARER_PREFIX@.len() as int) =~= token@);
                }
                JwtPayload::decode(token, secret, now)
            },
            None => Err(ApiError::Unauthorized(String::from_str("Missing Authorization Token."))),
        }
    }

    /// Guards a request at the time the clock shows.
    pub fn from_request(header: Option<&str>, secret: &[u8]) -> (r: Result<JwtPayload, ApiError>)
        ensures
            exists|now: u64|
                now <= LATEST_TIME && claims_result(r) == #[trigger] authorized(
                    optional_text(header),
                    secret@,
                    now,
                ),
    {
        let now = clock();
        JwtPayload::authorize(header, secret, now)
    }
}

} // verus!
