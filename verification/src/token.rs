//! Session tokens: HS256-signed claims that name an account and expire a day
//! after they are issued. Nothing is stored; the token is the session.

use crate::text::{decimal_int, lemma_parse_decimal_i32, parsed_i32, render_i32};
use jsonwebtoken::errors::ErrorKind;
use jsonwebtoken::{DecodingKey, EncodingKey, Header, Validation};
use vstd::prelude::*;

verus! {

/// Seconds for which a session token is valid (24 hours).
pub const TOKEN_LIFETIME_SECS: u64 = 86_400;

/// The payload of a session token.
#[derive(Clone, Debug)]
pub struct Claims {
    /// The account id, written in decimal.
    pub sub: String,
    /// The Unix time, in seconds, after which the token is no longer valid.
    pub exp: u64,
}

/// The payload of a session token, as mathematics sees it.
pub struct ClaimsView {
    pub sub: Seq<char>,
    pub exp: u64,
}

impl View for Claims {
    type V = ClaimsView;

    open spec fn view(&self) -> ClaimsView {
        ClaimsView { sub: self.sub@, exp: self.exp }
    }
}

/// Why a token is refused.
#[derive(Clone, Copy, Debug, PartialEq, Eq, Structural)]
pub enum TokenError {
    /// The token cannot be taken apart, or its claims are not a session's.
    Malformed,
    /// The signature is not the one the secret gives.
    InvalidSignature,
    /// The token is well formed and signed, and its time has passed.
    Expired,
}

/// What taking a token apart yields, before its expiry is looked at.
#[derive(Clone, Debug)]
pub enum Decoded {
    /// The signature holds; the two claims are given where the payload has
    /// them in the right type.
    Claims { sub: Option<String>, exp: Option<u64> },
    /// The signature is not the one the secret gives.
    BadSignature,
    /// The token is refused for any other reason.
    Unreadable,
}

/// What taking a token apart yields, as mathematics sees it.
pub enum Decoding {
    Claims { sub: Option<Seq<char>>, exp: Option<u64> },
    BadSignature,
    Unreadable,
}

impl View for Decoded {
    type V = Decoding;

    open spec fn view(&self) -> Decoding {
        match *self {
            Decoded::Claims { sub, exp } => Decoding::Claims {
                sub: match sub {
                    Some(s) => Some(s@),
                    None => None,
                },
                exp,
            },
            Decoded::BadSignature => Decoding::BadSignature,
            Decoded::Unreadable => Decoding::Unreadable,
        }
    }
}

/// The token that `jsonwebtoken::encode` gives for the claims `sub` and `exp`
/// under the default header and the HMAC key `secret`.
pub uninterp spec fn hs256_token(sub: Seq<char>, exp: u64, secret: Seq<char>) -> Seq<char>;

/// What `jsonwebtoken::decode` makes of `token` under the HMAC key `secret`
/// and the default validation with the expiry check switched off.
pub uninterp spec fn hs256_decoding(token: Seq<char>, secret: Seq<char>) -> Decoding;

/// `jsonwebtoken::encode` with `Header::default()` and
/// `EncodingKey::from_secret`, on a JSON object with the claims `sub` and `exp`.
///
/// Trusted: the token is a function of the claims and the secret; encoding
/// with an HMAC key under the default header does not fail; and decoding the
/// token under the same secret gives back the two claims.
#[verifier::external_body]
fn hs256_encode(sub: &str, exp: u64, secret: &str) -> (token: String)
    ensures
        token@ == hs256_token(sub@, exp, secret@),
        hs256_decoding(token@, secret@) == (Decoding::Claims { sub: Some(sub@), exp: Some(exp) }),
{
    let mut claims = serde_json::Map::new();
    claims.insert("sub".to_owned(), serde_json::Value::from(sub));
    claims.insert("exp".to_owned(), serde_json::Value::from(exp));
    let key = EncodingKey::from_secret(secret.as_bytes());
    jsonwebtoken::encode(&Header::default(), &claims, &key).unwrap()
}

/// `jsonwebtoken::decode` with `DecodingKey::from_secret` and
/// `Validation::default()`, the expiry check switched off.
///
/// Trusted: with that check off the outcome is a function of the token and
/// the secret. The claims are handed out as `Value::as_str` and
/// `Value::as_u64` give them; of the errors only a signature mismatch is told
/// apart.
#[verifier::external_body]
fn hs256_decode(token: &str, secret: &str) -> (decoded: Decoded)
    ensures
        decoded@ == hs256_decoding(token@, secret@),
{
    let mut validation = Validation::default();
    validation.validate_exp = false;
    let key = DecodingKey::from_secret(secret.as_bytes());
    match jsonwebtoken::decode::<serde_json::Value>(token, &key, &validation) {
        Ok(data) => Decoded::Claims {
            sub: data.claims["sub"].as_str().map(str::to_owned),
            exp: data.claims["exp"].as_u64(),
        },
        Err(e) => match e.kind() {
            ErrorKind::InvalidSignature => Decoded::BadSignature,
            _ => Decoded::Unreadable,
        },
    }
}

/// `chrono::Utc::now().timestamp()`: the Unix time in seconds.
///
/// Trusted: the clock is read as a duration since the epoch, so the result is
/// not negative. Nothing else is known of it. Where the system clock stands
/// before 1970 `Utc::now` panics instead of returning; no input decides that.
#[verifier::external_body]
fn unix_now() -> (now: i64)
    ensures
        0 <= now,
{
    chrono::Utc::now().timestamp()
}

/// The verdict on a token at time `now`, given what taking it apart yielded.
///
/// A token is valid up to and including the second its `exp` names.
pub open spec fn validation_of(decoding: Decoding, now: u64) -> Result<ClaimsView, TokenError> {
    match decoding {
        Decoding::BadSignature => Err(TokenError::InvalidSignature),
        Decoding::Unreadable => Err(TokenError::Malformed),
        Decoding::Claims { sub: Some(sub), exp: Some(exp) } => {
            if now > exp {
                Err(TokenError::Expired)
            } else {
                Ok(ClaimsView { sub, exp })
            }
        },
        Decoding::Claims { .. } => Err(TokenError::Malformed),
    }
}

/// The view of a validation result.
pub open spec fn validated_view(r: Result<Claims, TokenError>) -> Result<ClaimsView, TokenError> {
    match r {
        Ok(claims) => Ok(claims@),
        Err(e) => Err(e),
    }
}

/// The claims of the session token issued to `user_id` at `issued_at`.
pub open spec fn session_claims(user_id: i32, issued_at: u64) -> ClaimsView {
    ClaimsView {
        sub: decimal_int(user_id as int),
        exp: (issued_at + TOKEN_LIFETIME_SECS) as u64,
    }
}

/// Whether `token` is the session token issued to `user_id` at `issued_at`
/// under `secret`.
pub open spec fn is_session_token(
    token: Seq<char>,
    user_id: i32,
    issued_at: u64,
    secret: Seq<char>,
) -> bool {
    let claims = session_claims(user_id, issued_at);
    &&& issued_at + TOKEN_LIFETIME_SECS <= u64::MAX
    &&& token == hs256_token(claims.sub, claims.exp, secret)
    &&& hs256_decoding(token, secret) == (Decoding::Claims {
        sub: Some(claims.sub),
        exp: Some(claims.exp),
    })
}

/// Whether `token` is a session token issued to `user_id` under `secret`, at
/// whatever time.
pub open spec fn is_issued_token(token: Seq<char>, user_id: i32, secret: Seq<char>) -> bool {
    exists|issued_at: u64| is_session_token(token, user_id, issued_at, secret)
}

/// A session token validates to its account for 24 hours from its issuance,
/// and is expired from then on.
pub proof fn lemma_session_token_lifetime(
    token: Seq<char>,
    user_id: i32,
    issued_at: u64,
    secret: Seq<char>,
    now: u64,
)
    requires
        is_session_token(token, user_id, issued_at, secret),
    ensures
        now <= issued_at + TOKEN_LIFETIME_SECS ==> validation_of(hs256_decoding(token, secret), now)
            == Ok::<ClaimsView, TokenError>(session_claims(user_id, issued_at)),
        now > issued_at + TOKEN_LIFETIME_SECS ==> validation_of(hs256_decoding(token, secret), now)
            == Err::<ClaimsView, TokenError>(TokenError::Expired),
        parsed_i32(session_claims(user_id, issued_at).sub) == Some(user_id),
{
    lemma_parse_decimal_i32(user_id);
}

/// A token whose signature does not hold, or that cannot be read, is refused
/// for that reason at every time.
pub proof fn lemma_bad_token_never_validates(decoding: Decoding, now: u64)
    ensures
        decoding is BadSignature ==> validation_of(decoding, now) == Err::<ClaimsView, TokenError>(
            TokenError::InvalidSignature,
        ),
        decoding is Unreadable ==> validation_of(decoding, now) == Err::<ClaimsView, TokenError>(
            TokenError::Malformed,
        ),
{
}

/// Issues the session token of `user_id` as of `now`.
pub fn issue_at(user_id: i32, now: u64, secret: &str) -> (token: String)
    requires
        now + TOKEN_LIFETIME_SECS <= u64::MAX,
    ensures
        is_session_token(token@, user_id, now, secret@),
{
    let sub = render_i32(user_id);
    hs256_encode(sub.as_str(), now + TOKEN_LIFETIME_SECS, secret)
}

/// Issues a session token for `user_id`, valid for 24 hours from now.
pub fn generate_jwt(user_id: i32, secret: &str) -> (token: String)
    ensures
        is_issued_token(token@, user_id, secret@),
{
    let now = unix_now();
    let token = issue_at(user_id, now as u64, secret);
    assert(is_session_token(token@, user_id, now as u64, secret@));
    token
}

/// Decides on a token that has been taken apart: refuses a bad signature, an
/// unreadable token or a payload without the two claims, then checks the
/// expiry against `now`.
pub fn classify(decoded: Decoded, now: u64) -> (r: Result<Claims, TokenError>)
    ensures
        validated_view(r) == validation_of(decoded@, now),
{
    match decoded {
        Decoded::BadSignature => Err(TokenError::InvalidSignature),
        Decoded::Unreadable => Err(TokenError::Malformed),
        Decoded::Claims { sub: Some(sub), exp: Some(exp) } => {
            if now > exp {
                Err(TokenError::Expired)
            } else {
                Ok(Claims { sub, exp })
            }
        },
        Decoded::Claims { .. } => Err(TokenError::Malformed),
    }
}

/// Validates a token as of `now`.
pub fn validate_at(token: &str, secret: &str, now: u64) -> (r: Result<Claims, TokenError>)
    ensures
        validated_view(r) == validation_of(hs256_decoding(token@, secret@), now),
{
    classify(hs256_decode(token, secret), now)
}

/// Validates a token against the current time.
pub fn verify_jwt(token: &str, secret: &str) -> (r: Result<Claims, TokenError>)
    ensures
        exists|now: u64| validated_view(r) == validation_of(hs256_decoding(token@, secret@), now),
{
    let now = unix_now();
    let r = validate_at(token, secret, now as u64);
    assert(validated_view(r) == validation_of(hs256_decoding(token@, secret@), now as u64));
    r
}

/// Issues and validates session tokens under one signing secret. The secret
/// is set when the service is made and cannot be changed afterwards, so one
/// service can be shared by every request.
#[derive(Debug)]
pub struct TokenService {
    secret: String,
}

impl TokenService {
    /// The signing secret.
    pub closed spec fn secret(&self) -> Seq<char> {
        self.secret@
    }

    /// A service that signs with `secret`.
    pub fn new(secret: String) -> (service: TokenService)
        ensures
            service.secret() == secret@,
    {
        TokenService { secret }
    }

    /// Issues the session token of `account_id` as of `now`.
    pub fn issue_at(&self, account_id: i32, now: u64) -> (token: String)
        requires
            now + TOKEN_LIFETIME_SECS <= u64::MAX,
        ensures
            is_session_token(token@, account_id, now, self.secret()),
    {
        issue_at(account_id, now, self.secret.as_str())
    }

    /// Issues a session token for `account_id`, valid for 24 hours from now.
    pub fn issue(&self, account_id: i32) -> (token: String)
        ensures
            is_issued_token(token@, account_id, self.secret()),
    {
        generate_jwt(account_id, self.secret.as_str())
    }

    /// Validates a token as of `now`.
    pub fn validate_at(&self, token: &str, now: u64) -> (r: Result<Claims, TokenError>)
        ensures
            validated_view(r) == validation_of(hs256_decoding(token@, self.secret()), now),
    {
        validate_at(token, self.secret.as_str(), now)
    }

    /// Validates a token against the current time. There is no list of
    /// revoked tokens: a signed token that has not expired is accepted.
    pub fn validate(&self, token: &str) -> (r: Result<Claims, TokenError>)
        ensures
            exists|now: u64|
                validated_view(r) == validation_of(hs256_decoding(token@, self.secret()), now),
    {
        verify_jwt(token, self.secret.as_str())
    }
}

} // verus!
