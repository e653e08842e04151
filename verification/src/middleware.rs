//! The guard of protected routes: a request is admitted on a valid bearer
//! token and turned away otherwise, before any guarded handler runs.

use crate::text::{opt_str_view, strip_prefix, without_prefix};
use crate::token::{
    hs256_decoding, validate_at, validated_view, validation_of, verify_jwt, Claims, ClaimsView,
    TokenError,
};
use vstd::prelude::*;

verus! {

/// The status of every refusal by the guard.
pub const STATUS_UNAUTHORIZED: u16 = 401;

/// Why a request is turned away.
#[derive(Clone, Copy, Debug, PartialEq, Eq, Structural)]
pub enum RejectReason {
    /// The request has no `Authorization` header.
    MissingToken,
    /// The header is not of the form `Bearer <token>`.
    MalformedHeader,
    /// The token is malformed, wrongly signed or expired.
    InvalidToken,
}

/// The guard's decision on one request.
#[derive(Clone, Debug)]
pub enum Admission {
    /// The request goes on, on behalf of the account that `subject` names.
    Admitted { subject: String },
    /// The request stops here.
    Rejected(RejectReason),
}

/// The guard's decision, as mathematics sees it.
pub enum AdmissionView {
    Admitted { subject: Seq<char> },
    Rejected(RejectReason),
}

impl View for Admission {
    type V = AdmissionView;

    open spec fn view(&self) -> AdmissionView {
        match *self {
            Admission::Admitted { subject } => AdmissionView::Admitted { subject: subject@ },
            Admission::Rejected(reason) => AdmissionView::Rejected(reason),
        }
    }
}

/// The scheme that comes before the token in the header, with its space.
pub open spec fn bearer_prefix() -> Seq<char> {
    seq!['B', 'e', 'a', 'r', 'e', 'r', ' ']
}

/// The token that an `Authorization` header carries, if it is a bearer header.
pub open spec fn bearer_token(header: Seq<char>) -> Option<Seq<char>> {
    without_prefix(header, bearer_prefix())
}

/// The decision that follows from a validated, or refused, token.
pub open spec fn admission_for(validated: Result<ClaimsView, TokenError>) -> AdmissionView {
    match validated {
        Ok(claims) => AdmissionView::Admitted { subject: claims.sub },
        Err(_) => AdmissionView::Rejected(RejectReason::InvalidToken),
    }
}

/// The guard's decision on a request with the given `Authorization` header,
/// at time `now`.
pub open spec fn admission_of(
    authorization: Option<Seq<char>>,
    secret: Seq<char>,
    now: u64,
) -> AdmissionView {
    match authorization {
        None => AdmissionView::Rejected(RejectReason::MissingToken),
        Some(header) => match bearer_token(header) {
            None => AdmissionView::Rejected(RejectReason::MalformedHeader),
            Some(token) => admission_for(validation_of(hs256_decoding(token, secret), now)),
        },
    }
}

/// Takes the token out of an `Authorization` header of the form
/// `Bearer <token>`.
pub fn extract_bearer<'a>(header: &'a str) -> (token: Option<&'a str>)
    ensures
        opt_str_view(token) == bearer_token(header@),
{
    proof {
        reveal_strlit("Bearer ");
    }
    assert("Bearer "@ =~= bearer_prefix());
    strip_prefix(header, "Bearer ")
}

/// Admits on valid claims, and rejects on any token error alike.
pub fn decide(validated: Result<Claims, TokenError>) -> (admission: Admission)
    ensures
        admission@ == admission_for(validated_view(validated)),
{
    match validated {
        Ok(claims) => Admission::Admitted { subject: claims.sub },
        Err(_) => Admission::Rejected(RejectReason::InvalidToken),
    }
}

/// Decides on a request as of `now`.
pub fn evaluate_at(authorization: Option<&str>, secret: &str, now: u64) -> (admission: Admission)
    ensures
        admission@ == admission_of(opt_str_view(authorization), secret@, now),
{
    match authorization {
        None => Admission::Rejected(RejectReason::MissingToken),
        Some(header) => match extract_bearer(header) {
            None => Admission::Rejected(RejectReason::MalformedHeader),
            Some(token) => decide(validate_at(token, secret, now)),
        },
    }
}

/// Decides on a request against the current time.
pub fn evaluate(authorization: Option<&str>, secret: &str) -> (admission: Admission)
    ensures
        exists|now: u64| admission@ == admission_of(opt_str_view(authorization), secret@, now),
{
    match authorization {
        None => {
            let admission = Admission::Rejected(RejectReason::MissingToken);
            assert(admission@ == admission_of(opt_str_view(authorization), secret@, 0));
            admission
        },
        Some(header) => match extract_bearer(header) {
            None => {
                let admission = Admission::Rejected(RejectReason::MalformedHeader);
                assert(admission@ == admission_of(opt_str_view(authorization), secret@, 0));
                admission
            },
            Some(token) => {
                let validated = verify_jwt(token, secret);
                let ghost now = choose|now: u64|
                    validated_view(validated) == validation_of(
                        hs256_decoding(token@, secret@),
                        now,
                    );
                let admission = decide(validated);
                assert(admission@ == admission_of(opt_str_view(authorization), secret@, now));
                admission
            },
        },
    }
}

/// A request without a header, or with a header that is no bearer header, is
/// turned away whatever the secret and the time.
pub proof fn lemma_no_token_no_entry(authorization: Option<Seq<char>>, secret: Seq<char>, now: u64)
    ensures
        authorization is None ==> admission_of(authorization, secret, now)
            == AdmissionView::Rejected(RejectReason::MissingToken),
        authorization is Some && bearer_token(authorization->0) is None ==> admission_of(
            authorization,
            secret,
            now,
        ) == AdmissionView::Rejected(RejectReason::MalformedHeader),
{
}

/// A request is admitted exactly when it carries a bearer token that
/// validates, and then on behalf of the token's subject.
pub proof fn lemma_admitted_iff_valid_token(
    authorization: Option<Seq<char>>,
    secret: Seq<char>,
    now: u64,
)
    ensures
        admission_of(authorization, secret, now) is Admitted <==> {
            &&& authorization is Some
            &&& bearer_token(authorization->0) is Some
            &&& validation_of(hs256_decoding(bearer_token(authorization->0)->0, secret), now) is Ok
        },
        admission_of(authorization, secret, now) matches AdmissionView::Admitted { subject }
            ==> subject == validation_of(
            hs256_decoding(bearer_token(authorization->0)->0, secret),
            now,
        )->Ok_0.sub,
{
}

/// The factory of the guard: it holds the signing secret, read once at
/// start-up and never changed.
#[derive(Clone, Debug)]
pub struct AuthMiddleware {
    pub secret: String,
}

/// The guard around one service.
#[derive(Clone, Debug)]
pub struct AuthMiddlewareMiddleware<S> {
    pub service: S,
    pub secret: String,
}

impl AuthMiddleware {
    /// A guard factory for the given signing secret.
    pub fn new(secret: String) -> (factory: AuthMiddleware)
        ensures
            factory.secret@ == secret@,
    {
        AuthMiddleware { secret }
    }

    /// Puts the guard around `service`.
    pub fn new_transform<S>(&self, service: S) -> (guard: AuthMiddlewareMiddleware<S>)
        ensures
            guard.service == service,
            guard.secret@ == self.secret@,
    {
        AuthMiddlewareMiddleware { service, secret: self.secret.clone() }
    }
}

impl<S> AuthMiddlewareMiddleware<S> {
    /// Decides on a request as of `now`. Only an admitted request may be
    /// handed to the service.
    pub fn call_at(&self, authorization: Option<&str>, now: u64) -> (admission: Admission)
        ensures
            admission@ == admission_of(opt_str_view(authorization), self.secret@, now),
    {
        evaluate_at(authorization, self.secret.as_str(), now)
    }

    /// Decides on a request against the current time. Only an admitted
    /// request may be handed to the service.
    pub fn call(&self, authorization: Option<&str>) -> (admission: Admission)
        ensures
            exists|now: u64|
                admission@ == admission_of(opt_str_view(authorization), self.secret@, now),
    {
        evaluate(authorization, self.secret.as_str())
    }
}

impl RejectReason {
    /// The status of the reply: 401 whatever the reason.
    pub fn status(&self) -> (code: u16)
        ensures
            code == STATUS_UNAUTHORIZED,
    {
        STATUS_UNAUTHORIZED
    }

    /// The line of text in the reply: the same whatever the reason.
    pub fn message(&self) -> (text: &'static str)
        ensures
            text@ == "Unauthorized"@,
    {
        "Unauthorized"
    }
}

impl Admission {
    /// Whether the request goes on to the guarded handler.
    pub fn is_admitted(&self) -> (yes: bool)
        ensures
            yes == (self@ is Admitted),
    {
        match self {
            Admission::Admitted { .. } => true,
            Admission::Rejected(_) => false,
        }
    }
}

} // verus!
