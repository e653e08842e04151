//! The account lifecycle, request by request: sign-up, login, password reset,
//! sending and confirming a one-time code, and the profile behind the guard.
//!
//! The store and the mail relay are not reached from here. Each handler takes
//! what the store found or answered and says what to write next or what to
//! reply; whoever serves the request carries that out and comes back with the
//! result.

use crate::account::{Account, AccountView};
use crate::mail::{address_fault, compose, otp_email, otp_mail, OtpEmail};
use crate::middleware::{
    admission_of, bearer_prefix, bearer_token, evaluate, evaluate_at, Admission, AdmissionView,
    RejectReason, STATUS_UNAUTHORIZED,
};
use crate::otp::{
    generate, is_otp_code, now_nanos, verify, GeneratedOtp, OtpVerdict, OTP_VALIDITY_NANOS,
};
use crate::password::{hashable, password_matches, try_hash_password, verify_password};
use crate::text::{opt_str_view, parse_i32, parsed_i32};
use crate::token::{
    generate_jwt, is_issued_token, is_session_token, lemma_session_token_lifetime,
    TOKEN_LIFETIME_SECS,
};
use lettre::Message;
use vstd::prelude::*;

verus! {

pub const STATUS_OK: u16 = 200;

pub const STATUS_BAD_REQUEST: u16 = 400;

pub const STATUS_NOT_FOUND: u16 = 404;

pub const STATUS_SERVER_ERROR: u16 = 500;

/// How a store operation failed.
#[derive(Clone, Copy, Debug, PartialEq, Eq, Structural)]
pub enum StoreError {
    /// A username or an email that must be unique is already taken.
    UniqueViolation,
    /// The store could not be reached or did not carry the operation out.
    Unavailable,
}

/// The kinds of failure that a reply can report.
#[derive(Clone, Copy, Debug, PartialEq, Eq, Structural)]
pub enum ErrorKind {
    /// A uniqueness violation or a request that cannot be served as it stands.
    Validation,
    /// Bad credentials, a refused token, or an account not yet verified.
    Auth,
    /// No matching account.
    NotFound,
    /// No code pending, a code that expired, or one that does not match.
    Otp,
    /// The store or the mail relay failed; nothing of the cause is shown.
    Transient,
}

impl ErrorKind {
    /// The status that a failure of this kind is reported with.
    pub open spec fn spec_status(self) -> u16 {
        match self {
            ErrorKind::Validation => STATUS_BAD_REQUEST,
            ErrorKind::Auth => STATUS_UNAUTHORIZED,
            ErrorKind::NotFound => STATUS_NOT_FOUND,
            ErrorKind::Otp => STATUS_BAD_REQUEST,
            ErrorKind::Transient => STATUS_SERVER_ERROR,
        }
    }

    /// The status that a failure of this kind is reported with: 400 for a
    /// validation or one-time-code error, 401, 404, and 500 for a transient
    /// failure.
    pub fn status(&self) -> (code: u16)
        ensures
            code == self.spec_status(),
    {
        match self {
            ErrorKind::Validation => STATUS_BAD_REQUEST,
            ErrorKind::Auth => STATUS_UNAUTHORIZED,
            ErrorKind::NotFound => STATUS_NOT_FOUND,
            ErrorKind::Otp => STATUS_BAD_REQUEST,
            ErrorKind::Transient => STATUS_SERVER_ERROR,
        }
    }
}

/// The status of a reply, given the kind of failure it reports, if any.
pub open spec fn status_of(kind: Option<ErrorKind>) -> u16 {
    match kind {
        None => STATUS_OK,
        Some(kind) => kind.spec_status(),
    }
}

/// What a lookup of one account gave.
pub type Lookup = Result<Option<Account>, StoreError>;

/// What a lookup gave, as mathematics sees it.
pub open spec fn lookup_view(found: Lookup) -> Result<Option<AccountView>, StoreError> {
    match found {
        Ok(Some(account)) => Ok(Some(account@)),
        Ok(None) => Ok(None),
        Err(e) => Err(e),
    }
}

// ---------------------------------------------------------------------------
// Sign-up
// ---------------------------------------------------------------------------
/// The body of a sign-up request.
#[derive(Clone, Debug)]
pub struct SignupRequest {
    pub username: String,
    pub email: String,
    pub password: String,
}

/// The account to insert: the password is already hashed.
#[derive(Clone, Debug)]
pub struct NewAccount {
    pub username: String,
    pub email: String,
    pub password_hash: String,
}

/// How a sign-up ends.
#[derive(Clone, Copy, Debug, PartialEq, Eq, Structural)]
pub enum SignupOutcome {
    /// The account exists now, unverified, under the id the store gave it.
    Created { user_id: i32 },
    /// The username or the email is taken.
    AlreadyExists,
    /// The request cannot be served as it stands.
    Invalid,
    /// The store failed.
    Failed,
}

/// What a sign-up request leads to first.
#[derive(Clone, Debug)]
pub enum SignupStep {
    /// Insert this account, then call `signup_reply` with the result.
    Insert(NewAccount),
    /// Reply at once.
    Reply(SignupOutcome),
}

/// The outcome of a sign-up, given what the insertion gave.
pub open spec fn signup_outcome(inserted: Result<i32, StoreError>) -> SignupOutcome {
    match inserted {
        Ok(user_id) => SignupOutcome::Created { user_id },
        Err(StoreError::UniqueViolation) => SignupOutcome::AlreadyExists,
        Err(StoreError::Unavailable) => SignupOutcome::Failed,
    }
}

impl SignupOutcome {
    /// The kind of failure, where the sign-up failed.
    pub open spec fn spec_error_kind(self) -> Option<ErrorKind> {
        match self {
            SignupOutcome::Created { .. } => None,
            SignupOutcome::AlreadyExists => Some(ErrorKind::Validation),
            SignupOutcome::Invalid => Some(ErrorKind::Validation),
            SignupOutcome::Failed => Some(ErrorKind::Transient),
        }
    }

    /// The kind of failure, where the sign-up failed: a taken name is a
    /// validation error, a failing store a transient one.
    pub fn error_kind(&self) -> (kind: Option<ErrorKind>)
        ensures
            kind == self.spec_error_kind(),
    {
        match self {
            SignupOutcome::Created { .. } => None,
            SignupOutcome::AlreadyExists => Some(ErrorKind::Validation),
            SignupOutcome::Invalid => Some(ErrorKind::Validation),
            SignupOutcome::Failed => Some(ErrorKind::Transient),
        }
    }

    /// The status of the reply.
    pub open spec fn spec_status(self) -> u16 {
        match self {
            SignupOutcome::Created { .. } => STATUS_OK,
            SignupOutcome::AlreadyExists => STATUS_BAD_REQUEST,
            SignupOutcome::Invalid => STATUS_BAD_REQUEST,
            SignupOutcome::Failed => STATUS_SERVER_ERROR,
        }
    }

    /// The status of the reply: 200 for a new account, 400 for a taken name
    /// or a request that cannot be served, 500 where the store failed.
    pub fn status(&self) -> (code: u16)
        ensures
            code == self.spec_status(),
    {
        match self {
            SignupOutcome::Created { .. } => STATUS_OK,
            SignupOutcome::AlreadyExists => STATUS_BAD_REQUEST,
            SignupOutcome::Invalid => STATUS_BAD_REQUEST,
            SignupOutcome::Failed => STATUS_SERVER_ERROR,
        }
    }

    /// The line of text in the reply.
    pub open spec fn spec_message(self) -> Seq<char> {
        match self {
            SignupOutcome::Created { .. } => "Signup successful"@,
            SignupOutcome::AlreadyExists => "Could not create user (maybe username/email exists)"@,
            SignupOutcome::Invalid => "Invalid password"@,
            SignupOutcome::Failed => "Server error"@,
        }
    }

    /// The line of text in the reply. A failing store is reported as such and
    /// nothing is said of the cause.
    pub fn message(&self) -> (text: &'static str)
        ensures
            text@ == self.spec_message(),
    {
        match self {
            SignupOutcome::Created { .. } => "Signup successful",
            SignupOutcome::AlreadyExists => "Could not create user (maybe username/email exists)",
            SignupOutcome::Invalid => "Invalid password",
            SignupOutcome::Failed => "Server error",
        }
    }
}

/// The first step of a sign-up, given the hash of the request's password, or
/// `None` where the password cannot be hashed.
pub fn signup_step(payload: &SignupRequest, hashed: Option<String>) -> (step: SignupStep)
    ensures
        hashed matches Some(h) ==> (step matches SignupStep::Insert(account) && account.username@
            == payload.username@ && account.email@ == payload.email@ && account.password_hash@
            == h@),
        hashed is None ==> step matches SignupStep::Reply(SignupOutcome::Invalid),
{
    match hashed {
        Some(password_hash) => SignupStep::Insert(
            NewAccount {
                username: payload.username.clone(),
                email: payload.email.clone(),
                password_hash,
            },
        ),
        None => SignupStep::Reply(SignupOutcome::Invalid),
    }
}

/// Hashes the password of a sign-up request and names the account to insert.
///
/// The password itself goes no further than this.
pub fn signup(payload: &SignupRequest) -> (step: SignupStep)
    ensures
        hashable(payload.password@) ==> (step matches SignupStep::Insert(account)
            && account.username@ == payload.username@ && account.email@ == payload.email@
            && password_matches(payload.password@, account.password_hash@)
            && account.password_hash@.len() > 0),
        !hashable(payload.password@) ==> step matches SignupStep::Reply(SignupOutcome::Invalid),
{
    signup_step(payload, try_hash_password(payload.password.as_str()))
}

/// Ends a sign-up on what the insertion gave: the new id, or the reason why
/// there is none. A taken username or email is a validation error, replied
/// with 400; a store that fails for any other reason is a transient failure,
/// replied with 500 and no word of the cause.
pub fn signup_reply(inserted: Result<i32, StoreError>) -> (outcome: SignupOutcome)
    ensures
        outcome == signup_outcome(inserted),
{
    match inserted {
        Ok(user_id) => SignupOutcome::Created { user_id },
        Err(StoreError::UniqueViolation) => SignupOutcome::AlreadyExists,
        Err(StoreError::Unavailable) => SignupOutcome::Failed,
    }
}

/// A sign-up succeeds exactly when the store inserted the account, and then
/// under the id the store gave. Where the store refuses the insertion because
/// the username or the email is taken, the sign-up ends in a validation error,
/// so of two sign-ups that the store sets against each other only the one it
/// lets through succeeds.
pub proof fn lemma_signup_follows_the_store(inserted: Result<i32, StoreError>)
    ensures
        signup_outcome(inserted) is Created <==> inserted is Ok,
        inserted matches Ok(user_id) ==> signup_outcome(inserted) == (SignupOutcome::Created {
            user_id,
        }),
        inserted == Err::<i32, StoreError>(StoreError::UniqueViolation) ==> signup_outcome(
            inserted,
        ).spec_error_kind() == Some(ErrorKind::Validation) && signup_outcome(
            inserted,
        ).spec_status() == STATUS_BAD_REQUEST,
        inserted == Err::<i32, StoreError>(StoreError::Unavailable) ==> signup_outcome(
            inserted,
        ).spec_error_kind() == Some(ErrorKind::Transient) && signup_outcome(
            inserted,
        ).spec_status() == STATUS_SERVER_ERROR && signup_outcome(inserted).spec_message()
            != signup_outcome(Err(StoreError::UniqueViolation)).spec_message(),
{
    reveal_strlit("Server error");
    reveal_strlit("Could not create user (maybe username/email exists)");
    assert("Server error"@.len() == 12);
    assert("Could not create user (maybe username/email exists)"@.len() == 51);
}

// ---------------------------------------------------------------------------
// Login
// ---------------------------------------------------------------------------
/// The body of a login request.
#[derive(Clone, Debug)]
pub struct LoginRequest {
    pub email: String,
    pub password: String,
}

/// What a login comes to, before a token is issued.
#[derive(Clone, Copy, Debug, PartialEq, Eq, Structural)]
pub enum LoginDecision {
    /// The account is verified and the password is its own.
    Grant,
    /// The account exists and has not been verified.
    NotVerified,
    /// No such account, or not its password: the two read alike.
    InvalidCredentials,
    /// The store failed.
    ServerError,
}

/// How a login ends.
#[derive(Clone, Debug)]
pub enum LoginOutcome {
    Success { user_id: i32, username: String, token: String },
    NotVerified,
    InvalidCredentials,
    ServerError,
}

/// The decision on a login, given what the lookup by email gave and whether
/// the password matched the account's hash.
///
/// An unverified account is told so whatever the password; an unknown email
/// and a wrong password are not told apart.
pub open spec fn login_decision(
    found: Result<Option<AccountView>, StoreError>,
    password_ok: bool,
) -> LoginDecision {
    match found {
        Err(_) => LoginDecision::ServerError,
        Ok(None) => LoginDecision::InvalidCredentials,
        Ok(Some(account)) => if !account.verified {
            LoginDecision::NotVerified
        } else if password_ok {
            LoginDecision::Grant
        } else {
            LoginDecision::InvalidCredentials
        },
    }
}

/// Whether `password` is the password of the account that was found.
pub open spec fn password_ok(found: Result<Option<AccountView>, StoreError>, password: Seq<char>) -> bool {
    found matches Ok(Some(account)) && password_matches(password, account.password_hash)
}

impl LoginDecision {
    /// The kind of failure, where the login is refused.
    pub open spec fn spec_error_kind(self) -> Option<ErrorKind> {
        match self {
            LoginDecision::Grant => None,
            LoginDecision::NotVerified => Some(ErrorKind::Auth),
            LoginDecision::InvalidCredentials => Some(ErrorKind::Auth),
            LoginDecision::ServerError => Some(ErrorKind::Transient),
        }
    }

    /// The kind of failure, where the login is refused.
    pub fn error_kind(&self) -> (kind: Option<ErrorKind>)
        ensures
            kind == self.spec_error_kind(),
    {
        match self {
            LoginDecision::Grant => None,
            LoginDecision::NotVerified => Some(ErrorKind::Auth),
            LoginDecision::InvalidCredentials => Some(ErrorKind::Auth),
            LoginDecision::ServerError => Some(ErrorKind::Transient),
        }
    }

    /// The status of the reply.
    pub open spec fn spec_status(self) -> u16 {
        match self {
            LoginDecision::Grant => STATUS_OK,
            LoginDecision::NotVerified => STATUS_UNAUTHORIZED,
            LoginDecision::InvalidCredentials => STATUS_UNAUTHORIZED,
            LoginDecision::ServerError => STATUS_SERVER_ERROR,
        }
    }

    /// The status of the reply: 200, 401 or 500.
    pub fn status(&self) -> (code: u16)
        ensures
            code == self.spec_status(),
    {
        match self {
            LoginDecision::Grant => STATUS_OK,
            LoginDecision::NotVerified => STATUS_UNAUTHORIZED,
            LoginDecision::InvalidCredentials => STATUS_UNAUTHORIZED,
            LoginDecision::ServerError => STATUS_SERVER_ERROR,
        }
    }

    /// The line of text in the reply.
    pub fn message(&self) -> (text: &'static str)
        ensures
            self is Grant ==> text@ == "Login successful"@,
            self is NotVerified ==> text@
                == "Account not verified. Please check your email for OTP."@,
            self is InvalidCredentials ==> text@ == "Invalid email or password"@,
            self is ServerError ==> text@ == "Server error"@,
    {
        match self {
            LoginDecision::Grant => "Login successful",
            LoginDecision::NotVerified => "Account not verified. Please check your email for OTP.",
            LoginDecision::InvalidCredentials => "Invalid email or password",
            LoginDecision::ServerError => "Server error",
        }
    }
}

impl LoginOutcome {
    /// The decision that this outcome carries out.
    pub open spec fn spec_decision(self) -> LoginDecision {
        match self {
            LoginOutcome::Success { .. } => LoginDecision::Grant,
            LoginOutcome::NotVerified => LoginDecision::NotVerified,
            LoginOutcome::InvalidCredentials => LoginDecision::InvalidCredentials,
            LoginOutcome::ServerError => LoginDecision::ServerError,
        }
    }

    /// The decision that this outcome carries out.
    pub fn decision(&self) -> (decision: LoginDecision)
        ensures
            decision == self.spec_decision(),
    {
        match self {
            LoginOutcome::Success { .. } => LoginDecision::Grant,
            LoginOutcome::NotVerified => LoginDecision::NotVerified,
            LoginOutcome::InvalidCredentials => LoginDecision::InvalidCredentials,
            LoginOutcome::ServerError => LoginDecision::ServerError,
        }
    }
}

/// Decides a login on what the lookup gave and on whether the password
/// matched.
pub fn decide_login(found: &Lookup, password_ok: bool) -> (decision: LoginDecision)
    ensures
        decision == login_decision(lookup_view(*found), password_ok),
{
    match found {
        Err(_) => LoginDecision::ServerError,
        Ok(None) => LoginDecision::InvalidCredentials,
        Ok(Some(account)) => {
            if !account.verified {
                LoginDecision::NotVerified
            } else if password_ok {
                LoginDecision::Grant
            } else {
                LoginDecision::InvalidCredentials
            }
        },
    }
}

/// Serves a login, given what the lookup by the request's email gave.
///
/// A token is issued only to a verified account with the right password, and
/// names that account.
pub fn login(payload: &LoginRequest, found: Lookup, secret: &str) -> (outcome: LoginOutcome)
    ensures
        outcome.spec_decision() == login_decision(
            lookup_view(found),
            password_ok(lookup_view(found), payload.password@),
        ),
        outcome matches LoginOutcome::Success { user_id, username, token } ==> {
            &&& found matches Ok(Some(account))
            &&& user_id == account.id
            &&& username@ == account.username@
            &&& is_issued_token(token@, user_id, secret@)
        },
{
    let matched = match &found {
        Ok(Some(account)) => {
            if account.verified {
                verify_password(payload.password.as_str(), account.password_hash.as_str())
            } else {
                false
            }
        },
        _ => false,
    };
    match decide_login(&found, matched) {
        LoginDecision::Grant => match found {
            Ok(Some(account)) => {
                let token = generate_jwt(account.id, secret);
                LoginOutcome::Success { user_id: account.id, username: account.username, token }
            },
            _ => LoginOutcome::ServerError,
        },
        LoginDecision::NotVerified => LoginOutcome::NotVerified,
        LoginDecision::InvalidCredentials => LoginOutcome::InvalidCredentials,
        LoginDecision::ServerError => LoginOutcome::ServerError,
    }
}

/// A login to an unverified account is refused as not verified, whether or
/// not the password is right.
pub proof fn lemma_unverified_login_refused(account: AccountView, password_ok: bool)
    requires
        !account.verified,
    ensures
        login_decision(Ok(Some(account)), password_ok) == LoginDecision::NotVerified,
{
}

/// A wrong password and an unknown email get the same refusal.
pub proof fn lemma_wrong_password_reads_as_unknown_email(account: AccountView)
    requires
        account.verified,
    ensures
        login_decision(Ok(Some(account)), false) == login_decision(Ok(None), false),
        login_decision(Ok(None), false) == LoginDecision::InvalidCredentials,
{
}

// ---------------------------------------------------------------------------
// Password reset
// ---------------------------------------------------------------------------
/// The body of a password-reset request.
#[derive(Clone, Debug)]
pub struct ResetPasswordRequest {
    pub email: String,
    pub new_password: String,
}

/// The write that resets a password: the hash for the account with `email`.
#[derive(Clone, Debug)]
pub struct PasswordUpdate {
    pub email: String,
    pub password_hash: String,
}

/// How a password reset ends.
#[derive(Clone, Copy, Debug, PartialEq, Eq, Structural)]
pub enum ResetOutcome {
    Updated,
    NotFound,
    Invalid,
    ServerError,
}

/// What a password-reset request leads to first.
#[derive(Clone, Debug)]
pub enum ResetStep {
    /// Write this hash, then call `reset_password_reply` with the result.
    Update(PasswordUpdate),
    /// Reply at once.
    Reply(ResetOutcome),
}

/// The outcome of a reset, given the id of the account that was updated, if
/// any was.
pub open spec fn reset_outcome(updated: Result<Option<i32>, StoreError>) -> ResetOutcome {
    match updated {
        Ok(Some(_)) => ResetOutcome::Updated,
        Ok(None) => ResetOutcome::NotFound,
        Err(_) => ResetOutcome::ServerError,
    }
}

impl ResetOutcome {
    /// The kind of failure, where the reset failed.
    pub open spec fn spec_error_kind(self) -> Option<ErrorKind> {
        match self {
            ResetOutcome::Updated => None,
            ResetOutcome::NotFound => Some(ErrorKind::NotFound),
            ResetOutcome::Invalid => Some(ErrorKind::Validation),
            ResetOutcome::ServerError => Some(ErrorKind::Transient),
        }
    }

    /// The kind of failure, where the reset failed.
    pub fn error_kind(&self) -> (kind: Option<ErrorKind>)
        ensures
            kind == self.spec_error_kind(),
    {
        match self {
            ResetOutcome::Updated => None,
            ResetOutcome::NotFound => Some(ErrorKind::NotFound),
            ResetOutcome::Invalid => Some(ErrorKind::Validation),
            ResetOutcome::ServerError => Some(ErrorKind::Transient),
        }
    }

    /// The status of the reply.
    pub open spec fn spec_status(self) -> u16 {
        match self {
            ResetOutcome::Updated => STATUS_OK,
            ResetOutcome::NotFound => STATUS_NOT_FOUND,
            ResetOutcome::Invalid => STATUS_BAD_REQUEST,
            ResetOutcome::ServerError => STATUS_SERVER_ERROR,
        }
    }

    /// The status of the reply: 200, 404, 400 or 500.
    pub fn status(&self) -> (code: u16)
        ensures
            code == self.spec_status(),
    {
        match self {
            ResetOutcome::Updated => STATUS_OK,
            ResetOutcome::NotFound => STATUS_NOT_FOUND,
            ResetOutcome::Invalid => STATUS_BAD_REQUEST,
            ResetOutcome::ServerError => STATUS_SERVER_ERROR,
        }
    }

    /// The line of text in the reply.
    pub fn message(&self) -> (text: &'static str)
        ensures
            self is Updated ==> text@ == "Password updated successfully"@,
            self is NotFound ==> text@ == "No user found with that email"@,
            self is Invalid ==> text@ == "Invalid password"@,
            self is ServerError ==> text@ == "Server error"@,
    {
        match self {
            ResetOutcome::Updated => "Password updated successfully",
            ResetOutcome::NotFound => "No user found with that email",
            ResetOutcome::Invalid => "Invalid password",
            ResetOutcome::ServerError => "Server error",
        }
    }
}

/// The first step of a reset, given the hash of the new password, or `None`
/// where the password cannot be hashed.
pub fn reset_step(payload: &ResetPasswordRequest, hashed: Option<String>) -> (step: ResetStep)
    ensures
        hashed matches Some(h) ==> (step matches ResetStep::Update(update) && update.email@
            == payload.email@ && update.password_hash@ == h@),
        hashed is None ==> step matches ResetStep::Reply(ResetOutcome::Invalid),
{
    match hashed {
        Some(password_hash) => ResetStep::Update(
            PasswordUpdate { email: payload.email.clone(), password_hash },
        ),
        None => ResetStep::Reply(ResetOutcome::Invalid),
    }
}

/// Hashes the new password of a reset request and names the write.
///
/// No proof of ownership is asked for: the email alone selects the account.
pub fn reset_password(payload: &ResetPasswordRequest) -> (step: ResetStep)
    ensures
        hashable(payload.new_password@) ==> (step matches ResetStep::Update(update)
            && update.email@ == payload.email@ && password_matches(
            payload.new_password@,
            update.password_hash@,
        ) && update.password_hash@.len() > 0),
        !hashable(payload.new_password@) ==> step matches ResetStep::Reply(ResetOutcome::Invalid),
{
    reset_step(payload, try_hash_password(payload.new_password.as_str()))
}

/// Ends a reset on what the write gave.
pub fn reset_password_reply(updated: Result<Option<i32>, StoreError>) -> (outcome: ResetOutcome)
    ensures
        outcome == reset_outcome(updated),
{
    match updated {
        Ok(Some(_)) => ResetOutcome::Updated,
        Ok(None) => ResetOutcome::NotFound,
        Err(_) => ResetOutcome::ServerError,
    }
}

// ---------------------------------------------------------------------------
// Profile
// ---------------------------------------------------------------------------
/// What the profile route shows of an account.
#[derive(Clone, Debug)]
pub struct Profile {
    pub id: i32,
    pub username: String,
    pub email: String,
    pub created_at: i128,
    pub updated_at: i128,
}

/// Why no profile is looked up.
#[derive(Clone, Copy, Debug, PartialEq, Eq, Structural)]
pub enum ProfileRefusal {
    /// The request has no `Authorization` header.
    MissingToken,
    /// The header is not of the form `Bearer <token>`.
    InvalidTokenFormat,
    /// The token is malformed, wrongly signed or expired.
    InvalidToken,
    /// The token's subject is not an account id.
    InvalidSubject,
}

/// What a profile request leads to first.
#[derive(Clone, Copy, Debug, PartialEq, Eq, Structural)]
pub enum ProfileStep {
    /// Look this account up, then call `get_profile_reply` with the result.
    Fetch { user_id: i32 },
    /// Reply at once.
    Refuse(ProfileRefusal),
}

/// How a profile request ends.
#[derive(Clone, Debug)]
pub enum ProfileOutcome {
    Found(Profile),
    Refused(ProfileRefusal),
    NotFound,
    ServerError,
}

/// The first step of a profile request, given the guard's decision.
pub open spec fn profile_step(admission: AdmissionView) -> ProfileStep {
    match admission {
        AdmissionView::Rejected(RejectReason::MissingToken) => ProfileStep::Refuse(
            ProfileRefusal::MissingToken,
        ),
        AdmissionView::Rejected(RejectReason::MalformedHeader) => ProfileStep::Refuse(
            ProfileRefusal::InvalidTokenFormat,
        ),
        AdmissionView::Rejected(RejectReason::InvalidToken) => ProfileStep::Refuse(
            ProfileRefusal::InvalidToken,
        ),
        AdmissionView::Admitted { subject } => match parsed_i32(subject) {
            Some(user_id) => ProfileStep::Fetch { user_id },
            None => ProfileStep::Refuse(ProfileRefusal::InvalidSubject),
        },
    }
}

impl ProfileRefusal {
    /// The status of the reply.
    pub open spec fn spec_status(self) -> u16 {
        match self {
            ProfileRefusal::MissingToken => STATUS_UNAUTHORIZED,
            ProfileRefusal::InvalidTokenFormat => STATUS_UNAUTHORIZED,
            ProfileRefusal::InvalidToken => STATUS_UNAUTHORIZED,
            ProfileRefusal::InvalidSubject => STATUS_SERVER_ERROR,
        }
    }

    /// The status of the reply: 401, or 500 for a subject that is no id.
    pub fn status(&self) -> (code: u16)
        ensures
            code == self.spec_status(),
    {
        match self {
            ProfileRefusal::MissingToken => STATUS_UNAUTHORIZED,
            ProfileRefusal::InvalidTokenFormat => STATUS_UNAUTHORIZED,
            ProfileRefusal::InvalidToken => STATUS_UNAUTHORIZED,
            ProfileRefusal::InvalidSubject => STATUS_SERVER_ERROR,
        }
    }

    /// The line of text in the reply.
    pub open spec fn spec_message(self) -> Seq<char> {
        match self {
            ProfileRefusal::MissingToken => "Missing token"@,
            ProfileRefusal::InvalidTokenFormat => "Invalid token format"@,
            ProfileRefusal::InvalidToken => "Invalid or expired token"@,
            ProfileRefusal::InvalidSubject => "Invalid user id in token"@,
        }
    }

    /// The line of text in the reply.
    pub fn message(&self) -> (text: &'static str)
        ensures
            text@ == self.spec_message(),
    {
        match self {
            ProfileRefusal::MissingToken => "Missing token",
            ProfileRefusal::InvalidTokenFormat => "Invalid token format",
            ProfileRefusal::InvalidToken => "Invalid or expired token",
            ProfileRefusal::InvalidSubject => "Invalid user id in token",
        }
    }
}

impl ProfileOutcome {
    /// The kind of failure, where no profile is shown.
    pub open spec fn spec_error_kind(self) -> Option<ErrorKind> {
        match self {
            ProfileOutcome::Found(_) => None,
            ProfileOutcome::Refused(ProfileRefusal::MissingToken) => Some(ErrorKind::Auth),
            ProfileOutcome::Refused(ProfileRefusal::InvalidTokenFormat) => Some(ErrorKind::Auth),
            ProfileOutcome::Refused(ProfileRefusal::InvalidToken) => Some(ErrorKind::Auth),
            ProfileOutcome::Refused(ProfileRefusal::InvalidSubject) => Some(ErrorKind::Transient),
            ProfileOutcome::NotFound => Some(ErrorKind::NotFound),
            ProfileOutcome::ServerError => Some(ErrorKind::Transient),
        }
    }

    /// The kind of failure, where no profile is shown.
    pub fn error_kind(&self) -> (kind: Option<ErrorKind>)
        ensures
            kind == self.spec_error_kind(),
    {
        match self {
            ProfileOutcome::Found(_) => None,
            ProfileOutcome::Refused(ProfileRefusal::MissingToken) => Some(ErrorKind::Auth),
            ProfileOutcome::Refused(ProfileRefusal::InvalidTokenFormat) => Some(ErrorKind::Auth),
            ProfileOutcome::Refused(ProfileRefusal::InvalidToken) => Some(ErrorKind::Auth),
            ProfileOutcome::Refused(ProfileRefusal::InvalidSubject) => Some(ErrorKind::Transient),
            ProfileOutcome::NotFound => Some(ErrorKind::NotFound),
            ProfileOutcome::ServerError => Some(ErrorKind::Transient),
        }
    }

    /// The line of text in the reply, where no profile is shown.
    pub fn message(&self) -> (text: Option<&'static str>)
        ensures
            self is Found ==> text is None,
            self matches ProfileOutcome::Refused(refusal) ==> text is Some && text->0@
                == refusal.spec_message(),
            self is NotFound ==> text is Some && text->0@ == "User not found"@,
            self is ServerError ==> text is Some && text->0@ == "Server error"@,
    {
        match self {
            ProfileOutcome::Found(_) => None,
            ProfileOutcome::Refused(refusal) => Some(refusal.message()),
            ProfileOutcome::NotFound => Some("User not found"),
            ProfileOutcome::ServerError => Some("Server error"),
        }
    }

    /// The status of the reply.
    pub open spec fn spec_status(self) -> u16 {
        match self {
            ProfileOutcome::Found(_) => STATUS_OK,
            ProfileOutcome::Refused(refusal) => refusal.spec_status(),
            ProfileOutcome::NotFound => STATUS_NOT_FOUND,
            ProfileOutcome::ServerError => STATUS_SERVER_ERROR,
        }
    }

    /// The status of the reply: 200, 401, 404 or 500.
    pub fn status(&self) -> (code: u16)
        ensures
            code == self.spec_status(),
    {
        match self {
            ProfileOutcome::Found(_) => STATUS_OK,
            ProfileOutcome::Refused(refusal) => refusal.status(),
            ProfileOutcome::NotFound => STATUS_NOT_FOUND,
            ProfileOutcome::ServerError => STATUS_SERVER_ERROR,
        }
    }
}

/// The first step of a profile request, given the guard's decision: the
/// subject of an admitted request must be an account id.
pub fn profile_step_for(admission: &Admission) -> (step: ProfileStep)
    ensures
        step == profile_step(admission@),
{
    match admission {
        Admission::Rejected(RejectReason::MissingToken) => ProfileStep::Refuse(
            ProfileRefusal::MissingToken,
        ),
        Admission::Rejected(RejectReason::MalformedHeader) => ProfileStep::Refuse(
            ProfileRefusal::InvalidTokenFormat,
        ),
        Admission::Rejected(RejectReason::InvalidToken) => ProfileStep::Refuse(
            ProfileRefusal::InvalidToken,
        ),
        Admission::Admitted { subject } => match parse_i32(subject.as_str()) {
            Some(user_id) => ProfileStep::Fetch { user_id },
            None => ProfileStep::Refuse(ProfileRefusal::InvalidSubject),
        },
    }
}

/// Serves the first half of a profile request as of `now`: checks the bearer
/// token and reads the account id out of it.
pub fn get_profile_at(authorization: Option<&str>, secret: &str, now: u64) -> (step: ProfileStep)
    ensures
        step == profile_step(admission_of(opt_str_view(authorization), secret@, now)),
{
    let admission = evaluate_at(authorization, secret, now);
    profile_step_for(&admission)
}

/// Serves the first half of a profile request against the current time.
pub fn get_profile(authorization: Option<&str>, secret: &str) -> (step: ProfileStep)
    ensures
        exists|now: u64|
            step == profile_step(
                admission_of(opt_str_view(authorization), secret@, now),
            ),
{
    let admission = evaluate(authorization, secret);
    let ghost now = choose|now: u64|
        admission@ == admission_of(opt_str_view(authorization), secret@, now);
    let step = profile_step_for(&admission);
    assert(step == profile_step(
        admission_of(opt_str_view(authorization), secret@, now),
    ));
    step
}

/// Ends a profile request on what the lookup by id gave.
pub fn get_profile_reply(found: Lookup) -> (outcome: ProfileOutcome)
    ensures
        found is Err ==> outcome matches ProfileOutcome::ServerError,
        found matches Ok(None) ==> outcome matches ProfileOutcome::NotFound,
        found matches Ok(Some(account)) ==> (outcome matches ProfileOutcome::Found(profile)
            && profile.id == account.id && profile.username@ == account.username@
            && profile.email@ == account.email@ && profile.created_at == account.created_at
            && profile.updated_at == account.updated_at),
{
    match found {
        Err(_) => ProfileOutcome::ServerError,
        Ok(None) => ProfileOutcome::NotFound,
        Ok(Some(account)) => ProfileOutcome::Found(
            Profile {
                id: account.id,
                username: account.username,
                email: account.email,
                created_at: account.created_at,
                updated_at: account.updated_at,
            },
        ),
    }
}

/// A session token in a bearer header opens the profile of the account it
/// was issued to, for as long as it is valid, and no profile afterwards.
pub proof fn lemma_session_token_opens_own_profile(
    token: Seq<char>,
    user_id: i32,
    issued_at: u64,
    secret: Seq<char>,
    now: u64,
)
    requires
        is_session_token(token, user_id, issued_at, secret),
    ensures
        now <= issued_at + TOKEN_LIFETIME_SECS ==> profile_step(
            admission_of(Some(bearer_prefix() + token), secret, now),
        ) == (ProfileStep::Fetch { user_id }),
        now > issued_at + TOKEN_LIFETIME_SECS ==> profile_step(
            admission_of(Some(bearer_prefix() + token), secret, now),
        ) == ProfileStep::Refuse(ProfileRefusal::InvalidToken),
{
    let header = bearer_prefix() + token;
    assert(header.subrange(0, bearer_prefix().len() as int) =~= bearer_prefix());
    assert(header.subrange(bearer_prefix().len() as int, header.len() as int) =~= token);
    assert(bearer_token(header) == Some(token));
    lemma_session_token_lifetime(token, user_id, issued_at, secret, now);
}

/// The payload of the protected route.
pub fn protected_route() -> (text: &'static str)
    ensures
        text@ == "You have accessed a protected route!"@,
{
    "You have accessed a protected route!"
}

// ---------------------------------------------------------------------------
// Sending a one-time code
// ---------------------------------------------------------------------------
/// The body of a request for a one-time code.
#[derive(Clone, Debug)]
pub struct SendOtpRequest {
    pub email: String,
}

/// The code to store against an account and to deliver to its address.
#[derive(Clone, Debug)]
pub struct OtpDispatch {
    pub user_id: i32,
    pub email: String,
    pub code: String,
    pub issued_at: i128,
    pub expires_at: i128,
}

/// How a request for a one-time code ends.
#[derive(Clone, Copy, Debug, PartialEq, Eq, Structural)]
pub enum SendOtpOutcome {
    /// The code is stored and on its way.
    Sent,
    /// No account has the email.
    NotFound,
    /// The store failed at the lookup.
    LookupFailed,
    /// The store failed at storing the code.
    StoreFailed,
    /// The code is stored and usable, and was not delivered.
    DeliveryFailed,
}

/// What a request for a one-time code leads to first.
#[derive(Clone, Debug)]
pub enum SendOtpStep {
    /// Store this code, then call `send_otp_stored` with the result.
    Store(OtpDispatch),
    /// Reply at once.
    Reply(SendOtpOutcome),
}

/// What follows once the store has answered.
#[derive(Clone, Debug)]
pub enum SendOtpDelivery {
    /// Deliver these parts: call `send_otp_composed` with them.
    Deliver(OtpEmail),
    /// Reply at once.
    Reply(SendOtpOutcome),
}

/// What follows once the message is made, or could not be made.
pub enum SendOtpHandover {
    /// Hand this message to the relay, then call `send_otp_reply` with
    /// whether the relay took it.
    Send(Message),
    /// Reply at once.
    Reply(SendOtpOutcome),
}

impl SendOtpOutcome {
    /// The kind of failure, where no code was sent.
    pub open spec fn spec_error_kind(self) -> Option<ErrorKind> {
        match self {
            SendOtpOutcome::Sent => None,
            SendOtpOutcome::NotFound => Some(ErrorKind::NotFound),
            SendOtpOutcome::LookupFailed => Some(ErrorKind::Transient),
            SendOtpOutcome::StoreFailed => Some(ErrorKind::Transient),
            SendOtpOutcome::DeliveryFailed => Some(ErrorKind::Transient),
        }
    }

    /// The kind of failure, where no code was sent.
    pub fn error_kind(&self) -> (kind: Option<ErrorKind>)
        ensures
            kind == self.spec_error_kind(),
    {
        match self {
            SendOtpOutcome::Sent => None,
            SendOtpOutcome::NotFound => Some(ErrorKind::NotFound),
            SendOtpOutcome::LookupFailed => Some(ErrorKind::Transient),
            SendOtpOutcome::StoreFailed => Some(ErrorKind::Transient),
            SendOtpOutcome::DeliveryFailed => Some(ErrorKind::Transient),
        }
    }

    /// The status of the reply.
    pub open spec fn spec_status(self) -> u16 {
        match self {
            SendOtpOutcome::Sent => STATUS_OK,
            SendOtpOutcome::NotFound => STATUS_NOT_FOUND,
            SendOtpOutcome::LookupFailed => STATUS_SERVER_ERROR,
            SendOtpOutcome::StoreFailed => STATUS_SERVER_ERROR,
            SendOtpOutcome::DeliveryFailed => STATUS_SERVER_ERROR,
        }
    }

    /// The status of the reply: 200, 404 or 500.
    pub fn status(&self) -> (code: u16)
        ensures
            code == self.spec_status(),
    {
        match self {
            SendOtpOutcome::Sent => STATUS_OK,
            SendOtpOutcome::NotFound => STATUS_NOT_FOUND,
            SendOtpOutcome::LookupFailed => STATUS_SERVER_ERROR,
            SendOtpOutcome::StoreFailed => STATUS_SERVER_ERROR,
            SendOtpOutcome::DeliveryFailed => STATUS_SERVER_ERROR,
        }
    }

    /// The line of text in the reply. It says which step failed and nothing
    /// of why.
    pub fn message(&self) -> (text: &'static str)
        ensures
            self is Sent ==> text@ == "OTP sent successfully"@,
            self is NotFound ==> text@ == "User not found"@,
            self is LookupFailed ==> text@
                == "Internal Server error while fetching user from db"@,
            self is StoreFailed ==> text@ == "Internal Server error while updating otp in db"@,
            self is DeliveryFailed ==> text@ == "Internal Server error while sending email"@,
    {
        match self {
            SendOtpOutcome::Sent => "OTP sent successfully",
            SendOtpOutcome::NotFound => "User not found",
            SendOtpOutcome::LookupFailed => "Internal Server error while fetching user from db",
            SendOtpOutcome::StoreFailed => "Internal Server error while updating otp in db",
            SendOtpOutcome::DeliveryFailed => "Internal Server error while sending email",
        }
    }
}

/// Names what to store and deliver for `account`, given a freshly drawn code.
pub fn dispatch_for(account: &Account, otp: GeneratedOtp) -> (dispatch: OtpDispatch)
    ensures
        dispatch.user_id == account.id,
        dispatch.email@ == account.email@,
        dispatch.code@ == otp.code@,
        dispatch.issued_at == otp.issued_at,
        dispatch.expires_at == otp.expires_at,
{
    OtpDispatch {
        user_id: account.id,
        email: account.email.clone(),
        code: otp.code,
        issued_at: otp.issued_at,
        expires_at: otp.expires_at,
    }
}

/// Serves a request for a one-time code, given what the lookup by the
/// request's email gave: draws a code for the account that was found.
pub fn send_otp(found: &Lookup) -> (step: SendOtpStep)
    ensures
        *found is Err ==> step matches SendOtpStep::Reply(SendOtpOutcome::LookupFailed),
        *found matches Ok(None) ==> step matches SendOtpStep::Reply(SendOtpOutcome::NotFound),
        *found matches Ok(Some(account)) ==> (step matches SendOtpStep::Store(dispatch)
            && dispatch.user_id == account.id && dispatch.email@ == account.email@ && is_otp_code(
            dispatch.code@,
        ) && dispatch.expires_at == dispatch.issued_at + OTP_VALIDITY_NANOS),
{
    match found {
        Err(_) => SendOtpStep::Reply(SendOtpOutcome::LookupFailed),
        Ok(None) => SendOtpStep::Reply(SendOtpOutcome::NotFound),
        Ok(Some(account)) => SendOtpStep::Store(dispatch_for(account, generate())),
    }
}

/// Goes on once the store has answered: where the code is stored, the parts of
/// the message are named, to the account's address and with the stored code;
/// where it is not, nothing is delivered.
pub fn send_otp_stored(stored: Result<(), StoreError>, dispatch: &OtpDispatch) -> (next:
    SendOtpDelivery)
    ensures
        stored is Err ==> next matches SendOtpDelivery::Reply(SendOtpOutcome::StoreFailed),
        stored is Ok ==> (next matches SendOtpDelivery::Deliver(email) && email@ == otp_mail(
            dispatch.email@,
            dispatch.code@,
        )),
{
    match stored {
        Err(_) => SendOtpDelivery::Reply(SendOtpOutcome::StoreFailed),
        Ok(_) => SendOtpDelivery::Deliver(
            otp_email(dispatch.email.as_str(), dispatch.code.as_str()),
        ),
    }
}

/// Makes the message of the parts. A failure to make it counts as a failed
/// delivery: the stored code stays as it is and is usable.
pub fn send_otp_composed(email: OtpEmail) -> (next: SendOtpHandover)
    ensures
        address_fault(email.from@, email.reply_to@, email.to@) is Some ==> next
            matches SendOtpHandover::Reply(SendOtpOutcome::DeliveryFailed),
        address_fault(email.from@, email.reply_to@, email.to@) is None ==> next is Send || next
            matches SendOtpHandover::Reply(SendOtpOutcome::DeliveryFailed),
{
    match compose(email) {
        Ok(message) => SendOtpHandover::Send(message),
        Err(_) => SendOtpHandover::Reply(SendOtpOutcome::DeliveryFailed),
    }
}

/// Ends a request for a one-time code on whether the relay took the message.
pub fn send_otp_reply(delivered: bool) -> (outcome: SendOtpOutcome)
    ensures
        outcome == if delivered {
            SendOtpOutcome::Sent
        } else {
            SendOtpOutcome::DeliveryFailed
        },
{
    if delivered {
        SendOtpOutcome::Sent
    } else {
        SendOtpOutcome::DeliveryFailed
    }
}

// ---------------------------------------------------------------------------
// Confirming a one-time code
// ---------------------------------------------------------------------------
/// The body of a request that submits a one-time code.
#[derive(Clone, Debug)]
pub struct VerifyOtpRequest {
    pub email: String,
    pub otp: String,
}

/// How a submission of a one-time code ends.
#[derive(Clone, Copy, Debug, PartialEq, Eq, Structural)]
pub enum VerifyOtpOutcome {
    /// The account is verified now and no code is pending.
    Verified,
    /// No account has the email.
    NotFound,
    /// The store failed at the lookup.
    LookupFailed,
    /// No code is pending for the account.
    NoOtpPending,
    /// The submitted code is not the stored one.
    InvalidOtp,
    /// The stored code's window has closed.
    Expired,
    /// The code was right and the store failed to record it.
    UpdateFailed,
}

/// What a submission leads to first.
#[derive(Clone, Copy, Debug, PartialEq, Eq, Structural)]
pub enum VerifyOtpStep {
    /// Mark this account verified and clear its code in one write, then call
    /// `verify_otp_reply` with the result.
    Confirm { user_id: i32 },
    /// Reply at once.
    Reply(VerifyOtpOutcome),
}

/// The first step on a submission at `now`, given what the lookup gave.
pub open spec fn verify_otp_step(
    found: Result<Option<AccountView>, StoreError>,
    submitted: Seq<char>,
    now: i128,
) -> VerifyOtpStep {
    match found {
        Err(_) => VerifyOtpStep::Reply(VerifyOtpOutcome::LookupFailed),
        Ok(None) => VerifyOtpStep::Reply(VerifyOtpOutcome::NotFound),
        Ok(Some(account)) => match account.otp_verdict(submitted, now) {
            OtpVerdict::Valid => VerifyOtpStep::Confirm { user_id: account.id },
            OtpVerdict::NoOtpPending => VerifyOtpStep::Reply(VerifyOtpOutcome::NoOtpPending),
            OtpVerdict::Expired => VerifyOtpStep::Reply(VerifyOtpOutcome::Expired),
            OtpVerdict::Mismatch => VerifyOtpStep::Reply(VerifyOtpOutcome::InvalidOtp),
        },
    }
}

/// The outcome of a submission, given what the confirming write gave.
pub open spec fn verify_otp_outcome(updated: Result<(), StoreError>) -> VerifyOtpOutcome {
    match updated {
        Ok(_) => VerifyOtpOutcome::Verified,
        Err(_) => VerifyOtpOutcome::UpdateFailed,
    }
}

impl VerifyOtpOutcome {
    /// The kind of failure, where the account was not verified.
    pub open spec fn spec_error_kind(self) -> Option<ErrorKind> {
        match self {
            VerifyOtpOutcome::Verified => None,
            VerifyOtpOutcome::NotFound => Some(ErrorKind::NotFound),
            VerifyOtpOutcome::NoOtpPending => Some(ErrorKind::Otp),
            VerifyOtpOutcome::InvalidOtp => Some(ErrorKind::Otp),
            VerifyOtpOutcome::Expired => Some(ErrorKind::Otp),
            VerifyOtpOutcome::LookupFailed => Some(ErrorKind::Transient),
            VerifyOtpOutcome::UpdateFailed => Some(ErrorKind::Transient),
        }
    }

    /// The kind of failure, where the account was not verified.
    pub fn error_kind(&self) -> (kind: Option<ErrorKind>)
        ensures
            kind == self.spec_error_kind(),
    {
        match self {
            VerifyOtpOutcome::Verified => None,
            VerifyOtpOutcome::NotFound => Some(ErrorKind::NotFound),
            VerifyOtpOutcome::NoOtpPending => Some(ErrorKind::Otp),
            VerifyOtpOutcome::InvalidOtp => Some(ErrorKind::Otp),
            VerifyOtpOutcome::Expired => Some(ErrorKind::Otp),
            VerifyOtpOutcome::LookupFailed => Some(ErrorKind::Transient),
            VerifyOtpOutcome::UpdateFailed => Some(ErrorKind::Transient),
        }
    }

    /// The status of the reply.
    pub open spec fn spec_status(self) -> u16 {
        match self {
            VerifyOtpOutcome::Verified => STATUS_OK,
            VerifyOtpOutcome::NotFound => STATUS_NOT_FOUND,
            VerifyOtpOutcome::NoOtpPending => STATUS_BAD_REQUEST,
            VerifyOtpOutcome::InvalidOtp => STATUS_BAD_REQUEST,
            VerifyOtpOutcome::Expired => STATUS_BAD_REQUEST,
            VerifyOtpOutcome::LookupFailed => STATUS_SERVER_ERROR,
            VerifyOtpOutcome::UpdateFailed => STATUS_SERVER_ERROR,
        }
    }

    /// The status of the reply: 200, 400, 404 or 500.
    pub fn status(&self) -> (code: u16)
        ensures
            code == self.spec_status(),
    {
        match self {
            VerifyOtpOutcome::Verified => STATUS_OK,
            VerifyOtpOutcome::NotFound => STATUS_NOT_FOUND,
            VerifyOtpOutcome::NoOtpPending => STATUS_BAD_REQUEST,
            VerifyOtpOutcome::InvalidOtp => STATUS_BAD_REQUEST,
            VerifyOtpOutcome::Expired => STATUS_BAD_REQUEST,
            VerifyOtpOutcome::LookupFailed => STATUS_SERVER_ERROR,
            VerifyOtpOutcome::UpdateFailed => STATUS_SERVER_ERROR,
        }
    }

    /// The line of text in the reply.
    pub fn message(&self) -> (text: &'static str)
        ensures
            self is Verified ==> text@ == "OTP verified successfully"@,
            self is NotFound ==> text@ == "User not found"@,
            self is NoOtpPending ==> text@ == "No OTP found, request a new one"@,
            self is InvalidOtp ==> text@ == "Invalid OTP"@,
            self is Expired ==> text@ == "OTP expired"@,
            self is LookupFailed ==> text@ == "Database error"@,
            self is UpdateFailed ==> text@ == "Could not update verification status"@,
    {
        match self {
            VerifyOtpOutcome::Verified => "OTP verified successfully",
            VerifyOtpOutcome::NotFound => "User not found",
            VerifyOtpOutcome::NoOtpPending => "No OTP found, request a new one",
            VerifyOtpOutcome::InvalidOtp => "Invalid OTP",
            VerifyOtpOutcome::Expired => "OTP expired",
            VerifyOtpOutcome::LookupFailed => "Database error",
            VerifyOtpOutcome::UpdateFailed => "Could not update verification status",
        }
    }
}

/// Serves a submission as of `now`, given what the lookup by the request's
/// email gave: the submitted code is held against the account's stored code
/// and expiry.
pub fn verify_otp_at(payload: &VerifyOtpRequest, found: &Lookup, now: i128) -> (step: VerifyOtpStep)
    ensures
        step == verify_otp_step(lookup_view(*found), payload.otp@, now),
{
    match found {
        Err(_) => VerifyOtpStep::Reply(VerifyOtpOutcome::LookupFailed),
        Ok(None) => VerifyOtpStep::Reply(VerifyOtpOutcome::NotFound),
        Ok(Some(account)) => {
            let verdict = match &account.otp_code {
                Some(code) => verify(
                    Some(code.as_str()),
                    account.otp_expires_at,
                    payload.otp.as_str(),
                    now,
                ),
                None => verify(None, account.otp_expires_at, payload.otp.as_str(), now),
            };
            match verdict {
                OtpVerdict::Valid => VerifyOtpStep::Confirm { user_id: account.id },
                OtpVerdict::NoOtpPending => VerifyOtpStep::Reply(VerifyOtpOutcome::NoOtpPending),
                OtpVerdict::Expired => VerifyOtpStep::Reply(VerifyOtpOutcome::Expired),
                OtpVerdict::Mismatch => VerifyOtpStep::Reply(VerifyOtpOutcome::InvalidOtp),
            }
        },
    }
}

/// Serves a submission against the current time.
pub fn verify_otp(payload: &VerifyOtpRequest, found: &Lookup) -> (step: VerifyOtpStep)
    ensures
        exists|now: i128| step == verify_otp_step(lookup_view(*found), payload.otp@, now),
{
    let now = now_nanos();
    let step = verify_otp_at(payload, found, now);
    assert(step == verify_otp_step(lookup_view(*found), payload.otp@, now));
    step
}

/// Ends a submission on what the confirming write gave.
pub fn verify_otp_reply(updated: Result<(), StoreError>) -> (outcome: VerifyOtpOutcome)
    ensures
        outcome == verify_otp_outcome(updated),
{
    match updated {
        Ok(_) => VerifyOtpOutcome::Verified,
        Err(_) => VerifyOtpOutcome::UpdateFailed,
    }
}

/// Every reply has the status of the kind of failure it reports, and 200
/// where it reports none: a transient failure is a 500 whichever request met
/// it, and never shares a status with a validation error.
pub proof fn lemma_status_follows_kind(
    signup: SignupOutcome,
    login: LoginDecision,
    reset: ResetOutcome,
    profile: ProfileOutcome,
    sent: SendOtpOutcome,
    verified: VerifyOtpOutcome,
)
    ensures
        signup.spec_status() == status_of(signup.spec_error_kind()),
        login.spec_status() == status_of(login.spec_error_kind()),
        reset.spec_status() == status_of(reset.spec_error_kind()),
        profile.spec_status() == status_of(profile.spec_error_kind()),
        sent.spec_status() == status_of(sent.spec_error_kind()),
        verified.spec_status() == status_of(verified.spec_error_kind()),
{
}

/// The code that was stored for an account confirms it once, within its
/// window: the first submission leads to the confirming write, and once that
/// write is done every submission finds no code pending.
pub proof fn lemma_stored_code_confirms_once(
    account: AccountView,
    code: Seq<char>,
    expires_at: i128,
    now: i128,
    again: Seq<char>,
    later: i128,
)
    requires
        now <= expires_at,
    ensures
        verify_otp_step(Ok(Some(account.with_otp(code, expires_at))), code, now)
            == (VerifyOtpStep::Confirm { user_id: account.id }),
        verify_otp_step(Ok(Some(account.with_otp(code, expires_at).confirmed())), again, later)
            == VerifyOtpStep::Reply(VerifyOtpOutcome::NoOtpPending),
        account.with_otp(code, expires_at).confirmed().verified,
{
}

/// A code drawn at `issued_at` is accepted up to five minutes later and
/// refused as expired after that.
pub proof fn lemma_code_window(
    account: AccountView,
    code: Seq<char>,
    issued_at: i128,
    now: i128,
)
    requires
        issued_at + OTP_VALIDITY_NANOS <= i128::MAX,
    ensures
        now <= issued_at + OTP_VALIDITY_NANOS ==> verify_otp_step(
            Ok(Some(account.with_otp(code, (issued_at + OTP_VALIDITY_NANOS) as i128))),
            code,
            now,
        ) == (VerifyOtpStep::Confirm { user_id: account.id }),
        now > issued_at + OTP_VALIDITY_NANOS ==> verify_otp_step(
            Ok(Some(account.with_otp(code, (issued_at + OTP_VALIDITY_NANOS) as i128))),
            code,
            now,
        ) == VerifyOtpStep::Reply(VerifyOtpOutcome::Expired),
{
}

} // verus!
