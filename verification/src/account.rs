//! The account record and the ways it changes: creation, a new password, a
//! pending one-time code, and verification.
//!
//! The store keeps the records; this module says what each write does to one.

use crate::otp::{otp_verdict, verify, OtpVerdict};
use crate::text::opt_string_view;
use vstd::prelude::*;

verus! {

/// A user's durable identity record.
#[derive(Clone, Debug)]
pub struct Account {
    /// Assigned by the store at creation; never changes.
    pub id: i32,
    pub username: String,
    /// The login key.
    pub email: String,
    /// The encoded hash of the password, never the password itself.
    pub password_hash: String,
    /// False until a one-time code has been confirmed.
    pub verified: bool,
    /// The pending one-time code, if one has been sent.
    pub otp_code: Option<String>,
    /// The last instant at which the pending code is valid.
    pub otp_expires_at: Option<i128>,
    pub created_at: i128,
    pub updated_at: i128,
}

/// An account record, as mathematics sees it.
pub struct AccountView {
    pub id: i32,
    pub username: Seq<char>,
    pub email: Seq<char>,
    pub password_hash: Seq<char>,
    pub verified: bool,
    pub otp_code: Option<Seq<char>>,
    pub otp_expires_at: Option<i128>,
    pub created_at: i128,
    pub updated_at: i128,
}

impl View for Account {
    type V = AccountView;

    open spec fn view(&self) -> AccountView {
        AccountView {
            id: self.id,
            username: self.username@,
            email: self.email@,
            password_hash: self.password_hash@,
            verified: self.verified,
            otp_code: opt_string_view(self.otp_code),
            otp_expires_at: self.otp_expires_at,
            created_at: self.created_at,
            updated_at: self.updated_at,
        }
    }
}

impl AccountView {
    /// A code is pending exactly when its expiry is, and the password hash is
    /// not empty.
    pub open spec fn wf(self) -> bool {
        &&& self.otp_code is Some <==> self.otp_expires_at is Some
        &&& self.password_hash.len() > 0
    }

    /// The record of an account created at `now`: unverified, no code pending.
    pub open spec fn created(
        id: i32,
        username: Seq<char>,
        email: Seq<char>,
        password_hash: Seq<char>,
        now: i128,
    ) -> AccountView {
        AccountView {
            id,
            username,
            email,
            password_hash,
            verified: false,
            otp_code: None,
            otp_expires_at: None,
            created_at: now,
            updated_at: now,
        }
    }

    /// The record after its password is reset at `now`.
    pub open spec fn with_password_hash(self, password_hash: Seq<char>, now: i128) -> AccountView {
        AccountView { password_hash, updated_at: now, ..self }
    }

    /// The record after a one-time code is stored; a code that was pending is
    /// overwritten.
    pub open spec fn with_otp(self, code: Seq<char>, expires_at: i128) -> AccountView {
        AccountView { otp_code: Some(code), otp_expires_at: Some(expires_at), ..self }
    }

    /// The record after its one-time code is confirmed: verified, nothing
    /// pending.
    pub open spec fn confirmed(self) -> AccountView {
        AccountView { verified: true, otp_code: None, otp_expires_at: None, ..self }
    }

    /// The verdict on a code submitted for this record at `now`.
    pub open spec fn otp_verdict(self, submitted: Seq<char>, now: i128) -> OtpVerdict {
        otp_verdict(self.otp_code, self.otp_expires_at, submitted, now)
    }

    /// The record after a code is submitted at `now`: confirmed where the
    /// code is valid, unchanged otherwise.
    pub open spec fn after_submission(self, submitted: Seq<char>, now: i128) -> AccountView {
        if self.otp_verdict(submitted, now) == OtpVerdict::Valid {
            self.confirmed()
        } else {
            self
        }
    }
}

impl Account {
    /// A new account: unverified, no code pending.
    pub fn new(id: i32, username: String, email: String, password_hash: String, now: i128) -> (account:
        Account)
        ensures
            account@ == AccountView::created(id, username@, email@, password_hash@, now),
            account@.wf() == (password_hash@.len() > 0),
            !account.verified,
    {
        Account {
            id,
            username,
            email,
            password_hash,
            verified: false,
            otp_code: None,
            otp_expires_at: None,
            created_at: now,
            updated_at: now,
        }
    }

    /// Overwrites the password hash and notes when.
    pub fn set_password_hash(&mut self, password_hash: String, now: i128)
        ensures
            final(self)@ == old(self)@.with_password_hash(password_hash@, now),
    {
        self.password_hash = password_hash;
        self.updated_at = now;
    }

    /// Stores a one-time code, overwriting any that was pending.
    pub fn set_otp(&mut self, code: String, expires_at: i128)
        ensures
            final(self)@ == old(self)@.with_otp(code@, expires_at),
    {
        self.otp_code = Some(code);
        self.otp_expires_at = Some(expires_at);
    }

    /// Marks the account verified and clears the pending code.
    pub fn confirm(&mut self)
        ensures
            final(self)@ == old(self)@.confirmed(),
    {
        self.verified = true;
        self.otp_code = None;
        self.otp_expires_at = None;
    }

    /// Checks a submitted code at `now` and, where it is valid, confirms the
    /// account in the same step.
    pub fn submit_otp(&mut self, submitted: &str, now: i128) -> (verdict: OtpVerdict)
        ensures
            verdict == old(self)@.otp_verdict(submitted@, now),
            final(self)@ == old(self)@.after_submission(submitted@, now),
    {
        let verdict = match &self.otp_code {
            Some(code) => verify(Some(code.as_str()), self.otp_expires_at, submitted, now),
            None => verify(None, self.otp_expires_at, submitted, now),
        };
        if verdict == OtpVerdict::Valid {
            self.confirm();
        }
        verdict
    }
}

/// Every change keeps a well-formed record well formed.
pub proof fn lemma_changes_keep_wf(
    a: AccountView,
    password_hash: Seq<char>,
    code: Seq<char>,
    expires_at: i128,
    submitted: Seq<char>,
    now: i128,
)
    requires
        a.wf(),
        password_hash.len() > 0,
    ensures
        a.with_password_hash(password_hash, now).wf(),
        a.with_otp(code, expires_at).wf(),
        a.confirmed().wf(),
        a.after_submission(submitted, now).wf(),
{
}

/// No change takes verification away, and only a confirmed code grants it.
pub proof fn lemma_verified_only_by_confirmation(
    a: AccountView,
    password_hash: Seq<char>,
    code: Seq<char>,
    expires_at: i128,
    submitted: Seq<char>,
    now: i128,
)
    ensures
        a.with_password_hash(password_hash, now).verified == a.verified,
        a.with_otp(code, expires_at).verified == a.verified,
        a.confirmed().verified,
        a.after_submission(submitted, now).verified == (a.verified || a.otp_verdict(submitted, now)
            == OtpVerdict::Valid),
{
}

/// A one-time code is good for one confirmation: submitting the stored code
/// in its window is valid and confirms the account, and whatever is submitted
/// afterwards finds no code pending.
pub proof fn lemma_otp_single_use(
    a: AccountView,
    code: Seq<char>,
    expires_at: i128,
    now: i128,
    again: Seq<char>,
    later: i128,
)
    requires
        now <= expires_at,
    ensures
        a.with_otp(code, expires_at).otp_verdict(code, now) == OtpVerdict::Valid,
        a.with_otp(code, expires_at).after_submission(code, now).verified,
        a.with_otp(code, expires_at).after_submission(code, now).otp_code is None,
        a.with_otp(code, expires_at).after_submission(code, now).otp_expires_at is None,
        a.with_otp(code, expires_at).after_submission(code, now).otp_verdict(again, later)
            == OtpVerdict::NoOtpPending,
{
}

/// Sending a code again overwrites the pending one: only the latest counts.
pub proof fn lemma_resend_overwrites(
    a: AccountView,
    first: Seq<char>,
    first_expires_at: i128,
    second: Seq<char>,
    second_expires_at: i128,
)
    ensures
        a.with_otp(first, first_expires_at).with_otp(second, second_expires_at) == a.with_otp(
            second,
            second_expires_at,
        ),
{
}

} // verus!
