//! One-time codes: six decimal digits, valid for five minutes.
//!
//! A code is drawn without regard to any account. Whoever asks for it stores
//! it against the account and has it delivered; checking a submitted code
//! looks only at what was stored and at the clock.

use crate::text::{
    all_digits, lemma_zero_padded_digits, opt_str_view, render_zero_padded, str_eq, zero_padded,
};
use rand::Rng;
use vstd::prelude::*;

verus! {

/// Nanoseconds for which a one-time code is valid (five minutes).
pub const OTP_VALIDITY_NANOS: i128 = 300_000_000_000;

/// How many digits a one-time code has.
pub const OTP_DIGITS: u8 = 6;

/// How many one-time codes there are: `000000` to `999999`.
pub const OTP_CODE_SPACE: u32 = 1_000_000;

/// What checking a submitted one-time code against the stored one yields.
#[derive(Clone, Copy, Debug, PartialEq, Eq, Structural)]
pub enum OtpVerdict {
    /// The code matches and its window has not closed.
    Valid,
    /// No code is stored for the account.
    NoOtpPending,
    /// The stored code's window has closed.
    Expired,
    /// The submitted code differs from the stored one.
    Mismatch,
}

/// A freshly drawn code with its window.
#[derive(Clone, Debug)]
pub struct GeneratedOtp {
    /// Six decimal digits, leading zeros kept.
    pub code: String,
    /// When the code was drawn, in nanoseconds of Unix time.
    pub issued_at: i128,
    /// The last instant at which the code is valid.
    pub expires_at: i128,
}

/// Whether `code` has the shape of a one-time code: six decimal digits.
pub open spec fn is_otp_code(code: Seq<char>) -> bool {
    code.len() == OTP_DIGITS && all_digits(code)
}

/// The code that stands for the number `draw`.
pub open spec fn otp_code(draw: nat) -> Seq<char> {
    zero_padded(draw, OTP_DIGITS as nat)
}

/// The verdict on `submitted` at instant `now`, given what the account stores.
///
/// A missing code comes first, then expiry, then the comparison: an expired
/// code is reported as expired whether or not it matches. A stored code
/// without an expiry does not expire.
pub open spec fn otp_verdict(
    stored_code: Option<Seq<char>>,
    stored_expires_at: Option<i128>,
    submitted: Seq<char>,
    now: i128,
) -> OtpVerdict {
    match stored_code {
        None => OtpVerdict::NoOtpPending,
        Some(code) => {
            if stored_expires_at is Some && now > stored_expires_at->0 {
                OtpVerdict::Expired
            } else if submitted != code {
                OtpVerdict::Mismatch
            } else {
                OtpVerdict::Valid
            }
        },
    }
}

/// `rand::thread_rng().gen_range(low..high)`.
///
/// Trusted: the number drawn lies in the half-open range. `gen_range` panics
/// on an empty range, which `requires` leaves out.
#[verifier::external_body]
fn random_in_range(low: u32, high: u32) -> (n: u32)
    requires
        low < high,
    ensures
        low <= n < high,
{
    rand::thread_rng().gen_range(low..high)
}

/// `time::OffsetDateTime::now_utc().unix_timestamp_nanos()`: the Unix time in
/// nanoseconds.
///
/// Trusted: the result is a count of whole seconds that fits an `i64`, times
/// a thousand million, plus less than a second's worth of nanoseconds.
#[verifier::external_body]
fn utc_now_nanos() -> (now: i128)
    ensures
        i64::MIN * 1_000_000_000 <= now <= i64::MAX * 1_000_000_000 + 999_999_999,
{
    time::OffsetDateTime::now_utc().unix_timestamp_nanos()
}

/// The current instant, in nanoseconds of Unix time.
pub fn now_nanos() -> (now: i128)
    ensures
        now + OTP_VALIDITY_NANOS <= i128::MAX,
{
    utc_now_nanos()
}

/// Every number below a million stands for a well-shaped code.
pub proof fn lemma_otp_code_shape(draw: nat)
    ensures
        is_otp_code(otp_code(draw)),
{
    lemma_zero_padded_digits(draw, OTP_DIGITS as nat);
}

/// The code for `draw`, valid for five minutes from `now`.
pub fn otp_at(draw: u32, now: i128) -> (otp: GeneratedOtp)
    requires
        draw < OTP_CODE_SPACE,
        now + OTP_VALIDITY_NANOS <= i128::MAX,
    ensures
        otp.code@ == otp_code(draw as nat),
        is_otp_code(otp.code@),
        otp.issued_at == now,
        otp.expires_at == now + OTP_VALIDITY_NANOS,
{
    proof {
        lemma_otp_code_shape(draw as nat);
    }
    GeneratedOtp {
        code: render_zero_padded(draw, OTP_DIGITS),
        issued_at: now,
        expires_at: now + OTP_VALIDITY_NANOS,
    }
}

/// Draws a code uniformly from `000000` to `999999`, valid for five minutes
/// from now.
pub fn generate() -> (otp: GeneratedOtp)
    ensures
        is_otp_code(otp.code@),
        exists|draw: nat| draw < OTP_CODE_SPACE && otp.code@ == otp_code(draw),
        otp.expires_at == otp.issued_at + OTP_VALIDITY_NANOS,
{
    let draw = random_in_range(0, OTP_CODE_SPACE);
    let now = now_nanos();
    let otp = otp_at(draw, now);
    assert(draw < OTP_CODE_SPACE && otp.code@ == otp_code(draw as nat));
    otp
}

/// Checks a submitted code against the stored code and expiry at `now`.
pub fn verify(
    stored_code: Option<&str>,
    stored_expires_at: Option<i128>,
    submitted: &str,
    now: i128,
) -> (verdict: OtpVerdict)
    ensures
        verdict == otp_verdict(opt_str_view(stored_code), stored_expires_at, submitted@, now),
{
    match stored_code {
        None => OtpVerdict::NoOtpPending,
        Some(code) => {
            let expired = match stored_expires_at {
                Some(deadline) => now > deadline,
                None => false,
            };
            if expired {
                OtpVerdict::Expired
            } else if !str_eq(submitted, code) {
                OtpVerdict::Mismatch
            } else {
                OtpVerdict::Valid
            }
        },
    }
}

/// The stored code itself is valid up to and including its expiry, and
/// expired after it.
pub proof fn lemma_stored_code_window(code: Seq<char>, expires_at: i128, now: i128)
    ensures
        now <= expires_at ==> otp_verdict(Some(code), Some(expires_at), code, now)
            == OtpVerdict::Valid,
        now > expires_at ==> otp_verdict(Some(code), Some(expires_at), code, now)
            == OtpVerdict::Expired,
{
}

/// Once the stored code is cleared, every submission finds none pending.
pub proof fn lemma_cleared_code_is_not_pending(submitted: Seq<char>, now: i128)
    ensures
        otp_verdict(None, None, submitted, now) == OtpVerdict::NoOtpPending,
{
}

} // verus!
