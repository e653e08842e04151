use probhub_backend::account::Account;
use probhub_backend::otp::OtpVerdict;

const T0: i128 = 1_700_000_000_000_000_000;

fn alice() -> Account {
    Account::new(1, "alice".to_string(), "alice@x.com".to_string(), "$hash".to_string(), T0)
}

#[test]
fn new_account_is_unverified_with_no_code() {
    let a = alice();
    assert_eq!(a.id, 1);
    assert_eq!(a.username, "alice");
    assert_eq!(a.email, "alice@x.com");
    assert_eq!(a.password_hash, "$hash");
    assert!(!a.verified);
    assert_eq!(a.otp_code, None);
    assert_eq!(a.otp_expires_at, None);
    assert_eq!(a.created_at, T0);
    assert_eq!(a.updated_at, T0);
}

#[test]
fn set_password_hash_changes_hash_and_update_time_only() {
    let mut a = alice();
    a.set_otp("123456".to_string(), T0 + 5);
    a.set_password_hash("$other".to_string(), T0 + 9);
    assert_eq!(a.password_hash, "$other");
    assert_eq!(a.updated_at, T0 + 9);
    assert_eq!(a.created_at, T0);
    assert_eq!(a.otp_code.as_deref(), Some("123456"));
    assert_eq!(a.otp_expires_at, Some(T0 + 5));
    assert!(!a.verified);
    assert_eq!(a.id, 1);
}

#[test]
fn set_otp_overwrites_the_pending_code() {
    let mut a = alice();
    a.set_otp("111111".to_string(), T0 + 5);
    a.set_otp("222222".to_string(), T0 + 50);
    assert_eq!(a.otp_code.as_deref(), Some("222222"));
    assert_eq!(a.otp_expires_at, Some(T0 + 50));
    assert_eq!(a.submit_otp("111111", T0), OtpVerdict::Mismatch);
    assert_eq!(a.submit_otp("222222", T0), OtpVerdict::Valid);
}

#[test]
fn confirm_verifies_and_clears() {
    let mut a = alice();
    a.set_otp("111111".to_string(), T0 + 5);
    a.confirm();
    assert!(a.verified);
    assert_eq!(a.otp_code, None);
    assert_eq!(a.otp_expires_at, None);
    assert_eq!(a.password_hash, "$hash");
}

#[test]
fn correct_code_is_valid_exactly_once() {
    let mut a = alice();
    a.set_otp("123456".to_string(), T0 + 300);
    assert_eq!(a.submit_otp("123456", T0 + 10), OtpVerdict::Valid);
    assert!(a.verified);
    assert_eq!(a.otp_code, None);
    assert_eq!(a.otp_expires_at, None);
    assert_eq!(a.submit_otp("123456", T0 + 11), OtpVerdict::NoOtpPending);
    assert!(a.verified);
}

#[test]
fn refused_submission_changes_nothing() {
    let mut a = alice();
    assert_eq!(a.submit_otp("123456", T0), OtpVerdict::NoOtpPending);
    assert!(!a.verified);

    a.set_otp("123456".to_string(), T0 + 300);
    assert_eq!(a.submit_otp("654321", T0 + 10), OtpVerdict::Mismatch);
    assert!(!a.verified);
    assert_eq!(a.otp_code.as_deref(), Some("123456"));

    assert_eq!(a.submit_otp("123456", T0 + 301), OtpVerdict::Expired);
    assert!(!a.verified);
    assert_eq!(a.otp_code.as_deref(), Some("123456"));
    assert_eq!(a.otp_expires_at, Some(T0 + 300));
}

#[test]
fn verification_is_never_taken_back() {
    let mut a = alice();
    a.confirm();
    a.set_password_hash("$other".to_string(), T0 + 1);
    assert!(a.verified);
    a.set_otp("123456".to_string(), T0 + 300);
    assert!(a.verified);
    assert_eq!(a.submit_otp("000000", T0 + 2), OtpVerdict::Mismatch);
    assert!(a.verified);
    assert_eq!(a.submit_otp("123456", T0 + 400), OtpVerdict::Expired);
    assert!(a.verified);
}
