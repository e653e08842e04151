use probhub_backend::middleware::{
    decide, evaluate, evaluate_at, extract_bearer, Admission, AuthMiddleware, RejectReason,
    STATUS_UNAUTHORIZED,
};
use probhub_backend::token::{generate_jwt, issue_at, Claims, TokenError};

const SECRET: &str = "a signing secret";
const NOW: u64 = 1_700_000_000;

fn subject_of(admission: Admission) -> String {
    match admission {
        Admission::Admitted { subject } => subject,
        Admission::Rejected(reason) => panic!("rejected: {:?}", reason),
    }
}

fn reason_of(admission: Admission) -> RejectReason {
    match admission {
        Admission::Admitted { subject } => panic!("admitted {:?}", subject),
        Admission::Rejected(reason) => reason,
    }
}

#[test]
fn extract_bearer_reads_the_token() {
    assert_eq!(extract_bearer("Bearer abc.def.ghi"), Some("abc.def.ghi"));
    assert_eq!(extract_bearer("Bearer "), Some(""));
    assert_eq!(extract_bearer("Bearer  x"), Some(" x"));
}

#[test]
fn extract_bearer_refuses_other_headers() {
    assert_eq!(extract_bearer(""), None);
    assert_eq!(extract_bearer("Bearer"), None);
    assert_eq!(extract_bearer("bearer abc"), None);
    assert_eq!(extract_bearer("Basic dXNlcjpwdw=="), None);
    assert_eq!(extract_bearer(" Bearer abc"), None);
    assert_eq!(extract_bearer("Bearerabc"), None);
}

#[test]
fn request_without_header_is_missing_its_token() {
    assert_eq!(reason_of(evaluate_at(None, SECRET, NOW)), RejectReason::MissingToken);
    assert_eq!(reason_of(evaluate(None, SECRET)), RejectReason::MissingToken);
}

#[test]
fn header_of_another_form_is_malformed() {
    assert_eq!(reason_of(evaluate_at(Some("Token abc"), SECRET, NOW)), RejectReason::MalformedHeader);
    assert_eq!(reason_of(evaluate_at(Some(""), SECRET, NOW)), RejectReason::MalformedHeader);
    assert_eq!(reason_of(evaluate(Some("Basic abc"), SECRET)), RejectReason::MalformedHeader);
    let token = issue_at(7, NOW, SECRET);
    assert_eq!(reason_of(evaluate_at(Some(&token), SECRET, NOW)), RejectReason::MalformedHeader);
}

#[test]
fn bearer_garbage_is_an_invalid_token() {
    assert_eq!(
        reason_of(evaluate_at(Some("Bearer garbage"), SECRET, NOW)),
        RejectReason::InvalidToken
    );
    assert_eq!(reason_of(evaluate_at(Some("Bearer "), SECRET, NOW)), RejectReason::InvalidToken);
    assert_eq!(reason_of(evaluate(Some("Bearer garbage"), SECRET)), RejectReason::InvalidToken);
}

#[test]
fn every_token_error_is_an_invalid_token() {
    let token = issue_at(7, NOW, SECRET);
    let header = format!("Bearer {}", token);
    assert_eq!(
        reason_of(evaluate_at(Some(&header), "another secret", NOW)),
        RejectReason::InvalidToken
    );
    assert_eq!(
        reason_of(evaluate_at(Some(&header), SECRET, NOW + 86_401)),
        RejectReason::InvalidToken
    );
    for error in [TokenError::Malformed, TokenError::InvalidSignature, TokenError::Expired] {
        assert_eq!(reason_of(decide(Err(error))), RejectReason::InvalidToken);
    }
}

#[test]
fn valid_bearer_token_admits_its_subject() {
    let token = issue_at(7, NOW, SECRET);
    let header = format!("Bearer {}", token);
    assert_eq!(subject_of(evaluate_at(Some(&header), SECRET, NOW)), "7");
    assert_eq!(subject_of(evaluate_at(Some(&header), SECRET, NOW + 86_400)), "7");
    assert_eq!(subject_of(decide(Ok(Claims { sub: "alice".to_string(), exp: NOW }))), "alice");
}

#[test]
fn fresh_token_admits_now() {
    let header = format!("Bearer {}", generate_jwt(12, SECRET));
    let admission = evaluate(Some(&header), SECRET);
    assert!(admission.is_admitted());
    assert_eq!(subject_of(admission), "12");
}

#[test]
fn rejection_is_uniform() {
    assert_eq!(STATUS_UNAUTHORIZED, 401);
    for reason in
        [RejectReason::MissingToken, RejectReason::MalformedHeader, RejectReason::InvalidToken]
    {
        assert_eq!(reason.status(), 401);
        assert_eq!(reason.message(), "Unauthorized");
        assert!(!Admission::Rejected(reason).is_admitted());
    }
}

#[test]
fn guard_wraps_a_service_and_decides_with_its_secret() {
    let factory = AuthMiddleware::new(SECRET.to_string());
    let guard = factory.new_transform("the service");
    assert_eq!(guard.service, "the service");
    assert_eq!(guard.secret, SECRET);

    let header = format!("Bearer {}", issue_at(7, NOW, SECRET));
    assert_eq!(subject_of(guard.call_at(Some(&header), NOW)), "7");
    assert_eq!(reason_of(guard.call_at(Some(&header), NOW + 86_401)), RejectReason::InvalidToken);
    assert_eq!(reason_of(guard.call_at(None, NOW)), RejectReason::MissingToken);
    assert_eq!(reason_of(guard.call(None)), RejectReason::MissingToken);
    assert_eq!(reason_of(guard.call(Some("Bearer garbage"))), RejectReason::InvalidToken);

    let other = AuthMiddleware::new("another secret".to_string()).new_transform(0u8);
    assert_eq!(reason_of(other.call_at(Some(&header), NOW)), RejectReason::InvalidToken);

    let fresh = format!("Bearer {}", generate_jwt(9, SECRET));
    assert_eq!(subject_of(guard.call(Some(&fresh))), "9");
}
