use chimitheque_back::errors::{AppError, ErrorClass};

fn every_error() -> Vec<AppError> {
    vec![
        AppError::ClaimsRetrieval("x".to_string()),
        AppError::MissingEmailInClaims,
        AppError::ParseURI("x".to_string()),
        AppError::Database("x".to_string()),
        AppError::InvalidFirstPathSegment(None),
        AppError::InvalidFirstPathSegment(Some("x".to_string())),
        AppError::ChimithequePersonIdHeaderMissing,
        AppError::ChimithequePersonIdHeaderInvalid("x".to_string()),
        AppError::IdentityHeaderRejected("x".to_string()),
        AppError::PermissionDenied,
        AppError::CasbinError("x".to_string()),
        AppError::CasbinEnforcerLockFailed("x".to_string()),
        AppError::CasbinEnforcerNotReady,
        AppError::BearerTokenMissing,
        AppError::HeaderKIDMissing,
        AppError::DecodeJWTHeader("x".to_string()),
        AppError::KeyNotFoundInCache("x".to_string()),
        AppError::KeyFetchFailed("x".to_string()),
        AppError::ClaimsDecoding("x".to_string()),
        AppError::PersonNotFound("x".to_string()),
        AppError::InputValidation("x".to_string()),
        AppError::Pubchem("x".to_string()),
    ]
}

#[test]
fn status_codes_of_the_session_errors() {
    assert_eq!(AppError::ClaimsRetrieval("e".to_string()).status_code(), 500);
    assert_eq!(AppError::MissingEmailInClaims.status_code(), 500);
    assert_eq!(AppError::ParseURI("e".to_string()).status_code(), 400);
    assert_eq!(AppError::Database("e".to_string()).status_code(), 500);
    assert_eq!(AppError::InvalidFirstPathSegment(None).status_code(), 400);
    assert_eq!(AppError::ChimithequePersonIdHeaderMissing.status_code(), 403);
    assert_eq!(AppError::ChimithequePersonIdHeaderInvalid("e".to_string()).status_code(), 500);
    assert_eq!(AppError::PermissionDenied.status_code(), 403);
    assert_eq!(AppError::CasbinError("e".to_string()).status_code(), 500);
    assert_eq!(AppError::CasbinEnforcerLockFailed("e".to_string()).status_code(), 500);
}

#[test]
fn status_codes_of_the_token_errors() {
    assert_eq!(AppError::BearerTokenMissing.status_code(), 401);
    assert_eq!(AppError::HeaderKIDMissing.status_code(), 401);
    assert_eq!(AppError::DecodeJWTHeader("e".to_string()).status_code(), 401);
    assert_eq!(AppError::KeyNotFoundInCache("k1".to_string()).status_code(), 401);
    assert_eq!(AppError::KeyFetchFailed("e".to_string()).status_code(), 401);
    assert_eq!(AppError::ClaimsDecoding("e".to_string()).status_code(), 401);
    assert_eq!(AppError::PersonNotFound("a@b.c".to_string()).status_code(), 403);
    assert_eq!(AppError::CasbinEnforcerNotReady.status_code(), 500);
    assert_eq!(AppError::InputValidation("e".to_string()).status_code(), 400);
    assert_eq!(AppError::Pubchem("e".to_string()).status_code(), 500);
    assert_eq!(AppError::IdentityHeaderRejected("e".to_string()).status_code(), 500);
}

#[test]
fn classes_decide_status_and_logging() {
    for e in every_error() {
        let status = e.status_code();
        match e.class() {
            ErrorClass::ClientInput => {
                assert!(status == 400 || status == 401);
                assert!(!e.is_logged());
            }
            ErrorClass::Denied => {
                assert_eq!(status, 403);
                assert!(!e.is_logged());
            }
            ErrorClass::Upstream => {
                assert_eq!(status, 401);
                assert!(e.is_logged());
            }
            ErrorClass::Internal => {
                assert_eq!(status, 500);
                assert!(e.is_logged());
            }
        }
    }
}

#[test]
fn no_error_is_answered_with_success() {
    for e in every_error() {
        assert!(e.status_code() >= 400);
    }
}

#[test]
fn denial_is_not_logged() {
    assert!(!AppError::PermissionDenied.is_logged());
    assert_eq!(AppError::PermissionDenied.class(), ErrorClass::Denied);
    assert!(AppError::KeyFetchFailed("down".to_string()).is_logged());
    assert!(AppError::CasbinEnforcerNotReady.is_logged());
    assert!(!AppError::BearerTokenMissing.is_logged());
}

#[test]
fn messages_of_the_session_errors() {
    assert_eq!(AppError::ClaimsRetrieval("no session".to_string()).message(), "claims retrieval: no session");
    assert_eq!(AppError::MissingEmailInClaims.message(), "missing email in claims");
    assert_eq!(AppError::ParseURI("empty host".to_string()).message(), "parse URI: empty host");
    assert_eq!(AppError::Database("locked".to_string()).message(), "database: locked");
    assert_eq!(
        AppError::ChimithequePersonIdHeaderMissing.message(),
        "chimitheque person id header missing"
    );
    assert_eq!(
        AppError::ChimithequePersonIdHeaderInvalid("bad".to_string()).message(),
        "chimitheque person id header invalid: bad"
    );
    assert_eq!(AppError::PermissionDenied.message(), "permission denied");
    assert_eq!(AppError::CasbinError("boom".to_string()).message(), "casbin error: boom");
    assert_eq!(
        AppError::CasbinEnforcerLockFailed("poisoned".to_string()).message(),
        "casbin enforcer lock failed: poisoned"
    );
}

#[test]
fn messages_of_the_token_errors() {
    assert_eq!(AppError::BearerTokenMissing.message(), "bearer token missing");
    assert_eq!(AppError::HeaderKIDMissing.message(), "JWT header kid missing");
    assert_eq!(AppError::DecodeJWTHeader("bad".to_string()).message(), "decode JWT header: bad");
    assert_eq!(AppError::KeyNotFoundInCache("k9".to_string()).message(), "key not found in cache: k9");
    assert_eq!(AppError::KeyFetchFailed("refused".to_string()).message(), "key fetch failed: refused");
    assert_eq!(AppError::ClaimsDecoding("expired".to_string()).message(), "claims decoding: expired");
    assert_eq!(AppError::PersonNotFound("a@b.c".to_string()).message(), "person not found: a@b.c");
    assert_eq!(AppError::CasbinEnforcerNotReady.message(), "casbin enforcer not ready");
    assert_eq!(AppError::InputValidation("bad".to_string()).message(), "input validation: bad");
    assert_eq!(AppError::Pubchem("down".to_string()).message(), "pubchem: down");
    assert_eq!(
        AppError::IdentityHeaderRejected("chimitheque_person_email".to_string()).message(),
        "identity header rejected: chimitheque_person_email"
    );
}

#[test]
fn message_of_an_invalid_first_segment_quotes_it() {
    assert_eq!(
        AppError::InvalidFirstPathSegment(None).message(),
        "invalid first path segment: None"
    );
    assert_eq!(
        AppError::InvalidFirstPathSegment(Some("people".to_string())).message(),
        "invalid first path segment: Some(\"people\")"
    );
    for s in ["", "a\"b", "tab\there", "back\\slash", "é", "\u{7f}"] {
        let seg = Some(s.to_string());
        assert_eq!(
            AppError::InvalidFirstPathSegment(seg.clone()).message(),
            format!("invalid first path segment: {:?}", seg)
        );
    }
}

#[test]
fn into_response_carries_status_body_and_logging() {
    let r = AppError::PermissionDenied.into_response();
    assert_eq!(r.status, 403);
    assert_eq!(r.body, "permission denied");
    assert!(!r.logged);
    let r = AppError::Database("gone".to_string()).into_response();
    assert_eq!(r.status, 500);
    assert_eq!(r.body, "database: gone");
    assert!(r.logged);
    let r = AppError::BearerTokenMissing.into_response();
    assert_eq!(r.status, 401);
    assert_eq!(r.body, "bearer token missing");
    assert!(!r.logged);
}
