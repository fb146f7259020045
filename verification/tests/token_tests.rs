use chimitheque_back::errors::AppError;
use chimitheque_back::identity::VerifiedClaims;
use chimitheque_back::keycache::{CachedKeySet, SigningKey};
use chimitheque_back::token::{
    after_claims, after_header, after_keys, begin, extract_bearer, with_decoded_header,
    ProviderConfig, VerifierStep,
};

fn signing_key(id: &str) -> SigningKey {
    SigningKey { key_id: id.to_string(), modulus: "n".to_string(), exponent: "AQAB".to_string() }
}

fn key_set(ids: &[&str], at: u64) -> CachedKeySet {
    let mut set = CachedKeySet::new();
    set.complete_refresh(Ok(ids.iter().map(|i| signing_key(i)).collect()), at).unwrap();
    set
}

fn with_email(email: Option<&str>) -> VerifiedClaims {
    VerifiedClaims { subject: "s".to_string(), email: email.map(|e| e.to_string()) }
}

fn failure_of(step: VerifierStep) -> AppError {
    match step {
        VerifierStep::Finished(Err(e)) => e,
        _ => panic!("the verification has not failed"),
    }
}

fn is_fetch(step: &VerifierStep, token: &str, key_id: &str) -> bool {
    matches!(step, VerifierStep::FetchKeys { token: t, key_id: k } if t == token && k == key_id)
}

fn is_validate(step: &VerifierStep, token: &str, key_id: &str) -> bool {
    matches!(step, VerifierStep::ValidateClaims { token: t, key } if t == token && key.key_id == key_id)
}

#[test]
fn provider_urls() {
    let config = ProviderConfig::for_realm("https://id.example.org", "lab", "inventory");
    assert_eq!(config.issuer, "https://id.example.org/realms/lab");
    assert_eq!(config.client_id, "inventory");
    assert_eq!(
        config.certs_endpoint(),
        "https://id.example.org/realms/lab/protocol/openid-connect/certs"
    );
    let given = ProviderConfig { issuer: "https://x/realms/y".to_string(), client_id: "c".to_string() };
    assert_eq!(given.certs_endpoint(), "https://x/realms/y/protocol/openid-connect/certs");
}

#[test]
fn bearer_token_is_what_follows_the_scheme() {
    assert_eq!(extract_bearer(Some("Bearer abc.def.ghi")), Ok("abc.def.ghi".to_string()));
    assert_eq!(extract_bearer(Some("Bearer  x")), Ok(" x".to_string()));
    assert_eq!(extract_bearer(Some("Bearer é")), Ok("é".to_string()));
}

#[test]
fn bearer_token_may_be_missing() {
    for header in [None, Some(""), Some("Bearer"), Some("Bearer "), Some("bearer abc"), Some("Basic abc"), Some(" Bearer abc"), Some("Bearerabc")] {
        assert_eq!(extract_bearer(header), Err(AppError::BearerTokenMissing));
    }
}

#[test]
fn scenario_request_without_authorization_header() {
    let step = begin(None);
    let error = failure_of(step);
    assert_eq!(error, AppError::BearerTokenMissing);
    assert_eq!(error.status_code(), 401);
    assert!(!error.is_logged());
}

#[test]
fn begin_asks_for_the_header_of_the_token() {
    match begin(Some("Bearer tok")) {
        VerifierStep::DecodeHeader { token } => assert_eq!(token, "tok"),
        _ => panic!("the header is not asked for"),
    }
}

#[test]
fn malformed_header_ends_the_verification() {
    let set = key_set(&["k1"], 0);
    let step = after_header(&set, "tok".to_string(), Err("not base64".to_string()), 1);
    assert_eq!(failure_of(step), AppError::DecodeJWTHeader("not base64".to_string()));
    let step = after_header(&set, "tok".to_string(), Ok(None), 1);
    assert_eq!(failure_of(step), AppError::HeaderKIDMissing);
}

#[test]
fn known_key_of_a_fresh_set_is_used_at_once() {
    let set = key_set(&["k1", "k2"], 100);
    let step = after_header(&set, "tok".to_string(), Ok(Some("k2".to_string())), 700);
    assert!(is_validate(&step, "tok", "k2"));
}

#[test]
fn missing_key_asks_for_a_fetch() {
    let set = key_set(&["k1"], 100);
    let step = after_header(&set, "tok".to_string(), Ok(Some("k9".to_string())), 100);
    assert!(is_fetch(&step, "tok", "k9"));
    let empty = CachedKeySet::new();
    let step = after_header(&empty, "tok".to_string(), Ok(Some("k1".to_string())), 100);
    assert!(is_fetch(&step, "tok", "k1"));
}

#[test]
fn stale_set_asks_for_a_fetch_even_for_a_known_key() {
    let set = key_set(&["k1"], 100);
    let step = after_header(&set, "tok".to_string(), Ok(Some("k1".to_string())), 701);
    assert!(is_fetch(&step, "tok", "k1"));
}

#[test]
fn unknown_key_fails_after_one_fetch() {
    let mut set = key_set(&["k1"], 100);
    let step = after_header(&set, "tok".to_string(), Ok(Some("k9".to_string())), 200);
    assert!(is_fetch(&step, "tok", "k9"));
    let step = after_keys(
        &mut set,
        "tok".to_string(),
        "k9".to_string(),
        Ok(vec![signing_key("k1"), signing_key("k2")]),
        200,
    );
    let error = failure_of(step);
    assert_eq!(error, AppError::KeyNotFoundInCache("k9".to_string()));
    assert_eq!(error.status_code(), 401);
    assert_eq!(set.len(), 2);
    assert_eq!(set.last_refreshed(), Some(200));
}

#[test]
fn fetched_key_is_used() {
    let mut set = CachedKeySet::new();
    let step = after_keys(
        &mut set,
        "tok".to_string(),
        "k2".to_string(),
        Ok(vec![signing_key("k1"), signing_key("k2")]),
        50,
    );
    assert!(is_validate(&step, "tok", "k2"));
    assert_eq!(set.last_refreshed(), Some(50));
}

#[test]
fn failed_fetch_falls_back_on_loaded_keys_only() {
    let mut set = key_set(&["k1"], 100);
    let step =
        after_keys(&mut set, "tok".to_string(), "k1".to_string(), Err("down".to_string()), 5000);
    assert!(is_validate(&step, "tok", "k1"));
    assert_eq!(set.last_refreshed(), Some(100));
    let step =
        after_keys(&mut set, "tok".to_string(), "k2".to_string(), Err("down".to_string()), 5000);
    assert_eq!(failure_of(step), AppError::KeyNotFoundInCache("k2".to_string()));
    let mut empty = CachedKeySet::new();
    let step =
        after_keys(&mut empty, "tok".to_string(), "k1".to_string(), Err("down".to_string()), 5000);
    assert_eq!(failure_of(step), AppError::KeyNotFoundInCache("k1".to_string()));
}

#[test]
fn validated_claims_need_an_email() {
    assert_eq!(after_claims(Ok(with_email(Some("a@b.c")))), Ok(with_email(Some("a@b.c"))));
    assert_eq!(after_claims(Ok(with_email(None))), Err(AppError::MissingEmailInClaims));
    assert_eq!(after_claims(Ok(with_email(Some("")))), Err(AppError::MissingEmailInClaims));
    assert_eq!(
        after_claims(Err("signature mismatch".to_string())),
        Err(AppError::ClaimsDecoding("signature mismatch".to_string()))
    );
}

#[test]
fn header_of_a_token_is_decoded() {
    let named = "eyJhbGciOiJSUzI1NiIsImtpZCI6ImsxIiwidHlwIjoiSldUIn0.e30.c2ln";
    let set = key_set(&["k1"], 100);
    let step = with_decoded_header(&set, named.to_string(), 100);
    assert!(is_validate(&step, named, "k1"));
    let other = key_set(&["k2"], 100);
    let step = with_decoded_header(&other, named.to_string(), 100);
    assert!(is_fetch(&step, named, "k1"));
}

#[test]
fn header_without_key_identifier_ends_the_verification() {
    let unnamed = "eyJhbGciOiJSUzI1NiIsInR5cCI6IkpXVCJ9.e30.c2ln";
    let set = key_set(&["k1"], 100);
    let step = with_decoded_header(&set, unnamed.to_string(), 100);
    assert_eq!(failure_of(step), AppError::HeaderKIDMissing);
}

#[test]
fn token_that_is_none_ends_the_verification() {
    let set = key_set(&["k1"], 100);
    for token in ["", "abc", "a.b", "a.b.c.d", "!!!.e30.c2ln", "e30.e30.c2ln"] {
        match failure_of(with_decoded_header(&set, token.to_string(), 100)) {
            AppError::DecodeJWTHeader(text) => assert!(!text.is_empty()),
            other => panic!("{}: {:?}", token, other),
        }
    }
}
