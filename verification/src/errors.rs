//! The errors of the authorization pipeline, and how each one is answered:
//! its class, its HTTP status, its message, and whether it is logged.

use vstd::prelude::*;
use vstd::string::*;

verus! {

/// Everything that can stop a request.
#[derive(Clone, Debug, PartialEq, Eq)]
pub enum AppError {
    /// The claims of the session could not be retrieved.
    ClaimsRetrieval(String),
    /// The verified claims carry no email, or an empty one.
    MissingEmailInClaims,
    /// The request path is not part of a valid URI.
    ParseURI(String),
    /// The data store failed.
    Database(String),
    /// The request path has no usable first segment.
    InvalidFirstPathSegment(Option<String>),
    /// The person identifier was not attached to the request.
    ChimithequePersonIdHeaderMissing,
    /// The attached person identifier is not an unsigned decimal number.
    ChimithequePersonIdHeaderInvalid(String),
    /// The header of this name could not be attached to the request.
    IdentityHeaderRejected(String),
    /// The policy denies the request.
    PermissionDenied,
    /// The policy engine could not evaluate the request.
    CasbinError(String),
    /// The lock around the policy enforcer is poisoned.
    CasbinEnforcerLockFailed(String),
    /// The policy enforcer has no engine, or not all of its predicates.
    CasbinEnforcerNotReady,
    /// The request has no bearer token.
    BearerTokenMissing,
    /// The token header names no key.
    HeaderKIDMissing,
    /// The token header is malformed.
    DecodeJWTHeader(String),
    /// The key that the token names is unknown, also after a refresh.
    KeyNotFoundInCache(String),
    /// The identity provider's keys could not be fetched.
    KeyFetchFailed(String),
    /// Signature, issuer, audience or validity period of the token is wrong.
    ClaimsDecoding(String),
    /// No person has the email of the verified claims.
    PersonNotFound(String),
    /// A submitted value is invalid.
    InputValidation(String),
    /// The compound database could not be queried.
    Pubchem(String),
}

/// The mathematical value of an [`AppError`]: the same cases over texts.
pub enum AppErrorView {
    ClaimsRetrieval(Seq<char>),
    MissingEmailInClaims,
    ParseURI(Seq<char>),
    Database(Seq<char>),
    InvalidFirstPathSegment(Option<Seq<char>>),
    ChimithequePersonIdHeaderMissing,
    ChimithequePersonIdHeaderInvalid(Seq<char>),
    IdentityHeaderRejected(Seq<char>),
    PermissionDenied,
    CasbinError(Seq<char>),
    CasbinEnforcerLockFailed(Seq<char>),
    CasbinEnforcerNotReady,
    BearerTokenMissing,
    HeaderKIDMissing,
    DecodeJWTHeader(Seq<char>),
    KeyNotFoundInCache(Seq<char>),
    KeyFetchFailed(Seq<char>),
    ClaimsDecoding(Seq<char>),
    PersonNotFound(Seq<char>),
    InputValidation(Seq<char>),
    Pubchem(Seq<char>),
}

/// The classes of errors, which decide status and logging.
#[derive(Clone, Copy, Debug, PartialEq, Eq, Structural)]
pub enum ErrorClass {
    /// The request itself is wrong: answered with 400 or 401, not logged.
    ClientInput,
    /// The caller may not do this: answered with 403, not logged.
    Denied,
    /// The identity provider failed or refused: answered with 401, logged.
    Upstream,
    /// The service itself failed: answered with 500, logged.
    Internal,
}

impl View for AppError {
    type V = AppErrorView;

    open spec fn view(&self) -> AppErrorView {
        match self {
            AppError::ClaimsRetrieval(s) => AppErrorView::ClaimsRetrieval(s@),
            AppError::MissingEmailInClaims => AppErrorView::MissingEmailInClaims,
            AppError::ParseURI(s) => AppErrorView::ParseURI(s@),
            AppError::Database(s) => AppErrorView::Database(s@),
            AppError::InvalidFirstPathSegment(o) => AppErrorView::InvalidFirstPathSegment(
                match o {
                    Some(s) => Some(s@),
                    None => None,
                },
            ),
            AppError::ChimithequePersonIdHeaderMissing => AppErrorView::ChimithequePersonIdHeaderMissing,
            AppError::ChimithequePersonIdHeaderInvalid(s) => AppErrorView::ChimithequePersonIdHeaderInvalid(s@),
            AppError::IdentityHeaderRejected(s) => AppErrorView::IdentityHeaderRejected(s@),
            AppError::PermissionDenied => AppErrorView::PermissionDenied,
            AppError::CasbinError(s) => AppErrorView::CasbinError(s@),
            AppError::CasbinEnforcerLockFailed(s) => AppErrorView::CasbinEnforcerLockFailed(s@),
            AppError::CasbinEnforcerNotReady => AppErrorView::CasbinEnforcerNotReady,
            AppError::BearerTokenMissing => AppErrorView::BearerTokenMissing,
            AppError::HeaderKIDMissing => AppErrorView::HeaderKIDMissing,
            AppError::DecodeJWTHeader(s) => AppErrorView::DecodeJWTHeader(s@),
            AppError::KeyNotFoundInCache(s) => AppErrorView::KeyNotFoundInCache(s@),
            AppError::KeyFetchFailed(s) => AppErrorView::KeyFetchFailed(s@),
            AppError::ClaimsDecoding(s) => AppErrorView::ClaimsDecoding(s@),
            AppError::PersonNotFound(s) => AppErrorView::PersonNotFound(s@),
            AppError::InputValidation(s) => AppErrorView::InputValidation(s@),
            AppError::Pubchem(s) => AppErrorView::Pubchem(s@),
        }
    }
}

/// The text that std's `Debug` writes for a string: the string in double
/// quotes, with the characters that need it escaped.
pub uninterp spec fn debug_quoted(s: Seq<char>) -> Seq<char>;

/// std's `Debug` formatting of a `str`. Claimed: the text depends on the
/// characters of the string alone.
#[verifier::external_body]
fn quote_for_debug(s: &str) -> (r: String)
    ensures
        r@ == debug_quoted(s@),
{
    format!("{:?}", s)
}

impl AppErrorView {
    /// The class of the error.
    pub open spec fn class(self) -> ErrorClass {
        match self {
            AppErrorView::ParseURI(_) | AppErrorView::InvalidFirstPathSegment(_)
            | AppErrorView::BearerTokenMissing | AppErrorView::HeaderKIDMissing
            | AppErrorView::DecodeJWTHeader(_) | AppErrorView::InputValidation(_) => ErrorClass::ClientInput,
            AppErrorView::ChimithequePersonIdHeaderMissing | AppErrorView::PermissionDenied
            | AppErrorView::PersonNotFound(_) => ErrorClass::Denied,
            AppErrorView::KeyNotFoundInCache(_) | AppErrorView::KeyFetchFailed(_)
            | AppErrorView::ClaimsDecoding(_) => ErrorClass::Upstream,
            AppErrorView::ClaimsRetrieval(_) | AppErrorView::MissingEmailInClaims
            | AppErrorView::Database(_) | AppErrorView::ChimithequePersonIdHeaderInvalid(_)
            | AppErrorView::IdentityHeaderRejected(_)
            | AppErrorView::CasbinError(_) | AppErrorView::CasbinEnforcerLockFailed(_)
            | AppErrorView::CasbinEnforcerNotReady | AppErrorView::Pubchem(_) => ErrorClass::Internal,
        }
    }

    /// The HTTP status that answers the error.
    pub open spec fn status(self) -> u16 {
        match self.class() {
            ErrorClass::Denied => 403,
            ErrorClass::Upstream => 401,
            ErrorClass::Internal => 500,
            ErrorClass::ClientInput => match self {
                AppErrorView::BearerTokenMissing | AppErrorView::HeaderKIDMissing
                | AppErrorView::DecodeJWTHeader(_) => 401,
                _ => 400,
            },
        }
    }

    /// Whether the error is written to the log: failures of the identity
    /// provider and of the service are, wrong requests and denials are not.
    pub open spec fn logged(self) -> bool {
        self.class() == ErrorClass::Upstream || self.class() == ErrorClass::Internal
    }

    /// The message of the error.
    pub open spec fn message(self) -> Seq<char> {
        match self {
            AppErrorView::ClaimsRetrieval(s) => "claims retrieval: "@ + s,
            AppErrorView::MissingEmailInClaims => "missing email in claims"@,
            AppErrorView::ParseURI(s) => "parse URI: "@ + s,
            AppErrorView::Database(s) => "database: "@ + s,
            AppErrorView::InvalidFirstPathSegment(o) => match o {
                Some(s) => "invalid first path segment: Some("@ + debug_quoted(s) + ")"@,
                None => "invalid first path segment: None"@,
            },
            AppErrorView::ChimithequePersonIdHeaderMissing => "chimitheque person id header missing"@,
            AppErrorView::ChimithequePersonIdHeaderInvalid(s) => "chimitheque person id header invalid: "@ + s,
            AppErrorView::IdentityHeaderRejected(s) => "identity header rejected: "@ + s,
            AppErrorView::PermissionDenied => "permission denied"@,
            AppErrorView::CasbinError(s) => "casbin error: "@ + s,
            AppErrorView::CasbinEnforcerLockFailed(s) => "casbin enforcer lock failed: "@ + s,
            AppErrorView::CasbinEnforcerNotReady => "casbin enforcer not ready"@,
            AppErrorView::BearerTokenMissing => "bearer token missing"@,
            AppErrorView::HeaderKIDMissing => "JWT header kid missing"@,
            AppErrorView::DecodeJWTHeader(s) => "decode JWT header: "@ + s,
            AppErrorView::KeyNotFoundInCache(s) => "key not found in cache: "@ + s,
            AppErrorView::KeyFetchFailed(s) => "key fetch failed: "@ + s,
            AppErrorView::ClaimsDecoding(s) => "claims decoding: "@ + s,
            AppErrorView::PersonNotFound(s) => "person not found: "@ + s,
            AppErrorView::InputValidation(s) => "input validation: "@ + s,
            AppErrorView::Pubchem(s) => "pubchem: "@ + s,
        }
    }
}

/// `label` followed by `detail`.
fn labelled(label: &str, detail: &str) -> (r: String)
    ensures
        r@ == label@ + detail@,
{
    String::from_str(label).concat(detail)
}

impl AppError {
    /// The class of the error.
    pub fn class(&self) -> (r: ErrorClass)
        ensures
            r == self@.class(),
    {
        match self {
            AppError::ParseURI(_) | AppError::InvalidFirstPathSegment(_)
            | AppError::BearerTokenMissing | AppError::HeaderKIDMissing
            | AppError::DecodeJWTHeader(_) | AppError::InputValidation(_) => ErrorClass::ClientInput,
            AppError::ChimithequePersonIdHeaderMissing | AppError::PermissionDenied
            | AppError::PersonNotFound(_) => ErrorClass::Denied,
            AppError::KeyNotFoundInCache(_) | AppError::KeyFetchFailed(_)
            | AppError::ClaimsDecoding(_) => ErrorClass::Upstream,
            AppError::ClaimsRetrieval(_) | AppError::MissingEmailInClaims | AppError::Database(_)
            | AppError::ChimithequePersonIdHeaderInvalid(_)
            | AppError::IdentityHeaderRejected(_) | AppError::CasbinError(_)
            | AppError::CasbinEnforcerLockFailed(_) | AppError::CasbinEnforcerNotReady
            | AppError::Pubchem(_) => ErrorClass::Internal,
        }
    }

    /// The HTTP status that answers the error. No error is answered with a
    /// status of success.
    pub fn status_code(&self) -> (r: u16)
        ensures
            r == self@.status(),
            r == 400 || r == 401 || r == 403 || r == 500,
            self@.class() == ErrorClass::Denied <==> r == 403,
            self@.class() == ErrorClass::Internal <==> r == 500,
            self@.class() == ErrorClass::Upstream ==> r == 401,
    {
        match self.class() {
            ErrorClass::Denied => 403,
            ErrorClass::Upstream => 401,
            ErrorClass::Internal => 500,
            ErrorClass::ClientInput => match self {
                AppError::BearerTokenMissing | AppError::HeaderKIDMissing
                | AppError::DecodeJWTHeader(_) => 401,
                _ => 400,
            },
        }
    }

    /// Whether the error is written to the log.
    pub fn is_logged(&self) -> (r: bool)
        ensures
            r == self@.logged(),
            r <==> self@.status() == 500 || self@.class() == ErrorClass::Upstream,
    {
        match self.class() {
            ErrorClass::Upstream | ErrorClass::Internal => true,
            ErrorClass::ClientInput | ErrorClass::Denied => false,
        }
    }

    /// The message of the error, which is the body of the answer.
    pub fn message(&self) -> (r: String)
        ensures
            r@ == self@.message(),
    {
        match self {
            AppError::ClaimsRetrieval(s) => labelled("claims retrieval: ", s.as_str()),
            AppError::MissingEmailInClaims => String::from_str("missing email in claims"),
            AppError::ParseURI(s) => labelled("parse URI: ", s.as_str()),
            AppError::Database(s) => labelled("database: ", s.as_str()),
            AppError::InvalidFirstPathSegment(o) => match o {
                Some(s) => {
                    let quoted = quote_for_debug(s.as_str());
                    labelled("invalid first path segment: Some(", quoted.as_str()).concat(")")
                },
                None => String::from_str("invalid first path segment: None"),
            },
            AppError::ChimithequePersonIdHeaderMissing => String::from_str(
                "chimitheque person id header missing",
            ),
            AppError::ChimithequePersonIdHeaderInvalid(s) => labelled(
                "chimitheque person id header invalid: ",
                s.as_str(),
            ),
            AppError::IdentityHeaderRejected(s) => labelled("identity header rejected: ", s.as_str()),
            AppError::PermissionDenied => String::from_str("permission denied"),
            AppError::CasbinError(s) => labelled("casbin error: ", s.as_str()),
            AppError::CasbinEnforcerLockFailed(s) => labelled(
                "casbin enforcer lock failed: ",
                s.as_str(),
            ),
            AppError::CasbinEnforcerNotReady => String::from_str("casbin enforcer not ready"),
            AppError::BearerTokenMissing => String::from_str("bearer token missing"),
            AppError::HeaderKIDMissing => String::from_str("JWT header kid missing"),
            AppError::DecodeJWTHeader(s) => labelled("decode JWT header: ", s.as_str()),
            AppError::KeyNotFoundInCache(s) => labelled("key not found in cache: ", s.as_str()),
            AppError::KeyFetchFailed(s) => labelled("key fetch failed: ", s.as_str()),
            AppError::ClaimsDecoding(s) => labelled("claims decoding: ", s.as_str()),
            AppError::PersonNotFound(s) => labelled("person not found: ", s.as_str()),
            AppError::InputValidation(s) => labelled("input validation: ", s.as_str()),
            AppError::Pubchem(s) => labelled("pubchem: ", s.as_str()),
        }
    }
}

/// How an error is answered: the status, the body, and whether to log it.
#[derive(Debug, PartialEq, Eq)]
pub struct ErrorResponse {
    pub status: u16,
    pub body: String,
    pub logged: bool,
}

impl AppError {
    /// The answer to a request that this error stopped.
    pub fn into_response(self) -> (r: ErrorResponse)
        ensures
            r.status == self@.status(),
            r.body@ == self@.message(),
            r.logged == self@.logged(),
            r.status >= 400,
    {
        let status = self.status_code();
        let logged = self.is_logged();
        let body = self.message();
        ErrorResponse { status, body, logged }
    }
}

} // verus!
