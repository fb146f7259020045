//! The token verifier. Decoding a token and checking its signature are the
//! work of others; what is decided here is the order of that work and what
//! follows from each outcome: which key a token is checked against, when
//! the keys are fetched again, and which error ends the verification.

use crate::errors::{AppError, AppErrorView};
use crate::identity::VerifiedClaims;
use crate::keycache::{fetch_model, find_key, CachedKeySet, KeySetView, Lookup, SigningKey, SigningKeyView};
use crate::text::{begins_with, chars_of};
use vstd::prelude::*;
use vstd::string::*;

verus! {

/// What a token must name to be taken, and where the keys are that it is
/// checked with.
#[derive(Clone, Debug, PartialEq, Eq)]
pub struct ProviderConfig {
    /// The issuer that a token must name: the URL of the realm of the
    /// identity provider.
    pub issuer: String,
    /// The client identifier, which the audience of a token must include.
    pub client_id: String,
}

/// The URL of a realm of the identity provider at `base_url`.
pub open spec fn realm_url(base_url: Seq<char>, realm: Seq<char>) -> Seq<char> {
    base_url + "/realms/"@ + realm
}

impl ProviderConfig {
    /// The URL from which the signing keys are fetched.
    pub open spec fn spec_certs_endpoint(self) -> Seq<char> {
        self.issuer@ + "/protocol/openid-connect/certs"@
    }

    /// The configuration for a realm of the identity provider at
    /// `base_url`, which is written without a slash at its end.
    pub fn for_realm(base_url: &str, realm: &str, client_id: &str) -> (r: ProviderConfig)
        ensures
            r.issuer@ == realm_url(base_url@, realm@),
            r.client_id@ == client_id@,
    {
        ProviderConfig {
            issuer: String::from_str(base_url).concat("/realms/").concat(realm),
            client_id: String::from_str(client_id),
        }
    }

    /// The URL from which the signing keys are fetched.
    pub fn certs_endpoint(&self) -> (r: String)
        ensures
            r@ == self.spec_certs_endpoint(),
    {
        self.issuer.clone().concat("/protocol/openid-connect/certs")
    }
}

/// The token of an `Authorization` header: what follows the scheme
/// `Bearer` and one space, where that is not empty.
pub open spec fn bearer_of(header: Option<Seq<char>>) -> Option<Seq<char>> {
    match header {
        Some(value) => if "Bearer "@.is_prefix_of(value) && value.len() > 7 {
            Some(value.skip(7))
        } else {
            None
        },
        None => None,
    }
}

/// Takes the bearer token out of the value of the `Authorization` header.
/// A request without the header, with another scheme, or with nothing
/// after the scheme has no token.
pub fn extract_bearer(header: Option<&str>) -> (r: Result<String, AppError>)
    ensures
        match bearer_of(
            match header {
                Some(value) => Some(value@),
                None => None,
            },
        ) {
            Some(token) => r is Ok && r->Ok_0@ == token,
            None => r == Err::<String, AppError>(AppError::BearerTokenMissing),
        },
{
    let value = match header {
        Some(value) => value,
        None => {
            return Err(AppError::BearerTokenMissing);
        },
    };
    let chars = chars_of(value);
    let scheme = chars_of("Bearer ");
    proof {
        reveal_strlit("Bearer ");
    }
    if begins_with(&chars, &scheme) && chars.len() > 7 {
        let token = value.substring_char(7, chars.len());
        assert(token@ =~= value@.skip(7));
        Ok(token.to_owned())
    } else {
        Err(AppError::BearerTokenMissing)
    }
}

/// What is to be done next for a token.
#[derive(Debug, PartialEq, Eq)]
pub enum VerifierStep {
    /// Decode the header of the token.
    DecodeHeader { token: String },
    /// Fetch the keys of the identity provider and hand them back.
    FetchKeys { token: String, key_id: String },
    /// Check signature, issuer, audience and validity period of the token
    /// under this key and hand back the claims.
    ValidateClaims { token: String, key: SigningKey },
    /// The verification has ended.
    Finished(Result<VerifiedClaims, AppError>),
}

/// The mathematical value of a [`VerifierStep`], without the claims.
pub enum VerifierStepView {
    DecodeHeader { token: Seq<char> },
    FetchKeys { token: Seq<char>, key_id: Seq<char> },
    ValidateClaims { token: Seq<char>, key: SigningKeyView },
    Failed(AppErrorView),
    Verified,
}

impl View for VerifierStep {
    type V = VerifierStepView;

    open spec fn view(&self) -> VerifierStepView {
        match self {
            VerifierStep::DecodeHeader { token } => VerifierStepView::DecodeHeader { token: token@ },
            VerifierStep::FetchKeys { token, key_id } => VerifierStepView::FetchKeys {
                token: token@,
                key_id: key_id@,
            },
            VerifierStep::ValidateClaims { token, key } => VerifierStepView::ValidateClaims {
                token: token@,
                key: key@,
            },
            VerifierStep::Finished(Ok(_)) => VerifierStepView::Verified,
            VerifierStep::Finished(Err(e)) => VerifierStepView::Failed(e@),
        }
    }
}

/// The first step for a request with this `Authorization` header.
pub open spec fn begin_spec(header: Option<Seq<char>>) -> VerifierStepView {
    match bearer_of(header) {
        Some(token) => VerifierStepView::DecodeHeader { token },
        None => VerifierStepView::Failed(AppErrorView::BearerTokenMissing),
    }
}

/// The step after the header of `token` was decoded, at the time `now`: a
/// malformed header and a header without key identifier end the
/// verification; a key from a fresh set is used at once; otherwise the keys
/// are fetched.
pub open spec fn after_header_spec(
    keys: KeySetView,
    token: Seq<char>,
    header: Result<Option<Seq<char>>, Seq<char>>,
    now: u64,
) -> VerifierStepView {
    match header {
        Err(e) => VerifierStepView::Failed(AppErrorView::DecodeJWTHeader(e)),
        Ok(None) => VerifierStepView::Failed(AppErrorView::HeaderKIDMissing),
        Ok(Some(key_id)) => if keys.needs_refresh(key_id, now) {
            VerifierStepView::FetchKeys { token, key_id }
        } else {
            VerifierStepView::ValidateClaims { token, key: find_key(keys.keys, key_id)->0 }
        },
    }
}

/// The step after the keys were fetched, where `keys` is the set with the
/// outcome of the fetch taken in: the key is used where the set holds it,
/// and the verification ends where it does not. The keys are not fetched a
/// second time.
pub open spec fn after_keys_spec(keys: KeySetView, token: Seq<char>, key_id: Seq<char>) -> VerifierStepView {
    match find_key(keys.keys, key_id) {
        Some(key) => VerifierStepView::ValidateClaims { token, key },
        None => VerifierStepView::Failed(AppErrorView::KeyNotFoundInCache(key_id)),
    }
}

/// The mathematical value of a decoded header.
pub open spec fn header_model(header: Result<Option<String>, String>) -> Result<
    Option<Seq<char>>,
    Seq<char>,
> {
    match header {
        Ok(Some(key_id)) => Ok(Some(key_id@)),
        Ok(None) => Ok(None),
        Err(e) => Err(e@),
    }
}

/// What `jsonwebtoken::decode_header` makes of a token: the key identifier
/// that the header of the token names, none where it names none, or the
/// `Display` text of the error for a token whose header cannot be read.
pub uninterp spec fn token_key_id(token: Seq<char>) -> Result<Option<Seq<char>>, Seq<char>>;

/// `jsonwebtoken::decode_header`, of which the key identifier is kept, or
/// the text of its error. Claimed: the outcome depends on the token alone.
#[verifier::external_body]
fn decode_key_id(token: &str) -> (r: Result<Option<String>, String>)
    ensures
        header_model(r) == token_key_id(token@),
{
    match jsonwebtoken::decode_header(token) {
        Ok(header) => Ok(header.kid),
        Err(e) => Err(e.to_string()),
    }
}

/// Begins the verification of a request with this `Authorization` header.
pub fn begin(header: Option<&str>) -> (r: VerifierStep)
    ensures
        r@ == begin_spec(
            match header {
                Some(value) => Some(value@),
                None => None,
            },
        ),
{
    match extract_bearer(header) {
        Ok(token) => VerifierStep::DecodeHeader { token },
        Err(e) => VerifierStep::Finished(Err(e)),
    }
}

/// Goes on after the header of `token` was decoded: `header` is the key
/// identifier that it names, none where it names none, or why it could not
/// be decoded.
pub fn after_header(
    keys: &CachedKeySet,
    token: String,
    header: Result<Option<String>, String>,
    now: u64,
) -> (r: VerifierStep)
    ensures
        r@ == after_header_spec(keys@, token@, header_model(header), now),
{
    let key_id = match header {
        Err(e) => {
            return VerifierStep::Finished(Err(AppError::DecodeJWTHeader(e)));
        },
        Ok(None) => {
            return VerifierStep::Finished(Err(AppError::HeaderKIDMissing));
        },
        Ok(Some(key_id)) => key_id,
    };
    match keys.lookup(key_id.as_str(), now) {
        Lookup::Found(key) => VerifierStep::ValidateClaims { token, key },
        Lookup::Refresh => VerifierStep::FetchKeys { token, key_id },
    }
}

/// Decodes the header of `token` and goes on with the key that it names.
pub fn with_decoded_header(keys: &CachedKeySet, token: String, now: u64) -> (r: VerifierStep)
    ensures
        r@ == after_header_spec(keys@, token@, token_key_id(token@), now),
{
    let header = decode_key_id(token.as_str());
    after_header(keys, token, header, now)
}

/// Goes on after the keys were fetched: takes the outcome of the fetch into
/// the set and resolves the key once more. After a failed fetch a key that
/// the old set holds is still used.
pub fn after_keys(
    keys: &mut CachedKeySet,
    token: String,
    key_id: String,
    fetched: Result<Vec<SigningKey>, String>,
    now: u64,
) -> (r: VerifierStep)
    ensures
        final(keys)@ == old(keys)@.refreshed(fetch_model(fetched), now),
        r@ == after_keys_spec(final(keys)@, token@, key_id@),
        !(r@ is FetchKeys),
{
    let _ = keys.complete_refresh(fetched, now);
    match keys.get_key(key_id.as_str()) {
        Ok(key) => VerifierStep::ValidateClaims { token, key },
        Err(e) => VerifierStep::Finished(Err(e)),
    }
}

/// What the validation of a token means: claims that were validated are
/// the result where they carry an email that is not empty.
pub open spec fn after_claims_spec(outcome: Result<VerifiedClaims, String>) -> Result<
    VerifiedClaims,
    AppErrorView,
> {
    match outcome {
        Err(e) => Err(AppErrorView::ClaimsDecoding(e@)),
        Ok(claims) => if claims.email is Some && claims.email->0@.len() > 0 {
            Ok(claims)
        } else {
            Err(AppErrorView::MissingEmailInClaims)
        },
    }
}

/// Ends the verification with the outcome of the validation. Verified
/// claims always carry an email.
pub fn after_claims(outcome: Result<VerifiedClaims, String>) -> (r: Result<VerifiedClaims, AppError>)
    ensures
        match after_claims_spec(outcome) {
            Ok(claims) => r == Ok::<VerifiedClaims, AppError>(claims),
            Err(e) => r is Err && r->Err_0@ == e,
        },
        r matches Ok(claims) ==> claims.email is Some && claims.email->0@.len() > 0,
{
    match outcome {
        Err(e) => Err(AppError::ClaimsDecoding(e)),
        Ok(claims) => {
            let has_email = match &claims.email {
                Some(email) => !email.as_str().is_empty(),
                None => false,
            };
            if has_email {
                Ok(claims)
            } else {
                Err(AppError::MissingEmailInClaims)
            }
        },
    }
}

/// A token that names a key which neither the set holds nor the identity
/// provider hands out is refused as signed by an unknown key, after the
/// keys were fetched once: the header asks for the fetch, and the step
/// after it ends the verification.
pub proof fn lemma_unknown_key_fails_after_one_refresh(
    keys: KeySetView,
    token: Seq<char>,
    key_id: Seq<char>,
    fetched: Result<Seq<SigningKeyView>, Seq<char>>,
    now: u64,
)
    requires
        find_key(keys.keys, key_id) is None,
        fetched matches Ok(new_keys) ==> find_key(new_keys, key_id) is None,
    ensures
        after_header_spec(keys, token, Ok(Some(key_id)), now) == (VerifierStepView::FetchKeys {
            token,
            key_id,
        }),
        after_keys_spec(keys.refreshed(fetched, now), token, key_id) == VerifierStepView::Failed(
            AppErrorView::KeyNotFoundInCache(key_id),
        ),
{
}

/// A token is only ever checked under a key that has the identifier which
/// the header of the token names.
pub proof fn lemma_token_is_checked_under_its_key(
    keys: KeySetView,
    token: Seq<char>,
    key_id: Seq<char>,
    now: u64,
)
    ensures
        after_header_spec(keys, token, Ok(Some(key_id)), now) matches VerifierStepView::ValidateClaims {
            key,
            ..
        } ==> key.key_id == key_id && keys.keys.contains(key) && !keys.is_stale(now),
        after_keys_spec(keys, token, key_id) matches VerifierStepView::ValidateClaims { key, .. }
            ==> key.key_id == key_id && keys.keys.contains(key),
{
    crate::keycache::lemma_found_key_matches(keys.keys, key_id);
}

/// A stale set is refreshed before the token is checked, also where it
/// holds the key that the token names.
pub proof fn lemma_stale_keys_are_fetched(
    keys: KeySetView,
    token: Seq<char>,
    key_id: Seq<char>,
    now: u64,
)
    requires
        keys.is_stale(now),
    ensures
        after_header_spec(keys, token, Ok(Some(key_id)), now) == (VerifierStepView::FetchKeys {
            token,
            key_id,
        }),
{
}

/// Where the fetch fails, a key that the old set holds is still used, and a
/// key that it does not hold is an error.
pub proof fn lemma_failed_fetch_keeps_old_keys(
    keys: KeySetView,
    token: Seq<char>,
    key_id: Seq<char>,
    failure: Seq<char>,
    now: u64,
)
    ensures
        keys.refreshed(Err(failure), now) == keys,
        after_keys_spec(keys.refreshed(Err(failure), now), token, key_id) == match find_key(
            keys.keys,
            key_id,
        ) {
            Some(key) => VerifierStepView::ValidateClaims { token, key },
            None => VerifierStepView::Failed(AppErrorView::KeyNotFoundInCache(key_id)),
        },
{
}

} // verus!
