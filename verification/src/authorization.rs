//! From a request to the question put to the policy: the action that the
//! method stands for, the resource type that the path names, and whether
//! that type is subject to enforcement at all.

use crate::errors::{AppError, AppErrorView};
use crate::policy::{Action, PolicyEnforcer, PolicyRequest};
use crate::text::{begins_with, chars_of, decimal_string, decimal_text, same_text};
use crate::utils::{
    first_value, get_chimitheque_person_id_from_headers, header_entries, person_id_of_value,
};
use vstd::prelude::*;
use vstd::string::*;

verus! {

/// The static configuration of the authorization stage.
#[derive(Clone, Debug, PartialEq, Eq)]
pub struct AuthorizationConfig {
    /// The leading part of a path that only serves routing, such as `/api`;
    /// empty where there is none.
    pub routing_prefix: String,
    /// The resource types that are subject to enforcement. Requests for any
    /// other type pass unchecked.
    pub enforced_resource_types: Vec<String>,
    /// The paths that bypass authentication and authorization altogether.
    pub bypass_paths: Vec<String>,
}

/// Whether one of `list` is the text `s`.
pub open spec fn lists_text(list: Seq<String>, s: Seq<char>) -> bool {
    exists|i: int| 0 <= i < list.len() && list[i]@ == s
}

/// Whether one of `list` is the text `s`.
pub fn contains_text(list: &Vec<String>, s: &str) -> (r: bool)
    ensures
        r == lists_text(list@, s@),
{
    let mut i: usize = 0;
    while i < list.len()
        invariant
            i <= list.len(),
            forall|j: int| 0 <= j < i ==> list@[j]@ != s@,
        decreases list.len() - i,
    {
        if same_text(list[i].as_str(), s) {
            return true;
        }
        i += 1;
    }
    false
}

/// The action that an HTTP method stands for.
pub open spec fn action_of(method: Seq<char>) -> Action {
    if method == "GET"@ {
        Action::Read
    } else if method == "POST"@ {
        Action::Create
    } else if method == "PUT"@ {
        Action::Update
    } else if method == "DELETE"@ {
        Action::Delete
    } else {
        Action::Unknown
    }
}

/// The action that an HTTP method stands for. Methods are told apart by
/// their exact names; any other method is an unknown action.
pub fn action_for_method(method: &str) -> (r: Action)
    ensures
        r == action_of(method@),
{
    if same_text(method, "GET") {
        Action::Read
    } else if same_text(method, "POST") {
        Action::Create
    } else if same_text(method, "PUT") {
        Action::Update
    } else if same_text(method, "DELETE") {
        Action::Delete
    } else {
        Action::Unknown
    }
}

/// `path` without the routing prefix. The prefix is taken off only where
/// the path goes on with a slash after it, or ends.
pub open spec fn without_prefix(prefix: Seq<char>, path: Seq<char>) -> Seq<char> {
    if prefix.len() > 0 && prefix.is_prefix_of(path) && (path.len() == prefix.len()
        || path[prefix.len() as int] == '/') {
        path.skip(prefix.len() as int)
    } else {
        path
    }
}

/// `path` without the routing prefix.
pub fn strip_routing_prefix(prefix: &str, path: &str) -> (r: String)
    ensures
        r@ == without_prefix(prefix@, path@),
{
    let p = chars_of(prefix);
    let t = chars_of(path);
    if p.len() > 0 && begins_with(&t, &p) && (t.len() == p.len() || t[p.len()] == '/') {
        let rest = path.substring_char(p.len(), t.len());
        assert(rest@ =~= path@.skip(p.len() as int));
        rest.to_owned()
    } else {
        path.to_owned()
    }
}

#[verifier::external_type_specification]
#[verifier::external_body]
pub struct ExUrl(url::Url);

/// What `url::Url::parse` makes of a text: the URL, or the `Display` text
/// of the parse error.
pub uninterp spec fn url_of(text: Seq<char>) -> Result<url::Url, Seq<char>>;

/// The segments of the path of a URL as `url::Url::path_segments` hands
/// them out; none for a URL that cannot be a base.
pub uninterp spec fn url_segments(url: url::Url) -> Option<Seq<Seq<char>>>;

/// The segments of the path of the URL that a text is, or why the text is
/// no URL.
pub open spec fn url_path_segments(text: Seq<char>) -> Result<Option<Seq<Seq<char>>>, Seq<char>> {
    match url_of(text) {
        Ok(url) => Ok(url_segments(url)),
        Err(e) => Err(e),
    }
}

/// The texts of a list of strings.
pub open spec fn texts_of(list: Seq<String>) -> Seq<Seq<char>> {
    Seq::new(list.len(), |i: int| list[i]@)
}

/// The mathematical value of parsed path segments.
pub open spec fn segments_model(outcome: Result<Option<Vec<String>>, String>) -> Result<
    Option<Seq<Seq<char>>>,
    Seq<char>,
> {
    match outcome {
        Ok(Some(segments)) => Ok(Some(texts_of(segments@))),
        Ok(None) => Ok(None),
        Err(e) => Err(e@),
    }
}

/// `url::Url::parse`, with the `Display` text of its error. Claimed: the
/// outcome depends on the text alone.
#[verifier::external_body]
fn parse_url(text: &str) -> (r: Result<url::Url, String>)
    ensures
        r is Ok == url_of(text@) is Ok,
        r matches Ok(url) ==> url == url_of(text@)->Ok_0,
        r matches Err(e) ==> e@ == url_of(text@)->Err_0,
{
    url::Url::parse(text).map_err(|e| e.to_string())
}

/// `url::Url::path_segments`, collected into strings. Claimed: the
/// segments depend on the URL alone.
#[verifier::external_body]
fn path_segments_of(url: &url::Url) -> (r: Option<Vec<String>>)
    ensures
        r is Some == url_segments(*url) is Some,
        r matches Some(segments) ==> texts_of(segments@) == url_segments(*url)->0,
{
    url.path_segments().map(|parts| parts.map(|p| p.to_string()).collect())
}

/// The first of `segments` that is not empty.
pub open spec fn first_non_empty(segments: Seq<Seq<char>>) -> Option<Seq<char>>
    decreases segments.len(),
{
    if segments.len() == 0 {
        None
    } else if segments[0].len() > 0 {
        Some(segments[0])
    } else {
        first_non_empty(segments.drop_first())
    }
}

/// The resource type that parsed path segments name: the first segment
/// that is not empty, or none where all are empty. A text that is no URL
/// and a URL without segments are errors.
pub open spec fn resource_type_spec(
    outcome: Result<Option<Seq<Seq<char>>>, Seq<char>>,
) -> Result<Option<Seq<char>>, AppErrorView> {
    match outcome {
        Err(e) => Err(AppErrorView::ParseURI(e)),
        Ok(None) => Err(AppErrorView::InvalidFirstPathSegment(None)),
        Ok(Some(segments)) => Ok(first_non_empty(segments)),
    }
}

/// Whether `r` is the value `model`.
pub open spec fn is_resource_type(
    r: Result<Option<String>, AppError>,
    model: Result<Option<Seq<char>>, AppErrorView>,
) -> bool {
    match model {
        Ok(Some(t)) => r matches Ok(Some(s)) && s@ == t,
        Ok(None) => r matches Ok(None),
        Err(e) => r matches Err(x) && x@ == e,
    }
}

/// Skipping leading empty segments does not change the first one that is
/// not empty.
proof fn lemma_first_non_empty_skip(segments: Seq<Seq<char>>, n: int)
    requires
        0 <= n <= segments.len(),
        forall|j: int| 0 <= j < n ==> segments[j].len() == 0,
    ensures
        first_non_empty(segments) == first_non_empty(segments.skip(n)),
    decreases n,
{
    if n == 0 {
        assert(segments.skip(0) =~= segments);
    } else {
        let rest = segments.drop_first();
        assert forall|j: int| 0 <= j < n - 1 implies rest[j].len() == 0 by {
            assert(rest[j] == segments[j + 1]);
        }
        lemma_first_non_empty_skip(rest, n - 1);
        assert(rest.skip(n - 1) =~= segments.skip(n));
    }
}

/// Picks the resource type from the outcome of parsing the path segments.
pub fn select_resource_type(outcome: Result<Option<Vec<String>>, String>) -> (r: Result<
    Option<String>,
    AppError,
>)
    ensures
        is_resource_type(r, resource_type_spec(segments_model(outcome))),
{
    let segments = match outcome {
        Err(e) => {
            return Err(AppError::ParseURI(e));
        },
        Ok(None) => {
            return Err(AppError::InvalidFirstPathSegment(None));
        },
        Ok(Some(segments)) => segments,
    };
    let ghost texts = texts_of(segments@);
    let mut i: usize = 0;
    while i < segments.len()
        invariant
            outcome == Ok::<Option<Vec<String>>, String>(Some(segments)),
            i <= segments.len(),
            texts == texts_of(segments@),
            forall|j: int| 0 <= j < i ==> texts[j].len() == 0,
        decreases segments.len() - i,
    {
        if !segments[i].as_str().is_empty() {
            proof {
                lemma_first_non_empty_skip(texts, i as int);
                assert(texts.skip(i as int)[0] == segments@[i as int]@);
            }
            return Ok(Some(segments[i].clone()));
        }
        i += 1;
    }
    proof {
        lemma_first_non_empty_skip(texts, i as int);
        assert(texts.skip(i as int).len() == 0);
    }
    Ok(None)
}

/// The resource type of a path: what [`resource_type_spec`] picks from the
/// segments of the path behind the routing prefix, read as the path of an
/// HTTP URL.
pub open spec fn resource_type_model(prefix: Seq<char>, path: Seq<char>) -> Result<
    Option<Seq<char>>,
    AppErrorView,
> {
    resource_type_spec(url_path_segments("http://localhost"@ + without_prefix(prefix, path)))
}

/// The resource type that the path of a request names.
pub fn resource_type_of(config: &AuthorizationConfig, path: &str) -> (r: Result<
    Option<String>,
    AppError,
>)
    ensures
        is_resource_type(r, resource_type_model(config.routing_prefix@, path@)),
{
    let rest = strip_routing_prefix(config.routing_prefix.as_str(), path);
    let full = String::from_str("http://localhost").concat(rest.as_str());
    let outcome = match parse_url(full.as_str()) {
        Ok(url) => Ok(path_segments_of(&url)),
        Err(e) => Err(e),
    };
    select_resource_type(outcome)
}

/// Whether a path bypasses authentication and authorization.
pub fn is_bypassed(config: &AuthorizationConfig, path: &str) -> (r: bool)
    ensures
        r == lists_text(config.bypass_paths@, path@),
{
    contains_text(&config.bypass_paths, path)
}

/// Whether a resource type is subject to enforcement.
pub fn is_enforced(config: &AuthorizationConfig, resource_type: &str) -> (r: bool)
    ensures
        r == lists_text(config.enforced_resource_types@, resource_type@),
{
    contains_text(&config.enforced_resource_types, resource_type)
}

/// What the authorization stage does with a request.
#[derive(Clone, Debug, PartialEq, Eq)]
pub enum AuthorizationPlan {
    /// The resource type is not subject to enforcement: the request passes.
    Pass,
    /// The policy decides.
    Enforce(PolicyRequest),
}

/// What the authorization stage does with a request, by its resource type.
pub open spec fn plan_spec(
    enforced: Seq<String>,
    actor_id: u64,
    method: Seq<char>,
    resource_type: Option<Seq<char>>,
    resource_id: Option<Seq<char>>,
) -> Option<crate::policy::PolicyRequestView> {
    match resource_type {
        Some(t) => if lists_text(enforced, t) {
            Some(
                crate::policy::PolicyRequestView {
                    actor_id: decimal_text(actor_id as nat),
                    action: action_of(method),
                    resource_type: t,
                    resource_id: match resource_id {
                        Some(id) => id,
                        None => Seq::empty(),
                    },
                },
            )
        } else {
            None
        },
        None => None,
    }
}

/// The question to put to the policy for a request of `actor_id`, or that
/// the request passes without one.
pub fn plan_request(
    config: &AuthorizationConfig,
    actor_id: u64,
    method: &str,
    resource_type: Option<String>,
    resource_id: Option<String>,
) -> (r: AuthorizationPlan)
    ensures
        match plan_spec(
            config.enforced_resource_types@,
            actor_id,
            method@,
            match resource_type {
                Some(t) => Some(t@),
                None => None,
            },
            match resource_id {
                Some(id) => Some(id@),
                None => None,
            },
        ) {
            Some(request) => r matches AuthorizationPlan::Enforce(q) && q@ == request,
            None => r is Pass,
        },
{
    let resource_type = match resource_type {
        Some(t) => t,
        None => {
            return AuthorizationPlan::Pass;
        },
    };
    if !is_enforced(config, resource_type.as_str()) {
        return AuthorizationPlan::Pass;
    }
    let resource_id = match resource_id {
        Some(id) => id,
        None => String::new(),
    };
    AuthorizationPlan::Enforce(
        PolicyRequest {
            actor_id: decimal_string(actor_id),
            action: action_for_method(method),
            resource_type,
            resource_id,
        },
    )
}

/// Decides on a request: reads the person from the headers, works out what
/// is asked of which resource, and lets the policy decide where the
/// resource type is subject to enforcement.
///
/// The request passes only where the person is known and either the
/// resource type is not enforced or the enforcer is ready. A missing or
/// malformed person identifier and an unusable path stop it before the
/// policy is asked.
pub fn authorize(
    enforcer: &PolicyEnforcer,
    config: &AuthorizationConfig,
    headers: &http::HeaderMap<http::HeaderValue>,
    method: &str,
    path: &str,
    resource_id: Option<String>,
) -> (r: Result<(), AppError>)
    ensures
        match person_id_of_value(
            first_value(header_entries(*headers), crate::identity::person_id_header()),
        ) {
            Err(e) => r is Err && r->Err_0@ == e,
            Ok(actor_id) => match resource_type_model(config.routing_prefix@, path@) {
                Err(e) => r is Err && r->Err_0@ == e,
                Ok(resource_type) => match plan_spec(
                    config.enforced_resource_types@,
                    actor_id,
                    method@,
                    resource_type,
                    match resource_id {
                        Some(id) => Some(id@),
                        None => None,
                    },
                ) {
                    None => r is Ok,
                    Some(request) => {
                        &&& r is Ok ==> enforcer.is_ready() && request.action != Action::Unknown
                        &&& !enforcer.is_ready() ==> r is Err && r->Err_0@
                            == AppErrorView::CasbinEnforcerNotReady
                        &&& enforcer.is_ready() && request.action == Action::Unknown ==> r is Err
                            && r->Err_0@ == AppErrorView::PermissionDenied
                        &&& enforcer.is_ready() && r is Err ==> r->Err_0@ is PermissionDenied
                            || r->Err_0@ is CasbinError
                    },
                },
            },
        },
{
    let actor_id = match get_chimitheque_person_id_from_headers(headers) {
        Ok(id) => id,
        Err(e) => {
            return Err(e);
        },
    };
    let resource_type = match resource_type_of(config, path) {
        Ok(t) => t,
        Err(e) => {
            return Err(e);
        },
    };
    match plan_request(config, actor_id, method, resource_type, resource_id) {
        AuthorizationPlan::Pass => Ok(()),
        AuthorizationPlan::Enforce(request) => enforcer.authorize(&request),
    }
}

} // verus!
