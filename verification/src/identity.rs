//! The identity resolver: from the verified claims of a token to the person
//! of the inventory that makes the request. Nobody is resolved to a guest:
//! claims without an email, and an email that no person has, stop the
//! request.

use crate::errors::{AppError, AppErrorView};
use vstd::prelude::*;
use vstd::string::*;

verus! {

/// What a verified token says of its bearer.
#[derive(Clone, Debug, PartialEq, Eq)]
pub struct VerifiedClaims {
    pub subject: String,
    pub email: Option<String>,
}

/// The person who makes the request.
#[derive(Clone, Debug, PartialEq, Eq)]
pub struct ActorIdentity {
    pub internal_id: u64,
    pub email: String,
}

/// What the data store holds of a person, as far as resolution reads it.
#[derive(Clone, Debug, PartialEq, Eq)]
pub struct PersonRecord {
    pub person_id: Option<u64>,
    pub person_email: String,
}

/// The name of the header that carries the identifier of the person.
pub open spec fn person_id_header() -> Seq<char> {
    "chimitheque_person_id"@
}

/// The name of the header that carries the email of the person.
pub open spec fn person_email_header() -> Seq<char> {
    "chimitheque_person_email"@
}

/// The name of the header that carries the identifier of the person.
pub fn person_id_header_name() -> (r: &'static str)
    ensures
        r@ == person_id_header(),
{
    "chimitheque_person_id"
}

/// The name of the header that carries the email of the person.
pub fn person_email_header_name() -> (r: &'static str)
    ensures
        r@ == person_email_header(),
{
    "chimitheque_person_email"
}

/// The email of the claims, which must be there and not empty.
pub fn claimed_email(claims: &VerifiedClaims) -> (r: Result<String, AppError>)
    ensures
        match claims.email {
            Some(email) => if email@.len() > 0 {
                r == Ok::<String, AppError>(email)
            } else {
                r == Err::<String, AppError>(AppError::MissingEmailInClaims)
            },
            None => r == Err::<String, AppError>(AppError::MissingEmailInClaims),
        },
{
    match &claims.email {
        Some(email) => {
            if email.as_str().is_empty() {
                Err(AppError::MissingEmailInClaims)
            } else {
                Ok(email.clone())
            }
        },
        None => Err(AppError::MissingEmailInClaims),
    }
}

/// The person that a lookup by `email` has found: the first record, which
/// must carry an identifier. A failed lookup is an error of the data store;
/// a lookup that finds nobody, or a record without identifier, means that
/// no such person exists.
pub open spec fn resolve_spec(
    email: Seq<char>,
    lookup: Result<Vec<PersonRecord>, String>,
) -> Result<(u64, Seq<char>), AppErrorView> {
    match lookup {
        Err(e) => Err(AppErrorView::Database(e@)),
        Ok(people) => if people@.len() > 0 && people@[0].person_id is Some {
            Ok((people@[0].person_id->0, people@[0].person_email@))
        } else {
            Err(AppErrorView::PersonNotFound(email))
        },
    }
}

/// Resolves the person with the given email from what the data store
/// answered to a lookup by that email.
pub fn resolve(email: &str, lookup: Result<Vec<PersonRecord>, String>) -> (r: Result<
    ActorIdentity,
    AppError,
>)
    ensures
        match resolve_spec(email@, lookup) {
            Ok((id, found)) => r is Ok && r->Ok_0.internal_id == id && r->Ok_0.email@ == found,
            Err(e) => r is Err && r->Err_0@ == e,
        },
{
    match lookup {
        Err(e) => Err(AppError::Database(e)),
        Ok(people) => {
            if people.len() > 0 {
                match people[0].person_id {
                    Some(id) => {
                        return Ok(
                            ActorIdentity { internal_id: id, email: people[0].person_email.clone() },
                        );
                    },
                    None => {},
                }
            }
            Err(AppError::PersonNotFound(email.to_owned()))
        },
    }
}

} // verus!
