//! The stages that a request goes through before it reaches its handler:
//! token verification, identity resolution, authorization. Each stage is
//! the work of its own component; here is decided what follows from each
//! outcome, and that no stage is skipped or taken out of turn.

use crate::authorization::{is_bypassed, lists_text, AuthorizationConfig};
use crate::errors::AppError;
use crate::identity::{ActorIdentity, VerifiedClaims};
use vstd::prelude::*;
use vstd::string::*;

verus! {

/// Where a request stands.
#[derive(Clone, Debug, PartialEq, Eq)]
pub enum Stage {
    /// Nothing is known of the caller.
    Unauthenticated,
    /// The token is verified and names this email.
    TokenVerified { subject: String, email: String },
    /// The caller is this person.
    IdentityResolved(ActorIdentity),
    /// The policy lets the person do what is asked.
    Authorized(ActorIdentity),
    /// The request is with its handler, together with the person where the
    /// request went through the stages.
    Dispatched(Option<ActorIdentity>),
    /// The request was stopped.
    Rejected(AppError),
}

/// What has happened to a request.
#[derive(Debug, PartialEq, Eq)]
pub enum Event {
    /// The token verifier has ended.
    Token(Result<VerifiedClaims, AppError>),
    /// The identity resolver has ended.
    Identity(Result<ActorIdentity, AppError>),
    /// The authorization has ended.
    Policy(Result<(), AppError>),
    /// The request was handed to its handler.
    Handed,
}

/// What is to be done next with a request.
#[derive(Clone, Copy, Debug, PartialEq, Eq, Structural)]
pub enum Step {
    VerifyToken,
    ResolveIdentity,
    Authorize,
    HandOver,
    /// Answer with the error of the stage.
    Respond,
    /// Nothing: the request is with its handler.
    Nothing,
}

impl Stage {
    /// How far the request has come, from 0; a stopped request has come
    /// nowhere.
    pub open spec fn rank(self) -> int {
        match self {
            Stage::Unauthenticated => 0,
            Stage::TokenVerified { .. } => 1,
            Stage::IdentityResolved(_) => 2,
            Stage::Authorized(_) => 3,
            Stage::Dispatched(_) => 4,
            Stage::Rejected(_) => -1,
        }
    }

    /// What is to be done next.
    pub open spec fn spec_next_step(self) -> Step {
        match self {
            Stage::Unauthenticated => Step::VerifyToken,
            Stage::TokenVerified { .. } => Step::ResolveIdentity,
            Stage::IdentityResolved(_) => Step::Authorize,
            Stage::Authorized(_) => Step::HandOver,
            Stage::Dispatched(_) => Step::Nothing,
            Stage::Rejected(_) => Step::Respond,
        }
    }

    /// What is to be done next. The data store is asked only for a request
    /// whose token is verified: identity resolution and authorization are
    /// the steps of no earlier stage.
    pub fn next_step(&self) -> (r: Step)
        ensures
            r == self.spec_next_step(),
    {
        match self {
            Stage::Unauthenticated => Step::VerifyToken,
            Stage::TokenVerified { .. } => Step::ResolveIdentity,
            Stage::IdentityResolved(_) => Step::Authorize,
            Stage::Authorized(_) => Step::HandOver,
            Stage::Dispatched(_) => Step::Nothing,
            Stage::Rejected(_) => Step::Respond,
        }
    }
}

/// The stage at which a request for `path` begins: with its handler where
/// the path bypasses the chain, unauthenticated otherwise.
pub fn begin(config: &AuthorizationConfig, path: &str) -> (r: Stage)
    ensures
        lists_text(config.bypass_paths@, path@) ==> r == Stage::Dispatched(None),
        !lists_text(config.bypass_paths@, path@) ==> r == Stage::Unauthenticated,
{
    if is_bypassed(config, path) {
        Stage::Dispatched(None)
    } else {
        Stage::Unauthenticated
    }
}

/// The stage after `event`. An event moves a request on only where it is
/// the outcome of the step that the stage asks for; any other event leaves
/// the request where it is. An error stops the request for good.
pub open spec fn advance_spec(stage: Stage, event: Event) -> Stage {
    match (stage, event) {
        (Stage::Unauthenticated, Event::Token(Ok(claims))) => match claims.email {
            Some(email) => if email@.len() > 0 {
                Stage::TokenVerified { subject: claims.subject, email }
            } else {
                Stage::Rejected(AppError::MissingEmailInClaims)
            },
            None => Stage::Rejected(AppError::MissingEmailInClaims),
        },
        (Stage::Unauthenticated, Event::Token(Err(e))) => Stage::Rejected(e),
        (Stage::TokenVerified { .. }, Event::Identity(Ok(actor))) => Stage::IdentityResolved(actor),
        (Stage::TokenVerified { .. }, Event::Identity(Err(e))) => Stage::Rejected(e),
        (Stage::IdentityResolved(actor), Event::Policy(Ok(_))) => Stage::Authorized(actor),
        (Stage::IdentityResolved(_), Event::Policy(Err(e))) => Stage::Rejected(e),
        (Stage::Authorized(actor), Event::Handed) => Stage::Dispatched(Some(actor)),
        (stage, _) => stage,
    }
}

/// Moves a request on by one event.
pub fn advance(stage: Stage, event: Event) -> (r: Stage)
    ensures
        r == advance_spec(stage, event),
{
    match stage {
        Stage::Unauthenticated => match event {
            Event::Token(Ok(claims)) => {
                let VerifiedClaims { subject, email } = claims;
                match email {
                    Some(email) => {
                        if email.as_str().is_empty() {
                            Stage::Rejected(AppError::MissingEmailInClaims)
                        } else {
                            Stage::TokenVerified { subject, email }
                        }
                    },
                    None => Stage::Rejected(AppError::MissingEmailInClaims),
                }
            },
            Event::Token(Err(e)) => Stage::Rejected(e),
            _ => Stage::Unauthenticated,
        },
        Stage::TokenVerified { subject, email } => match event {
            Event::Identity(Ok(actor)) => Stage::IdentityResolved(actor),
            Event::Identity(Err(e)) => Stage::Rejected(e),
            _ => Stage::TokenVerified { subject, email },
        },
        Stage::IdentityResolved(actor) => match event {
            Event::Policy(Ok(_)) => Stage::Authorized(actor),
            Event::Policy(Err(e)) => Stage::Rejected(e),
            _ => Stage::IdentityResolved(actor),
        },
        Stage::Authorized(actor) => match event {
            Event::Handed => Stage::Dispatched(Some(actor)),
            _ => Stage::Authorized(actor),
        },
        Stage::Dispatched(actor) => Stage::Dispatched(actor),
        Stage::Rejected(e) => Stage::Rejected(e),
    }
}

/// The stage after a sequence of events.
pub open spec fn run_spec(stage: Stage, events: Seq<Event>) -> Stage
    decreases events.len(),
{
    if events.len() == 0 {
        stage
    } else {
        run_spec(advance_spec(stage, events[0]), events.drop_first())
    }
}

/// An event moves a request to the next stage, stops it, or leaves it
/// where it is. No stage is skipped, and none is gone back to.
pub proof fn lemma_stages_in_order(stage: Stage, event: Event)
    ensures
        ({
            let next = advance_spec(stage, event);
            next is Rejected || next == stage || (!(stage is Rejected) && next.rank()
                == stage.rank() + 1)
        }),
        stage is Rejected || stage is Dispatched ==> advance_spec(stage, event) == stage,
{
}

/// A request reaches its handler only from the stage at which it is
/// authorized, and is authorized only after its identity was resolved, its
/// identity resolved only after its token was verified.
pub proof fn lemma_no_stage_without_the_one_before(stage: Stage, event: Event)
    ensures
        ({
            let next = advance_spec(stage, event);
            &&& next is Dispatched ==> stage is Dispatched || (stage is Authorized && event is Handed)
            &&& next is Authorized ==> stage is Authorized || (stage is IdentityResolved
                && event matches Event::Policy(Ok(_)))
            &&& next is IdentityResolved ==> stage is IdentityResolved || (stage is TokenVerified
                && event matches Event::Identity(Ok(_)))
            &&& next is TokenVerified ==> stage is TokenVerified || (stage is Unauthenticated
                && event matches Event::Token(Ok(_)))
        }),
{
}

/// A request that was stopped stays stopped, with the error that stopped
/// it, whatever happens afterwards.
pub proof fn lemma_rejected_is_final(error: AppError, events: Seq<Event>)
    ensures
        run_spec(Stage::Rejected(error), events) == Stage::Rejected(error),
    decreases events.len(),
{
    if events.len() > 0 {
        lemma_rejected_is_final(error, events.drop_first());
    }
}

/// A request comes no further than the number of events takes it.
pub proof fn lemma_rank_is_bounded(stage: Stage, events: Seq<Event>)
    ensures
        run_spec(stage, events).rank() <= stage.rank() + events.len() || stage is Rejected,
        stage is Rejected ==> run_spec(stage, events) is Rejected,
    decreases events.len(),
{
    if events.len() > 0 {
        let next = advance_spec(stage, events[0]);
        lemma_stages_in_order(stage, events[0]);
        lemma_rank_is_bounded(next, events.drop_first());
        if stage is Rejected {
            lemma_rejected_is_final(stage->Rejected_0, events);
        }
    }
}

/// A request that begins unauthenticated reaches its handler after four
/// events at the least: the outcome of each of the three stages, and the
/// handing over.
pub proof fn lemma_dispatch_takes_every_stage(events: Seq<Event>)
    requires
        run_spec(Stage::Unauthenticated, events) is Dispatched,
    ensures
        events.len() >= 4,
{
    lemma_rank_is_bounded(Stage::Unauthenticated, events);
}

/// A request whose token verification fails is stopped with that error at
/// once, and the only step left is to answer: neither the identity
/// resolver nor the policy is asked.
pub proof fn lemma_failed_token_stops_the_request(error: AppError, later: Seq<Event>)
    ensures
        run_spec(Stage::Unauthenticated, seq![Event::Token(Err(error))] + later) == Stage::Rejected(
            error,
        ),
        Stage::Rejected(error).spec_next_step() == Step::Respond,
{
    let events = seq![Event::Token(Err(error))] + later;
    assert(events[0] == Event::Token(Err(error)));
    assert(events.drop_first() =~= later);
    lemma_rejected_is_final(error, later);
}

} // verus!
