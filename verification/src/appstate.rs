//! The state that the requests of the application share.

use crate::policy::{bound_predicates, PolicyEnforcer, PredicateBinding};
use crate::predicates::Predicate;
use vstd::prelude::*;

verus! {

/// The shared state: the policy enforcer. Whoever holds it behind a lock
/// takes the lock for every enforcement and for every rebuild.
pub struct AppState {
    pub casbin_enforcer: PolicyEnforcer,
}

impl AppState {
    /// A state whose enforcer has no engine yet.
    pub fn new() -> (r: AppState)
        ensures
            !r.casbin_enforcer.is_ready(),
            !r.casbin_enforcer.has_engine(),
    {
        AppState { casbin_enforcer: PolicyEnforcer::new() }
    }

    /// Installs the relational predicates in the rule engine, each under
    /// its policy-visible name. This is to be done after every build of the
    /// engine: a new engine knows none of them. The enforcer is ready
    /// afterwards where it has an engine and `bindings` leaves no predicate
    /// out that was not installed before.
    pub fn set_enforcer(&mut self, bindings: &Vec<PredicateBinding>)
        ensures
            final(self).casbin_enforcer.has_engine() == old(self).casbin_enforcer.has_engine(),
            forall|p: Predicate|
                final(self).casbin_enforcer.is_installed(p) == (old(
                    self,
                ).casbin_enforcer.is_installed(p) || (old(self).casbin_enforcer.has_engine()
                    && bound_predicates(bindings@).contains(p))),
            old(self).casbin_enforcer.has_engine() && (forall|p: Predicate|
                bound_predicates(bindings@).contains(p)) ==> final(self).casbin_enforcer.is_ready(),
            !old(self).casbin_enforcer.has_engine() ==> !final(self).casbin_enforcer.is_ready(),
            final(self).casbin_enforcer.is_rebuilding() == old(self).casbin_enforcer.is_rebuilding(),
            final(self).casbin_enforcer.model() == old(self).casbin_enforcer.model(),
            forall|name: Seq<char>|
                old(self).casbin_enforcer.engine_holds(name) ==> final(self).casbin_enforcer.engine_holds(
                    name,
                ),
            forall|p: Predicate|
                final(self).casbin_enforcer.is_installed(p) ==> final(self).casbin_enforcer.engine_holds(
                    #[trigger] p.spec_policy_name(),
                ),
    {
        self.casbin_enforcer.install_predicates(bindings);
    }
}

} // verus!
