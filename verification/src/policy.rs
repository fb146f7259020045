//! The policy enforcer: a rule engine together with the record of which
//! relational predicates it has been given. A request is put to the engine
//! only when every predicate is installed; until then every request is
//! refused.

use crate::errors::{AppError, AppErrorView};
use crate::matcher::{is_safe_matcher, matcher_safe};
use crate::predicates::{Predicate, PREDICATE_COUNT};
use crate::text::same_text;
use casbin::{CoreApi, Model};
use vstd::prelude::*;
use vstd::string::*;

verus! {

/// What a request wants to do with a resource.
#[derive(Clone, Copy, Debug, PartialEq, Eq, Structural)]
pub enum Action {
    Create,
    Read,
    Update,
    Delete,
    /// No rule matches this action.
    Unknown,
}

impl Action {
    /// The action as the policy rules write it.
    pub open spec fn spec_code(self) -> Seq<char> {
        match self {
            Action::Create => "c"@,
            Action::Read => "r"@,
            Action::Update => "u"@,
            Action::Delete => "d"@,
            Action::Unknown => "unknown"@,
        }
    }

    /// The action as the policy rules write it.
    pub fn code(self) -> (r: &'static str)
        ensures
            r@ == self.spec_code(),
    {
        match self {
            Action::Create => "c",
            Action::Read => "r",
            Action::Update => "u",
            Action::Delete => "d",
            Action::Unknown => "unknown",
        }
    }
}

/// The question put to the policy: may this actor do this to this resource?
#[derive(Clone, Debug, PartialEq, Eq)]
pub struct PolicyRequest {
    /// The internal identifier of the actor, in decimal.
    pub actor_id: String,
    pub action: Action,
    /// The first segment of the request path.
    pub resource_type: String,
    /// The identifier of the resource, or the empty text.
    pub resource_id: String,
}

/// The mathematical value of a [`PolicyRequest`].
pub struct PolicyRequestView {
    pub actor_id: Seq<char>,
    pub action: Action,
    pub resource_type: Seq<char>,
    pub resource_id: Seq<char>,
}

impl View for PolicyRequest {
    type V = PolicyRequestView;

    open spec fn view(&self) -> PolicyRequestView {
        PolicyRequestView {
            actor_id: self.actor_id@,
            action: self.action,
            resource_type: self.resource_type@,
            resource_id: self.resource_id@,
        }
    }
}

#[verifier::external_type_specification]
#[verifier::external_body]
pub struct ExEnforcer(casbin::Enforcer);

#[verifier::external_type_specification]
#[verifier::external_body]
pub struct ExEngineError(casbin::Error);

#[verifier::external_type_specification]
#[verifier::external_body]
pub struct ExOperatorFunction(casbin::function_map::OperatorFunction);

/// The names of the functions that the rule engine holds, those it is made
/// with and those added since.
pub uninterp spec fn engine_functions(engine: casbin::Enforcer) -> Set<Seq<char>>;

/// The model and the rules of the rule engine: under the key of each
/// definition of the model (`r`, `p`, `e`, `m` and so on) its text and the
/// rules that are held under it, in their order.
pub uninterp spec fn engine_model(engine: casbin::Enforcer) -> Map<
    Seq<char>,
    (Seq<char>, Seq<Seq<Seq<char>>>),
>;

/// The text of the effect definition of a model, where it has one.
pub open spec fn effect_of(model: Map<Seq<char>, (Seq<char>, Seq<Seq<Seq<char>>>)>) -> Option<
    Seq<char>,
> {
    if model.contains_key("e"@) {
        Some(model["e"@].0)
    } else {
        None
    }
}

/// Whether the rule engine can combine effects as `text` says. These are
/// the four expressions that it knows; on any other it stops the process
/// when a request is put to it.
pub open spec fn effect_supported(text: Seq<char>) -> bool {
    ||| text == "some(where (p_eft == allow))"@
    ||| text == "some(where (p_eft == allow)) && !some(where (p_eft == deny))"@
    ||| text == "priority(p_eft) || deny"@
    ||| text == "!some(where (p_eft == deny))"@
}

/// The text of the matcher definition of a model, where it has one.
pub open spec fn matcher_of(model: Map<Seq<char>, (Seq<char>, Seq<Seq<Seq<char>>>)>) -> Option<
    Seq<char>,
> {
    if model.contains_key("m"@) {
        Some(model["m"@].0)
    } else {
        None
    }
}

/// Whether a model can be enforced: it has an effect definition, and the
/// rule engine knows the expression; it has a matcher, and the matcher
/// calls nothing but the relational predicates.
pub open spec fn model_enforceable(model: Map<Seq<char>, (Seq<char>, Seq<Seq<Seq<char>>>)>) -> bool {
    &&& effect_of(model) matches Some(effect) && effect_supported(effect)
    &&& matcher_of(model) matches Some(matcher) && matcher_safe(matcher)
}

/// The number of arguments that a function for the rule engine takes.
pub uninterp spec fn function_arity(function: casbin::function_map::OperatorFunction) -> nat;

/// Tells the variants of `casbin::function_map::OperatorFunction` apart:
/// the number of arguments of the function that the value holds.
#[verifier::external_body]
fn operator_arity(function: &casbin::function_map::OperatorFunction) -> (r: usize)
    ensures
        r == function_arity(*function),
{
    match function {
        casbin::function_map::OperatorFunction::Arg0(_) => 0,
        casbin::function_map::OperatorFunction::Arg1(_) => 1,
        casbin::function_map::OperatorFunction::Arg2(_) => 2,
        casbin::function_map::OperatorFunction::Arg3(_) => 3,
        casbin::function_map::OperatorFunction::Arg4(_) => 4,
        casbin::function_map::OperatorFunction::Arg5(_) => 5,
        casbin::function_map::OperatorFunction::Arg6(_) => 6,
    }
}

/// `casbin::CoreApi::add_function` on an `Enforcer`. Claimed: the function
/// is held under the given name afterwards, no name is lost, and model and
/// rules stay as they are.
#[verifier::external_body]
fn engine_add_function(
    engine: &mut casbin::Enforcer,
    name: &str,
    function: casbin::function_map::OperatorFunction,
)
    ensures
        engine_functions(*final(engine)) == engine_functions(*old(engine)).insert(name@),
        engine_model(*final(engine)) == engine_model(*old(engine)),
{
    engine.add_function(name, function);
}

/// `casbin::CoreApi::get_model` on an `Enforcer`, then the `value` of the
/// definition `key` in the section `key` of what `Model::get_model` holds.
/// Claimed for the effect `e` and the matcher `m`: it is the text of that
/// definition of the model.
#[verifier::external_body]
fn engine_definition_text(engine: &casbin::Enforcer, key: &str) -> (r: Option<String>)
    requires
        key@ == "e"@ || key@ == "m"@,
    ensures
        r is Some == engine_model(*engine).contains_key(key@),
        r matches Some(text) ==> text@ == engine_model(*engine)[key@].0,
{
    let sections = engine.get_model().get_model();
    sections.get(key).and_then(|section| section.get(key)).map(|definition| definition.value.clone())
}

/// `casbin::CoreApi::enforce` on an `Enforcer`, with the four texts of
/// `request` in the order actor, action, resource type, resource
/// identifier. The effect of the model must be one that the engine knows,
/// and the matcher must call nothing but the predicates: on another effect
/// the engine does not return, and its own operator functions do not on
/// some arguments. Nothing is claimed of the result: it depends on the
/// rules and on what the predicates find.
#[verifier::external_body]
fn engine_enforce(
    engine: &casbin::Enforcer,
    request: &PolicyRequest,
    actor_id: &str,
    action: &str,
    resource_type: &str,
    resource_id: &str,
) -> (r: Result<bool, casbin::Error>)
    requires
        model_enforceable(engine_model(*engine)),
        actor_id@ == request.actor_id@,
        action@ == request.action.spec_code(),
        resource_type@ == request.resource_type@,
        resource_id@ == request.resource_id@,
{
    engine.enforce((actor_id, action, resource_type, resource_id))
}

/// The `Display` text of a `casbin::Error`. Nothing is claimed of it.
#[verifier::external_body]
fn engine_error_text(error: &casbin::Error) -> (r: String) {
    error.to_string()
}

/// Whether the rule engine can combine effects as `text` says.
pub fn is_supported_effect(text: &str) -> (r: bool)
    ensures
        r == effect_supported(text@),
{
    same_text(text, "some(where (p_eft == allow))") || same_text(
        text,
        "some(where (p_eft == allow)) && !some(where (p_eft == deny))",
    ) || same_text(text, "priority(p_eft) || deny") || same_text(
        text,
        "!some(where (p_eft == deny))",
    )
}

/// What is said of an engine that is refused for its model.
pub open spec fn refusal_text(model: Map<Seq<char>, (Seq<char>, Seq<Seq<Seq<char>>>)>) -> Seq<char> {
    match effect_of(model) {
        None => "policy effect is missing"@,
        Some(effect) => if !effect_supported(effect) {
            "policy effect is not supported: "@ + effect
        } else {
            match matcher_of(model) {
                None => "policy matcher is missing"@,
                Some(matcher) => "policy matcher is not supported: "@ + matcher,
            }
        },
    }
}

/// Adds a function to the engine in `slot`.
fn add_function_to(
    slot: &mut Option<casbin::Enforcer>,
    name: &str,
    function: casbin::function_map::OperatorFunction,
)
    requires
        *old(slot) is Some,
    ensures
        *final(slot) is Some,
        engine_functions((*final(slot))->0) == engine_functions((*old(slot))->0).insert(name@),
        engine_model((*final(slot))->0) == engine_model((*old(slot))->0),
{
    match slot {
        Some(engine) => {
            engine_add_function(engine, name, function);
        },
        None => {},
    }
}

/// A predicate together with the function that the engine is to call for
/// it. The engine calls the function while a request is enforced. What the
/// function does is its own: where it does not return, the enforcement does
/// not return either.
pub struct PredicateBinding {
    pub predicate: Predicate,
    pub function: casbin::function_map::OperatorFunction,
}

/// Where the enforcer stands.
#[derive(Clone, Copy, Debug, PartialEq, Eq, Structural)]
pub enum EnforcerPhase {
    /// No rule engine was ever given.
    Uninitialized,
    /// Rules are being loaded, or predicates are still missing.
    Building,
    /// The engine holds every predicate.
    Ready,
}

/// Whether a binding fits: its function takes as many arguments as its
/// predicate takes identifiers.
pub open spec fn binding_fits(binding: PredicateBinding) -> bool {
    function_arity(binding.function) == binding.predicate.spec_arity()
}

/// The predicates that `bindings` binds to a function that fits.
pub open spec fn bound_predicates(bindings: Seq<PredicateBinding>) -> Set<Predicate> {
    Set::new(
        |p: Predicate|
            exists|i: int|
                0 <= i < bindings.len() && bindings[i].predicate == p && binding_fits(bindings[i]),
    )
}

/// The rule engine and what it has been given.
pub struct PolicyEnforcer {
    engine: Option<casbin::Enforcer>,
    installed: Vec<bool>,
    rebuilding: bool,
}

impl PolicyEnforcer {
    #[verifier::type_invariant]
    spec fn well_formed(self) -> bool {
        &&& self.installed@.len() == PREDICATE_COUNT
        &&& self.engine is None ==> forall|i: int|
            0 <= i < PREDICATE_COUNT ==> !#[trigger] self.installed@[i]
        &&& self.engine matches Some(engine) ==> forall|p: Predicate| #[trigger]
            self.installed@[p.spec_index()] ==> engine_functions(engine).contains(
                p.spec_policy_name(),
            )
        &&& self.engine matches Some(engine) ==> model_enforceable(engine_model(engine))
    }

    /// Whether `predicate` is installed in the current engine.
    pub closed spec fn is_installed(self, predicate: Predicate) -> bool {
        self.installed@[predicate.spec_index()]
    }

    /// Whether there is a rule engine.
    pub closed spec fn has_engine(self) -> bool {
        self.engine is Some
    }

    /// Whether the rule engine holds a function under `name`.
    pub closed spec fn engine_holds(self, name: Seq<char>) -> bool {
        self.engine matches Some(engine) && engine_functions(engine).contains(name)
    }

    /// The model and the rules of the rule engine, where there is one.
    pub closed spec fn model(self) -> Option<Map<Seq<char>, (Seq<char>, Seq<Seq<Seq<char>>>)>> {
        match self.engine {
            Some(engine) => Some(engine_model(engine)),
            None => None,
        }
    }

    /// Whether a rebuild was begun and no new engine was given yet.
    pub closed spec fn is_rebuilding(self) -> bool {
        self.rebuilding
    }

    /// Where the enforcer stands: ready when the engine holds every
    /// predicate, uninitialized while there neither is an engine nor one is
    /// being built.
    pub open spec fn spec_phase(self) -> EnforcerPhase {
        if self.has_engine() {
            if forall|p: Predicate| self.is_installed(p) {
                EnforcerPhase::Ready
            } else {
                EnforcerPhase::Building
            }
        } else if self.is_rebuilding() {
            EnforcerPhase::Building
        } else {
            EnforcerPhase::Uninitialized
        }
    }

    /// Whether requests are put to the engine.
    pub open spec fn is_ready(self) -> bool {
        self.spec_phase() == EnforcerPhase::Ready
    }

    /// An enforcer without an engine.
    pub fn new() -> (r: PolicyEnforcer)
        ensures
            r.spec_phase() == EnforcerPhase::Uninitialized,
            !r.has_engine(),
            forall|p: Predicate| !r.is_installed(p),
    {
        let installed = vec![false, false, false, false, false, false, false, false, false];
        PolicyEnforcer { engine: None, installed, rebuilding: false }
    }

    /// Gives up the engine because the rules have changed. Until a new
    /// engine is given and every predicate installed in it, requests are
    /// refused.
    pub fn begin_rebuild(&mut self)
        ensures
            final(self).spec_phase() == EnforcerPhase::Building,
            !final(self).has_engine(),
            forall|p: Predicate| !final(self).is_installed(p),
    {
        let installed = vec![false, false, false, false, false, false, false, false, false];
        *self = PolicyEnforcer { engine: None, installed, rebuilding: true };
    }

    /// Takes a newly built engine, where its model can be enforced: the
    /// model must define an effect that the engine knows, and a matcher
    /// that calls nothing but the relational predicates. No predicate of an
    /// earlier engine counts for the new one: all are to be installed
    /// again. An engine that cannot be enforced is refused, and the
    /// enforcer stays as it is.
    pub fn install_engine(&mut self, engine: casbin::Enforcer) -> (r: Result<(), AppError>)
        ensures
            r is Ok <==> model_enforceable(engine_model(engine)),
            r is Ok ==> {
                &&& final(self).spec_phase() == EnforcerPhase::Building
                &&& final(self).has_engine()
                &&& final(self).model() == Some(engine_model(engine))
                &&& forall|p: Predicate| !final(self).is_installed(p)
                &&& forall|name: Seq<char>|
                    final(self).engine_holds(name) == engine_functions(engine).contains(name)
            },
            r matches Err(e) ==> *final(self) == *old(self) && e@ == AppErrorView::CasbinError(
                refusal_text(engine_model(engine)),
            ),
    {
        proof {
            reveal_strlit("e");
            reveal_strlit("m");
        }
        match engine_definition_text(&engine, "e") {
            Some(text) => {
                if !is_supported_effect(text.as_str()) {
                    return Err(
                        AppError::CasbinError(
                            String::from_str("policy effect is not supported: ").concat(
                                text.as_str(),
                            ),
                        ),
                    );
                }
            },
            None => {
                return Err(AppError::CasbinError(String::from_str("policy effect is missing")));
            },
        }
        match engine_definition_text(&engine, "m") {
            Some(text) => {
                if !is_safe_matcher(text.as_str()) {
                    return Err(
                        AppError::CasbinError(
                            String::from_str("policy matcher is not supported: ").concat(
                                text.as_str(),
                            ),
                        ),
                    );
                }
            },
            None => {
                return Err(AppError::CasbinError(String::from_str("policy matcher is missing")));
            },
        }
        let installed = vec![false, false, false, false, false, false, false, false, false];
        *self = PolicyEnforcer { engine: Some(engine), installed, rebuilding: false };
        assert(!self.is_installed(Predicate::ProductHasStorages));
        Ok(())
    }

    /// Where the enforcer stands.
    pub fn phase(&self) -> (r: EnforcerPhase)
        ensures
            r == self.spec_phase(),
            r == EnforcerPhase::Ready ==> forall|p: Predicate|
                self.engine_holds(#[trigger] p.spec_policy_name()),
    {
        proof {
            use_type_invariant(self);
        }
        if self.engine.is_none() {
            return if self.rebuilding {
                EnforcerPhase::Building
            } else {
                EnforcerPhase::Uninitialized
            };
        }
        let mut i: usize = 0;
        while i < PREDICATE_COUNT
            invariant
                i <= PREDICATE_COUNT,
                self.engine is Some,
                self.installed@.len() == PREDICATE_COUNT,
                forall|j: int| 0 <= j < i ==> self.installed@[j],
            decreases PREDICATE_COUNT - i,
        {
            if !self.installed[i] {
                proof {
                    crate::predicates::lemma_index_round_trip(i as int);
                    assert(!self.is_installed(Predicate::spec_from_index(i as int)));
                }
                return EnforcerPhase::Building;
            }
            i += 1;
        }
        assert forall|p: Predicate| self.is_installed(p) by {
            assert(0 <= p.spec_index() < PREDICATE_COUNT);
        }
        assert forall|p: Predicate| self.engine_holds(#[trigger] p.spec_policy_name()) by {
            assert(self.installed@[p.spec_index()]);
        }
        EnforcerPhase::Ready
    }

    /// Hands each of `bindings` that fits to the engine under the
    /// policy-visible name of its predicate. A binding whose function does
    /// not take as many arguments as the predicate takes identifiers is
    /// passed over. Without an engine nothing is installed. The enforcer is
    /// ready afterwards exactly if it has an engine and every predicate is
    /// installed, now or before.
    pub fn install_predicates(&mut self, bindings: &Vec<PredicateBinding>)
        ensures
            final(self).has_engine() == old(self).has_engine(),
            final(self).is_rebuilding() == old(self).is_rebuilding(),
            forall|p: Predicate|
                final(self).is_installed(p) == (old(self).is_installed(p) || (old(
                    self,
                ).has_engine() && bound_predicates(bindings@).contains(p))),
            forall|p: Predicate|
                final(self).is_installed(p) ==> final(self).engine_holds(
                    #[trigger] p.spec_policy_name(),
                ),
            forall|name: Seq<char>| old(self).engine_holds(name) ==> final(self).engine_holds(name),
            final(self).model() == old(self).model(),
    {
        proof {
            use_type_invariant(&*self);
        }
        if self.engine.is_none() {
            assert forall|p: Predicate| self.is_installed(p) implies self.engine_holds(
                #[trigger] p.spec_policy_name(),
            ) by {
                assert(0 <= p.spec_index() < PREDICATE_COUNT);
            }
            return ;
        }
        let mut taken = PolicyEnforcer::new();
        std::mem::swap(self, &mut taken);
        let PolicyEnforcer { engine, installed, rebuilding } = taken;
        let mut engine = engine;
        let mut installed = installed;
        let ghost before = installed@;
        let ghost first = engine->0;
        let mut n: usize = 0;
        while n < bindings.len()
            invariant
                n <= bindings.len(),
                engine is Some,
                engine_model(engine->0) == engine_model(first),
                engine_functions(first).subset_of(engine_functions(engine->0)),
                installed@.len() == PREDICATE_COUNT,
                before.len() == PREDICATE_COUNT,
                forall|p: Predicate| #[trigger]
                    installed@[p.spec_index()] ==> engine_functions(engine->0).contains(
                        p.spec_policy_name(),
                    ),
                forall|i: int|
                    0 <= i < PREDICATE_COUNT ==> #[trigger] installed@[i] == (before[i]
                        || bound_predicates(bindings@.take(n as int)).contains(
                        Predicate::spec_from_index(i),
                    )),
            decreases bindings.len() - n,
        {
            let ghost flags = installed@;
            let ghost done = bindings@.take(n as int);
            let ghost next = bindings@.take(n + 1);
            let predicate = bindings[n].predicate;
            let index = predicate.index();
            let fits = operator_arity(&bindings[n].function) == predicate.arity();
            assert(fits == binding_fits(bindings@[n as int]));
            if fits {
                add_function_to(&mut engine, predicate.policy_name(), bindings[n].function);
                installed.set(index, true);
            }
            proof {
                assert forall|p: Predicate| #[trigger]
                    installed@[p.spec_index()] implies engine_functions(engine->0).contains(
                    p.spec_policy_name(),
                ) by {
                    if !fits || p != predicate {
                        assert(flags[p.spec_index()]);
                    }
                }
                assert forall|i: int| 0 <= i < PREDICATE_COUNT implies #[trigger] installed@[i]
                    == (before[i] || bound_predicates(next).contains(
                    Predicate::spec_from_index(i),
                )) by {
                    let p = Predicate::spec_from_index(i);
                    crate::predicates::lemma_index_round_trip(i);
                    if fits && i == index {
                        assert(next[n as int].predicate == p && binding_fits(next[n as int]));
                    } else {
                        assert(installed@[i] == flags[i]);
                        if bound_predicates(next).contains(p) {
                            let j = choose|j: int|
                                0 <= j < next.len() && next[j].predicate == p && binding_fits(
                                    next[j],
                                );
                            assert(j < n);
                            assert(done[j].predicate == p && binding_fits(done[j]));
                        }
                        if bound_predicates(done).contains(p) {
                            let j = choose|j: int|
                                0 <= j < done.len() && done[j].predicate == p && binding_fits(
                                    done[j],
                                );
                            assert(next[j].predicate == p && binding_fits(next[j]));
                        }
                    }
                }
            }
            n += 1;
        }
        proof {
            assert(bindings@.take(n as int) =~= bindings@);
        }
        *self = PolicyEnforcer { engine, installed, rebuilding };
        proof {
            assert forall|p: Predicate|
                self.is_installed(p) == (old(self).is_installed(p) || (old(self).has_engine()
                    && bound_predicates(bindings@).contains(p))) by {
                let i = p.spec_index();
                assert(Predicate::spec_from_index(i) == p);
                assert(installed@[i] == (before[i] || bound_predicates(bindings@).contains(
                    Predicate::spec_from_index(i),
                )));
            }
            assert forall|p: Predicate| self.is_installed(p) implies self.engine_holds(
                #[trigger] p.spec_policy_name(),
            ) by {
                assert(installed@[p.spec_index()]);
            }
        }
    }

    /// Puts `request` to the policy. While the enforcer is not ready the
    /// request is refused without the engine being asked; a request with an
    /// unknown action is denied. Otherwise the engine decides.
    pub fn enforce(&self, request: &PolicyRequest) -> (r: Result<bool, AppError>)
        ensures
            !self.is_ready() ==> r is Err && r->Err_0@ == AppErrorView::CasbinEnforcerNotReady,
            self.is_ready() && request.action == Action::Unknown ==> r == Ok::<bool, AppError>(
                false,
            ),
            self.is_ready() ==> r is Ok || r->Err_0@ is CasbinError,
    {
        proof {
            use_type_invariant(self);
        }
        match self.phase() {
            EnforcerPhase::Ready => {},
            _ => {
                return Err(AppError::CasbinEnforcerNotReady);
            },
        }
        if request.action == Action::Unknown {
            return Ok(false);
        }
        match &self.engine {
            Some(engine) => {
                let outcome = engine_enforce(
                    engine,
                    request,
                    request.actor_id.as_str(),
                    request.action.code(),
                    request.resource_type.as_str(),
                    request.resource_id.as_str(),
                );
                match outcome {
                    Ok(allowed) => Ok(allowed),
                    Err(e) => Err(AppError::CasbinError(engine_error_text(&e))),
                }
            },
            None => Err(AppError::CasbinEnforcerNotReady),
        }
    }

    /// Lets `request` pass or names the error that stops it.
    pub fn authorize(&self, request: &PolicyRequest) -> (r: Result<(), AppError>)
        ensures
            r is Ok ==> self.is_ready() && request.action != Action::Unknown,
            !self.is_ready() ==> r is Err && r->Err_0@ == AppErrorView::CasbinEnforcerNotReady,
            self.is_ready() && request.action == Action::Unknown ==> r is Err && r->Err_0@
                == AppErrorView::PermissionDenied,
            self.is_ready() && r is Err ==> r->Err_0@ is PermissionDenied || r->Err_0@ is CasbinError,
    {
        verdict(self.enforce(request))
    }
}

/// An enforcer in which a predicate is missing is not ready: every request
/// put to it is refused. So it is before the first engine is given, after a
/// rebuild was begun, and with a new engine until the last predicate is
/// installed in it.
pub proof fn lemma_missing_predicate_refuses(enforcer: PolicyEnforcer, predicate: Predicate)
    requires
        !enforcer.is_installed(predicate),
    ensures
        !enforcer.is_ready(),
{
}

/// An enforcer without an engine is not ready.
pub proof fn lemma_no_engine_refuses(enforcer: PolicyEnforcer)
    requires
        !enforcer.has_engine(),
    ensures
        !enforcer.is_ready(),
{
}

/// What the outcome of an enforcement means for the request.
pub open spec fn verdict_spec(outcome: Result<bool, AppError>) -> Result<(), AppError> {
    match outcome {
        Ok(true) => Ok(()),
        Ok(false) => Err(AppError::PermissionDenied),
        Err(e) => Err(e),
    }
}

/// What the outcome of an enforcement means for the request: it passes
/// only where the policy allows it, is denied where the policy does not,
/// and an error stays the error that it is.
pub fn verdict(outcome: Result<bool, AppError>) -> (r: Result<(), AppError>)
    ensures
        r == verdict_spec(outcome),
        r is Ok <==> outcome == Ok::<bool, AppError>(true),
{
    match outcome {
        Ok(true) => Ok(()),
        Ok(false) => Err(AppError::PermissionDenied),
        Err(e) => Err(e),
    }
}

} // verus!
