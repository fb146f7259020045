//! The relational predicates of the access policy. A predicate is called by
//! the policy engine with loosely typed arguments, asks one question of the
//! data store, and answers with a truth value. Whatever goes wrong on the
//! way, the answer is `false` and the failure is handed back to be recorded.

use crate::text::{chars_of, parse_decimal, parse_decimal_spec};
use vstd::prelude::*;

verus! {

/// The questions that the data store answers.
#[derive(Clone, Copy, Debug, PartialEq, Eq, Structural)]
pub enum Relation {
    ProductHasStorages,
    StoreLocationIsInEntity,
    StorageIsInEntity,
    StoreLocationHasChildren,
    StoreLocationHasStorages,
    PersonIsInEntity,
    PersonIsAdmin,
    PersonIsManager,
    EntityHasMembers,
}

/// The predicates that the policy rules can call, one for each question
/// to the data store.
#[derive(Clone, Copy, Debug, PartialEq, Eq, Structural)]
pub enum Predicate {
    ProductHasStorages,
    StoreLocationIsInEntity,
    StorageIsInEntity,
    StoreLocationHasChildren,
    StoreLocationHasStorages,
    PersonIsInEntity,
    PersonIsAdmin,
    PersonIsManager,
    EntityHasMembers,
}

/// The number of predicates.
pub const PREDICATE_COUNT: usize = 9;

impl Predicate {
    /// The place of the predicate in the table, from 0.
    pub open spec fn spec_index(self) -> int {
        match self {
            Predicate::ProductHasStorages => 0,
            Predicate::StoreLocationIsInEntity => 1,
            Predicate::StorageIsInEntity => 2,
            Predicate::StoreLocationHasChildren => 3,
            Predicate::StoreLocationHasStorages => 4,
            Predicate::PersonIsInEntity => 5,
            Predicate::PersonIsAdmin => 6,
            Predicate::PersonIsManager => 7,
            Predicate::EntityHasMembers => 8,
        }
    }

    /// The predicate at place `i` of the table.
    pub open spec fn spec_from_index(i: int) -> Predicate {
        if i == 0 {
            Predicate::ProductHasStorages
        } else if i == 1 {
            Predicate::StoreLocationIsInEntity
        } else if i == 2 {
            Predicate::StorageIsInEntity
        } else if i == 3 {
            Predicate::StoreLocationHasChildren
        } else if i == 4 {
            Predicate::StoreLocationHasStorages
        } else if i == 5 {
            Predicate::PersonIsInEntity
        } else if i == 6 {
            Predicate::PersonIsAdmin
        } else if i == 7 {
            Predicate::PersonIsManager
        } else {
            Predicate::EntityHasMembers
        }
    }

    /// The number of identifiers that the predicate takes.
    pub open spec fn spec_arity(self) -> int {
        match self {
            Predicate::StoreLocationIsInEntity | Predicate::StorageIsInEntity
            | Predicate::PersonIsInEntity => 2,
            _ => 1,
        }
    }

    /// The question that the predicate asks.
    pub open spec fn spec_relation(self) -> Relation {
        match self {
            Predicate::ProductHasStorages => Relation::ProductHasStorages,
            Predicate::StoreLocationIsInEntity => Relation::StoreLocationIsInEntity,
            Predicate::StorageIsInEntity => Relation::StorageIsInEntity,
            Predicate::StoreLocationHasChildren => Relation::StoreLocationHasChildren,
            Predicate::StoreLocationHasStorages => Relation::StoreLocationHasStorages,
            Predicate::PersonIsInEntity => Relation::PersonIsInEntity,
            Predicate::PersonIsAdmin => Relation::PersonIsAdmin,
            Predicate::PersonIsManager => Relation::PersonIsManager,
            Predicate::EntityHasMembers => Relation::EntityHasMembers,
        }
    }

    /// The name under which the policy rules call the predicate.
    pub open spec fn spec_policy_name(self) -> Seq<char> {
        match self {
            Predicate::ProductHasStorages => "matchProductHasStorages"@,
            Predicate::StoreLocationIsInEntity => "matchStoreLocationIsInEntity"@,
            Predicate::StorageIsInEntity => "matchStorageIsInEntity"@,
            Predicate::StoreLocationHasChildren => "matchStorelocationHasChildren"@,
            Predicate::StoreLocationHasStorages => "matchStorelocationHasStorages"@,
            Predicate::PersonIsInEntity => "matchPersonIsInEntity"@,
            Predicate::PersonIsAdmin => "matchPersonIsAdmin"@,
            Predicate::PersonIsManager => "matchPersonIsManager"@,
            Predicate::EntityHasMembers => "matchEntityHasMembers"@,
        }
    }

    /// The place of the predicate in the table, from 0.
    pub fn index(self) -> (r: usize)
        ensures
            r == self.spec_index(),
            r < PREDICATE_COUNT,
            Predicate::spec_from_index(r as int) == self,
    {
        match self {
            Predicate::ProductHasStorages => 0,
            Predicate::StoreLocationIsInEntity => 1,
            Predicate::StorageIsInEntity => 2,
            Predicate::StoreLocationHasChildren => 3,
            Predicate::StoreLocationHasStorages => 4,
            Predicate::PersonIsInEntity => 5,
            Predicate::PersonIsAdmin => 6,
            Predicate::PersonIsManager => 7,
            Predicate::EntityHasMembers => 8,
        }
    }

    /// The predicate at place `i` of the table.
    pub fn from_index(i: usize) -> (r: Option<Predicate>)
        ensures
            i < PREDICATE_COUNT ==> r == Some(Predicate::spec_from_index(i as int)),
            i >= PREDICATE_COUNT ==> r is None,
            r matches Some(p) ==> p.spec_index() == i,
    {
        match i {
            0 => Some(Predicate::ProductHasStorages),
            1 => Some(Predicate::StoreLocationIsInEntity),
            2 => Some(Predicate::StorageIsInEntity),
            3 => Some(Predicate::StoreLocationHasChildren),
            4 => Some(Predicate::StoreLocationHasStorages),
            5 => Some(Predicate::PersonIsInEntity),
            6 => Some(Predicate::PersonIsAdmin),
            7 => Some(Predicate::PersonIsManager),
            8 => Some(Predicate::EntityHasMembers),
            _ => None,
        }
    }

    /// The number of identifiers that the predicate takes.
    pub fn arity(self) -> (r: usize)
        ensures
            r == self.spec_arity(),
            r == 1 || r == 2,
    {
        match self {
            Predicate::StoreLocationIsInEntity | Predicate::StorageIsInEntity
            | Predicate::PersonIsInEntity => 2,
            _ => 1,
        }
    }

    /// The question that the predicate asks.
    pub fn relation(self) -> (r: Relation)
        ensures
            r == self.spec_relation(),
    {
        match self {
            Predicate::ProductHasStorages => Relation::ProductHasStorages,
            Predicate::StoreLocationIsInEntity => Relation::StoreLocationIsInEntity,
            Predicate::StorageIsInEntity => Relation::StorageIsInEntity,
            Predicate::StoreLocationHasChildren => Relation::StoreLocationHasChildren,
            Predicate::StoreLocationHasStorages => Relation::StoreLocationHasStorages,
            Predicate::PersonIsInEntity => Relation::PersonIsInEntity,
            Predicate::PersonIsAdmin => Relation::PersonIsAdmin,
            Predicate::PersonIsManager => Relation::PersonIsManager,
            Predicate::EntityHasMembers => Relation::EntityHasMembers,
        }
    }

    /// The name under which the policy rules call the predicate.
    pub fn policy_name(self) -> (r: &'static str)
        ensures
            r@ == self.spec_policy_name(),
    {
        match self {
            Predicate::ProductHasStorages => "matchProductHasStorages",
            Predicate::StoreLocationIsInEntity => "matchStoreLocationIsInEntity",
            Predicate::StorageIsInEntity => "matchStorageIsInEntity",
            Predicate::StoreLocationHasChildren => "matchStorelocationHasChildren",
            Predicate::StoreLocationHasStorages => "matchStorelocationHasStorages",
            Predicate::PersonIsInEntity => "matchPersonIsInEntity",
            Predicate::PersonIsAdmin => "matchPersonIsAdmin",
            Predicate::PersonIsManager => "matchPersonIsManager",
            Predicate::EntityHasMembers => "matchEntityHasMembers",
        }
    }
}

/// Every place of the table holds the predicate that has that place.
pub proof fn lemma_index_round_trip(i: int)
    requires
        0 <= i < PREDICATE_COUNT,
    ensures
        Predicate::spec_from_index(i).spec_index() == i,
{
}

/// No two predicates have the same policy-visible name, so that none takes
/// the place of another in the rule engine.
pub proof fn lemma_policy_names_differ(p: Predicate, q: Predicate)
    requires
        p != q,
    ensures
        p.spec_policy_name() != q.spec_policy_name(),
{
    reveal_strlit("matchProductHasStorages");
    reveal_strlit("matchStoreLocationIsInEntity");
    reveal_strlit("matchStorageIsInEntity");
    reveal_strlit("matchStorelocationHasChildren");
    reveal_strlit("matchStorelocationHasStorages");
    reveal_strlit("matchPersonIsInEntity");
    reveal_strlit("matchPersonIsAdmin");
    reveal_strlit("matchPersonIsManager");
    reveal_strlit("matchEntityHasMembers");
    let a = p.spec_policy_name();
    let b = q.spec_policy_name();
    if a.len() == b.len() {
        assert(a[5] != b[5] || a[21] != b[21]);
    }
}

/// A value as the policy engine's expression evaluator hands it over.
#[derive(Clone, Debug, PartialEq, Eq)]
pub enum LooseValue {
    /// An integer.
    Int(i64),
    /// A text.
    Text(String),
    /// Anything else: a truth value, a list, nothing.
    Other,
}

/// The mathematical value of a [`LooseValue`].
pub enum LooseValueView {
    Int(int),
    Text(Seq<char>),
    Other,
}

impl View for LooseValue {
    type V = LooseValueView;

    open spec fn view(&self) -> LooseValueView {
        match self {
            LooseValue::Int(i) => LooseValueView::Int(*i as int),
            LooseValue::Text(s) => LooseValueView::Text(s@),
            LooseValue::Other => LooseValueView::Other,
        }
    }
}

/// The identifier that a loose value stands for: an integer that is not
/// negative, or a text that reads as an unsigned decimal number.
pub open spec fn identifier_of(v: LooseValueView) -> Option<u64> {
    match v {
        LooseValueView::Int(i) => if 0 <= i <= u64::MAX {
            Some(i as u64)
        } else {
            None
        },
        LooseValueView::Text(s) => match parse_decimal_spec(s) {
            Ok(n) => Some(n),
            Err(_) => None,
        },
        LooseValueView::Other => None,
    }
}

/// Coerces a loose value to an identifier.
pub fn coerce_identifier(value: &LooseValue) -> (r: Option<u64>)
    ensures
        r == identifier_of(value@),
{
    match value {
        LooseValue::Int(i) => {
            if *i >= 0 {
                Some(*i as u64)
            } else {
                None
            }
        },
        LooseValue::Text(s) => {
            let chars = chars_of(s.as_str());
            match parse_decimal(&chars) {
                Ok(n) => Some(n),
                Err(_) => None,
            }
        },
        LooseValue::Other => None,
    }
}

/// One question to the data store.
#[derive(Clone, Copy, Debug, PartialEq, Eq, Structural)]
pub struct RelationalQuery {
    pub relation: Relation,
    /// The identifier that the question is about.
    pub first: u64,
    /// The entity, for the questions that take one.
    pub second: Option<u64>,
}

/// Why no question is asked.
#[derive(Clone, Copy, Debug, PartialEq, Eq, Structural)]
pub enum PlanFailure {
    /// The predicate was called with too few or too many arguments.
    WrongArgumentCount,
    /// The argument at this place, from 0, is no identifier.
    MalformedIdentifier(usize),
}

/// The question that a call of `predicate` with `args` asks, or why it asks
/// none.
pub open spec fn plan_spec(predicate: Predicate, args: Seq<LooseValue>) -> Result<
    RelationalQuery,
    PlanFailure,
> {
    if args.len() != predicate.spec_arity() {
        Err(PlanFailure::WrongArgumentCount)
    } else if identifier_of(args[0]@) is None {
        Err(PlanFailure::MalformedIdentifier(0))
    } else if predicate.spec_arity() == 2 && identifier_of(args[1]@) is None {
        Err(PlanFailure::MalformedIdentifier(1))
    } else {
        Ok(
            RelationalQuery {
                relation: predicate.spec_relation(),
                first: identifier_of(args[0]@)->0,
                second: if predicate.spec_arity() == 2 {
                    identifier_of(args[1]@)
                } else {
                    None
                },
            },
        )
    }
}

/// Coerces the arguments of a call and names the question to ask.
pub fn plan(predicate: Predicate, args: &Vec<LooseValue>) -> (r: Result<RelationalQuery, PlanFailure>)
    ensures
        r == plan_spec(predicate, args@),
{
    let arity = predicate.arity();
    if args.len() != arity {
        return Err(PlanFailure::WrongArgumentCount);
    }
    let first = match coerce_identifier(&args[0]) {
        Some(id) => id,
        None => {
            return Err(PlanFailure::MalformedIdentifier(0));
        },
    };
    let second = if arity == 2 {
        match coerce_identifier(&args[1]) {
            Some(id) => Some(id),
            None => {
                return Err(PlanFailure::MalformedIdentifier(1));
            },
        }
    } else {
        None
    };
    Ok(RelationalQuery { relation: predicate.relation(), first, second })
}

/// What a predicate answers, and what is to be recorded.
#[derive(Clone, Debug, PartialEq, Eq)]
pub struct PredicateAnswer {
    pub value: bool,
    /// The failure of the data store, where there was one.
    pub failure: Option<String>,
}

/// The answer of a predicate whose question the data store has answered
/// with `outcome`: the store's answer, or `false` where the store failed.
pub fn conclude(outcome: Result<bool, String>) -> (r: PredicateAnswer)
    ensures
        r.value == (outcome == Ok::<bool, String>(true)),
        outcome matches Ok(_) ==> r.failure is None,
        outcome matches Err(e) ==> r.failure == Some(e),
{
    match outcome {
        Ok(value) => PredicateAnswer { value, failure: None },
        Err(e) => PredicateAnswer { value: false, failure: Some(e) },
    }
}

/// The answer of a call that asks no question: `false`.
pub fn refuse(failure: PlanFailure) -> (r: PredicateAnswer)
    ensures
        !r.value,
        r.failure is Some,
        r.failure->0@ == failure_text(failure),
{
    let text = match failure {
        PlanFailure::WrongArgumentCount => "wrong number of arguments",
        PlanFailure::MalformedIdentifier(i) => if i == 0 {
            "failed to parse the first identifier"
        } else {
            "failed to parse the second identifier"
        },
    };
    PredicateAnswer { value: false, failure: Some(text.to_owned()) }
}

/// The record of a call that asks no question.
pub open spec fn failure_text(failure: PlanFailure) -> Seq<char> {
    match failure {
        PlanFailure::WrongArgumentCount => "wrong number of arguments"@,
        PlanFailure::MalformedIdentifier(i) => if i == 0 {
            "failed to parse the first identifier"@
        } else {
            "failed to parse the second identifier"@
        },
    }
}

/// The truth value of a call of `predicate` with `args`, where `store` is
/// what the data store answers to each question.
pub open spec fn predicate_value(
    predicate: Predicate,
    args: Seq<LooseValue>,
    store: spec_fn(RelationalQuery) -> Result<bool, String>,
) -> bool {
    match plan_spec(predicate, args) {
        Ok(query) => store(query) == Ok::<bool, String>(true),
        Err(_) => false,
    }
}

/// A call with an argument that is no identifier is answered with `false`,
/// whatever the data store holds.
pub proof fn lemma_malformed_identifier_is_false(
    predicate: Predicate,
    args: Seq<LooseValue>,
    store: spec_fn(RelationalQuery) -> Result<bool, String>,
    i: int,
)
    requires
        0 <= i < args.len(),
        i < predicate.spec_arity(),
        identifier_of(args[i]@) is None,
    ensures
        plan_spec(predicate, args) is Err,
        !predicate_value(predicate, args, store),
{
}

/// A text with a character that is no digit, after an optional plus sign,
/// is no identifier.
pub proof fn lemma_text_with_other_character_is_no_identifier(s: Seq<char>, i: int)
    requires
        0 <= i < s.len(),
        !crate::text::is_digit(s[i]),
        i > 0 || s[0] != '+',
    ensures
        identifier_of(LooseValueView::Text(s)) is None,
{
    let body = crate::text::unsigned_part(s);
    let lead = crate::text::leading_digits(body);
    let k = if s[0] == '+' {
        i - 1
    } else {
        i
    };
    assert(body[k] == s[i]);
    if lead.len() == body.len() {
        lemma_leading_digits_are_digits(body, k);
    }
}

/// Each character of the leading digits of a text is a digit of the text.
proof fn lemma_leading_digits_are_digits(s: Seq<char>, k: int)
    requires
        0 <= k < crate::text::leading_digits(s).len(),
    ensures
        k < s.len(),
        crate::text::leading_digits(s)[k] == s[k],
        crate::text::is_digit(s[k]),
    decreases s.len(),
{
    if k > 0 {
        lemma_leading_digits_are_digits(s.drop_first(), k - 1);
    }
}

/// A call whose question the data store fails to answer is answered with
/// `false`.
pub proof fn lemma_failed_lookup_is_false(
    predicate: Predicate,
    args: Seq<LooseValue>,
    store: spec_fn(RelationalQuery) -> Result<bool, String>,
)
    requires
        plan_spec(predicate, args) matches Ok(query) && store(query) is Err,
    ensures
        !predicate_value(predicate, args, store),
{
}

} // verus!
