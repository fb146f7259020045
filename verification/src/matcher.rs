//! What a matcher of the policy model may hold. The rule engine evaluates
//! the matcher on every request, and what it evaluates can stop the
//! process: its own operator functions do on some arguments, and so does
//! arithmetic. A matcher is taken only where it can do neither: it is
//! written with names, texts, comparisons and the logical operators, and
//! the only functions that it calls are the relational predicates.

use crate::predicates::{Predicate, PREDICATE_COUNT};
use crate::text::{chars_of, same_chars};
use vstd::prelude::*;

verus! {

/// Whether `c` may stand in a name: a letter, a digit or an underscore.
pub open spec fn is_name_char(c: char) -> bool {
    ('a' <= c <= 'z') || ('A' <= c <= 'Z') || ('0' <= c <= '9') || c == '_'
}

/// Whether `c` may stand in a matcher: what a name is made of, the dot,
/// the brackets and the comma of a call, the space, the double quote, and
/// the signs of the comparisons and the logical operators.
pub open spec fn is_matcher_char(c: char) -> bool {
    is_name_char(c) || c == '.' || c == '(' || c == ')' || c == ',' || c == ' ' || c == '"'
        || c == '&' || c == '|' || c == '!' || c == '='
}

/// The place before the spaces that stand just before `i`.
pub open spec fn before_spaces(text: Seq<char>, i: int) -> int
    decreases i,
{
    if 0 < i <= text.len() && text[i - 1] == ' ' {
        before_spaces(text, i - 1)
    } else {
        i
    }
}

/// The place where the name begins that ends just before `end`.
pub open spec fn name_start(text: Seq<char>, end: int) -> int
    decreases end,
{
    if 0 < end <= text.len() && is_name_char(text[end - 1]) {
        name_start(text, end - 1)
    } else {
        end
    }
}

/// The name that is called by the opening bracket at `i`: the name that
/// stands before the bracket, spaces between them or not; empty where no
/// name stands there.
pub open spec fn callee(text: Seq<char>, i: int) -> Seq<char> {
    let end = before_spaces(text, i);
    text.subrange(name_start(text, end), end)
}

/// Whether `name` is the policy-visible name of a predicate.
pub open spec fn is_predicate_name(name: Seq<char>) -> bool {
    exists|p: Predicate| p.spec_policy_name() == name
}

/// Whether a matcher is taken: every character may stand in a matcher, and
/// every call is a call of a predicate.
pub open spec fn matcher_safe(text: Seq<char>) -> bool {
    forall|i: int|
        0 <= i < text.len() ==> {
            &&& is_matcher_char(#[trigger] text[i])
            &&& text[i] == '(' ==> callee(text, i).len() == 0 || is_predicate_name(callee(text, i))
        }
}

/// The places before the spaces and at the start of a name lie in the
/// text, in their order.
pub proof fn lemma_callee_bounds(text: Seq<char>, i: int)
    requires
        0 <= i <= text.len(),
    ensures
        0 <= name_start(text, before_spaces(text, i)) <= before_spaces(text, i) <= i,
    decreases i,
{
    lemma_before_spaces_bounds(text, i);
    lemma_name_start_bounds(text, before_spaces(text, i));
}

proof fn lemma_before_spaces_bounds(text: Seq<char>, i: int)
    requires
        0 <= i <= text.len(),
    ensures
        0 <= before_spaces(text, i) <= i,
    decreases i,
{
    if 0 < i && text[i - 1] == ' ' {
        lemma_before_spaces_bounds(text, i - 1);
    }
}

proof fn lemma_name_start_bounds(text: Seq<char>, end: int)
    requires
        0 <= end <= text.len(),
    ensures
        0 <= name_start(text, end) <= end,
    decreases end,
{
    if 0 < end && is_name_char(text[end - 1]) {
        lemma_name_start_bounds(text, end - 1);
    }
}

/// Whether `c` may stand in a name.
pub fn name_char(c: char) -> (r: bool)
    ensures
        r == is_name_char(c),
{
    (c >= 'a' && c <= 'z') || (c >= 'A' && c <= 'Z') || (c >= '0' && c <= '9') || c == '_'
}

/// Whether `c` may stand in a matcher.
pub fn matcher_char(c: char) -> (r: bool)
    ensures
        r == is_matcher_char(c),
{
    name_char(c) || c == '.' || c == '(' || c == ')' || c == ',' || c == ' ' || c == '"' || c == '&'
        || c == '|' || c == '!' || c == '='
}

/// Whether `name` is the policy-visible name of a predicate.
pub fn names_predicate(name: &Vec<char>) -> (r: bool)
    ensures
        r == is_predicate_name(name@),
{
    let mut k: usize = 0;
    while k < PREDICATE_COUNT
        invariant
            k <= PREDICATE_COUNT,
            forall|j: int| 0 <= j < k ==> Predicate::spec_from_index(j).spec_policy_name() != name@,
        decreases PREDICATE_COUNT - k,
    {
        match Predicate::from_index(k) {
            Some(p) => {
                let own = chars_of(p.policy_name());
                if same_chars(&own, name) {
                    return true;
                }
            },
            None => {},
        }
        k += 1;
    }
    assert forall|p: Predicate| p.spec_policy_name() != name@ by {
        let j = p.spec_index();
        assert(Predicate::spec_from_index(j) == p);
    }
    false
}

/// Whether the call at the opening bracket at `i` is a call of a
/// predicate, or no call at all.
fn call_is_safe(chars: &Vec<char>, i: usize) -> (r: bool)
    requires
        i < chars.len(),
    ensures
        r == (callee(chars@, i as int).len() == 0 || is_predicate_name(callee(chars@, i as int))),
{
    let mut end: usize = i;
    while end > 0 && chars[end - 1] == ' '
        invariant
            end <= i < chars.len(),
            before_spaces(chars@, i as int) == before_spaces(chars@, end as int),
        decreases end,
    {
        end -= 1;
    }
    let mut start: usize = end;
    while start > 0 && name_char(chars[start - 1])
        invariant
            start <= end <= i < chars.len(),
            name_start(chars@, end as int) == name_start(chars@, start as int),
        decreases start,
    {
        start -= 1;
    }
    let mut name: Vec<char> = Vec::new();
    let mut k: usize = start;
    while k < end
        invariant
            start <= k <= end <= chars.len(),
            name@ == chars@.subrange(start as int, k as int),
        decreases end - k,
    {
        name.push(chars[k]);
        assert(name@ =~= chars@.subrange(start as int, k + 1));
        k += 1;
    }
    name.len() == 0 || names_predicate(&name)
}

/// Whether a matcher is taken.
pub fn is_safe_matcher(text: &str) -> (r: bool)
    ensures
        r == matcher_safe(text@),
{
    let chars = chars_of(text);
    let mut i: usize = 0;
    while i < chars.len()
        invariant
            i <= chars.len(),
            chars@ == text@,
            forall|j: int|
                0 <= j < i ==> {
                    &&& is_matcher_char(#[trigger] chars@[j])
                    &&& chars@[j] == '(' ==> callee(chars@, j).len() == 0 || is_predicate_name(
                        callee(chars@, j),
                    )
                },
        decreases chars.len() - i,
    {
        let c = chars[i];
        if !matcher_char(c) {
            return false;
        }
        if c == '(' {
            if !call_is_safe(&chars, i) {
                return false;
            }
        }
        i += 1;
    }
    true
}

} // verus!
