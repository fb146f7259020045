//! Text helpers shared by the authorization stages: the characters of a
//! string, prefixes, and unsigned decimal numbers in both directions.

use vstd::prelude::*;
use vstd::string::*;

verus! {

broadcast use vstd::string::group_string_axioms;

/// The characters of `s`, in order.
pub fn chars_of(s: &str) -> (v: Vec<char>)
    ensures
        v@ == s@,
{
    let mut v: Vec<char> = Vec::new();
    for c in it: s.chars()
        invariant
            it.seq() == s@,
            v@ == it.seq().take(it.index()),
    {
        v.push(c);
        assert(v@ =~= it.seq().take(it.index() + 1));
    }
    assert(v@ =~= s@);
    v
}

/// Whether two texts hold the same characters.
pub fn same_text(a: &str, b: &str) -> (r: bool)
    ensures
        r == (a@ == b@),
{
    let x = chars_of(a);
    let y = chars_of(b);
    same_chars(&x, &y)
}

/// Whether two character vectors are equal.
pub fn same_chars(a: &Vec<char>, b: &Vec<char>) -> (r: bool)
    ensures
        r == (a@ == b@),
{
    if a.len() != b.len() {
        return false;
    }
    let mut i: usize = 0;
    while i < a.len()
        invariant
            a.len() == b.len(),
            i <= a.len(),
            forall|j: int| 0 <= j < i ==> a@[j] == b@[j],
        decreases a.len() - i,
    {
        if a[i] != b[i] {
            return false;
        }
        i += 1;
    }
    assert(a@ =~= b@);
    true
}

/// Whether `text` begins with `prefix`.
pub fn begins_with(text: &Vec<char>, prefix: &Vec<char>) -> (r: bool)
    ensures
        r == prefix@.is_prefix_of(text@),
{
    if prefix.len() > text.len() {
        return false;
    }
    let mut i: usize = 0;
    while i < prefix.len()
        invariant
            prefix.len() <= text.len(),
            i <= prefix.len(),
            forall|j: int| 0 <= j < i ==> text@[j] == prefix@[j],
        decreases prefix.len() - i,
    {
        if text[i] != prefix[i] {
            assert(text@.subrange(0, prefix@.len() as int)[i as int] != prefix@[i as int]);
            return false;
        }
        i += 1;
    }
    assert(text@.subrange(0, prefix@.len() as int) =~= prefix@);
    true
}

/// Why a text is not an unsigned decimal number that fits in 64 bits.
#[derive(Clone, Copy, Debug, PartialEq, Eq, Structural)]
pub enum NumberError {
    /// The text is empty.
    Empty,
    /// A character that is not a decimal digit, or a sign with nothing after it.
    InvalidDigit,
    /// The digits denote a number above `u64::MAX`.
    Overflow,
}

/// Whether `c` is one of `0` to `9`.
pub open spec fn is_digit(c: char) -> bool {
    48 <= c as int <= 57
}

/// The number that the digit `c` stands for.
pub open spec fn digit_value(c: char) -> nat {
    (c as int - 48) as nat
}

/// The character of the digit `d`.
pub open spec fn digit_char(d: nat) -> char {
    (d + 48) as char
}

/// Whether every character of `s` is a digit.
pub open spec fn all_digits(s: Seq<char>) -> bool {
    forall|i: int| 0 <= i < s.len() ==> is_digit(#[trigger] s[i])
}

/// The number that a sequence of digits denotes, most significant first.
pub open spec fn decimal_value(s: Seq<char>) -> nat
    decreases s.len(),
{
    if s.len() == 0 {
        0
    } else {
        decimal_value(s.drop_last()) * 10 + digit_value(s.last())
    }
}

/// The longest prefix of `s` made of digits.
pub open spec fn leading_digits(s: Seq<char>) -> Seq<char>
    decreases s.len(),
{
    if s.len() > 0 && is_digit(s[0]) {
        seq![s[0]] + leading_digits(s.drop_first())
    } else {
        Seq::empty()
    }
}

/// `s` without one leading plus sign.
pub open spec fn unsigned_part(s: Seq<char>) -> Seq<char> {
    if s.len() > 0 && s[0] == '+' {
        s.drop_first()
    } else {
        s
    }
}

/// What reading `s` as an unsigned decimal number gives: an optional plus
/// sign, then one digit or more whose value fits in 64 bits. A text whose
/// leading digits alone exceed the range overflows, whatever follows them.
pub open spec fn parse_decimal_spec(s: Seq<char>) -> Result<u64, NumberError> {
    let body = unsigned_part(s);
    let lead = leading_digits(body);
    if s.len() == 0 {
        Err(NumberError::Empty)
    } else if decimal_value(lead) > u64::MAX {
        Err(NumberError::Overflow)
    } else if body.len() > 0 && lead.len() == body.len() {
        Ok(decimal_value(lead) as u64)
    } else {
        Err(NumberError::InvalidDigit)
    }
}

/// The decimal digits of `n`, without leading zeros.
pub open spec fn decimal_text(n: nat) -> Seq<char>
    decreases n,
{
    if n < 10 {
        seq![digit_char(n)]
    } else {
        decimal_text(n / 10).push(digit_char(n % 10))
    }
}

/// The leading digits of a text that starts with `n` digits are those
/// digits, followed by the leading digits of the rest.
pub proof fn lemma_leading_digits_split(s: Seq<char>, n: int)
    requires
        0 <= n <= s.len(),
        all_digits(s.take(n)),
    ensures
        leading_digits(s) == s.take(n) + leading_digits(s.skip(n)),
    decreases n,
{
    if n == 0 {
        assert(s.skip(0) =~= s);
        assert(s.take(0) + leading_digits(s) =~= leading_digits(s));
    } else {
        assert(s.take(n)[0] == s[0]);
        let rest = s.drop_first();
        assert(rest.take(n - 1) =~= s.take(n).drop_first());
        assert(all_digits(rest.take(n - 1))) by {
            assert forall|i: int| 0 <= i < n - 1 implies is_digit(
                #[trigger] rest.take(n - 1)[i],
            ) by {
                assert(rest.take(n - 1)[i] == s.take(n)[i + 1]);
            }
        }
        lemma_leading_digits_split(rest, n - 1);
        assert(rest.skip(n - 1) =~= s.skip(n));
        assert(seq![s[0]] + (rest.take(n - 1) + leading_digits(rest.skip(n - 1))) =~= s.take(n)
            + leading_digits(s.skip(n)));
    }
}

/// A text of digits is its own leading digits.
pub proof fn lemma_leading_digits_whole(s: Seq<char>)
    requires
        all_digits(s),
    ensures
        leading_digits(s) == s,
{
    assert(s.take(s.len() as int) =~= s);
    lemma_leading_digits_split(s, s.len() as int);
    assert(s.skip(s.len() as int) =~= Seq::<char>::empty());
    assert(s + Seq::<char>::empty() =~= s);
}

/// A longer run of digits denotes a number that is no smaller.
pub proof fn lemma_decimal_value_grows(s: Seq<char>, n: int)
    requires
        0 <= n <= s.len(),
    ensures
        decimal_value(s.take(n)) <= decimal_value(s),
    decreases s.len() - n,
{
    if n == s.len() {
        assert(s.take(n) =~= s);
    } else {
        assert(s.drop_last().take(n) =~= s.take(n));
        lemma_decimal_value_grows(s.drop_last(), n);
    }
}

/// The digits written for `n` are digits, more than none, and denote `n`.
pub proof fn lemma_decimal_text_value(n: nat)
    ensures
        decimal_text(n).len() > 0,
        all_digits(decimal_text(n)),
        decimal_value(decimal_text(n)) == n,
    decreases n,
{
    if n < 10 {
        let s = seq![digit_char(n)];
        assert(s.drop_last() =~= Seq::<char>::empty());
        assert(decimal_value(s.drop_last()) == 0);
        assert(s.last() == digit_char(n));
    } else {
        lemma_decimal_text_value(n / 10);
        let head = decimal_text(n / 10);
        let s = head.push(digit_char(n % 10));
        assert(s.drop_last() =~= head);
        assert(s.last() == digit_char(n % 10));
        assert forall|i: int| 0 <= i < s.len() implies is_digit(#[trigger] s[i]) by {
            if i < head.len() {
                assert(s[i] == head[i]);
            }
        }
    }
}

/// Writing a number and reading it back gives the number.
pub proof fn lemma_decimal_round_trip(n: u64)
    ensures
        parse_decimal_spec(decimal_text(n as nat)) == Ok::<u64, NumberError>(n),
{
    let s = decimal_text(n as nat);
    lemma_decimal_text_value(n as nat);
    assert(is_digit(s[0]));
    assert(unsigned_part(s) == s);
    lemma_leading_digits_whole(s);
}

/// The value of `c` where it is a decimal digit.
pub fn digit_of(c: char) -> (r: Option<u64>)
    ensures
        r is Some == is_digit(c),
        r matches Some(d) ==> d == digit_value(c),
{
    if c >= '0' && c <= '9' {
        Some(((c as u8) - 48) as u64)
    } else {
        None
    }
}

/// Reads an unsigned decimal number: an optional plus sign, then digits.
pub fn parse_decimal(text: &Vec<char>) -> (r: Result<u64, NumberError>)
    ensures
        r == parse_decimal_spec(text@),
{
    if text.len() == 0 {
        return Err(NumberError::Empty);
    }
    let start: usize = if text[0] == '+' {
        1
    } else {
        0
    };
    let ghost body = unsigned_part(text@);
    assert(body =~= text@.skip(start as int));
    if start == text.len() {
        assert(leading_digits(body) =~= Seq::<char>::empty());
        return Err(NumberError::InvalidDigit);
    }
    let mut acc: u64 = 0;
    let mut i: usize = start;
    while i < text.len()
        invariant
            start <= i <= text.len(),
            start < text.len(),
            text@.len() > 0,
            body == unsigned_part(text@),
            body == text@.skip(start as int),
            all_digits(body.take(i - start)),
            acc == decimal_value(body.take(i - start)),
        decreases text.len() - i,
    {
        let c = text[i];
        let ghost k = i - start;
        assert(body[k] == c);
        proof {
            lemma_leading_digits_split(body, k);
        }
        let d: u64 = match digit_of(c) {
            Some(d) => d,
            None => {
                assert(!is_digit(body.skip(k)[0]));
                assert(leading_digits(body.skip(k)) =~= Seq::<char>::empty());
                assert(body.take(k) + Seq::<char>::empty() =~= body.take(k));
                return Err(NumberError::InvalidDigit);
            },
        };
        let ghost next = body.take(k + 1);
        assert(next.drop_last() =~= body.take(k));
        assert(next.last() == c);
        assert(decimal_value(next) == acc * 10 + d);
        assert(all_digits(next)) by {
            assert forall|j: int| 0 <= j < next.len() implies is_digit(#[trigger] next[j]) by {
                if j < k {
                    assert(next[j] == body.take(k)[j]);
                }
            }
        }
        if acc > (u64::MAX - d) / 10 {
            proof {
                lemma_leading_digits_split(body, k + 1);
                let lead = leading_digits(body);
                assert(lead.take(k + 1) =~= next);
                lemma_decimal_value_grows(lead, k + 1);
            }
            return Err(NumberError::Overflow);
        }
        acc = acc * 10 + d;
        i += 1;
    }
    proof {
        assert(body.take(i - start) =~= body);
        lemma_leading_digits_whole(body);
    }
    Ok(acc)
}

/// The one-character text of the digit `d`.
fn digit_text(d: u64) -> (r: &'static str)
    requires
        d < 10,
    ensures
        r@ == seq![digit_char(d as nat)],
{
    proof {
        reveal_strlit("0");
        reveal_strlit("1");
        reveal_strlit("2");
        reveal_strlit("3");
        reveal_strlit("4");
        reveal_strlit("5");
        reveal_strlit("6");
        reveal_strlit("7");
        reveal_strlit("8");
        reveal_strlit("9");
    }
    let r = if d == 0 {
        "0"
    } else if d == 1 {
        "1"
    } else if d == 2 {
        "2"
    } else if d == 3 {
        "3"
    } else if d == 4 {
        "4"
    } else if d == 5 {
        "5"
    } else if d == 6 {
        "6"
    } else if d == 7 {
        "7"
    } else if d == 8 {
        "8"
    } else {
        "9"
    };
    assert(r@ =~= seq![digit_char(d as nat)]);
    r
}

/// Appends the decimal digits of `n` to `out`.
pub fn push_decimal(out: &mut String, n: u64)
    ensures
        final(out)@ == old(out)@ + decimal_text(n as nat),
    decreases n,
{
    if n >= 10 {
        push_decimal(out, n / 10);
    }
    let ghost before = out@;
    out.append(digit_text(n % 10));
    assert(out@ =~= old(out)@ + decimal_text(n as nat)) by {
        if n >= 10 {
            assert(before == old(out)@ + decimal_text((n / 10) as nat));
        }
    }
}

/// The decimal digits of `n`, without leading zeros.
pub fn decimal_string(n: u64) -> (r: String)
    ensures
        r@ == decimal_text(n as nat),
        parse_decimal_spec(r@) == Ok::<u64, NumberError>(n),
{
    let mut out = String::new();
    push_decimal(&mut out, n);
    proof {
        assert(out@ =~= decimal_text(n as nat));
        lemma_decimal_round_trip(n);
    }
    out
}

} // verus!
