//! Text that the evaluator produces and compares: decimal numerals, the
//! order of strings, and the quoted form of a string.

use vstd::prelude::*;
use vstd::std_specs::iter::IteratorSpec;

verus! {

/// The character of the decimal digit `d`.
pub open spec fn digit(d: int) -> char
    recommends
        0 <= d < 10,
{
    ('0' as int + d) as char
}

/// The decimal numeral of a natural number, without leading zeros.
pub open spec fn decimal_digits(n: nat) -> Seq<char>
    decreases n,
{
    if n < 10 {
        seq![digit(n as int)]
    } else {
        decimal_digits(n / 10).push(digit((n % 10) as int))
    }
}

/// The decimal numeral of an integer: a minus sign for a negative number,
/// then the digits of its magnitude.
pub open spec fn decimal(n: int) -> Seq<char> {
    if n < 0 {
        seq!['-'] + decimal_digits((-n) as nat)
    } else {
        decimal_digits(n as nat)
    }
}

/// Whether `a` comes strictly before `b` in lexicographic order by code
/// point, given that the two agree on their first `i` characters.
pub open spec fn precedes_from(a: Seq<char>, b: Seq<char>, i: int) -> bool
    decreases a.len() - i,
{
    if i >= b.len() {
        false
    } else if i >= a.len() {
        true
    } else if a[i] != b[i] {
        (a[i] as int) < (b[i] as int)
    } else {
        precedes_from(a, b, i + 1)
    }
}

/// Whether `a` comes strictly before `b` in lexicographic order by code
/// point. A proper prefix comes before the longer string.
pub open spec fn precedes(a: Seq<char>, b: Seq<char>) -> bool {
    precedes_from(a, b, 0)
}

/// From an index on, two strings either differ in order or are the same.
proof fn lemma_precedes_from_total(a: Seq<char>, b: Seq<char>, i: int)
    requires
        0 <= i <= a.len(),
        i <= b.len(),
        a.take(i) == b.take(i),
    ensures
        precedes_from(a, b, i) || a == b || precedes_from(b, a, i),
        !(precedes_from(a, b, i) && precedes_from(b, a, i)),
        a == b ==> !precedes_from(a, b, i),
    decreases a.len() - i,
{
    if i >= a.len() || i >= b.len() {
        if i >= a.len() && i >= b.len() {
            assert(a.take(i) == a);
            assert(b.take(i) == b);
        }
    } else if a[i] == b[i] {
        assert(a.take(i + 1) =~= a.take(i).push(a[i]));
        assert(b.take(i + 1) =~= b.take(i).push(b[i]));
        lemma_precedes_from_total(a, b, i + 1);
    }
}

/// The order of strings is strict and total: of two strings exactly one
/// comes before the other, unless they are the same, and then neither does.
pub proof fn lemma_precedes_total(a: Seq<char>, b: Seq<char>)
    ensures
        precedes(a, b) || a == b || precedes(b, a),
        !(precedes(a, b) && precedes(b, a)),
        a == b ==> !precedes(a, b),
{
    assert(a.take(0) =~= b.take(0));
    lemma_precedes_from_total(a, b, 0);
}

/// The quoted form of a string, as the standard library's `Debug` writes a
/// `str`: between double quotes, with the characters that it escapes
/// written as their escapes.
pub uninterp spec fn quoted(text: Seq<char>) -> Seq<char>;

/// Formats `text` with `{:?}`, that is with `<str as Debug>::fmt`. The
/// contract is not proved: it says that the result is a function of the
/// characters of `text` alone, and calls that function [`quoted`].
#[verifier::external_body]
pub(crate) fn quote(text: &str) -> (res: String)
    ensures
        res@ == quoted(text@),
{
    format!("{:?}", text)
}

/// `tag`, then `body` between round brackets.
pub fn tagged(tag: &str, body: &str) -> (res: String)
    ensures
        res@ == tag@ + "("@ + body@ + ")"@,
{
    let mut res = String::from_str(tag);
    res.append("(");
    res.append(body);
    res.append(")");
    res
}

fn digit_text(d: u64) -> (res: &'static str)
    requires
        d < 10,
    ensures
        res@ == seq![digit(d as int)],
{
    proof {
        reveal_strlit("0");
        reveal_strlit("1");
        reveal_strlit("2");
        reveal_strlit("3");
        reveal_strlit("4");
        reveal_strlit("5");
        reveal_strlit("6");
        reveal_strlit("7");
        reveal_strlit("8");
        reveal_strlit("9");
    }
    let res = if d == 0 {
        "0"
    } else if d == 1 {
        "1"
    } else if d == 2 {
        "2"
    } else if d == 3 {
        "3"
    } else if d == 4 {
        "4"
    } else if d == 5 {
        "5"
    } else if d == 6 {
        "6"
    } else if d == 7 {
        "7"
    } else if d == 8 {
        "8"
    } else {
        "9"
    };
    assert(res@ =~= seq![digit(d as int)]);
    res
}

fn append_digits(text: &mut String, n: u64)
    ensures
        final(text)@ == old(text)@ + decimal_digits(n as nat),
    decreases n,
{
    if n >= 10 {
        append_digits(text, n / 10);
    }
    text.append(digit_text(n % 10));
    assert(text@ =~= old(text)@ + decimal_digits(n as nat));
}

/// The decimal numeral of `n`.
pub fn int_to_text(n: i32) -> (res: String)
    ensures
        res@ == decimal(n as int),
{
    let mut res = String::new();
    if n < 0 {
        proof {
            reveal_strlit("-");
        }
        res.append("-");
        append_digits(&mut res, (-(n as i64)) as u64);
    } else {
        append_digits(&mut res, n as u64);
    }
    assert(res@ =~= decimal(n as int));
    res
}

/// The decimal numeral of the count `n`.
pub fn count_to_text(n: usize) -> (res: String)
    ensures
        res@ == decimal(n as int),
{
    let mut res = String::new();
    append_digits(&mut res, n as u64);
    assert(res@ =~= decimal(n as int));
    res
}

/// Whether `a` and `b` hold the same characters.
pub fn text_equals(a: &str, b: &str) -> (res: bool)
    ensures
        res == (a@ == b@),
{
    let mut rest_a = a.chars();
    let mut rest_b = b.chars();
    let ghost mut i: int = 0;
    loop
        invariant
            0 <= i <= a@.len(),
            i <= b@.len(),
            rest_a.remaining() == a@.skip(i),
            rest_b.remaining() == b@.skip(i),
            a@.take(i) == b@.take(i),
        decreases a@.len() - i,
    {
        let next_a = rest_a.next();
        let next_b = rest_b.next();
        match (next_a, next_b) {
            (None, None) => {
                assert(a@.take(i) == a@);
                assert(b@.take(i) == b@);
                return true;
            },
            (Some(ca), Some(cb)) => {
                assert(ca == a@[i]);
                assert(cb == b@[i]);
                if ca != cb {
                    return false;
                }
                proof {
                    assert(a@.skip(i).drop_first() =~= a@.skip(i + 1));
                    assert(b@.skip(i).drop_first() =~= b@.skip(i + 1));
                    assert(a@.take(i + 1) =~= a@.take(i).push(a@[i]));
                    assert(b@.take(i + 1) =~= b@.take(i).push(b@[i]));
                    i = i + 1;
                }
            },
            _ => {
                return false;
            },
        }
    }
}

/// Whether `a` comes strictly before `b` in lexicographic order by code
/// point, which is also their order by the bytes of their UTF-8 encoding.
pub fn text_precedes(a: &str, b: &str) -> (res: bool)
    ensures
        res == precedes(a@, b@),
{
    let mut rest_a = a.chars();
    let mut rest_b = b.chars();
    let ghost mut i: int = 0;
    loop
        invariant
            0 <= i <= a@.len(),
            i <= b@.len(),
            rest_a.remaining() == a@.skip(i),
            rest_b.remaining() == b@.skip(i),
            precedes(a@, b@) == precedes_from(a@, b@, i),
        decreases a@.len() - i,
    {
        let next_b = rest_b.next();
        let next_a = rest_a.next();
        match next_b {
            None => {
                return false;
            },
            Some(cb) => {
                match next_a {
                    None => {
                        return true;
                    },
                    Some(ca) => {
                        assert(ca == a@[i]);
                        assert(cb == b@[i]);
                        if ca != cb {
                            return ca < cb;
                        }
                        proof {
                            assert(a@.skip(i).drop_first() =~= a@.skip(i + 1));
                            assert(b@.skip(i).drop_first() =~= b@.skip(i + 1));
                            i = i + 1;
                        }
                    },
                }
            },
        }
    }
}

} // verus!
