//! What holds of the operators, whatever their operands.

use crate::ast::{BinaryOp, LocationView, TermView};
use crate::interpreter::context::ContextView;
use crate::interpreter::error::{RuntimeErrorKind, RuntimeErrorView};
use crate::interpreter::semantics::{apply_binary, eval, lift};
use crate::interpreter::value::{
    magnitude, truncated_quotient, truncated_remainder, wrap, ValueView,
};
use crate::text::{lemma_precedes_total, precedes};
use vstd::arithmetic::div_mod::{
    lemma_fundamental_div_mod, lemma_fundamental_div_mod_converse, lemma_mod_bound,
};
use vstd::prelude::*;

verus! {

/// Whether `n` is in the range of `i32`.
pub open spec fn in_range(n: int) -> bool {
    i32::MIN <= n <= i32::MAX
}

/// Wrapping keeps an integer that is in range, and gives for any integer
/// one in range that differs from it by a multiple of 2^32.
pub proof fn lemma_wrap(n: int)
    ensures
        in_range(wrap(n)),
        (n - wrap(n)) % 0x1_0000_0000 == 0,
        in_range(n) ==> wrap(n) == n,
{
}

/// The quotient and the remainder of the division that rounds toward zero
/// make up the dividend; the remainder is nearer to zero than the divisor
/// and is zero or has the sign of the dividend.
pub proof fn lemma_truncated_division(a: int, b: int)
    requires
        b != 0,
    ensures
        a == b * truncated_quotient(a, b) + truncated_remainder(a, b),
        magnitude(truncated_remainder(a, b)) < magnitude(b),
        truncated_remainder(a, b) == 0 || (truncated_remainder(a, b) < 0) == (a < 0),
        magnitude(truncated_quotient(a, b)) <= magnitude(a),
{
    let ma = magnitude(a);
    let mb = magnitude(b);
    let k = ma / mb;
    let m = ma % mb;
    lemma_fundamental_div_mod(ma, mb);
    lemma_mod_bound(ma, mb);
    assert(0 <= k <= ma) by (nonlinear_arith)
        requires
            ma == mb * k + m,
            0 <= m < mb,
            0 <= ma,
    ;
    assert((-mb) * k == -(mb * k)) by (nonlinear_arith);
    assert(mb * (-k) == -(mb * k)) by (nonlinear_arith);
    assert((-mb) * (-k) == mb * k) by (nonlinear_arith);
}

/// Only the quotient and the remainder of the division that rounds toward
/// zero make up the dividend with a remainder that is nearer to zero than
/// the divisor and is zero or has the sign of the dividend.
pub proof fn lemma_truncated_division_unique(a: int, b: int, q: int, r: int)
    requires
        b != 0,
        a == b * q + r,
        magnitude(r) < magnitude(b),
        r == 0 || (r < 0) == (a < 0),
    ensures
        q == truncated_quotient(a, b),
        r == truncated_remainder(a, b),
{
    let ma = magnitude(a);
    let mb = magnitude(b);
    let mr = magnitude(r);
    let k = if (a < 0) != (b < 0) {
        -q
    } else {
        q
    };
    assert(ma == k * mb + mr) by (nonlinear_arith)
        requires
            a == b * q + r,
            ma == magnitude(a),
            mb == magnitude(b),
            mr == magnitude(r),
            b != 0,
            r == 0 || (r < 0) == (a < 0),
            mr < mb,
            k == if (a < 0) != (b < 0) {
                -q
            } else {
                q
            },
    ;
    lemma_fundamental_div_mod_converse(ma, mb, k, mr);
}

/// Whether the result of an operator is the value `value`.
pub open spec fn gives(result: Result<ValueView, RuntimeErrorView>, value: ValueView) -> bool {
    result matches Ok(given) && given == value
}

/// Whether the result of an operator is an error of kind `kind` at
/// `location`.
pub open spec fn fails(
    result: Result<ValueView, RuntimeErrorView>,
    kind: RuntimeErrorKind,
    location: LocationView,
) -> bool {
    result matches Err(error) && error.kind == kind && error.location == location
}

/// `/` on integers: a zero divisor is a division by zero; any other
/// divisor gives the quotient rounded toward zero. The least integer
/// divided by -1 is left out: its quotient is out of range, and wraps.
pub proof fn law_div(a: int, b: int, location: LocationView)
    requires
        in_range(a),
        in_range(b),
        !(a == i32::MIN && b == -1),
    ensures
        b != 0 ==> gives(
            ValueView::Int(a).div(ValueView::Int(b), location),
            ValueView::Int(truncated_quotient(a, b)),
        ),
        b == 0 ==> fails(
            ValueView::Int(a).div(ValueView::Int(b), location),
            RuntimeErrorKind::DivisionByZero,
            location,
        ),
{
    if b != 0 {
        lemma_truncated_division(a, b);
        let q = truncated_quotient(a, b);
        if q == 0x8000_0000 {
            assert(a == b * 0x8000_0000 + truncated_remainder(a, b));
        }
    }
}

/// `%` on integers: a zero divisor is a division by zero; any other
/// divisor gives what the division that rounds toward zero leaves.
pub proof fn law_rem(a: int, b: int, location: LocationView)
    requires
        in_range(a),
        in_range(b),
    ensures
        b != 0 ==> gives(
            ValueView::Int(a).rem(ValueView::Int(b), location),
            ValueView::Int(truncated_remainder(a, b)),
        ),
        b != 0 ==> in_range(truncated_remainder(a, b)),
        b == 0 ==> fails(
            ValueView::Int(a).rem(ValueView::Int(b), location),
            RuntimeErrorKind::DivisionByZero,
            location,
        ),
{
    if b != 0 {
        lemma_truncated_division(a, b);
    }
}

/// `+` is never an error. Two integers give their sum where it is in
/// range; any other two values give a string, their display forms one
/// after the other.
pub proof fn law_add(lhs: ValueView, rhs: ValueView)
    ensures
        lhs.add(rhs) is Ok,
        lhs is Int && rhs is Int && in_range(lhs->Int_0 + rhs->Int_0) ==> gives(
            lhs.add(rhs),
            ValueView::Int(lhs->Int_0 + rhs->Int_0),
        ),
        !(lhs is Int && rhs is Int) ==> gives(
            lhs.add(rhs),
            ValueView::Str(lhs.display() + rhs.display()),
        ),
{
}

/// `-` and `*` give for two integers their difference and their product
/// where it is in range, and are with `/` and `%` an invalid binary
/// operation on any other two values.
pub proof fn law_sub_mul(lhs: ValueView, rhs: ValueView, location: LocationView)
    ensures
        lhs is Int && rhs is Int ==> lhs.sub(rhs, location) is Ok && lhs.mul(rhs, location) is Ok,
        lhs is Int && rhs is Int && in_range(lhs->Int_0 - rhs->Int_0) ==> gives(
            lhs.sub(rhs, location),
            ValueView::Int(lhs->Int_0 - rhs->Int_0),
        ),
        lhs is Int && rhs is Int && in_range(lhs->Int_0 * rhs->Int_0) ==> gives(
            lhs.mul(rhs, location),
            ValueView::Int(lhs->Int_0 * rhs->Int_0),
        ),
        !(lhs is Int && rhs is Int) ==> {
            &&& fails(lhs.sub(rhs, location), RuntimeErrorKind::InvalidBinaryOperation, location)
            &&& fails(lhs.mul(rhs, location), RuntimeErrorKind::InvalidBinaryOperation, location)
            &&& fails(lhs.div(rhs, location), RuntimeErrorKind::InvalidBinaryOperation, location)
            &&& fails(lhs.rem(rhs, location), RuntimeErrorKind::InvalidBinaryOperation, location)
        },
{
}

/// `<`, `<=`, `>` and `>=` give a boolean for two integers, by their
/// order, and for two strings, by lexicographic order, and are an invalid
/// binary operation on any other two values. The four agree with each
/// other: `>` is `<` with the operands exchanged, `<=` holds where `<` or
/// `==` does, `>=` where `>` or `==` does, and of `<`, `==` and `>` exactly
/// one holds.
pub proof fn law_order(lhs: ValueView, rhs: ValueView, location: LocationView)
    ensures
        lhs is Int && rhs is Int ==> gives(
            lhs.lt(rhs, location),
            ValueView::Bool(lhs->Int_0 < rhs->Int_0),
        ),
        lhs is Str && rhs is Str ==> gives(
            lhs.lt(rhs, location),
            ValueView::Bool(precedes(lhs->Str_0, rhs->Str_0)),
        ),
        (lhs is Int && rhs is Int) || (lhs is Str && rhs is Str) ==> {
            &&& lhs.lt(rhs, location) matches Ok(ValueView::Bool(lt))
            &&& lhs.gt(rhs, location) matches Ok(ValueView::Bool(gt))
            &&& lhs.lte(rhs, location) matches Ok(ValueView::Bool(lte))
            &&& lhs.gte(rhs, location) matches Ok(ValueView::Bool(gte))
            &&& gives(rhs.lt(lhs, location), ValueView::Bool(gt))
            &&& lte == (lt || lhs == rhs)
            &&& gte == (gt || lhs == rhs)
            &&& !(lt && gt)
            &&& !(lt && lhs == rhs)
            &&& !(gt && lhs == rhs)
            &&& lt || gt || lhs == rhs
        },
        !((lhs is Int && rhs is Int) || (lhs is Str && rhs is Str)) ==> {
            &&& fails(lhs.lt(rhs, location), RuntimeErrorKind::InvalidBinaryOperation, location)
            &&& fails(lhs.gt(rhs, location), RuntimeErrorKind::InvalidBinaryOperation, location)
            &&& fails(lhs.lte(rhs, location), RuntimeErrorKind::InvalidBinaryOperation, location)
            &&& fails(lhs.gte(rhs, location), RuntimeErrorKind::InvalidBinaryOperation, location)
        },
{
    match (lhs, rhs) {
        (ValueView::Str(a), ValueView::Str(b)) => {
            lemma_precedes_total(a, b);
            lemma_precedes_total(b, a);
        },
        _ => {},
    }
}

/// `==` and `!=` give a boolean for two integers, two strings and two
/// booleans, each the opposite of the other, and are an invalid binary
/// operation on any other two values.
pub proof fn law_equality(lhs: ValueView, rhs: ValueView, location: LocationView)
    ensures
        (lhs is Int && rhs is Int) || (lhs is Str && rhs is Str) || (lhs is Bool && rhs is Bool)
            ==> {
            &&& gives(lhs.eq(rhs, location), ValueView::Bool(lhs == rhs))
            &&& gives(lhs.neq(rhs, location), ValueView::Bool(lhs != rhs))
        },
        !((lhs is Int && rhs is Int) || (lhs is Str && rhs is Str) || (lhs is Bool && rhs is Bool))
            ==> {
            &&& fails(lhs.eq(rhs, location), RuntimeErrorKind::InvalidBinaryOperation, location)
            &&& fails(lhs.neq(rhs, location), RuntimeErrorKind::InvalidBinaryOperation, location)
        },
{
}

/// `&&` and `||` give a boolean for two booleans and are an invalid binary
/// operation on any other two values.
pub proof fn law_and_or(lhs: ValueView, rhs: ValueView, location: LocationView)
    ensures
        lhs is Bool && rhs is Bool ==> {
            &&& gives(lhs.and(rhs, location), ValueView::Bool(lhs->Bool_0 && rhs->Bool_0))
            &&& gives(lhs.or(rhs, location), ValueView::Bool(lhs->Bool_0 || rhs->Bool_0))
        },
        !(lhs is Bool && rhs is Bool) ==> {
            &&& fails(lhs.and(rhs, location), RuntimeErrorKind::InvalidBinaryOperation, location)
            &&& fails(lhs.or(rhs, location), RuntimeErrorKind::InvalidBinaryOperation, location)
        },
{
}

/// A binary operation on two integer literals evaluates to what the
/// operator makes of the two integers, with the span of the operation on
/// an error, and leaves the context as it was.
pub proof fn law_eval_operator_on_integers(
    a: int,
    b: int,
    op: BinaryOp,
    span_a: LocationView,
    span_b: LocationView,
    location: LocationView,
    context: ContextView,
    depth: nat,
)
    ensures
        eval(
            TermView::Binary {
                lhs: Box::new(TermView::Int { value: a, location: span_a }),
                op,
                rhs: Box::new(TermView::Int { value: b, location: span_b }),
                location,
            },
            context,
            depth,
        ) == (lift(apply_binary(op, ValueView::Int(a), ValueView::Int(b), location)), context),
{
    reveal_with_fuel(eval, 2);
}

} // verus!
