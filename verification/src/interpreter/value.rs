//! Runtime values: how they are written out, and the binary operators.

use crate::ast::{Function, FunctionView, Location, LocationView};
use crate::interpreter::error::{RuntimeError, RuntimeErrorKind, RuntimeErrorView};
use crate::text::{decimal, int_to_text, precedes, quote, quoted, tagged, text_precedes};
use vstd::arithmetic::div_mod::{lemma_mod_bound, lemma_small_mod};
use vstd::prelude::*;

verus! {

/// The result of an evaluation.
#[derive(Debug)]
pub enum Value {
    Int(i32),
    Bool(bool),
    Str(String),
    Tuple((Box<Value>, Box<Value>)),
    Closure(Closure),
}

/// A function literal together with the frame that was current where the
/// literal was evaluated. The frame is named by its index in the context
/// that made the closure.
#[derive(Debug)]
pub struct Closure {
    pub(crate) function: Function,
    pub(crate) frame: usize,
}

/// The model of a [`Closure`].
pub struct ClosureView {
    pub function: FunctionView,
    pub frame: nat,
}

/// The model of a [`Value`].
pub enum ValueView {
    Int(int),
    Bool(bool),
    Str(Seq<char>),
    Tuple(Box<ValueView>, Box<ValueView>),
    Closure(ClosureView),
}

impl View for Closure {
    type V = ClosureView;

    closed spec fn view(&self) -> ClosureView {
        ClosureView { function: self.function@, frame: self.frame as nat }
    }
}

impl Closure {
    /// The closure of `function` over the frame with index `frame`.
    pub(crate) fn new(function: Function, frame: usize) -> (res: Closure)
        ensures
            res@ == (ClosureView { function: function@, frame: frame as nat }),
    {
        Closure { function, frame }
    }

    /// The index of the captured frame.
    pub(crate) fn frame(&self) -> (res: usize)
        ensures
            res == self@.frame,
    {
        self.frame
    }

    /// The function literal and the index of the captured frame.
    pub(crate) fn into_parts(self) -> (parts: (Function, usize))
        ensures
            parts.0@ == self@.function,
            parts.1 == self@.frame,
    {
        (self.function, self.frame)
    }
}

/// The model of a value, by recursion over pairs.
pub open spec fn value_view(value: Value) -> ValueView
    decreases value,
{
    match value {
        Value::Int(n) => ValueView::Int(n as int),
        Value::Bool(b) => ValueView::Bool(b),
        Value::Str(s) => ValueView::Str(s@),
        Value::Tuple(pair) => ValueView::Tuple(
            Box::new(value_view(*pair.0)),
            Box::new(value_view(*pair.1)),
        ),
        Value::Closure(closure) => ValueView::Closure(closure@),
    }
}

impl View for Value {
    type V = ValueView;

    open spec fn view(&self) -> ValueView {
        value_view(*self)
    }
}

/// The model of the result of an operator.
pub open spec fn result_view(result: Result<Value, RuntimeError>) -> Result<
    ValueView,
    RuntimeErrorView,
> {
    match result {
        Ok(value) => Ok(value@),
        Err(error) => Err(error@),
    }
}

/// The model of a value that may be absent.
pub open spec fn option_view(value: Option<Value>) -> Option<ValueView> {
    match value {
        Some(value) => Some(value@),
        None => None,
    }
}

/// The integer in the range of `i32` that differs from `n` by a multiple of
/// 2^32: what two's complement arithmetic on 32 bits keeps of `n`.
pub open spec fn wrap(n: int) -> int {
    let r = n % 0x1_0000_0000;
    if r > i32::MAX {
        r - 0x1_0000_0000
    } else {
        r
    }
}

/// The distance of `n` from zero.
pub open spec fn magnitude(n: int) -> int {
    if n < 0 {
        -n
    } else {
        n
    }
}

/// The quotient of `a` by `b`, rounded toward zero.
pub open spec fn truncated_quotient(a: int, b: int) -> int
    recommends
        b != 0,
{
    let q = magnitude(a) / magnitude(b);
    if (a < 0) != (b < 0) {
        -q
    } else {
        q
    }
}

/// What is left of `a` after the division by `b` that rounds toward zero.
/// It has the sign of `a`.
pub open spec fn truncated_remainder(a: int, b: int) -> int
    recommends
        b != 0,
{
    let r = magnitude(a) % magnitude(b);
    if a < 0 {
        -r
    } else {
        r
    }
}

impl ValueView {
    /// Whether every closure inside the value captured one of the first
    /// `frames` frames.
    pub open spec fn fits(self, frames: nat) -> bool
        decreases self,
    {
        match self {
            ValueView::Tuple(first, second) => first.fits(frames) && second.fits(frames),
            ValueView::Closure(closure) => closure.frame < frames,
            _ => true,
        }
    }

    /// The display form: what `print` writes and what `+` concatenates.
    pub open spec fn display(self) -> Seq<char>
        decreases self,
    {
        match self {
            ValueView::Int(n) => decimal(n),
            ValueView::Bool(b) => if b {
                "true"@
            } else {
                "false"@
            },
            ValueView::Str(s) => s,
            ValueView::Tuple(first, second) => "("@ + first.display() + ", "@ + second.display()
                + ")"@,
            ValueView::Closure(_) => "<#closure>"@,
        }
    }

    /// The form in which error messages show an operand: the display form
    /// with the kind of the value around it, and strings quoted.
    pub open spec fn inspect(self) -> Seq<char>
        decreases self,
    {
        match self {
            ValueView::Int(n) => "Int"@ + "("@ + decimal(n) + ")"@,
            ValueView::Bool(b) => "Bool"@ + "("@ + ValueView::Bool(b).display() + ")"@,
            ValueView::Str(s) => "Str"@ + "("@ + quoted(s) + ")"@,
            ValueView::Tuple(first, second) => "Tuple"@ + "("@ + ("("@ + first.inspect() + ", "@
                + second.inspect() + ")"@) + ")"@,
            ValueView::Closure(closure) => "Closure"@ + "("@ + ValueView::Closure(
                closure,
            ).display() + ")"@,
        }
    }
}

/// The error of an arithmetic operator on operands that are not both
/// integers. `op` is the verb of the operator, shown quoted.
pub open spec fn spec_invalid_numeric_op(
    op: Seq<char>,
    a: ValueView,
    b: ValueView,
    location: LocationView,
) -> RuntimeErrorView {
    RuntimeErrorView {
        message: "Cannot "@ + quoted(op) + " "@ + a.inspect() + " and "@ + b.inspect(),
        location,
        kind: RuntimeErrorKind::InvalidBinaryOperation,
    }
}

/// The error of a division or a remainder by zero.
pub open spec fn spec_divison_by_zero(
    message: Seq<char>,
    location: LocationView,
) -> RuntimeErrorView {
    RuntimeErrorView { message, location, kind: RuntimeErrorKind::DivisionByZero }
}

/// The error of a comparison or a boolean operator on operands whose kinds
/// it is not defined on.
pub open spec fn spec_invalid_comparison(
    a: ValueView,
    b: ValueView,
    location: LocationView,
) -> RuntimeErrorView {
    RuntimeErrorView {
        message: "Cannot compare "@ + a.inspect() + " and "@ + b.inspect(),
        location,
        kind: RuntimeErrorKind::InvalidBinaryOperation,
    }
}

impl ValueView {
    /// `+`: the sum of two integers, wrapped to 32 bits; of any other two
    /// values, their display forms one after the other.
    pub open spec fn add(self, other: ValueView) -> Result<ValueView, RuntimeErrorView> {
        match (self, other) {
            (ValueView::Int(a), ValueView::Int(b)) => Ok(ValueView::Int(wrap(a + b))),
            _ => Ok(ValueView::Str(self.display() + other.display())),
        }
    }

    /// `-`: the difference of two integers, wrapped to 32 bits.
    pub open spec fn sub(self, other: ValueView, location: LocationView) -> Result<
        ValueView,
        RuntimeErrorView,
    > {
        match (self, other) {
            (ValueView::Int(a), ValueView::Int(b)) => Ok(ValueView::Int(wrap(a - b))),
            _ => Err(spec_invalid_numeric_op("subtract"@, self, other, location)),
        }
    }

    /// `*`: the product of two integers, wrapped to 32 bits.
    pub open spec fn mul(self, other: ValueView, location: LocationView) -> Result<
        ValueView,
        RuntimeErrorView,
    > {
        match (self, other) {
            (ValueView::Int(a), ValueView::Int(b)) => Ok(ValueView::Int(wrap(a * b))),
            _ => Err(spec_invalid_numeric_op("multiply"@, self, other, location)),
        }
    }

    /// `/`: the quotient of two integers, rounded toward zero and wrapped
    /// to 32 bits; an error where the divisor is zero.
    pub open spec fn div(self, other: ValueView, location: LocationView) -> Result<
        ValueView,
        RuntimeErrorView,
    > {
        match (self, other) {
            (ValueView::Int(a), ValueView::Int(b)) => if b == 0 {
                Err(spec_divison_by_zero("Cannot divide "@ + decimal(a) + " by 0"@, location))
            } else {
                Ok(ValueView::Int(wrap(truncated_quotient(a, b))))
            },
            _ => Err(spec_invalid_numeric_op("divide"@, self, other, location)),
        }
    }

    /// `%`: the remainder of the division that rounds toward zero; an error
    /// where the divisor is zero.
    pub open spec fn rem(self, other: ValueView, location: LocationView) -> Result<
        ValueView,
        RuntimeErrorView,
    > {
        match (self, other) {
            (ValueView::Int(a), ValueView::Int(b)) => if b == 0 {
                Err(
                    spec_divison_by_zero(
                        "Cannot calculate remainder of "@ + decimal(a) + " dividing by 0"@,
                        location,
                    ),
                )
            } else {
                Ok(ValueView::Int(truncated_remainder(a, b)))
            },
            _ => Err(spec_invalid_numeric_op("calculate remainder of"@, self, other, location)),
        }
    }

    /// `==`, on two integers, two strings or two booleans.
    pub open spec fn eq(self, other: ValueView, location: LocationView) -> Result<
        ValueView,
        RuntimeErrorView,
    > {
        match (self, other) {
            (ValueView::Int(a), ValueView::Int(b)) => Ok(ValueView::Bool(a == b)),
            (ValueView::Str(a), ValueView::Str(b)) => Ok(ValueView::Bool(a == b)),
            (ValueView::Bool(a), ValueView::Bool(b)) => Ok(ValueView::Bool(a == b)),
            _ => Err(spec_invalid_comparison(self, other, location)),
        }
    }

    /// `!=`, on two integers, two strings or two booleans.
    pub open spec fn neq(self, other: ValueView, location: LocationView) -> Result<
        ValueView,
        RuntimeErrorView,
    > {
        match (self, other) {
            (ValueView::Int(a), ValueView::Int(b)) => Ok(ValueView::Bool(a != b)),
            (ValueView::Str(a), ValueView::Str(b)) => Ok(ValueView::Bool(a != b)),
            (ValueView::Bool(a), ValueView::Bool(b)) => Ok(ValueView::Bool(a != b)),
            _ => Err(spec_invalid_comparison(self, other, location)),
        }
    }

    /// `<`, on two integers by their order, on two strings by
    /// lexicographic order.
    pub open spec fn lt(self, other: ValueView, location: LocationView) -> Result<
        ValueView,
        RuntimeErrorView,
    > {
        match (self, other) {
            (ValueView::Int(a), ValueView::Int(b)) => Ok(ValueView::Bool(a < b)),
            (ValueView::Str(a), ValueView::Str(b)) => Ok(ValueView::Bool(precedes(a, b))),
            _ => Err(spec_invalid_comparison(self, other, location)),
        }
    }

    /// `>`, on two integers or two strings.
    pub open spec fn gt(self, other: ValueView, location: LocationView) -> Result<
        ValueView,
        RuntimeErrorView,
    > {
        match (self, other) {
            (ValueView::Int(a), ValueView::Int(b)) => Ok(ValueView::Bool(a > b)),
            (ValueView::Str(a), ValueView::Str(b)) => Ok(ValueView::Bool(precedes(b, a))),
            _ => Err(spec_invalid_comparison(self, other, location)),
        }
    }

    /// `<=`, on two integers or two strings.
    pub open spec fn lte(self, other: ValueView, location: LocationView) -> Result<
        ValueView,
        RuntimeErrorView,
    > {
        match (self, other) {
            (ValueView::Int(a), ValueView::Int(b)) => Ok(ValueView::Bool(a <= b)),
            (ValueView::Str(a), ValueView::Str(b)) => Ok(ValueView::Bool(!precedes(b, a))),
            _ => Err(spec_invalid_comparison(self, other, location)),
        }
    }

    /// `>=`, on two integers or two strings.
    pub open spec fn gte(self, other: ValueView, location: LocationView) -> Result<
        ValueView,
        RuntimeErrorView,
    > {
        match (self, other) {
            (ValueView::Int(a), ValueView::Int(b)) => Ok(ValueView::Bool(a >= b)),
            (ValueView::Str(a), ValueView::Str(b)) => Ok(ValueView::Bool(!precedes(a, b))),
            _ => Err(spec_invalid_comparison(self, other, location)),
        }
    }

    /// `&&`, on two booleans.
    pub open spec fn and(self, other: ValueView, location: LocationView) -> Result<
        ValueView,
        RuntimeErrorView,
    > {
        match (self, other) {
            (ValueView::Bool(a), ValueView::Bool(b)) => Ok(ValueView::Bool(a && b)),
            _ => Err(spec_invalid_comparison(self, other, location)),
        }
    }

    /// `||`, on two booleans.
    pub open spec fn or(self, other: ValueView, location: LocationView) -> Result<
        ValueView,
        RuntimeErrorView,
    > {
        match (self, other) {
            (ValueView::Bool(a), ValueView::Bool(b)) => Ok(ValueView::Bool(a || b)),
            _ => Err(spec_invalid_comparison(self, other, location)),
        }
    }
}

/// A value whose closures captured frames below `n` also fits any larger
/// number of frames.
pub proof fn lemma_fits_more(value: ValueView, n: nat, m: nat)
    requires
        value.fits(n),
        n <= m,
    ensures
        value.fits(m),
    decreases value,
{
    match value {
        ValueView::Tuple(first, second) => {
            lemma_fits_more(*first, n, m);
            lemma_fits_more(*second, n, m);
        },
        _ => {},
    }
}

impl Clone for Closure {
    fn clone(&self) -> (res: Self)
        ensures
            res@ == self@,
    {
        Closure { function: self.function.clone(), frame: self.frame }
    }
}

impl Clone for Value {
    fn clone(&self) -> (res: Self)
        ensures
            res@ == self@,
        decreases self,
    {
        match self {
            Value::Int(n) => Value::Int(*n),
            Value::Bool(b) => Value::Bool(*b),
            Value::Str(s) => Value::Str(s.clone()),
            Value::Tuple(pair) => {
                let first = (*pair.0).clone();
                let second = (*pair.1).clone();
                Value::Tuple((Box::new(first), Box::new(second)))
            },
            Value::Closure(closure) => Value::Closure(closure.clone()),
        }
    }
}

/// `first`, then `second`, between round brackets and with a comma and a
/// space between them.
fn paired(first: &str, second: &str) -> (res: String)
    ensures
        res@ == "("@ + first@ + ", "@ + second@ + ")"@,
{
    let mut res = String::from_str("(");
    res.append(first);
    res.append(", ");
    res.append(second);
    res.append(")");
    res
}

impl Value {
    /// Whether every closure inside the value captured one of the first
    /// `frames` frames.
    pub fn fits(&self, frames: usize) -> (res: bool)
        ensures
            res == self@.fits(frames as nat),
        decreases self,
    {
        match self {
            Value::Tuple(pair) => pair.0.fits(frames) && pair.1.fits(frames),
            Value::Closure(closure) => closure.frame() < frames,
            _ => true,
        }
    }

    /// The display form of the value.
    pub fn to_string(&self) -> (res: String)
        ensures
            res@ == self@.display(),
        decreases self,
    {
        match self {
            Value::Int(n) => int_to_text(*n),
            Value::Bool(true) => String::from_str("true"),
            Value::Bool(false) => String::from_str("false"),
            Value::Str(s) => s.clone(),
            Value::Tuple(pair) => {
                let first = pair.0.to_string();
                let second = pair.1.to_string();
                paired(first.as_str(), second.as_str())
            },
            Value::Closure(_) => String::from_str("<#closure>"),
        }
    }

    /// The form in which error messages show the value.
    pub fn inspect(&self) -> (res: String)
        ensures
            res@ == self@.inspect(),
        decreases self,
    {
        match self {
            Value::Int(n) => tagged("Int", int_to_text(*n).as_str()),
            Value::Bool(_) => tagged("Bool", self.to_string().as_str()),
            Value::Str(s) => tagged("Str", quote(s.as_str()).as_str()),
            Value::Tuple(pair) => {
                let first = pair.0.inspect();
                let second = pair.1.inspect();
                tagged("Tuple", paired(first.as_str(), second.as_str()).as_str())
            },
            Value::Closure(_) => tagged("Closure", self.to_string().as_str()),
        }
    }
}

/// The error of an arithmetic operator on operands that are not both
/// integers.
pub fn invalid_numeric_op(op: String, a: &Value, b: &Value, location: Location) -> (error:
    RuntimeError)
    ensures
        error@ == spec_invalid_numeric_op(op@, a@, b@, location@),
{
    let mut message = String::from_str("Cannot ");
    message.append(quote(op.as_str()).as_str());
    message.append(" ");
    message.append(a.inspect().as_str());
    message.append(" and ");
    message.append(b.inspect().as_str());
    RuntimeError { message, location, kind: RuntimeErrorKind::InvalidBinaryOperation }
}

/// The error of a division or a remainder by zero.
pub fn divison_by_zero(message: String, location: Location) -> (error: RuntimeError)
    ensures
        error@ == spec_divison_by_zero(message@, location@),
{
    RuntimeError { message, location, kind: RuntimeErrorKind::DivisionByZero }
}

/// The error of a comparison or a boolean operator on operands whose kinds
/// it is not defined on.
pub fn invalid_comparison(a: &Value, b: &Value, location: Location) -> (error: RuntimeError)
    ensures
        error@ == spec_invalid_comparison(a@, b@, location@),
{
    let mut message = String::from_str("Cannot compare ");
    message.append(a.inspect().as_str());
    message.append(" and ");
    message.append(b.inspect().as_str());
    RuntimeError { message, location, kind: RuntimeErrorKind::InvalidBinaryOperation }
}

impl Value {
    /// `+`. Never an error.
    pub fn add(&self, other: &Self) -> (result: Result<Value, RuntimeError>)
        ensures
            result_view(result) == self@.add(other@),
    {
        match (self, other) {
            (Value::Int(a), Value::Int(b)) => Ok(Value::Int(a.wrapping_add(*b))),
            (a, b) => {
                let mut text = a.to_string();
                text.append(b.to_string().as_str());
                Ok(Value::Str(text))
            },
        }
    }

    /// `-`.
    pub fn sub(&self, other: &Self, location: Location) -> (result: Result<Value, RuntimeError>)
        ensures
            result_view(result) == self@.sub(other@, location@),
    {
        match (self, other) {
            (Value::Int(a), Value::Int(b)) => Ok(Value::Int(a.wrapping_sub(*b))),
            (a, b) => Err(invalid_numeric_op(String::from_str("subtract"), a, b, location)),
        }
    }

    /// `*`.
    pub fn mul(&self, other: &Self, location: Location) -> (result: Result<Value, RuntimeError>)
        ensures
            result_view(result) == self@.mul(other@, location@),
    {
        match (self, other) {
            (Value::Int(a), Value::Int(b)) => Ok(Value::Int(a.wrapping_mul(*b))),
            (a, b) => Err(invalid_numeric_op(String::from_str("multiply"), a, b, location)),
        }
    }

    /// `/`.
    pub fn div(&self, other: &Self, location: Location) -> (result: Result<Value, RuntimeError>)
        ensures
            result_view(result) == self@.div(other@, location@),
    {
        match (self, other) {
            (Value::Int(a), Value::Int(b)) => {
                if *b == 0 {
                    let mut message = String::from_str("Cannot divide ");
                    message.append(int_to_text(*a).as_str());
                    message.append(" by 0");
                    Err(divison_by_zero(message, location))
                } else {
                    match a.checked_div(*b) {
                        Some(quotient) => Ok(Value::Int(quotient)),
                        None => Ok(Value::Int(i32::MIN)),
                    }
                }
            },
            (a, b) => Err(invalid_numeric_op(String::from_str("divide"), a, b, location)),
        }
    }

    /// `%`.
    pub fn rem(&self, other: &Self, location: Location) -> (result: Result<Value, RuntimeError>)
        ensures
            result_view(result) == self@.rem(other@, location@),
    {
        match (self, other) {
            (Value::Int(a), Value::Int(b)) => {
                if *b == 0 {
                    let mut message = String::from_str("Cannot calculate remainder of ");
                    message.append(int_to_text(*a).as_str());
                    message.append(" dividing by 0");
                    Err(divison_by_zero(message, location))
                } else {
                    proof {
                        lemma_mod_bound(magnitude(*a as int), magnitude(*b as int));
                        if *a == 0 {
                            lemma_small_mod(0, magnitude(*b as int) as nat);
                        }
                    }
                    match a.checked_rem(*b) {
                        Some(remainder) => Ok(Value::Int(remainder)),
                        None => Ok(Value::Int(0)),
                    }
                }
            },
            (a, b) => Err(
                invalid_numeric_op(String::from_str("calculate remainder of"), a, b, location),
            ),
        }
    }

    /// `==`.
    pub fn eq(&self, other: &Self, location: Location) -> (result: Result<Value, RuntimeError>)
        ensures
            result_view(result) == self@.eq(other@, location@),
    {
        match (self, other) {
            (Value::Int(a), Value::Int(b)) => Ok(Value::Bool(*a == *b)),
            (Value::Str(a), Value::Str(b)) => Ok(Value::Bool(*a == *b)),
            (Value::Bool(a), Value::Bool(b)) => Ok(Value::Bool(*a == *b)),
            (a, b) => Err(invalid_comparison(a, b, location)),
        }
    }

    /// `!=`.
    pub fn neq(&self, other: &Self, location: Location) -> (result: Result<Value, RuntimeError>)
        ensures
            result_view(result) == self@.neq(other@, location@),
    {
        match (self, other) {
            (Value::Int(a), Value::Int(b)) => Ok(Value::Bool(*a != *b)),
            (Value::Str(a), Value::Str(b)) => Ok(Value::Bool(!(*a == *b))),
            (Value::Bool(a), Value::Bool(b)) => Ok(Value::Bool(*a != *b)),
            (a, b) => Err(invalid_comparison(a, b, location)),
        }
    }

    /// `<`.
    pub fn lt(&self, other: &Self, location: Location) -> (result: Result<Value, RuntimeError>)
        ensures
            result_view(result) == self@.lt(other@, location@),
    {
        match (self, other) {
            (Value::Int(a), Value::Int(b)) => Ok(Value::Bool(*a < *b)),
            (Value::Str(a), Value::Str(b)) => Ok(
                Value::Bool(text_precedes(a.as_str(), b.as_str())),
            ),
            (a, b) => Err(invalid_comparison(a, b, location)),
        }
    }

    /// `>`.
    pub fn gt(&self, other: &Self, location: Location) -> (result: Result<Value, RuntimeError>)
        ensures
            result_view(result) == self@.gt(other@, location@),
    {
        match (self, other) {
            (Value::Int(a), Value::Int(b)) => Ok(Value::Bool(*a > *b)),
            (Value::Str(a), Value::Str(b)) => Ok(
                Value::Bool(text_precedes(b.as_str(), a.as_str())),
            ),
            (a, b) => Err(invalid_comparison(a, b, location)),
        }
    }

    /// `<=`.
    pub fn lte(&self, other: &Self, location: Location) -> (result: Result<Value, RuntimeError>)
        ensures
            result_view(result) == self@.lte(other@, location@),
    {
        match (self, other) {
            (Value::Int(a), Value::Int(b)) => Ok(Value::Bool(*a <= *b)),
            (Value::Str(a), Value::Str(b)) => Ok(
                Value::Bool(!text_precedes(b.as_str(), a.as_str())),
            ),
            (a, b) => Err(invalid_comparison(a, b, location)),
        }
    }

    /// `>=`.
    pub fn gte(&self, other: &Self, location: Location) -> (result: Result<Value, RuntimeError>)
        ensures
            result_view(result) == self@.gte(other@, location@),
    {
        match (self, other) {
            (Value::Int(a), Value::Int(b)) => Ok(Value::Bool(*a >= *b)),
            (Value::Str(a), Value::Str(b)) => Ok(
                Value::Bool(!text_precedes(a.as_str(), b.as_str())),
            ),
            (a, b) => Err(invalid_comparison(a, b, location)),
        }
    }

    /// `&&`. Both operands have been evaluated.
    pub fn and(&self, other: &Self, location: Location) -> (result: Result<Value, RuntimeError>)
        ensures
            result_view(result) == self@.and(other@, location@),
    {
        match (self, other) {
            (Value::Bool(a), Value::Bool(b)) => Ok(Value::Bool(*a && *b)),
            (a, b) => Err(invalid_comparison(a, b, location)),
        }
    }

    /// `||`. Both operands have been evaluated.
    pub fn or(&self, other: &Self, location: Location) -> (result: Result<Value, RuntimeError>)
        ensures
            result_view(result) == self@.or(other@, location@),
    {
        match (self, other) {
            (Value::Bool(a), Value::Bool(b)) => Ok(Value::Bool(*a || *b)),
            (a, b) => Err(invalid_comparison(a, b, location)),
        }
    }
}

} // verus!
