//! What a term evaluates to: the reduction of terms to values, written as
//! a function on models. The evaluator is proved to compute it.

use crate::ast::{BinaryOp, LocationView, ParameterView, TermView};
use crate::interpreter::context::ContextView;
use crate::interpreter::error::{HaltView, RuntimeErrorKind, RuntimeErrorView};
use crate::interpreter::value::{ClosureView, ValueView};
use crate::text::decimal;
use vstd::prelude::*;

verus! {

/// The error of a reference to a name that no frame in sight binds.
pub open spec fn spec_undefined_variable(
    text: Seq<char>,
    location: LocationView,
) -> RuntimeErrorView {
    RuntimeErrorView {
        message: "Undefined variable "@ + text,
        location,
        kind: RuntimeErrorKind::ArgumentError,
    }
}

/// The error of a projection of a value that is no pair.
pub open spec fn spec_not_a_tuple(location: LocationView) -> RuntimeErrorView {
    RuntimeErrorView { message: "Not a tuple"@, location, kind: RuntimeErrorKind::ArgumentError }
}

/// The error of a call of a value that is no closure.
pub open spec fn spec_not_a_function(location: LocationView) -> RuntimeErrorView {
    RuntimeErrorView {
        message: "Not a function"@,
        location,
        kind: RuntimeErrorKind::ArgumentError,
    }
}

/// The error of a conditional whose condition is no boolean.
pub open spec fn spec_invalid_condition(location: LocationView) -> RuntimeErrorView {
    RuntimeErrorView {
        message: "Invalid condition"@,
        location,
        kind: RuntimeErrorKind::ArgumentError,
    }
}

/// The error of a call with `actual` arguments of a function with
/// `expected` parameters.
pub open spec fn spec_wrong_arity(
    expected: nat,
    actual: nat,
    location: LocationView,
) -> RuntimeErrorView {
    RuntimeErrorView {
        message: "Expected "@ + decimal(expected as int) + " arguments, got "@ + decimal(
            actual as int,
        ),
        location,
        kind: RuntimeErrorKind::ArgumentError,
    }
}

/// What the operator `op` makes of two values.
pub open spec fn apply_binary(
    op: BinaryOp,
    lhs: ValueView,
    rhs: ValueView,
    location: LocationView,
) -> Result<ValueView, RuntimeErrorView> {
    match op {
        BinaryOp::Add => lhs.add(rhs),
        BinaryOp::Sub => lhs.sub(rhs, location),
        BinaryOp::Mul => lhs.mul(rhs, location),
        BinaryOp::Div => lhs.div(rhs, location),
        BinaryOp::Rem => lhs.rem(rhs, location),
        BinaryOp::Eq => lhs.eq(rhs, location),
        BinaryOp::Neq => lhs.neq(rhs, location),
        BinaryOp::Lt => lhs.lt(rhs, location),
        BinaryOp::Lte => lhs.lte(rhs, location),
        BinaryOp::Gt => lhs.gt(rhs, location),
        BinaryOp::Gte => lhs.gte(rhs, location),
        BinaryOp::And => lhs.and(rhs, location),
        BinaryOp::Or => lhs.or(rhs, location),
    }
}

/// The result of an operator as the result of an evaluation.
pub open spec fn lift(result: Result<ValueView, RuntimeErrorView>) -> Result<ValueView, HaltView> {
    match result {
        Ok(value) => Ok(value),
        Err(error) => Err(HaltView::Error(error)),
    }
}

/// Whether the frames that a call added have to stay after it: they do
/// where the result of the call is a value that holds a closure which
/// captured one of them, that is, a frame from index `mark` on.
pub open spec fn keeps(result: Result<ValueView, HaltView>, mark: nat) -> bool {
    result matches Ok(value) && !value.fits(mark)
}

/// The bindings of a call: each parameter with the value of the argument
/// at its place. Of two parameters of one name the later one counts.
pub open spec fn bind(parameters: Seq<ParameterView>, values: Seq<ValueView>) -> Map<
    Seq<char>,
    ValueView,
>
    recommends
        parameters.len() == values.len(),
    decreases parameters.len(),
{
    if parameters.len() == 0 {
        Map::empty()
    } else {
        bind(parameters.drop_last(), values.drop_last()).insert(
            parameters.last().text,
            values.last(),
        )
    }
}

/// The first `count` of `arguments` evaluated in order in the current
/// frame: their values and the context afterwards, or what ended the
/// evaluation of the first of them that did not give a value.
pub open spec fn eval_arguments(
    arguments: Seq<TermView>,
    count: nat,
    context: ContextView,
    depth: nat,
) -> (Result<Seq<ValueView>, HaltView>, ContextView)
    decreases depth, arguments, count,
{
    if count == 0 || count > arguments.len() {
        (Ok(Seq::empty()), context)
    } else {
        let (earlier, context1) = eval_arguments(arguments, (count - 1) as nat, context, depth);
        match earlier {
            Err(halt) => (Err(halt), context1),
            Ok(values) => {
                let (last, context2) = eval(arguments[count - 1], context1, depth);
                match last {
                    Err(halt) => (Err(halt), context2),
                    Ok(value) => (Ok(values.push(value)), context2),
                }
            },
        }
    }
}

/// What `term` evaluates to in `context` when calls may nest `depth` deep:
/// a value or what ended the evaluation, and the context afterwards.
///
/// A function literal captures the current frame. A call evaluates the
/// callee, then the arguments in order in the caller's frame, binds them in
/// a new frame whose parent is the captured frame, and evaluates the body
/// there; afterwards the caller's frame is current again, and the frames
/// that the call added are dropped unless a closure in its value captured
/// one of them. A `let` binds in the current frame. The first error ends
/// the evaluation.
pub open spec fn eval(term: TermView, context: ContextView, depth: nat) -> (
    Result<ValueView, HaltView>,
    ContextView,
)
    decreases depth, term, 0int,
{
    match term {
        TermView::Int { value, location } => (Ok(ValueView::Int(value)), context),
        TermView::Str { value, location } => (Ok(ValueView::Str(value)), context),
        TermView::Bool { value, location } => (Ok(ValueView::Bool(value)), context),
        TermView::Var { text, location } => match context.get(text) {
            Some(value) => (Ok(value), context),
            None => (Err(HaltView::Error(spec_undefined_variable(text, location))), context),
        },
        TermView::Function { function } => (
            Ok(ValueView::Closure(ClosureView { function, frame: context.current })),
            context,
        ),
        TermView::Call { callee, arguments, location } => {
            let (called, context1) = eval(*callee, context, depth);
            match called {
                Err(halt) => (Err(halt), context1),
                Ok(ValueView::Closure(closure)) => {
                    let parameters = closure.function.parameters;
                    if arguments.len() != parameters.len() {
                        (
                            Err(
                                HaltView::Error(
                                    spec_wrong_arity(parameters.len(), arguments.len(), location),
                                ),
                            ),
                            context1,
                        )
                    } else {
                        let (evaluated, context2) = eval_arguments(
                            arguments,
                            arguments.len(),
                            context1,
                            depth,
                        );
                        match evaluated {
                            Err(halt) => (Err(halt), context2),
                            Ok(values) => if depth == 0 {
                                (Err(HaltView::OutOfDepth), context2)
                            } else {
                                let inside = context2.enter(closure.frame, bind(parameters, values));
                                let (result, context3) = eval(
                                    *closure.function.value,
                                    inside,
                                    (depth - 1) as nat,
                                );
                                (
                                    result,
                                    context3.leave(
                                        context2.current,
                                        context2.frames.len(),
                                        keeps(result, context2.frames.len()),
                                    ),
                                )
                            },
                        }
                    }
                },
                Ok(_) => (Err(HaltView::Error(spec_not_a_function(location))), context1),
            }
        },
        TermView::Let { name, value, next, location } => {
            let (bound, context1) = eval(*value, context, depth);
            match bound {
                Err(halt) => (Err(halt), context1),
                Ok(bound) => eval(*next, context1.set(name.text, bound), depth),
            }
        },
        TermView::If { condition, then: consequent, otherwise, location } => {
            let (tested, context1) = eval(*condition, context, depth);
            match tested {
                Err(halt) => (Err(halt), context1),
                Ok(ValueView::Bool(true)) => eval(*consequent, context1, depth),
                Ok(ValueView::Bool(false)) => eval(*otherwise, context1, depth),
                Ok(_) => (Err(HaltView::Error(spec_invalid_condition(location))), context1),
            }
        },
        TermView::Print { value, location } => {
            let (printed, context1) = eval(*value, context, depth);
            match printed {
                Err(halt) => (Err(halt), context1),
                Ok(printed) => (Ok(printed), context1.print(printed.display())),
            }
        },
        TermView::Tuple { first, second, location } => {
            let (first, context1) = eval(*first, context, depth);
            match first {
                Err(halt) => (Err(halt), context1),
                Ok(first) => {
                    let (second, context2) = eval(*second, context1, depth);
                    match second {
                        Err(halt) => (Err(halt), context2),
                        Ok(second) => (
                            Ok(ValueView::Tuple(Box::new(first), Box::new(second))),
                            context2,
                        ),
                    }
                },
            }
        },
        TermView::First { value, location } => {
            let (pair, context1) = eval(*value, context, depth);
            match pair {
                Err(halt) => (Err(halt), context1),
                Ok(ValueView::Tuple(first, _)) => (Ok(*first), context1),
                Ok(_) => (Err(HaltView::Error(spec_not_a_tuple(location))), context1),
            }
        },
        TermView::Second { value, location } => {
            let (pair, context1) = eval(*value, context, depth);
            match pair {
                Err(halt) => (Err(halt), context1),
                Ok(ValueView::Tuple(_, second)) => (Ok(*second), context1),
                Ok(_) => (Err(HaltView::Error(spec_not_a_tuple(location))), context1),
            }
        },
        TermView::Binary { lhs, op, rhs, location } => {
            let (left, context1) = eval(*lhs, context, depth);
            match left {
                Err(halt) => (Err(halt), context1),
                Ok(left) => {
                    let (right, context2) = eval(*rhs, context1, depth);
                    match right {
                        Err(halt) => (Err(halt), context2),
                        Ok(right) => (lift(apply_binary(op, left, right, location)), context2),
                    }
                },
            }
        },
    }
}

} // verus!
