//! The evaluator: a recursive walk over the term that computes what the
//! semantics say.

use crate::ast::{
    parameters_view, terms_view, Binary, BinaryOp, Call, File, FileView, First, Function, If, Let,
    Location, Parameter, Print, Second, Term, Tuple, Var,
};
use crate::interpreter::context::{
    bindings_view, lemma_leave_wf, lemma_set_wf, lines_view, Binding, Context, ContextView,
};
use crate::interpreter::error::{Halt, HaltView, RuntimeError, RuntimeErrorKind};
use crate::interpreter::semantics::{
    bind, eval, eval_arguments, lift, spec_invalid_condition, spec_not_a_function,
    spec_not_a_tuple, spec_undefined_variable, spec_wrong_arity,
};
use crate::interpreter::theorems::lemma_arguments_halt;
use crate::interpreter::value::{lemma_fits_more, result_view, Closure, Value, ValueView};
use crate::text::count_to_text;
use vstd::prelude::*;

verus! {

/// The model of the result of an evaluation.
pub open spec fn outcome_view(result: Result<Value, Halt>) -> Result<ValueView, HaltView> {
    match result {
        Ok(value) => Ok(value@),
        Err(halt) => Err(halt@),
    }
}

fn undefined_variable(text: &str, location: Location) -> (error: RuntimeError)
    ensures
        error@ == spec_undefined_variable(text@, location@),
{
    let mut message = String::from_str("Undefined variable ");
    message.append(text);
    RuntimeError { message, location, kind: RuntimeErrorKind::ArgumentError }
}

fn not_a_tuple(location: Location) -> (error: RuntimeError)
    ensures
        error@ == spec_not_a_tuple(location@),
{
    RuntimeError {
        message: String::from_str("Not a tuple"),
        location,
        kind: RuntimeErrorKind::ArgumentError,
    }
}

fn not_a_function(location: Location) -> (error: RuntimeError)
    ensures
        error@ == spec_not_a_function(location@),
{
    RuntimeError {
        message: String::from_str("Not a function"),
        location,
        kind: RuntimeErrorKind::ArgumentError,
    }
}

fn invalid_condition(location: Location) -> (error: RuntimeError)
    ensures
        error@ == spec_invalid_condition(location@),
{
    RuntimeError {
        message: String::from_str("Invalid condition"),
        location,
        kind: RuntimeErrorKind::ArgumentError,
    }
}

fn wrong_arity(expected: usize, actual: usize, location: Location) -> (error: RuntimeError)
    ensures
        error@ == spec_wrong_arity(expected as nat, actual as nat, location@),
{
    let mut message = String::from_str("Expected ");
    message.append(count_to_text(expected).as_str());
    message.append(" arguments, got ");
    message.append(count_to_text(actual).as_str());
    RuntimeError { message, location, kind: RuntimeErrorKind::ArgumentError }
}

/// Evaluates `term` in the current frame of `context`, with calls nested
/// at most `depth` deep.
pub fn evaluate(term: Term, context: &mut Context, depth: usize) -> (result: Result<Value, Halt>)
    requires
        old(context)@.wf(),
    ensures
        (outcome_view(result), final(context)@) == eval(term@, old(context)@, depth as nat),
        final(context)@.wf(),
        final(context)@.extends(old(context)@),
        result matches Ok(value) ==> value@.fits(final(context)@.frames.len()),
    decreases depth, term,
{
    match term {
        Term::Int(literal) => Ok(Value::Int(literal.value)),
        Term::Str(literal) => Ok(Value::Str(literal.value)),
        Term::Call(call) => evaluate_call(*call, context, depth),
        Term::Binary(binary) => evaluate_binary(*binary, context, depth),
        Term::Function(function) => Ok(
            Value::Closure(Closure::new(*function, context.current())),
        ),
        Term::Let(let_) => evaluate_let(*let_, context, depth),
        Term::If(if_) => evaluate_if(*if_, context, depth),
        Term::Print(print) => {
            let Print { value, location: _ } = *print;
            match evaluate(value, context, depth) {
                Ok(value) => {
                    context.print(value.to_string());
                    Ok(value)
                },
                Err(halt) => Err(halt),
            }
        },
        Term::First(first) => {
            let First { value, location } = *first;
            match evaluate(value, context, depth) {
                Ok(Value::Tuple(pair)) => Ok(*pair.0),
                Ok(_) => Err(Halt::Error(not_a_tuple(location))),
                Err(halt) => Err(halt),
            }
        },
        Term::Second(second) => {
            let Second { value, location } = *second;
            match evaluate(value, context, depth) {
                Ok(Value::Tuple(pair)) => Ok(*pair.1),
                Ok(_) => Err(Halt::Error(not_a_tuple(location))),
                Err(halt) => Err(halt),
            }
        },
        Term::Bool(literal) => Ok(Value::Bool(literal.value)),
        Term::Tuple(tuple) => {
            let Tuple { first, second, location: _ } = *tuple;
            let first = match evaluate(first, context, depth) {
                Ok(value) => value,
                Err(halt) => {
                    return Err(halt);
                },
            };
            let ghost context1 = context@;
            let second = match evaluate(second, context, depth) {
                Ok(value) => value,
                Err(halt) => {
                    return Err(halt);
                },
            };
            proof {
                lemma_fits_more(first@, context1.frames.len(), context@.frames.len());
            }
            Ok(Value::Tuple((Box::new(first), Box::new(second))))
        },
        Term::Var(var) => match evaluate_var(var, context) {
            Ok(value) => Ok(value),
            Err(error) => Err(Halt::Error(error)),
        },
    }
}

/// Evaluates the arguments of a call in order in the current frame, and
/// pairs each value with the parameter at its place.
pub fn evaluate_arguments(
    arguments: Vec<Term>,
    parameters: &Vec<Parameter>,
    context: &mut Context,
    depth: usize,
) -> (result: Result<Vec<Binding>, Halt>)
    requires
        old(context)@.wf(),
        arguments.len() == parameters.len(),
    ensures
        final(context)@.wf(),
        final(context)@.extends(old(context)@),
        final(context)@ == eval_arguments(
            terms_view(arguments@),
            arguments.len() as nat,
            old(context)@,
            depth as nat,
        ).1,
        match result {
            Ok(bindings) => {
                &&& eval_arguments(
                    terms_view(arguments@),
                    arguments.len() as nat,
                    old(context)@,
                    depth as nat,
                ).0 matches Ok(values)
                &&& bindings_view(bindings@) == bind(parameters_view(parameters@), values)
                &&& forall|j: int|
                    0 <= j < bindings.len() ==> (#[trigger] bindings[j]).value@.fits(
                        final(context)@.frames.len(),
                    )
            },
            Err(halt) => eval_arguments(
                terms_view(arguments@),
                arguments.len() as nat,
                old(context)@,
                depth as nat,
            ).0 == Err::<Seq<ValueView>, HaltView>(halt@),
        },
    decreases depth, arguments,
{
    let ghost all = arguments@;
    let ghost terms = terms_view(arguments@);
    let ghost names = parameters_view(parameters@);
    let mut bindings: Vec<Binding> = Vec::new();
    let ghost mut values: Seq<ValueView> = Seq::empty();
    let mut i: usize = 0;
    for argument in rest: arguments
        invariant
            rest.seq() == all,
            all == arguments@,
            terms == terms_view(all),
            names == parameters_view(parameters@),
            i == rest.index(),
            parameters.len() == all.len(),
            old(context)@.wf(),
            context@.wf(),
            context@.extends(old(context)@),
            eval_arguments(terms, i as nat, old(context)@, depth as nat) == (
                Ok::<Seq<ValueView>, HaltView>(values),
                context@,
            ),
            bindings.len() == i,
            values.len() == i,
            bindings_view(bindings@) == bind(names.take(i as int), values),
            forall|j: int|
                0 <= j < bindings.len() ==> (#[trigger] bindings[j]).value@.fits(
                    context@.frames.len(),
                ),
    {
        let ghost before = context@;
        assert(argument == all[i as int]);
        assert(terms[i as int] == argument@);
        let value = match evaluate(argument, context, depth) {
            Ok(value) => value,
            Err(halt) => {
                proof {
                    lemma_arguments_halt(
                        terms,
                        (i + 1) as nat,
                        terms.len(),
                        old(context)@,
                        depth as nat,
                    );
                }
                return Err(halt);
            },
        };
        proof {
            assert forall|j: int| 0 <= j < bindings.len() implies (#[trigger] bindings[j]).value@.fits(
                context@.frames.len(),
            ) by {
                lemma_fits_more(bindings[j].value@, before.frames.len(), context@.frames.len());
            }
        }
        let ghost earlier = bindings@;
        bindings.push(Binding { name: parameters[i].text.clone(), value });
        proof {
            assert(bindings@.drop_last() =~= earlier);
            assert(values.push(value@).drop_last() =~= values);
            assert(names.take(i + 1).drop_last() =~= names.take(i as int));
            assert(names.take(i + 1).last() == parameters@[i as int]@);
            values = values.push(value@);
        }
        i += 1;
    }
    proof {
        assert(names.take(i as int) == names);
    }
    Ok(bindings)
}

/// Evaluates a call: the callee, which must give a closure with as many
/// parameters as there are arguments; the arguments in order, in the
/// caller's frame; then the body in a new frame that binds the parameters
/// and whose parent is the frame that the closure captured.
pub fn evaluate_call(call: Call, context: &mut Context, depth: usize) -> (result: Result<
    Value,
    Halt,
>)
    requires
        old(context)@.wf(),
    ensures
        (outcome_view(result), final(context)@) == eval(call@, old(context)@, depth as nat),
        final(context)@.wf(),
        final(context)@.extends(old(context)@),
        result matches Ok(value) ==> value@.fits(final(context)@.frames.len()),
    decreases depth, call,
{
    let Call { callee, arguments, location } = call;
    let called = match evaluate(callee, context, depth) {
        Ok(value) => value,
        Err(halt) => {
            return Err(halt);
        },
    };
    match called {
        Value::Closure(closure) => {
            let (function, captured) = closure.into_parts();
            let Function { parameters, value: body, location: _ } = function;
            if arguments.len() != parameters.len() {
                return Err(
                    Halt::Error(wrong_arity(parameters.len(), arguments.len(), location)),
                );
            }
            let bindings = match evaluate_arguments(arguments, &parameters, context, depth) {
                Ok(bindings) => bindings,
                Err(halt) => {
                    return Err(halt);
                },
            };
            if depth == 0 {
                return Err(Halt::OutOfDepth);
            }
            let ghost context2 = context@;
            let previous = context.enter(captured, bindings);
            let mark = context.current();
            let result = evaluate(body, context, depth - 1);
            let keep = match &result {
                Ok(value) => !value.fits(mark),
                Err(_) => false,
            };
            proof {
                lemma_leave_wf(context2, context@, keep);
            }
            context.leave(previous, mark, keep);
            result
        },
        _ => Err(Halt::Error(not_a_function(location))),
    }
}

/// Evaluates a binary operation: the left operand, then the right one,
/// then the operator on their values.
pub fn evaluate_binary(binary: Binary, context: &mut Context, depth: usize) -> (result: Result<
    Value,
    Halt,
>)
    requires
        old(context)@.wf(),
    ensures
        (outcome_view(result), final(context)@) == eval(binary@, old(context)@, depth as nat),
        final(context)@.wf(),
        final(context)@.extends(old(context)@),
        result matches Ok(value) ==> value@.fits(final(context)@.frames.len()),
    decreases depth, binary,
{
    let Binary { lhs, op, rhs, location } = binary;
    let lhs = match evaluate(lhs, context, depth) {
        Ok(value) => value,
        Err(halt) => {
            return Err(halt);
        },
    };
    let rhs = match evaluate(rhs, context, depth) {
        Ok(value) => value,
        Err(halt) => {
            return Err(halt);
        },
    };
    let result = match op {
        BinaryOp::Add => lhs.add(&rhs),
        BinaryOp::Sub => lhs.sub(&rhs, location),
        BinaryOp::Mul => lhs.mul(&rhs, location),
        BinaryOp::Div => lhs.div(&rhs, location),
        BinaryOp::Rem => lhs.rem(&rhs, location),
        BinaryOp::Eq => lhs.eq(&rhs, location),
        BinaryOp::Neq => lhs.neq(&rhs, location),
        BinaryOp::Lt => lhs.lt(&rhs, location),
        BinaryOp::Lte => lhs.lte(&rhs, location),
        BinaryOp::Gt => lhs.gt(&rhs, location),
        BinaryOp::Gte => lhs.gte(&rhs, location),
        BinaryOp::And => lhs.and(&rhs, location),
        BinaryOp::Or => lhs.or(&rhs, location),
    };
    match result {
        Ok(value) => Ok(value),
        Err(error) => Err(Halt::Error(error)),
    }
}

/// Evaluates a `let`: the bound term, then the rest with the name bound in
/// the current frame.
pub fn evaluate_let(let_: Let, context: &mut Context, depth: usize) -> (result: Result<
    Value,
    Halt,
>)
    requires
        old(context)@.wf(),
    ensures
        (outcome_view(result), final(context)@) == eval(let_@, old(context)@, depth as nat),
        final(context)@.wf(),
        final(context)@.extends(old(context)@),
        result matches Ok(value) ==> value@.fits(final(context)@.frames.len()),
    decreases depth, let_,
{
    let Let { name, value, next, location: _ } = let_;
    let value = match evaluate(value, context, depth) {
        Ok(value) => value,
        Err(halt) => {
            return Err(halt);
        },
    };
    proof {
        lemma_set_wf(context@, name.text@, value@);
    }
    context.set(name.text, value);
    evaluate(next, context, depth)
}

/// Evaluates a conditional: the condition, then the branch that it picks.
pub fn evaluate_if(if_: If, context: &mut Context, depth: usize) -> (result: Result<Value, Halt>)
    requires
        old(context)@.wf(),
    ensures
        (outcome_view(result), final(context)@) == eval(if_@, old(context)@, depth as nat),
        final(context)@.wf(),
        final(context)@.extends(old(context)@),
        result matches Ok(value) ==> value@.fits(final(context)@.frames.len()),
    decreases depth, if_,
{
    let If { condition, then: consequent, otherwise, location } = if_;
    match evaluate(condition, context, depth) {
        Ok(Value::Bool(true)) => evaluate(consequent, context, depth),
        Ok(Value::Bool(false)) => evaluate(otherwise, context, depth),
        Ok(_) => Err(Halt::Error(invalid_condition(location))),
        Err(halt) => Err(halt),
    }
}

/// Looks a variable up from the current frame.
pub fn evaluate_var(var: Var, context: &Context) -> (result: Result<Value, RuntimeError>)
    requires
        context@.wf(),
    ensures
        (lift(result_view(result)), context@) == eval(var@, context@, 0),
        result matches Ok(value) ==> value@.fits(context@.frames.len()),
{
    match context.get(var.text.as_str()) {
        Some(value) => Ok(value),
        None => Err(undefined_variable(var.text.as_str(), var.location)),
    }
}

/// What a run wrote: the lines of `print` in the order of evaluation, and
/// the line that reports how the run ended where it ended without a value.
#[derive(Debug)]
pub struct Transcript {
    pub output: Vec<String>,
    pub diagnostic: Option<String>,
}

/// The model of a [`Transcript`].
pub struct TranscriptView {
    pub output: Seq<Seq<char>>,
    pub diagnostic: Option<Seq<char>>,
}

impl View for Transcript {
    type V = TranscriptView;

    open spec fn view(&self) -> TranscriptView {
        TranscriptView {
            output: lines_view(self.output@),
            diagnostic: match self.diagnostic {
                Some(line) => Some(line@),
                None => None,
            },
        }
    }
}

/// What a run of `program` writes when calls may nest `depth` deep: the
/// output of the evaluation of its term in a fresh context, and the report
/// of what ended it where that was not a value.
pub open spec fn spec_interpret_program(program: FileView, depth: nat) -> TranscriptView {
    let (result, context) = eval(program.expression, ContextView::fresh(), depth);
    TranscriptView {
        output: context.output,
        diagnostic: match result {
            Ok(_) => None,
            Err(halt) => Some(halt.text()),
        },
    }
}

/// Runs `program` in a fresh context, with calls nested at most `depth`
/// deep. The caller writes the lines out; a run that fails is reported in
/// `diagnostic` and in no other way.
pub fn interpret_program(program: File, depth: usize) -> (transcript: Transcript)
    ensures
        transcript@ == spec_interpret_program(program@, depth as nat),
{
    let mut context = Context::new();
    let File { name: _, expression, location: _ } = program;
    let diagnostic = match evaluate(expression, &mut context, depth) {
        Ok(_) => None,
        Err(halt) => Some(halt.to_string()),
    };
    Transcript { output: context.into_output(), diagnostic }
}

} // verus!
