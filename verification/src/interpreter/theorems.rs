//! What holds of every evaluation.

use crate::ast::{LocationView, ParameterView, TermView};
use crate::interpreter::context::{
    lemma_enter_wf, lemma_leave_wf, lemma_lookup_fits, lemma_set_wf, ContextView,
};
use crate::interpreter::error::{HaltView, RuntimeErrorKind};
use crate::interpreter::semantics::{bind, eval, eval_arguments, keeps};
use crate::interpreter::value::{lemma_fits_more, ValueView};
use crate::text::decimal;
use vstd::prelude::*;

verus! {

/// The bindings of a call hold values of the call's arguments only.
pub proof fn lemma_bind_fits(parameters: Seq<ParameterView>, values: Seq<ValueView>, frames: nat)
    requires
        parameters.len() == values.len(),
        forall|i: int| 0 <= i < values.len() ==> (#[trigger] values[i]).fits(frames),
    ensures
        forall|name: Seq<char>|
            #![trigger bind(parameters, values).contains_key(name)]
            bind(parameters, values).contains_key(name) ==> bind(parameters, values)[name].fits(
                frames,
            ),
    decreases parameters.len(),
{
    if parameters.len() > 0 {
        let names = parameters.drop_last();
        let rest = values.drop_last();
        assert forall|i: int| 0 <= i < rest.len() implies (#[trigger] rest[i]).fits(frames) by {
            assert(rest[i] == values[i]);
        }
        lemma_bind_fits(names, rest, frames);
        let last = values[values.len() - 1];
        assert(last.fits(frames));
        assert(bind(parameters, values) == bind(names, rest).insert(parameters.last().text, last));
        assert forall|name: Seq<char>| #[trigger]
            bind(parameters, values).contains_key(name) implies bind(parameters, values)[name].fits(
            frames,
        ) by {
            if name != parameters.last().text {
                assert(bind(names, rest).contains_key(name));
            }
        }
    }
}

/// Evaluating arguments keeps a context well-formed and changes none of
/// its frames but the current one; there is one value for each argument,
/// and each fits the context afterwards.
pub proof fn theorem_arguments_extend(
    arguments: Seq<TermView>,
    count: nat,
    context: ContextView,
    depth: nat,
)
    requires
        context.wf(),
        count <= arguments.len(),
    ensures
        eval_arguments(arguments, count, context, depth).1.wf(),
        eval_arguments(arguments, count, context, depth).1.extends(context),
        eval_arguments(arguments, count, context, depth).0 matches Ok(values) ==> {
            &&& values.len() == count
            &&& forall|i: int|
                0 <= i < values.len() ==> (#[trigger] values[i]).fits(
                    eval_arguments(arguments, count, context, depth).1.frames.len(),
                )
        },
    decreases depth, arguments, count,
{
    if count > 0 {
        theorem_arguments_extend(arguments, (count - 1) as nat, context, depth);
        let (earlier, context1) = eval_arguments(arguments, (count - 1) as nat, context, depth);
        match earlier {
            Err(_) => {},
            Ok(values) => {
                theorem_eval_extends(arguments[count - 1], context1, depth);
                let (last, context2) = eval(arguments[count - 1], context1, depth);
                match last {
                    Err(_) => {},
                    Ok(value) => {
                        let all = values.push(value);
                        assert forall|i: int| 0 <= i < all.len() implies (#[trigger] all[i]).fits(
                            context2.frames.len(),
                        ) by {
                            if i < values.len() {
                                assert(all[i] == values[i]);
                                lemma_fits_more(
                                    values[i],
                                    context1.frames.len(),
                                    context2.frames.len(),
                                );
                            }
                        }
                    },
                }
            },
        }
    }
}

/// Evaluating a term keeps a context well-formed and changes none of its
/// frames but the current one, to which it may add bindings; the frame that
/// was current is current again, no frame has another parent, what was
/// written stays written, and the value fits the context afterwards.
pub proof fn theorem_eval_extends(term: TermView, context: ContextView, depth: nat)
    requires
        context.wf(),
    ensures
        eval(term, context, depth).1.wf(),
        eval(term, context, depth).1.extends(context),
        eval(term, context, depth).0 matches Ok(value) ==> value.fits(
            eval(term, context, depth).1.frames.len(),
        ),
    decreases depth, term, 0int,
{
    match term {
        TermView::Int { .. } | TermView::Str { .. } | TermView::Bool { .. } => {},
        TermView::Var { text, .. } => {
            lemma_lookup_fits(context, context.current, text);
        },
        TermView::Function { .. } => {},
        TermView::Call { callee, arguments, location } => {
            theorem_eval_extends(*callee, context, depth);
            let (called, context1) = eval(*callee, context, depth);
            match called {
                Ok(ValueView::Closure(closure)) => {
                    let parameters = closure.function.parameters;
                    if arguments.len() == parameters.len() {
                        theorem_arguments_extend(arguments, arguments.len(), context1, depth);
                        let (evaluated, context2) = eval_arguments(
                            arguments,
                            arguments.len(),
                            context1,
                            depth,
                        );
                        match evaluated {
                            Ok(values) => {
                                if depth > 0 {
                                    lemma_bind_fits(parameters, values, context2.frames.len());
                                    lemma_enter_wf(
                                        context2,
                                        closure.frame,
                                        bind(parameters, values),
                                    );
                                    let inside = context2.enter(
                                        closure.frame,
                                        bind(parameters, values),
                                    );
                                    theorem_eval_extends(
                                        *closure.function.value,
                                        inside,
                                        (depth - 1) as nat,
                                    );
                                }
                            },
                            Err(_) => {},
                        }
                    }
                },
                _ => {},
            }
        },
        TermView::Let { name, value, next, .. } => {
            theorem_eval_extends(*value, context, depth);
            let (bound, context1) = eval(*value, context, depth);
            match bound {
                Ok(bound) => {
                    lemma_set_wf(context1, name.text, bound);
                    theorem_eval_extends(*next, context1.set(name.text, bound), depth);
                },
                Err(_) => {},
            }
        },
        TermView::If { condition, then: consequent, otherwise, .. } => {
            theorem_eval_extends(*condition, context, depth);
            let (tested, context1) = eval(*condition, context, depth);
            match tested {
                Ok(ValueView::Bool(true)) => {
                    theorem_eval_extends(*consequent, context1, depth);
                },
                Ok(ValueView::Bool(false)) => {
                    theorem_eval_extends(*otherwise, context1, depth);
                },
                _ => {},
            }
        },
        TermView::Print { value, .. } => {
            theorem_eval_extends(*value, context, depth);
        },
        TermView::Tuple { first, second, .. } => {
            theorem_eval_extends(*first, context, depth);
            let (first_value, context1) = eval(*first, context, depth);
            match first_value {
                Ok(first_value) => {
                    theorem_eval_extends(*second, context1, depth);
                    let context2 = eval(*second, context1, depth).1;
                    lemma_fits_more(first_value, context1.frames.len(), context2.frames.len());
                },
                Err(_) => {},
            }
        },
        TermView::First { value, .. } => {
            theorem_eval_extends(*value, context, depth);
        },
        TermView::Second { value, .. } => {
            theorem_eval_extends(*value, context, depth);
        },
        TermView::Binary { lhs, rhs, .. } => {
            theorem_eval_extends(*lhs, context, depth);
            let (left, context1) = eval(*lhs, context, depth);
            match left {
                Ok(_) => {
                    theorem_eval_extends(*rhs, context1, depth);
                },
                Err(_) => {},
            }
        },
    }
}

/// The body of a call changes no frame that was there when the call was
/// made: the parameters, and what the body's own `let`s bind, go into a
/// frame that the call adds. So no call, of the same closure or another,
/// changes what a call still in progress has bound. When the call has
/// ended the frames are those from before it, followed, only where a
/// closure in its value captured one of them, by those that it added.
pub proof fn law_call_keeps_frames(
    function_body: TermView,
    parameters: Seq<ParameterView>,
    captured: nat,
    values: Seq<ValueView>,
    context: ContextView,
    depth: nat,
)
    requires
        context.wf(),
        captured < context.frames.len(),
        parameters.len() == values.len(),
        forall|i: int| 0 <= i < values.len() ==> (#[trigger] values[i]).fits(context.frames.len()),
    ensures
        ({
            let inside = context.enter(captured, bind(parameters, values));
            let (result, after) = eval(function_body, inside, depth);
            let keep = keeps(result, context.frames.len());
            let left = after.leave(context.current, context.frames.len(), keep);
            &&& context.frames.len() < after.frames.len()
            &&& after.frames.take(context.frames.len() as int) == context.frames
            &&& after.frames[context.frames.len() as int].parent == Some(captured)
            &&& left.wf()
            &&& left.current == context.current
            &&& left.frames.take(context.frames.len() as int) == context.frames
            &&& !keep ==> left.frames == context.frames
            &&& result matches Ok(value) ==> value.fits(left.frames.len())
        }),
{
    lemma_bind_fits(parameters, values, context.frames.len());
    lemma_enter_wf(context, captured, bind(parameters, values));
    let inside = context.enter(captured, bind(parameters, values));
    theorem_eval_extends(function_body, inside, depth);
    let (result, after) = eval(function_body, inside, depth);
    let keep = keeps(result, context.frames.len());
    assert(after.frames.take(context.frames.len() as int) =~= context.frames);
    lemma_leave_wf(context, after, keep);
    let left = after.leave(context.current, context.frames.len(), keep);
    assert(left.frames.take(context.frames.len() as int) =~= context.frames);
}

/// What the body of a call sees at its start: under the name of a
/// parameter the argument, and under any other name what the frame that
/// the closure captured sees, whatever the caller's frame binds.
pub proof fn law_call_scope(
    parameters: Seq<ParameterView>,
    captured: nat,
    values: Seq<ValueView>,
    context: ContextView,
    name: Seq<char>,
)
    requires
        context.wf(),
        captured < context.frames.len(),
    ensures
        ({
            let inside = context.enter(captured, bind(parameters, values));
            inside.get(name) == if bind(parameters, values).contains_key(name) {
                Some(bind(parameters, values)[name])
            } else {
                context.lookup(captured, name)
            }
        }),
{
    let inside = context.enter(captured, bind(parameters, values));
    lemma_lookup_keeps(context, inside, captured, name);
}

/// A lookup from a frame sees the same in a context that has the same
/// frames up to that one.
pub proof fn lemma_lookup_keeps(
    before: ContextView,
    after: ContextView,
    frame: nat,
    name: Seq<char>,
)
    requires
        frame < before.frames.len() <= after.frames.len(),
        forall|i: int| 0 <= i <= frame ==> #[trigger] after.frames[i] == before.frames[i],
    ensures
        after.lookup(frame, name) == before.lookup(frame, name),
    decreases frame,
{
    if !before.frames[frame as int].bindings.contains_key(name) {
        match before.frames[frame as int].parent {
            Some(parent) => {
                if parent < frame {
                    lemma_lookup_keeps(before, after, parent, name);
                }
            },
            None => {},
        }
    }
}

/// A call with another number of arguments than the closure has parameters
/// is an argument error that names both numbers, at the span of the call.
/// No argument is evaluated.
pub proof fn law_wrong_arity(
    callee: TermView,
    arguments: Seq<TermView>,
    location: LocationView,
    context: ContextView,
    depth: nat,
)
    requires
        eval(callee, context, depth).0 matches Ok(ValueView::Closure(closure))
            && closure.function.parameters.len() != arguments.len(),
    ensures
        ({
            let call = TermView::Call { callee: Box::new(callee), arguments, location };
            let expected = eval(callee, context, depth).0->Ok_0->Closure_0.function.parameters.len();
            &&& eval(call, context, depth).1 == eval(callee, context, depth).1
            &&& eval(call, context, depth).0 matches Err(HaltView::Error(error))
            &&& error.kind == RuntimeErrorKind::ArgumentError
            &&& error.location == location
            &&& error.message == "Expected "@ + decimal(expected as int) + " arguments, got "@
                + decimal(arguments.len() as int)
        }),
{
}

/// Once an argument has ended the evaluation, the arguments after it are
/// not evaluated.
pub proof fn lemma_arguments_halt(
    arguments: Seq<TermView>,
    count: nat,
    more: nat,
    context: ContextView,
    depth: nat,
)
    requires
        eval_arguments(arguments, count, context, depth).0 is Err,
        count <= more <= arguments.len(),
    ensures
        eval_arguments(arguments, more, context, depth) == eval_arguments(
            arguments,
            count,
            context,
            depth,
        ),
    decreases more,
{
    if count < more {
        lemma_arguments_halt(arguments, count, (more - 1) as nat, context, depth);
    }
}

/// More depth changes nothing for arguments whose evaluation did not run
/// out of depth.
pub proof fn theorem_arguments_depth(
    arguments: Seq<TermView>,
    count: nat,
    context: ContextView,
    depth: nat,
    more: nat,
)
    requires
        depth <= more,
        eval_arguments(arguments, count, context, depth).0 != Err::<Seq<ValueView>, HaltView>(
            HaltView::OutOfDepth,
        ),
    ensures
        eval_arguments(arguments, count, context, more) == eval_arguments(
            arguments,
            count,
            context,
            depth,
        ),
    decreases depth, arguments, count,
{
    if !(count == 0 || count > arguments.len()) {
        let (earlier, context1) = eval_arguments(arguments, (count - 1) as nat, context, depth);
        theorem_arguments_depth(arguments, (count - 1) as nat, context, depth, more);
        match earlier {
            Err(_) => {},
            Ok(_) => {
                theorem_eval_depth(arguments[count - 1], context1, depth, more);
            },
        }
    }
}

/// The depth allowed matters only where it is too small: an evaluation
/// that did not run out of depth gives the same result and the same
/// context with any greater depth.
pub proof fn theorem_eval_depth(term: TermView, context: ContextView, depth: nat, more: nat)
    requires
        depth <= more,
        eval(term, context, depth).0 != Err::<ValueView, HaltView>(HaltView::OutOfDepth),
    ensures
        eval(term, context, more) == eval(term, context, depth),
    decreases depth, term, 0int,
{
    match term {
        TermView::Int { .. } | TermView::Str { .. } | TermView::Bool { .. } => {},
        TermView::Var { .. } => {},
        TermView::Function { .. } => {},
        TermView::Call { callee, arguments, location } => {
            theorem_eval_depth(*callee, context, depth, more);
            let (called, context1) = eval(*callee, context, depth);
            match called {
                Ok(ValueView::Closure(closure)) => {
                    let parameters = closure.function.parameters;
                    if arguments.len() == parameters.len() {
                        theorem_arguments_depth(arguments, arguments.len(), context1, depth, more);
                        let (evaluated, context2) = eval_arguments(
                            arguments,
                            arguments.len(),
                            context1,
                            depth,
                        );
                        match evaluated {
                            Ok(values) => {
                                let inside = context2.enter(
                                    closure.frame,
                                    bind(parameters, values),
                                );
                                theorem_eval_depth(
                                    *closure.function.value,
                                    inside,
                                    (depth - 1) as nat,
                                    (more - 1) as nat,
                                );
                            },
                            Err(_) => {},
                        }
                    }
                },
                _ => {},
            }
        },
        TermView::Let { name, value, next, .. } => {
            theorem_eval_depth(*value, context, depth, more);
            let (bound, context1) = eval(*value, context, depth);
            match bound {
                Ok(bound) => {
                    theorem_eval_depth(*next, context1.set(name.text, bound), depth, more);
                },
                Err(_) => {},
            }
        },
        TermView::If { condition, then: consequent, otherwise, .. } => {
            theorem_eval_depth(*condition, context, depth, more);
            let (tested, context1) = eval(*condition, context, depth);
            match tested {
                Ok(ValueView::Bool(true)) => {
                    theorem_eval_depth(*consequent, context1, depth, more);
                },
                Ok(ValueView::Bool(false)) => {
                    theorem_eval_depth(*otherwise, context1, depth, more);
                },
                _ => {},
            }
        },
        TermView::Print { value, .. } => {
            theorem_eval_depth(*value, context, depth, more);
        },
        TermView::Tuple { first, second, .. } => {
            theorem_eval_depth(*first, context, depth, more);
            let (first_value, context1) = eval(*first, context, depth);
            match first_value {
                Ok(_) => {
                    theorem_eval_depth(*second, context1, depth, more);
                },
                Err(_) => {},
            }
        },
        TermView::First { value, .. } => {
            theorem_eval_depth(*value, context, depth, more);
        },
        TermView::Second { value, .. } => {
            theorem_eval_depth(*value, context, depth, more);
        },
        TermView::Binary { lhs, rhs, .. } => {
            theorem_eval_depth(*lhs, context, depth, more);
            let (left, context1) = eval(*lhs, context, depth);
            match left {
                Ok(_) => {
                    theorem_eval_depth(*rhs, context1, depth, more);
                },
                Err(_) => {},
            }
        },
    }
}

} // verus!
