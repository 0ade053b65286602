//! What an evaluation reports when it ends without a value.

use crate::ast::{Location, LocationView};
use crate::text::{decimal, int_to_text};
use vstd::prelude::*;

verus! {

/// The kinds of runtime error.
#[derive(Debug, Clone, Copy, PartialEq, Eq, Structural)]
pub enum RuntimeErrorKind {
    /// Misuse of a construct: a wrong number of arguments, a projection of
    /// something that is no pair, a condition that is no boolean, a call of
    /// something that is no function, a variable that is not bound.
    ArgumentError,
    /// The right operand of `/` or `%` is zero.
    DivisionByZero,
    /// The operator is not defined on operands of these kinds.
    InvalidBinaryOperation,
}

impl RuntimeErrorKind {
    /// The name of the kind in words.
    pub open spec fn text(self) -> Seq<char> {
        match self {
            RuntimeErrorKind::ArgumentError => "Argument Error"@,
            RuntimeErrorKind::DivisionByZero => "Division by Zero"@,
            RuntimeErrorKind::InvalidBinaryOperation => "Invalid Binary Operation"@,
        }
    }

    /// The name of the kind in words.
    pub fn to_string(&self) -> (res: String)
        ensures
            res@ == self.text(),
    {
        match self {
            RuntimeErrorKind::ArgumentError => String::from_str("Argument Error"),
            RuntimeErrorKind::DivisionByZero => String::from_str("Division by Zero"),
            RuntimeErrorKind::InvalidBinaryOperation => String::from_str(
                "Invalid Binary Operation",
            ),
        }
    }
}

/// A runtime error: what went wrong, where in the source, and of which kind.
#[derive(Debug)]
pub struct RuntimeError {
    pub message: String,
    pub location: Location,
    pub kind: RuntimeErrorKind,
}

/// The model of a [`RuntimeError`].
pub struct RuntimeErrorView {
    pub message: Seq<char>,
    pub location: LocationView,
    pub kind: RuntimeErrorKind,
}

impl View for RuntimeError {
    type V = RuntimeErrorView;

    open spec fn view(&self) -> RuntimeErrorView {
        RuntimeErrorView { message: self.message@, location: self.location@, kind: self.kind }
    }
}

impl RuntimeErrorView {
    /// The line that reports the error: its kind, its message and the
    /// offset at which its span starts.
    pub open spec fn text(self) -> Seq<char> {
        self.kind.text() + ": "@ + self.message + " at "@ + decimal(self.location.start)
    }
}

impl RuntimeError {
    /// The line that reports the error.
    pub fn to_string(&self) -> (res: String)
        ensures
            res@ == self@.text(),
    {
        let mut res = self.kind.to_string();
        res.append(": ");
        res.append(self.message.as_str());
        res.append(" at ");
        res.append(int_to_text(self.location.start).as_str());
        res
    }
}

/// Why an evaluation ended without a value.
#[derive(Debug)]
pub enum Halt {
    /// The program made a runtime error.
    Error(RuntimeError),
    /// Calls were nested deeper than the evaluation was allowed to go.
    OutOfDepth,
}

/// The model of a [`Halt`].
pub enum HaltView {
    Error(RuntimeErrorView),
    OutOfDepth,
}

impl View for Halt {
    type V = HaltView;

    open spec fn view(&self) -> HaltView {
        match self {
            Halt::Error(error) => HaltView::Error(error@),
            Halt::OutOfDepth => HaltView::OutOfDepth,
        }
    }
}

impl HaltView {
    /// The line that reports why the evaluation ended.
    pub open spec fn text(self) -> Seq<char> {
        match self {
            HaltView::Error(error) => error.text(),
            HaltView::OutOfDepth => "Call depth exceeded"@,
        }
    }
}

impl Halt {
    /// The line that reports why the evaluation ended.
    pub fn to_string(&self) -> (res: String)
        ensures
            res@ == self@.text(),
    {
        match self {
            Halt::Error(error) => error.to_string(),
            Halt::OutOfDepth => String::from_str("Call depth exceeded"),
        }
    }
}

} // verus!
