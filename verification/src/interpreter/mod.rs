//! The evaluator: runtime values, runtime errors, the environment and the
//! reduction of terms to values.

pub mod context;
pub mod error;
pub mod evaluate;
pub mod laws;
pub mod semantics;
pub mod theorems;
pub mod value;

pub use context::{Binding, Context, ContextView, FrameView};
pub use error::{Halt, HaltView, RuntimeError, RuntimeErrorKind, RuntimeErrorView};
pub use evaluate::{
    evaluate, evaluate_arguments, evaluate_binary, evaluate_call, evaluate_if, evaluate_let,
    evaluate_var, interpret_program, Transcript, TranscriptView,
};
pub use value::{
    divison_by_zero, invalid_comparison, invalid_numeric_op, Closure, ClosureView, Value, ValueView,
};
