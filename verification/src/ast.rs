//! The syntax tree that the evaluator walks, and its mathematical model.
//!
//! Every node type has a view. The view of a [`Term`] is a [`TermView`], a
//! tree over `int`, `Seq<char>` and `Seq<TermView>`; the contracts of the
//! evaluator are stated over it.

use vstd::prelude::*;

verus! {

/// A whole program: a name, the root term and the span of the source.
#[derive(Debug)]
pub struct File {
    pub name: String,
    pub expression: Term,
    pub location: Location,
}

/// A source span: two offsets and the name of the file they point into.
#[derive(Debug)]
pub struct Location {
    pub start: i32,
    pub end: i32,
    pub filename: String,
}

/// The name that a function literal or a `let` binds.
#[derive(Debug)]
pub struct Parameter {
    pub text: String,
    pub location: Location,
}

/// A reference to a variable.
#[derive(Debug)]
pub struct Var {
    pub text: String,
    pub location: Location,
}

/// A function literal: parameter names in order, and a body.
#[derive(Debug)]
pub struct Function {
    pub parameters: Vec<Parameter>,
    pub value: Term,
    pub location: Location,
}

/// An application of a callee to arguments in order.
#[derive(Debug)]
pub struct Call {
    pub callee: Term,
    pub arguments: Vec<Term>,
    pub location: Location,
}

/// A binding followed by the term that it is in scope for.
#[derive(Debug)]
pub struct Let {
    pub name: Parameter,
    pub value: Term,
    pub next: Term,
    pub location: Location,
}

/// A string literal.
#[derive(Debug)]
pub struct Str {
    pub value: String,
    pub location: Location,
}

/// An integer literal.
#[derive(Debug)]
pub struct Int {
    pub value: i32,
    pub location: Location,
}

/// The operator of a [`Binary`] term.
#[derive(Debug, Clone, Copy, PartialEq, Eq, Structural)]
pub enum BinaryOp {
    Add,
    Sub,
    Mul,
    Div,
    Rem,
    Eq,
    Neq,
    Lt,
    Gt,
    Lte,
    Gte,
    And,
    Or,
}

/// A boolean literal.
#[derive(Debug)]
pub struct Bool {
    pub value: bool,
    pub location: Location,
}

/// A conditional with both branches.
#[derive(Debug)]
pub struct If {
    pub condition: Term,
    pub then: Term,
    pub otherwise: Term,
    pub location: Location,
}

/// A binary operation.
#[derive(Debug)]
pub struct Binary {
    pub lhs: Term,
    pub op: BinaryOp,
    pub rhs: Term,
    pub location: Location,
}

/// A pair.
#[derive(Debug)]
pub struct Tuple {
    pub first: Term,
    pub second: Term,
    pub location: Location,
}

/// The projection of a pair on its first component.
#[derive(Debug)]
pub struct First {
    pub value: Term,
    pub location: Location,
}

/// The projection of a pair on its second component.
#[derive(Debug)]
pub struct Second {
    pub value: Term,
    pub location: Location,
}

/// The `print` primitive.
#[derive(Debug)]
pub struct Print {
    pub value: Term,
    pub location: Location,
}

/// A node of the syntax tree.
#[derive(Debug)]
pub enum Term {
    Int(Int),
    Str(Str),
    Call(Box<Call>),
    Binary(Box<Binary>),
    Function(Box<Function>),
    Let(Box<Let>),
    If(Box<If>),
    Print(Box<Print>),
    First(Box<First>),
    Second(Box<Second>),
    Bool(Bool),
    Tuple(Box<Tuple>),
    Var(Var),
}

/// The model of a [`Location`].
pub struct LocationView {
    pub start: int,
    pub end: int,
    pub filename: Seq<char>,
}

/// The model of a [`Parameter`].
pub struct ParameterView {
    pub text: Seq<char>,
    pub location: LocationView,
}

/// The model of a [`Function`].
pub struct FunctionView {
    pub parameters: Seq<ParameterView>,
    pub value: Box<TermView>,
    pub location: LocationView,
}

/// The model of a [`Term`], one variant for each kind of node.
#[allow(inconsistent_fields)]
pub enum TermView {
    Int { value: int, location: LocationView },
    Str { value: Seq<char>, location: LocationView },
    Call { callee: Box<TermView>, arguments: Seq<TermView>, location: LocationView },
    Binary { lhs: Box<TermView>, op: BinaryOp, rhs: Box<TermView>, location: LocationView },
    Function { function: FunctionView },
    Let { name: ParameterView, value: Box<TermView>, next: Box<TermView>, location: LocationView },
    If {
        condition: Box<TermView>,
        then: Box<TermView>,
        otherwise: Box<TermView>,
        location: LocationView,
    },
    Print { value: Box<TermView>, location: LocationView },
    First { value: Box<TermView>, location: LocationView },
    Second { value: Box<TermView>, location: LocationView },
    Bool { value: bool, location: LocationView },
    Tuple { first: Box<TermView>, second: Box<TermView>, location: LocationView },
    Var { text: Seq<char>, location: LocationView },
}

/// The model of a [`File`].
pub struct FileView {
    pub name: Seq<char>,
    pub expression: TermView,
    pub location: LocationView,
}

impl View for Location {
    type V = LocationView;

    open spec fn view(&self) -> LocationView {
        LocationView { start: self.start as int, end: self.end as int, filename: self.filename@ }
    }
}

impl View for Parameter {
    type V = ParameterView;

    open spec fn view(&self) -> ParameterView {
        ParameterView { text: self.text@, location: self.location@ }
    }
}

/// The models of a sequence of parameters, in order.
pub open spec fn parameters_view(parameters: Seq<Parameter>) -> Seq<ParameterView> {
    Seq::new(parameters.len(), |i: int| parameters[i]@)
}

/// The models of a sequence of terms, in order.
pub open spec fn terms_view(terms: Seq<Term>) -> Seq<TermView>
    decreases terms, 0int,
{
    Seq::new(
        terms.len(),
        |i: int|
            if 0 <= i < terms.len() {
                term_view(terms[i])
            } else {
                arbitrary()
            },
    )
}

/// The model of a term, by recursion over the tree.
pub open spec fn term_view(term: Term) -> TermView
    decreases term, 1int,
{
    match term {
        Term::Int(literal) => TermView::Int {
            value: literal.value as int,
            location: literal.location@,
        },
        Term::Str(literal) => TermView::Str { value: literal.value@, location: literal.location@ },
        Term::Call(call) => TermView::Call {
            callee: Box::new(term_view(call.callee)),
            arguments: terms_view(call.arguments@),
            location: call.location@,
        },
        Term::Binary(binary) => TermView::Binary {
            lhs: Box::new(term_view(binary.lhs)),
            op: binary.op,
            rhs: Box::new(term_view(binary.rhs)),
            location: binary.location@,
        },
        Term::Function(function) => TermView::Function {
            function: FunctionView {
                parameters: parameters_view(function.parameters@),
                value: Box::new(term_view(function.value)),
                location: function.location@,
            },
        },
        Term::Let(let_) => TermView::Let {
            name: let_.name@,
            value: Box::new(term_view(let_.value)),
            next: Box::new(term_view(let_.next)),
            location: let_.location@,
        },
        Term::If(if_) => {
            let If { condition, then: consequent, otherwise, location } = *if_;
            TermView::If {
                condition: Box::new(term_view(condition)),
                then: Box::new(term_view(consequent)),
                otherwise: Box::new(term_view(otherwise)),
                location: location@,
            }
        },
        Term::Print(print) => TermView::Print {
            value: Box::new(term_view(print.value)),
            location: print.location@,
        },
        Term::First(first) => TermView::First {
            value: Box::new(term_view(first.value)),
            location: first.location@,
        },
        Term::Second(second) => TermView::Second {
            value: Box::new(term_view(second.value)),
            location: second.location@,
        },
        Term::Bool(literal) => TermView::Bool { value: literal.value, location: literal.location@ },
        Term::Tuple(tuple) => TermView::Tuple {
            first: Box::new(term_view(tuple.first)),
            second: Box::new(term_view(tuple.second)),
            location: tuple.location@,
        },
        Term::Var(var) => TermView::Var { text: var.text@, location: var.location@ },
    }
}

impl View for Term {
    type V = TermView;

    open spec fn view(&self) -> TermView {
        term_view(*self)
    }
}

impl View for Function {
    type V = FunctionView;

    open spec fn view(&self) -> FunctionView {
        FunctionView {
            parameters: parameters_view(self.parameters@),
            value: Box::new(self.value@),
            location: self.location@,
        }
    }
}

impl View for Int {
    type V = TermView;

    open spec fn view(&self) -> TermView {
        TermView::Int { value: self.value as int, location: self.location@ }
    }
}

impl View for Str {
    type V = TermView;

    open spec fn view(&self) -> TermView {
        TermView::Str { value: self.value@, location: self.location@ }
    }
}

impl View for Bool {
    type V = TermView;

    open spec fn view(&self) -> TermView {
        TermView::Bool { value: self.value, location: self.location@ }
    }
}

impl View for Var {
    type V = TermView;

    open spec fn view(&self) -> TermView {
        TermView::Var { text: self.text@, location: self.location@ }
    }
}

impl View for Call {
    type V = TermView;

    open spec fn view(&self) -> TermView {
        TermView::Call {
            callee: Box::new(self.callee@),
            arguments: terms_view(self.arguments@),
            location: self.location@,
        }
    }
}

impl View for Binary {
    type V = TermView;

    open spec fn view(&self) -> TermView {
        TermView::Binary {
            lhs: Box::new(self.lhs@),
            op: self.op,
            rhs: Box::new(self.rhs@),
            location: self.location@,
        }
    }
}

impl View for Let {
    type V = TermView;

    open spec fn view(&self) -> TermView {
        TermView::Let {
            name: self.name@,
            value: Box::new(self.value@),
            next: Box::new(self.next@),
            location: self.location@,
        }
    }
}

impl View for If {
    type V = TermView;

    open spec fn view(&self) -> TermView {
        let If { condition, then: consequent, otherwise, location } = *self;
        TermView::If {
            condition: Box::new(condition@),
            then: Box::new(consequent@),
            otherwise: Box::new(otherwise@),
            location: location@,
        }
    }
}

impl View for Print {
    type V = TermView;

    open spec fn view(&self) -> TermView {
        TermView::Print { value: Box::new(self.value@), location: self.location@ }
    }
}

impl View for First {
    type V = TermView;

    open spec fn view(&self) -> TermView {
        TermView::First { value: Box::new(self.value@), location: self.location@ }
    }
}

impl View for Second {
    type V = TermView;

    open spec fn view(&self) -> TermView {
        TermView::Second { value: Box::new(self.value@), location: self.location@ }
    }
}

impl View for Tuple {
    type V = TermView;

    open spec fn view(&self) -> TermView {
        TermView::Tuple {
            first: Box::new(self.first@),
            second: Box::new(self.second@),
            location: self.location@,
        }
    }
}

impl View for File {
    type V = FileView;

    open spec fn view(&self) -> FileView {
        FileView { name: self.name@, expression: self.expression@, location: self.location@ }
    }
}

impl Clone for Location {
    fn clone(&self) -> (res: Self)
        ensures
            res@ == self@,
    {
        Location { start: self.start, end: self.end, filename: self.filename.clone() }
    }
}

impl Clone for Parameter {
    fn clone(&self) -> (res: Self)
        ensures
            res@ == self@,
    {
        Parameter { text: self.text.clone(), location: self.location.clone() }
    }
}

fn clone_parameters(parameters: &Vec<Parameter>) -> (res: Vec<Parameter>)
    ensures
        parameters_view(res@) == parameters_view(parameters@),
{
    let mut res: Vec<Parameter> = Vec::new();
    let mut i: usize = 0;
    while i < parameters.len()
        invariant
            i <= parameters.len(),
            res.len() == i,
            forall|j: int| 0 <= j < i ==> res@[j]@ == parameters@[j]@,
        decreases parameters.len() - i,
    {
        res.push(parameters[i].clone());
        i += 1;
    }
    assert(parameters_view(res@) =~= parameters_view(parameters@));
    res
}

fn clone_terms(terms: &Vec<Term>) -> (res: Vec<Term>)
    ensures
        terms_view(res@) == terms_view(terms@),
    decreases terms, 0int,
{
    let mut res: Vec<Term> = Vec::new();
    let mut i: usize = 0;
    while i < terms.len()
        invariant
            i <= terms.len(),
            res.len() == i,
            forall|j: int| 0 <= j < i ==> res@[j]@ == terms@[j]@,
        decreases terms.len() - i,
    {
        res.push(clone_term(&terms[i]));
        i += 1;
    }
    assert(terms_view(res@) =~= terms_view(terms@));
    res
}

fn clone_function(function: &Function) -> (res: Function)
    ensures
        res@ == function@,
    decreases function, 0int,
{
    Function {
        parameters: clone_parameters(&function.parameters),
        value: clone_term(&function.value),
        location: function.location.clone(),
    }
}

fn clone_term(term: &Term) -> (res: Term)
    ensures
        res@ == term@,
    decreases term, 1int,
{
    match term {
        Term::Int(literal) => Term::Int(
            Int { value: literal.value, location: literal.location.clone() },
        ),
        Term::Str(literal) => Term::Str(
            Str { value: literal.value.clone(), location: literal.location.clone() },
        ),
        Term::Call(call) => Term::Call(
            Box::new(
                Call {
                    callee: clone_term(&call.callee),
                    arguments: clone_terms(&call.arguments),
                    location: call.location.clone(),
                },
            ),
        ),
        Term::Binary(binary) => Term::Binary(
            Box::new(
                Binary {
                    lhs: clone_term(&binary.lhs),
                    op: binary.op,
                    rhs: clone_term(&binary.rhs),
                    location: binary.location.clone(),
                },
            ),
        ),
        Term::Function(function) => Term::Function(Box::new(clone_function(function))),
        Term::Let(let_) => Term::Let(
            Box::new(
                Let {
                    name: let_.name.clone(),
                    value: clone_term(&let_.value),
                    next: clone_term(&let_.next),
                    location: let_.location.clone(),
                },
            ),
        ),
        Term::If(if_) => {
            let If { condition, then: consequent, otherwise, location } = &**if_;
            Term::If(
                Box::new(
                    If {
                        condition: clone_term(condition),
                        then: clone_term(consequent),
                        otherwise: clone_term(otherwise),
                        location: location.clone(),
                    },
                ),
            )
        },
        Term::Print(print) => Term::Print(
            Box::new(Print { value: clone_term(&print.value), location: print.location.clone() }),
        ),
        Term::First(first) => Term::First(
            Box::new(First { value: clone_term(&first.value), location: first.location.clone() }),
        ),
        Term::Second(second) => Term::Second(
            Box::new(
                Second { value: clone_term(&second.value), location: second.location.clone() },
            ),
        ),
        Term::Bool(literal) => Term::Bool(
            Bool { value: literal.value, location: literal.location.clone() },
        ),
        Term::Tuple(tuple) => Term::Tuple(
            Box::new(
                Tuple {
                    first: clone_term(&tuple.first),
                    second: clone_term(&tuple.second),
                    location: tuple.location.clone(),
                },
            ),
        ),
        Term::Var(var) => Term::Var(
            Var { text: var.text.clone(), location: var.location.clone() },
        ),
    }
}

impl Clone for Int {
    fn clone(&self) -> (res: Self)
        ensures
            res@ == self@,
    {
        Int { value: self.value, location: self.location.clone() }
    }
}

impl Clone for Str {
    fn clone(&self) -> (res: Self)
        ensures
            res@ == self@,
    {
        Str { value: self.value.clone(), location: self.location.clone() }
    }
}

impl Clone for Bool {
    fn clone(&self) -> (res: Self)
        ensures
            res@ == self@,
    {
        Bool { value: self.value, location: self.location.clone() }
    }
}

impl Clone for Var {
    fn clone(&self) -> (res: Self)
        ensures
            res@ == self@,
    {
        Var { text: self.text.clone(), location: self.location.clone() }
    }
}

impl Clone for Call {
    fn clone(&self) -> (res: Self)
        ensures
            res@ == self@,
    {
        Call {
            callee: clone_term(&self.callee),
            arguments: clone_terms(&self.arguments),
            location: self.location.clone(),
        }
    }
}

impl Clone for Binary {
    fn clone(&self) -> (res: Self)
        ensures
            res@ == self@,
    {
        Binary {
            lhs: clone_term(&self.lhs),
            op: self.op,
            rhs: clone_term(&self.rhs),
            location: self.location.clone(),
        }
    }
}

impl Clone for Let {
    fn clone(&self) -> (res: Self)
        ensures
            res@ == self@,
    {
        Let {
            name: self.name.clone(),
            value: clone_term(&self.value),
            next: clone_term(&self.next),
            location: self.location.clone(),
        }
    }
}

impl Clone for If {
    fn clone(&self) -> (res: Self)
        ensures
            res@ == self@,
    {
        let If { condition, then: consequent, otherwise, location } = self;
        If {
            condition: clone_term(condition),
            then: clone_term(consequent),
            otherwise: clone_term(otherwise),
            location: location.clone(),
        }
    }
}

impl Clone for Print {
    fn clone(&self) -> (res: Self)
        ensures
            res@ == self@,
    {
        Print { value: clone_term(&self.value), location: self.location.clone() }
    }
}

impl Clone for First {
    fn clone(&self) -> (res: Self)
        ensures
            res@ == self@,
    {
        First { value: clone_term(&self.value), location: self.location.clone() }
    }
}

impl Clone for Second {
    fn clone(&self) -> (res: Self)
        ensures
            res@ == self@,
    {
        Second { value: clone_term(&self.value), location: self.location.clone() }
    }
}

impl Clone for Tuple {
    fn clone(&self) -> (res: Self)
        ensures
            res@ == self@,
    {
        Tuple {
            first: clone_term(&self.first),
            second: clone_term(&self.second),
            location: self.location.clone(),
        }
    }
}

impl Clone for File {
    fn clone(&self) -> (res: Self)
        ensures
            res@ == self@,
    {
        File {
            name: self.name.clone(),
            expression: clone_term(&self.expression),
            location: self.location.clone(),
        }
    }
}

impl Clone for Function {
    fn clone(&self) -> (res: Self)
        ensures
            res@ == self@,
    {
        clone_function(self)
    }
}

impl Clone for Term {
    fn clone(&self) -> (res: Self)
        ensures
            res@ == self@,
    {
        clone_term(self)
    }
}

} // verus!
