//! Programs: constants, builtin identifiers and terms.

use crate::machine::shared::rc_clone;
use std::rc::Rc;
use vstd::prelude::*;

verus! {

/// A literal value.
#[derive(Clone, Debug, PartialEq, Eq)]
pub enum Constant {
    Integer(i128),
    ByteString(Vec<u8>),
    Bool(bool),
    Unit,
    /// Structured data, carried in its CBOR encoding.
    Data(Vec<u8>),
}

/// The mathematical value of a [`Constant`].
pub enum ConstantV {
    Integer(int),
    ByteString(Seq<u8>),
    Bool(bool),
    Unit,
    Data(Seq<u8>),
}

impl View for Constant {
    type V = ConstantV;

    open spec fn view(&self) -> ConstantV {
        match self {
            Constant::Integer(i) => ConstantV::Integer(*i as int),
            Constant::ByteString(b) => ConstantV::ByteString(b@),
            Constant::Bool(b) => ConstantV::Bool(*b),
            Constant::Unit => ConstantV::Unit,
            Constant::Data(d) => ConstantV::Data(d@),
        }
    }
}

/// The primitive operations of the machine.
#[derive(Clone, Copy, Debug, PartialEq, Eq, Structural)]
pub enum DefaultFunction {
    AddInteger,
    SubtractInteger,
    MultiplyInteger,
    EqualsInteger,
    LessThanInteger,
    LessThanEqualsInteger,
    AppendByteString,
    EqualsByteString,
    LengthOfByteString,
    IfThenElse,
}

/// A program term. Variables are positional: index 0 is the binding made most
/// recently.
#[derive(Clone, Debug, PartialEq, Eq)]
pub enum Term {
    Var(usize),
    Lambda(Rc<Term>),
    Apply(Rc<Term>, Rc<Term>),
    Delay(Rc<Term>),
    Force(Rc<Term>),
    Constant(Rc<Constant>),
    Builtin(DefaultFunction),
    Constr(usize, Rc<Vec<Term>>),
    Case(Rc<Term>, Rc<Vec<Term>>),
    Error,
}

/// The mathematical value of a [`Term`].
pub enum TermV {
    Var(nat),
    Lambda(Box<TermV>),
    Apply(Box<TermV>, Box<TermV>),
    Delay(Box<TermV>),
    Force(Box<TermV>),
    Constant(ConstantV),
    Builtin(DefaultFunction),
    Constr(nat, Seq<TermV>),
    Case(Box<TermV>, Seq<TermV>),
    Error,
}

/// The values of a list of terms, in order.
pub open spec fn terms_view(terms: Seq<Term>) -> Seq<TermV> {
    Seq::new(terms.len(), |i: int| terms[i]@)
}

impl Term {
    /// The mathematical value of the term.
    pub open spec fn model(&self) -> TermV
        decreases self,
    {
        match self {
            Term::Var(i) => TermV::Var(*i as nat),
            Term::Lambda(body) => TermV::Lambda(Box::new(body.model())),
            Term::Apply(function, argument) => TermV::Apply(
                Box::new(function.model()),
                Box::new(argument.model()),
            ),
            Term::Delay(body) => TermV::Delay(Box::new(body.model())),
            Term::Force(body) => TermV::Force(Box::new(body.model())),
            Term::Constant(c) => TermV::Constant(c@),
            Term::Builtin(fun) => TermV::Builtin(*fun),
            Term::Constr(tag, fields) => TermV::Constr(
                *tag as nat,
                Seq::new(
                    fields@.len(),
                    |i: int|
                        if 0 <= i < fields@.len() {
                            fields@[i].model()
                        } else {
                            TermV::Error
                        },
                ),
            ),
            Term::Case(scrutinee, branches) => TermV::Case(
                Box::new(scrutinee.model()),
                Seq::new(
                    branches@.len(),
                    |i: int|
                        if 0 <= i < branches@.len() {
                            branches@[i].model()
                        } else {
                            TermV::Error
                        },
                ),
            ),
            Term::Error => TermV::Error,
        }
    }

    /// The model of a constructor or case term lists its subterms in order.
    pub proof fn lemma_model_lists(&self)
        ensures
            self matches Term::Constr(tag, fields) ==> self@ == TermV::Constr(
                tag as nat,
                terms_view(fields@),
            ),
            self matches Term::Case(scrutinee, branches) ==> self@ == TermV::Case(
                Box::new(scrutinee@),
                terms_view(branches@),
            ),
    {
        match self {
            Term::Constr(tag, fields) => {
                assert(self.model()->Constr_1 =~= terms_view(fields@));
            },
            Term::Case(scrutinee, branches) => {
                assert(self.model()->Case_1 =~= terms_view(branches@));
            },
            _ => {},
        }
    }

    /// The variable with the given index.
    pub fn var(index: usize) -> (res: Term)
        ensures
            res@ == TermV::Var(index as nat),
    {
        Term::Var(index)
    }

    /// The lambda with the given body.
    pub fn lambda(body: Term) -> (res: Term)
        ensures
            res@ == TermV::Lambda(Box::new(body@)),
    {
        Term::Lambda(Rc::new(body))
    }

    /// The application of `function` to `argument`.
    pub fn apply(function: Term, argument: Term) -> (res: Term)
        ensures
            res@ == TermV::Apply(Box::new(function@), Box::new(argument@)),
    {
        Term::Apply(Rc::new(function), Rc::new(argument))
    }

    /// The delayed `body`.
    pub fn delay(body: Term) -> (res: Term)
        ensures
            res@ == TermV::Delay(Box::new(body@)),
    {
        Term::Delay(Rc::new(body))
    }

    /// The forced `body`.
    pub fn force(body: Term) -> (res: Term)
        ensures
            res@ == TermV::Force(Box::new(body@)),
    {
        Term::Force(Rc::new(body))
    }

    /// The constant `constant`.
    pub fn constant(constant: Constant) -> (res: Term)
        ensures
            res@ == TermV::Constant(constant@),
    {
        Term::Constant(Rc::new(constant))
    }

    /// The integer constant `i`.
    pub fn integer(i: i128) -> (res: Term)
        ensures
            res@ == TermV::Constant(ConstantV::Integer(i as int)),
    {
        Term::Constant(Rc::new(Constant::Integer(i)))
    }

    /// The constructor with the given tag and fields.
    pub fn constr(tag: usize, fields: Vec<Term>) -> (res: Term)
        ensures
            res@ == TermV::Constr(tag as nat, terms_view(fields@)),
    {
        let res = Term::Constr(tag, Rc::new(fields));
        proof {
            res.lemma_model_lists();
        }
        res
    }

    /// The case analysis of `scrutinee` with the given branches.
    pub fn case(scrutinee: Term, branches: Vec<Term>) -> (res: Term)
        ensures
            res@ == TermV::Case(Box::new(scrutinee@), terms_view(branches@)),
    {
        let res = Term::Case(Rc::new(scrutinee), Rc::new(branches));
        proof {
            res.lemma_model_lists();
        }
        res
    }

    /// A copy of the term that shares every subterm with this one.
    pub fn share(&self) -> (res: Term)
        ensures
            res@ == self@,
    {
        match self {
            Term::Var(i) => Term::Var(*i),
            Term::Lambda(body) => Term::Lambda(rc_clone(body)),
            Term::Apply(function, argument) => Term::Apply(rc_clone(function), rc_clone(argument)),
            Term::Delay(body) => Term::Delay(rc_clone(body)),
            Term::Force(body) => Term::Force(rc_clone(body)),
            Term::Constant(c) => Term::Constant(rc_clone(c)),
            Term::Builtin(fun) => Term::Builtin(*fun),
            Term::Constr(tag, fields) => Term::Constr(*tag, rc_clone(fields)),
            Term::Case(scrutinee, branches) => Term::Case(rc_clone(scrutinee), rc_clone(branches)),
            Term::Error => Term::Error,
        }
    }
}

impl View for Term {
    type V = TermV;

    open spec fn view(&self) -> TermV {
        self.model()
    }
}

} // verus!
