//! Runtime values and the environments that bind them.

use crate::machine::shared::rc_clone;
use crate::machine::term::{Constant, ConstantV, DefaultFunction, Term, TermV};
use std::rc::Rc;
use vstd::prelude::*;

verus! {

/// The result of evaluating a term.
#[derive(Clone, Debug, PartialEq, Eq)]
pub enum Value {
    /// A constant.
    Con(Rc<Constant>),
    /// A lambda body with the environment captured where it was met.
    Closure(Rc<Env>, Rc<Term>),
    /// A delayed body with the environment captured where it was met.
    Delayed(Rc<Env>, Rc<Term>),
    /// Constructed data: a tag and the field values in order.
    Constr(usize, Vec<Rc<Value>>),
    /// A builtin with the arguments it has received so far.
    PartialBuiltin(DefaultFunction, Vec<Rc<Value>>),
}

/// A chain of bindings. The head is the binding made most recently; the tail
/// is shared with every environment that was extended from it.
#[derive(Clone, Debug, PartialEq, Eq)]
pub enum Env {
    Empty,
    Bind(Rc<Value>, Rc<Env>),
}

/// The mathematical value of a [`Value`]. An environment is the sequence of
/// its bindings, most recent first.
pub enum ValueV {
    Con(ConstantV),
    Closure(Seq<ValueV>, TermV),
    Delayed(Seq<ValueV>, TermV),
    Constr(nat, Seq<ValueV>),
    PartialBuiltin(DefaultFunction, Seq<ValueV>),
}

/// The values of a list of shared values, in order.
pub open spec fn values_view(values: Seq<Rc<Value>>) -> Seq<ValueV> {
    Seq::new(values.len(), |i: int| values[i]@)
}

impl Value {
    /// The mathematical value.
    pub open spec fn model(&self) -> ValueV
        decreases self,
    {
        match self {
            Value::Con(c) => ValueV::Con(c@),
            Value::Closure(env, body) => ValueV::Closure(env.model(), body@),
            Value::Delayed(env, body) => ValueV::Delayed(env.model(), body@),
            Value::Constr(tag, fields) => ValueV::Constr(
                *tag as nat,
                Seq::new(
                    fields@.len(),
                    |i: int|
                        if 0 <= i < fields@.len() {
                            fields@[i].model()
                        } else {
                            ValueV::Constr(0, Seq::empty())
                        },
                ),
            ),
            Value::PartialBuiltin(fun, args) => ValueV::PartialBuiltin(
                *fun,
                Seq::new(
                    args@.len(),
                    |i: int|
                        if 0 <= i < args@.len() {
                            args@[i].model()
                        } else {
                            ValueV::Constr(0, Seq::empty())
                        },
                ),
            ),
        }
    }

    /// The model of a value that holds a list gives the list's values in
    /// order.
    pub proof fn lemma_model_lists(&self)
        ensures
            self matches Value::Constr(tag, fields) ==> self@ == ValueV::Constr(
                tag as nat,
                values_view(fields@),
            ),
            self matches Value::PartialBuiltin(fun, args) ==> self@ == ValueV::PartialBuiltin(
                *fun,
                values_view(args@),
            ),
    {
        match self {
            Value::Constr(tag, fields) => {
                assert(self.model()->Constr_1 =~= values_view(fields@));
            },
            Value::PartialBuiltin(fun, args) => {
                assert(self.model()->PartialBuiltin_1 =~= values_view(args@));
            },
            _ => {},
        }
    }
}

impl View for Value {
    type V = ValueV;

    open spec fn view(&self) -> ValueV {
        self.model()
    }
}

impl Env {
    /// The bindings, most recent first.
    pub open spec fn model(&self) -> Seq<ValueV>
        decreases self,
    {
        match self {
            Env::Empty => Seq::empty(),
            Env::Bind(value, rest) => seq![value.model()] + rest.model(),
        }
    }

    /// The environment without bindings.
    pub fn empty() -> (res: Rc<Env>)
        ensures
            res@ == Seq::<ValueV>::empty(),
    {
        Rc::new(Env::Empty)
    }

    /// A new environment with `value` as its head and `env` as its shared
    /// tail. `env` itself is left as it was.
    pub fn extend(env: &Rc<Env>, value: Rc<Value>) -> (res: Rc<Env>)
        ensures
            res@ == seq![value@] + env@,
    {
        Rc::new(Env::Bind(value, rc_clone(env)))
    }

    /// The value bound at `index`, counted from the most recent binding, or
    /// `None` where the chain has no such binding.
    pub fn lookup(env: &Rc<Env>, index: usize) -> (res: Option<Rc<Value>>)
        ensures
            res matches Some(v) ==> index < env@.len() && v@ == env@[index as int],
            res is None ==> index >= env@.len(),
    {
        let mut current: &Env = env;
        let mut remaining: usize = index;
        loop
            invariant
                remaining <= index,
                current@.len() + (index - remaining) == env@.len(),
                forall|k: int| 0 <= k < current@.len() ==> current@[k] == env@[k + (index - remaining)],
            decreases remaining,
        {
            match current {
                Env::Empty => {
                    return None;
                },
                Env::Bind(value, rest) => {
                    if remaining == 0 {
                        assert(current@[0] == value@);
                        return Some(rc_clone(value));
                    }
                    assert forall|k: int| 0 <= k < rest@.len() implies rest@[k] == env@[k + (index
                        - remaining) + 1] by {
                        assert(current@[k + 1] == rest@[k]);
                    }
                    remaining = remaining - 1;
                    current = rest;
                },
            }
        }
    }
}

impl View for Env {
    type V = Seq<ValueV>;

    open spec fn view(&self) -> Seq<ValueV> {
        self.model()
    }
}

} // verus!
