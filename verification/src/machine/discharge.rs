//! Reifying a value back into a term.

use crate::machine::shared::rc_clone;
use crate::machine::term::{Term, TermV};
use crate::machine::value::{values_view, Env, Value, ValueV};
use std::rc::Rc;
use vstd::prelude::*;

verus! {

/// `head` applied to each of `args` in turn.
pub open spec fn apply_all(head: TermV, args: Seq<TermV>) -> TermV
    decreases args.len(),
{
    if args.len() == 0 {
        head
    } else {
        TermV::Apply(Box::new(apply_all(head, args.drop_last())), Box::new(args.last()))
    }
}

/// The term that a value stands for. A constant is its literal; a closure
/// or a delayed value is its body under its binder, with every variable
/// that the captured environment binds replaced by the term of the value
/// bound; constructed data is the constructor of its fields' terms; a
/// builtin that waits for arguments is the builtin applied to the terms of
/// those it has.
pub open spec fn reify(value: ValueV) -> TermV
    decreases value, TermV::Error,
{
    match value {
        ValueV::Con(c) => TermV::Constant(c),
        ValueV::Closure(env, body) => TermV::Lambda(Box::new(discharge(env, 1, body))),
        ValueV::Delayed(env, body) => TermV::Delay(Box::new(discharge(env, 0, body))),
        ValueV::Constr(tag, fields) => TermV::Constr(tag, reify_all(fields)),
        ValueV::PartialBuiltin(fun, args) => apply_all(TermV::Builtin(fun), reify_all(args)),
    }
}

/// The term of each of `values`, in order.
pub open spec fn reify_all(values: Seq<ValueV>) -> Seq<TermV>
    decreases values, TermV::Error,
{
    Seq::new(
        values.len(),
        |i: int|
            if 0 <= i < values.len() {
                reify(values[i])
            } else {
                TermV::Error
            },
    )
}

/// `term` with the variables that `env` binds replaced. `depth` is the
/// number of binders of `term` itself that enclose the place: a variable
/// below it is bound there and stays; one at `depth + k` is the binding `k`
/// of `env`, and stays where `env` has no such binding.
pub open spec fn discharge(env: Seq<ValueV>, depth: nat, term: TermV) -> TermV
    decreases env, term,
{
    match term {
        TermV::Var(i) => if i >= depth && i - depth < env.len() {
            reify(env[i - depth])
        } else {
            TermV::Var(i)
        },
        TermV::Lambda(body) => TermV::Lambda(Box::new(discharge(env, depth + 1, *body))),
        TermV::Apply(function, argument) => TermV::Apply(
            Box::new(discharge(env, depth, *function)),
            Box::new(discharge(env, depth, *argument)),
        ),
        TermV::Delay(body) => TermV::Delay(Box::new(discharge(env, depth, *body))),
        TermV::Force(body) => TermV::Force(Box::new(discharge(env, depth, *body))),
        TermV::Constant(c) => TermV::Constant(c),
        TermV::Builtin(fun) => TermV::Builtin(fun),
        TermV::Constr(tag, fields) => TermV::Constr(
            tag,
            Seq::new(
                fields.len(),
                |i: int|
                    if 0 <= i < fields.len() {
                        discharge(env, depth, fields[i])
                    } else {
                        TermV::Error
                    },
            ),
        ),
        TermV::Case(scrutinee, branches) => TermV::Case(
            Box::new(discharge(env, depth, *scrutinee)),
            Seq::new(
                branches.len(),
                |i: int|
                    if 0 <= i < branches.len() {
                        discharge(env, depth, branches[i])
                    } else {
                        TermV::Error
                    },
            ),
        ),
        TermV::Error => TermV::Error,
    }
}

/// How the machine counts binders: exactly, or as more than it can count.
/// Under more binders than a variable's index can reach, every variable is
/// bound.
pub open spec fn counts(depth: Option<usize>, binders: nat) -> bool {
    match depth {
        Some(k) => binders == k,
        None => binders > usize::MAX,
    }
}

fn one_deeper(depth: Option<usize>, Ghost(binders): Ghost<nat>) -> (res: Option<usize>)
    requires
        counts(depth, binders),
    ensures
        counts(res, binders + 1),
{
    match depth {
        Some(k) => if k < usize::MAX {
            Some(k + 1)
        } else {
            None
        },
        None => None,
    }
}

/// The term that `value` stands for.
pub fn value_as_term(value: &Value) -> (res: Term)
    ensures
        res@ == reify(value@),
    decreases value@, TermV::Error, 0nat,
{
    proof {
        value.lemma_model_lists();
    }
    match value {
        Value::Con(c) => Term::Constant(rc_clone(c)),
        Value::Closure(env, body) => Term::Lambda(
            Rc::new(discharge_term(env, Some(1), body, Ghost(1))),
        ),
        Value::Delayed(env, body) => Term::Delay(
            Rc::new(discharge_term(env, Some(0), body, Ghost(0))),
        ),
        Value::Constr(tag, fields) => {
            let mut out: Vec<Term> = Vec::new();
            let mut j: usize = 0;
            while j < fields.len()
                invariant
                    j <= fields.len(),
                    out.len() == j,
                    value@ == ValueV::Constr(*tag as nat, values_view(fields@)),
                    forall|i: int| 0 <= i < j ==> (#[trigger] out@[i])@ == reify(fields@[i]@),
                decreases fields.len() - j,
            {
                proof {
                    let all = value@->Constr_1;
                    assert(all[j as int] == fields@[j as int]@);
                    assert(decreases_to!(value@ => all));
                    assert(decreases_to!(all => all[j as int]));
                }
                let field = value_as_term(&fields[j]);
                out.push(field);
                j = j + 1;
            }
            let res = Term::Constr(*tag, Rc::new(out));
            proof {
                res.lemma_model_lists();
                assert(res@->Constr_1 =~= reify_all(values_view(fields@)));
            }
            res
        },
        Value::PartialBuiltin(fun, args) => {
            let ghost reified = reify_all(values_view(args@));
            let mut res = Term::Builtin(*fun);
            let mut j: usize = 0;
            while j < args.len()
                invariant
                    j <= args.len(),
                    value@ == ValueV::PartialBuiltin(*fun, values_view(args@)),
                    reified == reify_all(values_view(args@)),
                    res@ == apply_all(TermV::Builtin(*fun), reified.subrange(0, j as int)),
                decreases args.len() - j,
            {
                proof {
                    let all = value@->PartialBuiltin_1;
                    assert(all[j as int] == args@[j as int]@);
                    assert(decreases_to!(value@ => all));
                    assert(decreases_to!(all => all[j as int]));
                }
                let arg = value_as_term(&args[j]);
                proof {
                    let upto = reified.subrange(0, j + 1);
                    assert(upto.drop_last() =~= reified.subrange(0, j as int));
                    assert(upto.last() == arg@);
                }
                res = Term::Apply(Rc::new(res), Rc::new(arg));
                j = j + 1;
            }
            proof {
                assert(reified.subrange(0, j as int) =~= reified);
            }
            res
        },
    }
}

/// `term` with the variables that `env` binds replaced, under `depth`
/// binders of its own.
fn discharge_term(env: &Rc<Env>, depth: Option<usize>, term: &Term, Ghost(binders): Ghost<nat>) -> (res:
    Term)
    requires
        counts(depth, binders),
    ensures
        res@ == discharge(env@, binders, term@),
    decreases env@, term@, 1nat,
{
    proof {
        term.lemma_model_lists();
        match term {
            Term::Constr(_, fields) => {
                let all = term@->Constr_1;
                assert forall|i: int| 0 <= i < fields@.len() implies decreases_to!(term@ => (#[trigger] fields@[i])@) by {
                    assert(all[i] == fields@[i]@);
                    assert(decreases_to!(term@ => all));
                    assert(decreases_to!(all => all[i]));
                }
            },
            Term::Case(_, branches) => {
                let all = term@->Case_1;
                assert forall|i: int| 0 <= i < branches@.len() implies decreases_to!(term@ => (#[trigger] branches@[i])@) by {
                    assert(all[i] == branches@[i]@);
                    assert(decreases_to!(term@ => all));
                    assert(decreases_to!(all => all[i]));
                }
            },
            _ => {},
        }
    }
    match term {
        Term::Var(i) => {
            match depth {
                Some(k) => {
                    if *i >= k {
                        match Env::lookup(env, *i - k) {
                            Some(value) => value_as_term(&value),
                            None => Term::Var(*i),
                        }
                    } else {
                        Term::Var(*i)
                    }
                },
                None => Term::Var(*i),
            }
        },
        Term::Lambda(body) => {
            let deeper = one_deeper(depth, Ghost(binders));
            Term::Lambda(Rc::new(discharge_term(env, deeper, body, Ghost(binders + 1))))
        },
        Term::Apply(function, argument) => Term::Apply(
            Rc::new(discharge_term(env, depth, function, Ghost(binders))),
            Rc::new(discharge_term(env, depth, argument, Ghost(binders))),
        ),
        Term::Delay(body) => Term::Delay(Rc::new(discharge_term(env, depth, body, Ghost(binders)))),
        Term::Force(body) => Term::Force(Rc::new(discharge_term(env, depth, body, Ghost(binders)))),
        Term::Constant(c) => Term::Constant(rc_clone(c)),
        Term::Builtin(fun) => Term::Builtin(*fun),
        Term::Constr(tag, fields) => {
            let out = discharge_terms(env, depth, fields, Ghost(binders), Ghost(term@));
            let res = Term::Constr(*tag, Rc::new(out));
            proof {
                res.lemma_model_lists();
                assert(res@->Constr_1 =~= discharge(env@, binders, term@)->Constr_1);
            }
            res
        },
        Term::Case(scrutinee, branches) => {
            let out = discharge_terms(env, depth, branches, Ghost(binders), Ghost(term@));
            let head = discharge_term(env, depth, scrutinee, Ghost(binders));
            let res = Term::Case(Rc::new(head), Rc::new(out));
            proof {
                res.lemma_model_lists();
                assert(res@->Case_1 =~= discharge(env@, binders, term@)->Case_1);
            }
            res
        },
        Term::Error => Term::Error,
    }
}

/// Each of `terms`, which are the subterms of `parent`, discharged.
fn discharge_terms(
    env: &Rc<Env>,
    depth: Option<usize>,
    terms: &Vec<Term>,
    Ghost(binders): Ghost<nat>,
    Ghost(parent): Ghost<TermV>,
) -> (res: Vec<Term>)
    requires
        counts(depth, binders),
        forall|i: int| 0 <= i < terms@.len() ==> decreases_to!(parent => (#[trigger] terms@[i])@),
    ensures
        res.len() == terms.len(),
        forall|i: int|
            0 <= i < terms@.len() ==> (#[trigger] res@[i])@ == discharge(
                env@,
                binders,
                terms@[i]@,
            ),
    decreases env@, parent, 0nat,
{
    let mut out: Vec<Term> = Vec::new();
    let mut j: usize = 0;
    while j < terms.len()
        invariant
            j <= terms.len(),
            out.len() == j,
            counts(depth, binders),
            forall|i: int| 0 <= i < terms@.len() ==> decreases_to!(parent => (#[trigger] terms@[i])@),
            forall|i: int|
                0 <= i < j ==> (#[trigger] out@[i])@ == discharge(env@, binders, terms@[i]@),
        decreases terms.len() - j,
    {
        let one = discharge_term(env, depth, &terms[j], Ghost(binders));
        out.push(one);
        j = j + 1;
    }
    out
}

} // verus!
