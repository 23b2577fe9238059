//! The machine: a budget, a cost table, and the transitions that spend the
//! one by the other.

use crate::machine::builtins::{call, cost_of_call, operands_size};
use crate::machine::context::{remaining_from, Context, Frame};
use crate::machine::cost_model::{
    spend, BudgetV, CostModel, CostTable, ExBudget, Language, StepKind,
};
use crate::machine::discharge::value_as_term;
use crate::machine::semantics::{
    apply, bind_fields, compute, configs_from, descend, initial_state,
    lemma_configs_unfold, lemma_step_decreases, outcome_at, rank, return_compute, run_outcome,
    step,
    step_kind, MachineError, StateV,
};
use crate::machine::shared::rc_clone;
use crate::machine::term::{terms_view, Term, TermV};
use crate::machine::value::{values_view, Env, Value, ValueV};
use std::rc::Rc;
use vstd::prelude::*;

verus! {

/// A state of the machine.
#[derive(Clone, Debug, PartialEq, Eq)]
pub enum MachineState {
    /// A term is to be evaluated in an environment, under a continuation.
    Compute(Context, Rc<Env>, Term),
    /// A value is handed to a continuation.
    Return(Context, Rc<Value>),
    /// The run is over; the term is its result.
    Done(Term),
}

impl View for MachineState {
    type V = StateV;

    open spec fn view(&self) -> StateV {
        match self {
            MachineState::Compute(context, env, term) => StateV::Compute(context@, env@, term@),
            MachineState::Return(context, value) => StateV::Return(context@, value@),
            MachineState::Done(term) => StateV::Done(term@),
        }
    }
}

/// A machine: the language version and cost table of its programs, the
/// budget it was made with and what is left of it.
#[derive(Debug)]
pub struct Machine {
    version: Language,
    costs: CostTable,
    initial_budget: ExBudget,
    ex_budget: ExBudget,
}

/// What is left of a budget never exceeds what there was, and is negative
/// only where nothing has been spent.
pub open spec fn left_of(initial: BudgetV, left: BudgetV) -> bool {
    &&& left.cpu <= initial.cpu
    &&& left.mem <= initial.mem
    &&& (left.non_negative() || left == initial)
}

/// `res` is the exec form of the spec result `expected`.
pub open spec fn same_next(res: Result<MachineState, MachineError>, expected: Result<
    StateV,
    MachineError,
>) -> bool {
    match res {
        Ok(state) => expected == Ok::<StateV, MachineError>(state@),
        Err(e) => expected == Err::<StateV, MachineError>(e),
    }
}

/// The result of a run as mathematics: the value of the term, or the error.
pub open spec fn result_view(res: Result<Term, MachineError>) -> Result<TermV, MachineError> {
    match res {
        Ok(term) => Ok(term@),
        Err(e) => Err(e),
    }
}

/// What `run` promises of a machine with the table `costs` and `budget` left
/// that runs `term`: `res` is the result and `left` the budget afterwards.
pub open spec fn run_post(
    costs: CostTable,
    budget: BudgetV,
    term: TermV,
    left: BudgetV,
    res: Result<Term, MachineError>,
) -> bool {
    let outcome = run_outcome(costs, budget, term);
    left == outcome.budget && result_view(res) == outcome.result
}

/// A copy of `values` that shares each of them.
fn share_values(values: &Vec<Rc<Value>>) -> (res: Vec<Rc<Value>>)
    ensures
        res@ == values@,
{
    let mut out: Vec<Rc<Value>> = Vec::new();
    let mut i: usize = 0;
    while i < values.len()
        invariant
            i <= values.len(),
            out@ == values@.subrange(0, i as int),
        decreases values.len() - i,
    {
        out.push(rc_clone(&values[i]));
        i = i + 1;
        assert(out@ =~= values@.subrange(0, i as int));
    }
    assert(out@ =~= values@);
    out
}

/// Where evaluating `term` leads, once its cost has been spent.
fn descend_into(context: Context, env: Rc<Env>, term: Term) -> (res: Result<
    MachineState,
    MachineError,
>)
    ensures
        same_next(res, descend(context@, env@, term@)),
{
    let mut context = context;
    proof {
        term.lemma_model_lists();
    }
    match term {
        Term::Var(index) => match Env::lookup(&env, index) {
            Some(value) => Ok(MachineState::Return(context, value)),
            None => Err(MachineError::UnboundVariable),
        },
        Term::Lambda(body) => Ok(MachineState::Return(context, Rc::new(Value::Closure(env, body)))),
        Term::Apply(function, argument) => {
            context.push(Frame::AwaitArg(argument, rc_clone(&env)));
            Ok(MachineState::Compute(context, env, function.share()))
        },
        Term::Delay(body) => Ok(MachineState::Return(context, Rc::new(Value::Delayed(env, body)))),
        Term::Force(body) => {
            context.push(Frame::Force);
            Ok(MachineState::Compute(context, env, body.share()))
        },
        Term::Constant(c) => Ok(MachineState::Return(context, Rc::new(Value::Con(c)))),
        Term::Builtin(fun) => {
            let value = Value::PartialBuiltin(fun, Vec::new());
            proof {
                value.lemma_model_lists();
                assert(values_view(Seq::<Rc<Value>>::empty()) =~= Seq::<ValueV>::empty());
            }
            Ok(MachineState::Return(context, Rc::new(value)))
        },
        Term::Constr(tag, fields) => {
            if fields.len() == 0 {
                let value = Value::Constr(tag, Vec::new());
                proof {
                    value.lemma_model_lists();
                    assert(values_view(Seq::<Rc<Value>>::empty()) =~= Seq::<ValueV>::empty());
                }
                Ok(MachineState::Return(context, Rc::new(value)))
            } else {
                let first = fields[0].share();
                let frame = Frame::Constr(tag, Vec::new(), fields, 1, rc_clone(&env));
                proof {
                    assert(values_view(Seq::<Rc<Value>>::empty()) =~= Seq::<ValueV>::empty());
                    assert(remaining_from(terms_view(fields@), 1) =~= terms_view(
                        fields@,
                    ).drop_first());
                }
                context.push(frame);
                Ok(MachineState::Compute(context, env, first))
            }
        },
        Term::Case(scrutinee, branches) => {
            context.push(Frame::Cases(branches, rc_clone(&env)));
            Ok(MachineState::Compute(context, env, scrutinee.share()))
        },
        Term::Error => Err(MachineError::ExplicitError),
    }
}

/// The kind of step that evaluating `term` is priced as.
fn kind_of(term: &Term) -> (res: StepKind)
    ensures
        res == step_kind(term@),
{
    match term {
        Term::Var(_) => StepKind::Var,
        Term::Lambda(_) => StepKind::Lambda,
        Term::Apply(_, _) => StepKind::Apply,
        Term::Delay(_) => StepKind::Delay,
        Term::Force(_) => StepKind::Force,
        Term::Constant(_) => StepKind::Constant,
        Term::Builtin(_) => StepKind::Builtin,
        Term::Constr(_, _) => StepKind::Constr,
        Term::Case(_, _) => StepKind::Case,
        Term::Error => StepKind::Constant,
    }
}

/// `env` extended by each of `fields` in turn.
fn bind_all(env: Rc<Env>, fields: &Vec<Rc<Value>>) -> (res: Rc<Env>)
    ensures
        res@ == bind_fields(env@, values_view(fields@)),
{
    let ghost all = values_view(fields@);
    let mut out = env;
    let mut i: usize = 0;
    while i < fields.len()
        invariant
            i <= fields.len(),
            all == values_view(fields@),
            out@ == all.subrange(0, i as int).reverse() + env@,
        decreases fields.len() - i,
    {
        let ghost before = out@;
        out = Env::extend(&out, rc_clone(&fields[i]));
        i = i + 1;
        assert(out@ =~= all.subrange(0, i as int).reverse() + env@) by {
            let upto = all.subrange(0, i as int);
            let prev = all.subrange(0, i - 1);
            assert(upto.reverse() =~= seq![all[i - 1]] + prev.reverse());
        }
    }
    assert(all.subrange(0, i as int) =~= all);
    out
}

impl Machine {
    /// The cost table that prices the machine's steps.
    pub closed spec fn costs(&self) -> CostTable {
        self.costs
    }

    /// The budget that the machine was made with.
    pub closed spec fn initial(&self) -> BudgetV {
        self.initial_budget@
    }

    /// What is left of the budget.
    pub closed spec fn budget(&self) -> BudgetV {
        self.ex_budget@
    }

    /// The language version of the machine's programs.
    pub closed spec fn language(&self) -> Language {
        self.version
    }

    #[verifier::type_invariant]
    pub closed spec fn wf(&self) -> bool {
        self.costs.wf() && left_of(self.initial_budget@, self.ex_budget@)
    }

    /// A machine for programs of `version`, priced by the table that
    /// `costs` holds for that version, with `initial_budget` to spend.
    pub fn new(version: Language, costs: CostModel, initial_budget: ExBudget) -> (res: Machine)
        ensures
            res.language() == version,
            res.costs() == costs.table(version),
            res.initial() == initial_budget@,
            res.budget() == initial_budget@,
            res.wf(),
    {
        Machine {
            version,
            costs: costs.select(version),
            initial_budget,
            ex_budget: initial_budget,
        }
    }

    /// What is left of the budget.
    pub fn ex_budget(&self) -> (res: ExBudget)
        ensures
            res@ == self.budget(),
    {
        self.ex_budget
    }

    /// The budget that the machine was made with.
    pub fn initial_budget(&self) -> (res: ExBudget)
        ensures
            res@ == self.initial(),
    {
        self.initial_budget
    }

    /// What has been spent so far: the initial budget less what is left.
    pub fn consumed(&self) -> (res: ExBudget)
        ensures
            res@ == self.initial().minus(self.budget()),
            res@.non_negative(),
    {
        proof {
            use_type_invariant(self);
        }
        ExBudget {
            mem: self.initial_budget.mem - self.ex_budget.mem,
            cpu: self.initial_budget.cpu - self.ex_budget.cpu,
        }
    }

    /// Deducts `cost` from both counters, or fails and deducts nothing where
    /// either would go negative.
    fn spend_budget(&mut self, cost: ExBudget) -> (res: Result<(), MachineError>)
        requires
            cost@.non_negative(),
        ensures
            final(self).costs() == old(self).costs(),
            final(self).initial() == old(self).initial(),
            final(self).language() == old(self).language(),
            match spend(old(self).budget(), cost@) {
                Some(left) => res is Ok && final(self).budget() == left,
                None => res == Err::<(), MachineError>(MachineError::OutOfBudget)
                    && final(self).budget() == old(self).budget(),
            },
    {
        proof {
            use_type_invariant(&*self);
        }
        if cost.cpu > self.ex_budget.cpu || cost.mem > self.ex_budget.mem {
            return Err(MachineError::OutOfBudget);
        }
        self.ex_budget = ExBudget {
            mem: self.ex_budget.mem - cost.mem,
            cpu: self.ex_budget.cpu - cost.cpu,
        };
        Ok(())
    }

    /// The transition from a state that evaluates `term`.
    fn compute(&mut self, context: Context, env: Rc<Env>, term: Term) -> (res: Result<
        MachineState,
        MachineError,
    >)
        ensures
            final(self).costs() == old(self).costs(),
            final(self).initial() == old(self).initial(),
            final(self).language() == old(self).language(),
            ({
                let after = compute(old(self).costs(), old(self).budget(), context@, env@, term@);
                final(self).budget() == after.budget && same_next(res, after.next)
            }),
    {
        if let Term::Error = term {
            return Err(MachineError::ExplicitError);
        }
        let kind = kind_of(&term);
        let cost = self.costs.machine_costs.get(kind);
        proof {
            self.costs.machine_costs.lemma_wf();
        }
        match self.spend_budget(cost) {
            Err(e) => Err(e),
            Ok(()) => descend_into(context, env, term),
        }
    }

    /// The transition that applies `function` to `argument` under `rest`.
    fn apply_evaluate(&mut self, rest: Context, function: Rc<Value>, argument: Rc<Value>) -> (res:
        Result<MachineState, MachineError>)
        ensures
            final(self).costs() == old(self).costs(),
            final(self).initial() == old(self).initial(),
            final(self).language() == old(self).language(),
            ({
                let after = apply(
                    old(self).costs(),
                    old(self).budget(),
                    rest@,
                    function@,
                    argument@,
                );
                final(self).budget() == after.budget && same_next(res, after.next)
            }),
    {
        proof {
            function.lemma_model_lists();
        }
        match &*function {
            Value::Closure(env, body) => Ok(
                MachineState::Compute(rest, Env::extend(env, argument), body.share()),
            ),
            Value::PartialBuiltin(fun, args) => {
                let mut all = share_values(args);
                all.push(argument);
                assert(values_view(all@) =~= values_view(args@).push(argument@));
                let wanted = fun.arity();
                if all.len() < wanted {
                    let value = Value::PartialBuiltin(*fun, all);
                    proof {
                        value.lemma_model_lists();
                    }
                    Ok(MachineState::Return(rest, Rc::new(value)))
                } else if all.len() > wanted {
                    Err(MachineError::BuiltinApplicationError)
                } else {
                    match cost_of_call(&self.costs.builtin_costs, *fun, &all) {
                        None => Err(MachineError::OutOfBudget),
                        Some(cost) => {
                            proof {
                                self.costs.builtin_costs.lemma_wf();
                                let entry = self.costs.builtin_costs.cost(*fun);
                                let size = operands_size(
                                    values_view(all@),
                                );
                                assert(entry.cpu_slope * size >= 0) by (nonlinear_arith)
                                    requires
                                        entry.cpu_slope >= 0,
                                        size >= 0,
                                ;
                                assert(entry.mem_slope * size >= 0) by (nonlinear_arith)
                                    requires
                                        entry.mem_slope >= 0,
                                        size >= 0,
                                ;
                            }
                            match self.spend_budget(cost) {
                                Err(e) => Err(e),
                                Ok(()) => match call(*fun, &all) {
                                    Some(value) => Ok(MachineState::Return(rest, value)),
                                    None => Err(MachineError::BuiltinApplicationError),
                                },
                            }
                        },
                    }
                }
            },
            _ => Err(MachineError::MachineStuck),
        }
    }

    /// The transition from a state that hands `value` to `context`.
    fn return_compute(&mut self, context: Context, value: Rc<Value>) -> (res: Result<
        MachineState,
        MachineError,
    >)
        ensures
            final(self).costs() == old(self).costs(),
            final(self).initial() == old(self).initial(),
            final(self).language() == old(self).language(),
            ({
                let after = return_compute(
                    old(self).costs(),
                    old(self).budget(),
                    context@,
                    value@,
                );
                final(self).budget() == after.budget && same_next(res, after.next)
            }),
    {
        let mut context = context;
        let ghost whole = context@;
        match context.pop() {
            None => Ok(MachineState::Done(value_as_term(&value))),
            Some(frame) => {
                match frame {
                    Frame::AwaitArg(argument, env) => {
                        context.push(Frame::AwaitFunValue(value));
                        Ok(MachineState::Compute(context, env, argument.share()))
                    },
                    Frame::AwaitFunTerm(function, argument, env) => {
                        context.push(Frame::AwaitFunValue(function));
                        Ok(MachineState::Compute(context, env, argument.share()))
                    },
                    Frame::AwaitFunValue(function) => self.apply_evaluate(context, function, value),
                    Frame::Force => {
                        match &*value {
                            Value::Delayed(env, body) => Ok(
                                MachineState::Compute(context, rc_clone(env), body.share()),
                            ),
                            _ => Err(MachineError::MachineStuck),
                        }
                    },
                    Frame::Constr(tag, done, fields, next, env) => {
                        let mut done = done;
                        let ghost before = values_view(done@);
                        done.push(value);
                        assert(values_view(done@) =~= before.push(value@));
                        let ghost all = terms_view(fields@);
                        if next < fields.len() {
                            let term = fields[next].share();
                            proof {
                                assert(remaining_from(all, next as nat)[0] == all[next as int]);
                                assert(remaining_from(all, (next + 1) as nat) =~= remaining_from(
                                    all,
                                    next as nat,
                                ).drop_first());
                            }
                            context.push(Frame::Constr(tag, done, fields, next + 1, rc_clone(&env)));
                            Ok(MachineState::Compute(context, env, term))
                        } else {
                            let built = Value::Constr(tag, done);
                            proof {
                                built.lemma_model_lists();
                            }
                            Ok(MachineState::Return(context, Rc::new(built)))
                        }
                    },
                    Frame::Cases(branches, env) => {
                        proof {
                            value.lemma_model_lists();
                        }
                        match &*value {
                            Value::Constr(tag, fields) => {
                                if *tag < branches.len() {
                                    let branch = branches[*tag].share();
                                    Ok(MachineState::Compute(context, bind_all(env, fields), branch))
                                } else {
                                    Err(MachineError::MachineStuck)
                                }
                            },
                            _ => Err(MachineError::MachineStuck),
                        }
                    },
                }
            },
        }
    }

    /// One transition of the machine from `state`.
    pub fn step(&mut self, state: MachineState) -> (res: Result<MachineState, MachineError>)
        ensures
            final(self).costs() == old(self).costs(),
            final(self).initial() == old(self).initial(),
            final(self).language() == old(self).language(),
            ({
                let after = step(old(self).costs(), old(self).budget(), state@);
                final(self).budget() == after.budget && same_next(res, after.next)
            }),
    {
        match state {
            MachineState::Compute(context, env, term) => self.compute(context, env, term),
            MachineState::Return(context, value) => self.return_compute(context, value),
            MachineState::Done(term) => Ok(MachineState::Done(term)),
        }
    }

    /// Spends the start-up cost of a run.
    pub fn startup(&mut self) -> (res: Result<(), MachineError>)
        ensures
            final(self).costs() == old(self).costs(),
            final(self).initial() == old(self).initial(),
            final(self).language() == old(self).language(),
            old(self).costs().wf(),
            match spend(
                old(self).budget(),
                old(self).costs().machine_costs.cost(StepKind::StartUp),
            ) {
                Some(left) => res is Ok && final(self).budget() == left,
                None => res == Err::<(), MachineError>(MachineError::OutOfBudget)
                    && final(self).budget() == old(self).budget(),
            },
    {
        proof {
            use_type_invariant(&*self);
            self.costs.machine_costs.lemma_wf();
        }
        let cost = self.costs.machine_costs.get(StepKind::StartUp);
        self.spend_budget(cost)
    }

    /// Runs `term` to its result or to the error that ends the run. The
    /// budget is left as the run leaves it.
    pub fn run(&mut self, term: Term) -> (res: Result<Term, MachineError>)
        ensures
            final(self).costs() == old(self).costs(),
            final(self).initial() == old(self).initial(),
            final(self).language() == old(self).language(),
            run_post(old(self).costs(), old(self).budget(), term@, final(self).budget(), res),
    {
        match self.startup() {
            Err(e) => {
                return Err(e);
            },
            Ok(()) => {},
        }
        let ghost costs = self.costs();
        let ghost last = configs_from(costs, self.budget(), initial_state(term@)).last();
        let mut state = MachineState::Compute(Context::no_frame(), Env::empty(), term);
        loop
            invariant
                costs.wf(),
                costs == old(self).costs(),
                self.costs() == costs,
                self.initial() == old(self).initial(),
                self.language() == old(self).language(),
                run_outcome(costs, old(self).budget(), term@) == outcome_at(costs, last),
                configs_from(costs, self.budget(), state@).last() == last,
            decreases self.budget().total(), rank(state@),
        {
            proof {
                lemma_configs_unfold(costs, self.budget(), state@);
            }
            match state {
                MachineState::Done(t) => {
                    return Ok(t);
                },
                other => {
                    proof {
                        lemma_step_decreases(costs, self.budget(), other@);
                    }
                    match self.step(other) {
                        Err(e) => {
                            return Err(e);
                        },
                        Ok(next) => {
                            state = next;
                        },
                    }
                },
            }
        }
    }
}

} // verus!
