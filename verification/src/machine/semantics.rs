//! The transition relation of the machine and the run that it determines,
//! as mathematics.

use crate::machine::builtins::{arity, builtin_cost, eval, operands_size};
use crate::machine::context::FrameV;
use crate::machine::cost_model::{spend, BudgetV, CostTable, StepKind};
use crate::machine::discharge::reify;
use crate::machine::term::TermV;
use crate::machine::value::ValueV;
use vstd::prelude::*;

verus! {

/// Why a run ended without a result.
#[derive(Clone, Copy, Debug, PartialEq, Eq, Structural)]
pub enum MachineError {
    /// A variable's index is past the end of the environment.
    UnboundVariable,
    /// A spend would have driven a counter negative.
    OutOfBudget,
    /// The machine reached the error term.
    ExplicitError,
    /// A builtin was given arguments of the wrong number or shape.
    BuiltinApplicationError,
    /// A frame was resumed with a value that it cannot take.
    MachineStuck,
}

/// A state of the machine.
pub enum StateV {
    /// A term is to be evaluated in an environment, under a continuation.
    Compute(Seq<FrameV>, Seq<ValueV>, TermV),
    /// A value is handed to a continuation.
    Return(Seq<FrameV>, ValueV),
    /// The run is over; the term is its result.
    Done(TermV),
}

/// What one transition gives: what is left of the budget, and the next state
/// or the error that ends the run.
pub struct StepV {
    pub budget: BudgetV,
    pub next: Result<StateV, MachineError>,
}

/// The kind of step that evaluating `term` is priced as. The error term is
/// not priced.
pub open spec fn step_kind(term: TermV) -> StepKind {
    match term {
        TermV::Var(_) => StepKind::Var,
        TermV::Lambda(_) => StepKind::Lambda,
        TermV::Apply(_, _) => StepKind::Apply,
        TermV::Delay(_) => StepKind::Delay,
        TermV::Force(_) => StepKind::Force,
        TermV::Constant(_) => StepKind::Constant,
        TermV::Builtin(_) => StepKind::Builtin,
        TermV::Constr(_, _) => StepKind::Constr,
        TermV::Case(_, _) => StepKind::Case,
        TermV::Error => StepKind::Constant,
    }
}

/// Where evaluating `term` leads, once its cost has been spent.
pub open spec fn descend(context: Seq<FrameV>, env: Seq<ValueV>, term: TermV) -> Result<
    StateV,
    MachineError,
> {
    match term {
        TermV::Var(i) => if i < env.len() {
            Ok(StateV::Return(context, env[i as int]))
        } else {
            Err(MachineError::UnboundVariable)
        },
        TermV::Lambda(body) => Ok(StateV::Return(context, ValueV::Closure(env, *body))),
        TermV::Apply(function, argument) => Ok(
            StateV::Compute(context.push(FrameV::AwaitArg(*argument, env)), env, *function),
        ),
        TermV::Delay(body) => Ok(StateV::Return(context, ValueV::Delayed(env, *body))),
        TermV::Force(body) => Ok(StateV::Compute(context.push(FrameV::Force), env, *body)),
        TermV::Constant(c) => Ok(StateV::Return(context, ValueV::Con(c))),
        TermV::Builtin(fun) => Ok(
            StateV::Return(context, ValueV::PartialBuiltin(fun, Seq::empty())),
        ),
        TermV::Constr(tag, fields) => if fields.len() == 0 {
            Ok(StateV::Return(context, ValueV::Constr(tag, Seq::empty())))
        } else {
            Ok(
                StateV::Compute(
                    context.push(FrameV::Constr(tag, Seq::empty(), fields.drop_first(), env)),
                    env,
                    fields[0],
                ),
            )
        },
        TermV::Case(scrutinee, branches) => Ok(
            StateV::Compute(context.push(FrameV::Cases(branches, env)), env, *scrutinee),
        ),
        TermV::Error => Err(MachineError::ExplicitError),
    }
}

/// The transition from a state that evaluates `term`: the error term fails
/// at once; any other term first spends the cost of its kind, and fails
/// with the budget untouched where that cannot be spent.
pub open spec fn compute(
    costs: CostTable,
    budget: BudgetV,
    context: Seq<FrameV>,
    env: Seq<ValueV>,
    term: TermV,
) -> StepV {
    if term is Error {
        StepV { budget, next: Err(MachineError::ExplicitError) }
    } else {
        match spend(budget, costs.machine_costs.cost(step_kind(term))) {
            None => StepV { budget, next: Err(MachineError::OutOfBudget) },
            Some(left) => StepV { budget: left, next: descend(context, env, term) },
        }
    }
}

/// `env` extended by each of `fields` in turn, so that the last field is the
/// most recent binding.
pub open spec fn bind_fields(env: Seq<ValueV>, fields: Seq<ValueV>) -> Seq<ValueV> {
    fields.reverse() + env
}

/// The transition that applies `function` to `argument` under the
/// continuation `rest`. A closure continues with its body; a builtin takes
/// the argument and, once it has as many as its arity, spends the cost of
/// the call and is evaluated; any other value cannot be applied.
pub open spec fn apply(
    costs: CostTable,
    budget: BudgetV,
    rest: Seq<FrameV>,
    function: ValueV,
    argument: ValueV,
) -> StepV {
    match function {
        ValueV::Closure(env, body) => StepV {
            budget,
            next: Ok(StateV::Compute(rest, seq![argument] + env, body)),
        },
        ValueV::PartialBuiltin(fun, args) => {
            let all = args.push(argument);
            if all.len() < arity(fun) {
                StepV { budget, next: Ok(StateV::Return(rest, ValueV::PartialBuiltin(fun, all))) }
            } else if all.len() > arity(fun) {
                StepV { budget, next: Err(MachineError::BuiltinApplicationError) }
            } else {
                match spend(budget, builtin_cost(costs.builtin_costs, fun, all)) {
                    None => StepV { budget, next: Err(MachineError::OutOfBudget) },
                    Some(left) => match eval(fun, all) {
                        Some(value) => StepV { budget: left, next: Ok(StateV::Return(rest, value)) },
                        None => StepV {
                            budget: left,
                            next: Err(MachineError::BuiltinApplicationError),
                        },
                    },
                }
            }
        },
        _ => StepV { budget, next: Err(MachineError::MachineStuck) },
    }
}

/// The transition that resumes `frame`, whose rest is `rest`, with `value`.
pub open spec fn resume(
    costs: CostTable,
    budget: BudgetV,
    rest: Seq<FrameV>,
    frame: FrameV,
    value: ValueV,
) -> StepV {
    match frame {
        FrameV::AwaitArg(argument, env) => StepV {
            budget,
            next: Ok(StateV::Compute(rest.push(FrameV::AwaitFunValue(value)), env, argument)),
        },
        FrameV::AwaitFunTerm(function, argument, env) => StepV {
            budget,
            next: Ok(StateV::Compute(rest.push(FrameV::AwaitFunValue(function)), env, argument)),
        },
        FrameV::AwaitFunValue(function) => apply(costs, budget, rest, function, value),
        FrameV::Force => match value {
            ValueV::Delayed(env, body) => StepV {
                budget,
                next: Ok(StateV::Compute(rest, env, body)),
            },
            _ => StepV { budget, next: Err(MachineError::MachineStuck) },
        },
        FrameV::Constr(tag, done, remaining, env) => {
            let fields = done.push(value);
            if remaining.len() > 0 {
                StepV {
                    budget,
                    next: Ok(
                        StateV::Compute(
                            rest.push(FrameV::Constr(tag, fields, remaining.drop_first(), env)),
                            env,
                            remaining[0],
                        ),
                    ),
                }
            } else {
                StepV { budget, next: Ok(StateV::Return(rest, ValueV::Constr(tag, fields))) }
            }
        },
        FrameV::Cases(branches, env) => match value {
            ValueV::Constr(tag, fields) => if tag < branches.len() {
                StepV {
                    budget,
                    next: Ok(StateV::Compute(rest, bind_fields(env, fields), branches[tag as int])),
                }
            } else {
                StepV { budget, next: Err(MachineError::MachineStuck) }
            },
            _ => StepV { budget, next: Err(MachineError::MachineStuck) },
        },
    }
}

/// The transition from a state that hands `value` to `context`: with no
/// frame the run is done and its result is the term of the value; else the
/// last frame is resumed.
pub open spec fn return_compute(
    costs: CostTable,
    budget: BudgetV,
    context: Seq<FrameV>,
    value: ValueV,
) -> StepV {
    if context.len() == 0 {
        StepV { budget, next: Ok(StateV::Done(reify(value))) }
    } else {
        resume(costs, budget, context.drop_last(), context.last(), value)
    }
}

/// One transition of the machine. A state that is done stays as it is.
pub open spec fn step(costs: CostTable, budget: BudgetV, state: StateV) -> StepV {
    match state {
        StateV::Compute(context, env, term) => compute(costs, budget, context, env, term),
        StateV::Return(context, value) => return_compute(costs, budget, context, value),
        StateV::Done(term) => StepV { budget, next: Ok(StateV::Done(term)) },
    }
}

/// The continuation of a state; a state that is done has none.
pub open spec fn context_of(state: StateV) -> Seq<FrameV> {
    match state {
        StateV::Compute(context, _, _) => context,
        StateV::Return(context, _) => context,
        StateV::Done(_) => Seq::empty(),
    }
}

/// The transitions that a state can still take without spending: a state
/// that returns can pop each of its frames and finish.
pub open spec fn rank(state: StateV) -> nat {
    match state {
        StateV::Return(context, _) => context.len() + 1,
        _ => 0,
    }
}

/// A transition that succeeds never raises a counter, leaves both at zero
/// or above where it spends, and either spends at least one unit or lowers
/// the rank of the state.
pub proof fn lemma_step_decreases(costs: CostTable, budget: BudgetV, state: StateV)
    requires
        costs.wf(),
        !(state is Done),
    ensures
        ({
            let after = step(costs, budget, state);
            &&& after.budget.cpu <= budget.cpu
            &&& after.budget.mem <= budget.mem
            &&& after.budget != budget ==> after.budget.non_negative()
            &&& after.next matches Ok(next) ==> {
                ||| (after.budget.total() < budget.total() && after.budget.non_negative())
                ||| (after.budget == budget && rank(next) < rank(state))
            }
        }),
{
    costs.machine_costs.lemma_wf();
    costs.builtin_costs.lemma_wf();
    match state {
        StateV::Compute(context, env, term) => {
            if !(term is Error) {
                let kind = step_kind(term);
                assert(kind != StepKind::StartUp);
            }
        },
        StateV::Return(context, value) => {
            if context.len() > 0 {
                match context.last() {
                    FrameV::AwaitFunValue(function) => {
                        match function {
                            ValueV::PartialBuiltin(fun, args) => {
                                let all = args.push(value);
                                let entry = costs.builtin_costs.cost(fun);
                                assert(entry.valid());
                                let size = operands_size(all);
                                assert(entry.cpu_slope * size >= 0) by (nonlinear_arith)
                                    requires
                                        entry.cpu_slope >= 0,
                                        size >= 0,
                                ;
                                assert(entry.mem_slope * size >= 0) by (nonlinear_arith)
                                    requires
                                        entry.mem_slope >= 0,
                                        size >= 0,
                                ;
                            },
                            _ => {},
                        }
                    },
                    _ => {},
                }
            }
        },
        StateV::Done(_) => {},
    }
}

/// A budget together with a state: one point of a run.
pub struct ConfigV {
    pub budget: BudgetV,
    pub state: StateV,
}

/// The points that a run passes through from `state` with `budget`, in
/// order: the starting point, then the point after each transition that
/// succeeds. The last point is a state that is done, or the state whose
/// transition fails.
pub open spec fn configs_from(costs: CostTable, budget: BudgetV, state: StateV) -> Seq<ConfigV>
    decreases budget.total(), rank(state),
    when costs.wf()
    via configs_from_decreases
{
    let here = seq![ConfigV { budget, state }];
    if state is Done {
        here
    } else {
        let after = step(costs, budget, state);
        match after.next {
            Err(_) => here,
            Ok(next) => here + configs_from(costs, after.budget, next),
        }
    }
}

#[via_fn]
proof fn configs_from_decreases(costs: CostTable, budget: BudgetV, state: StateV) {
    if !(state is Done) {
        lemma_step_decreases(costs, budget, state);
    }
}

/// The state in which a run of `term` starts: no frame, no binding.
pub open spec fn initial_state(term: TermV) -> StateV {
    StateV::Compute(Seq::empty(), Seq::empty(), term)
}

/// How a run ends: with the result term or the error, and with what is left
/// of the budget.
pub struct OutcomeV {
    pub result: Result<TermV, MachineError>,
    pub budget: BudgetV,
}

/// The outcome of a run whose last point is `last`: the result, where the
/// state is done; else the error of the transition that fails there, and
/// the budget as that transition leaves it.
pub open spec fn outcome_at(costs: CostTable, last: ConfigV) -> OutcomeV {
    match last.state {
        StateV::Done(term) => OutcomeV { result: Ok(term), budget: last.budget },
        _ => {
            let after = step(costs, last.budget, last.state);
            OutcomeV {
                result: match after.next {
                    Err(e) => Err(e),
                    Ok(_) => Err(MachineError::MachineStuck),
                },
                budget: after.budget,
            }
        },
    }
}

/// The outcome of running `term` with `budget`: the start-up cost is spent
/// first, and a run that cannot pay it fails before its first state.
pub open spec fn run_outcome(costs: CostTable, budget: BudgetV, term: TermV) -> OutcomeV {
    match spend(budget, costs.machine_costs.cost(StepKind::StartUp)) {
        None => OutcomeV { result: Err(MachineError::OutOfBudget), budget },
        Some(left) => outcome_at(costs, configs_from(costs, left, initial_state(term)).last()),
    }
}

/// The number of transitions that a run from `state` takes: those that
/// succeed, up to a state that is done or a transition that fails.
pub open spec fn transitions_from(costs: CostTable, budget: BudgetV, state: StateV) -> nat
    decreases budget.total(), rank(state),
    when costs.wf()
    via transitions_from_decreases
{
    if state is Done {
        0
    } else {
        let after = step(costs, budget, state);
        match after.next {
            Err(_) => 0,
            Ok(next) => 1 + transitions_from(costs, after.budget, next),
        }
    }
}

#[via_fn]
proof fn transitions_from_decreases(costs: CostTable, budget: BudgetV, state: StateV) {
    if !(state is Done) {
        lemma_step_decreases(costs, budget, state);
    }
}

/// A run starts at its starting point.
pub proof fn lemma_configs_start(costs: CostTable, budget: BudgetV, state: StateV)
    requires
        costs.wf(),
    ensures
        configs_from(costs, budget, state).len() >= 1,
        configs_from(costs, budget, state)[0] == (ConfigV { budget, state }),
{
}

/// A run from a state that is done, or whose transition fails, is that one
/// point; any other run is its starting point followed by the run from the
/// next state.
pub proof fn lemma_configs_unfold(costs: CostTable, budget: BudgetV, state: StateV)
    requires
        costs.wf(),
    ensures
        ({
            let configs = configs_from(costs, budget, state);
            let here = ConfigV { budget, state };
            let after = step(costs, budget, state);
            if state is Done || after.next is Err {
                configs == seq![here] && configs.last() == here
            } else {
                let rest = configs_from(costs, after.budget, after.next->Ok_0);
                &&& configs == seq![here] + rest
                &&& configs.last() == rest.last()
                &&& configs.skip(1) == rest
            }
        }),
{
    let after = step(costs, budget, state);
    if !(state is Done) && after.next is Ok {
        let rest = configs_from(costs, after.budget, after.next->Ok_0);
        lemma_configs_start(costs, after.budget, after.next->Ok_0);
        assert((seq![ConfigV { budget, state }] + rest).skip(1) =~= rest);
    }
}

} // verus!
