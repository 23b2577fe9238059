//! The step recorder: one snapshot of the machine before each transition,
//! and one when the run is done.

use crate::machine::context::{depth, Context, FrameV};
use crate::machine::cost_model::{spend, BudgetV, CostTable, ExBudget, StepKind};
use crate::machine::discharge::{reify, value_as_term};
use crate::machine::driver::{Machine, MachineState};
use crate::machine::pretty::{decimal, push_decimal, push_term, render};
use crate::machine::semantics::{
    configs_from, initial_state, lemma_configs_start, lemma_configs_unfold, lemma_step_decreases,
    outcome_at, rank, ConfigV, MachineError, OutcomeV, StateV,
};
use crate::machine::term::{Term, TermV};
use crate::machine::value::{Env, Value, ValueV};
use crate::text::strings_view;
use std::rc::Rc;
use vstd::prelude::*;
use vstd::string::StringExecFns;

verus! {

/// What part of a validator a step belongs to. The machine classifies
/// nothing: it records `Custom` with an empty label, and leaves the rest to
/// those who read its snapshots.
#[derive(Clone, Debug, PartialEq, Eq)]
pub enum ValidatorPhase {
    DatumValidation,
    RedeemerValidation,
    SignerCheck,
    ValueCheck,
    TimeRangeCheck,
    Custom(String),
}

/// A transaction input, as a snapshot may summarise it.
#[derive(Clone, Debug, PartialEq, Eq)]
pub struct TxInputSummary {
    pub tx_hash: String,
    pub index: u64,
}

/// A transaction output, as a snapshot may summarise it.
#[derive(Clone, Debug, PartialEq, Eq)]
pub struct TxOutputSummary {
    pub address: String,
    pub lovelace: u64,
}

/// The transaction that a validator runs against, as a snapshot may carry
/// it.
#[derive(Clone, Debug, PartialEq, Eq)]
pub struct ScriptContextSnapshot {
    pub inputs: Vec<TxInputSummary>,
    pub outputs: Vec<TxOutputSummary>,
    pub signatories: Vec<String>,
    pub time_range: Option<(i64, i64)>,
    pub redeemer: String,
}

/// One observation of the machine: the step's number, the kind of state,
/// the text of the term or value in hand, the text of each binding of the
/// environment, the depth of the continuation, and what the run has spent
/// so far.
#[derive(Clone, Debug, PartialEq, Eq)]
pub struct StepSnapshot {
    pub step: usize,
    pub state_type: String,
    pub term: String,
    pub environment: Vec<String>,
    pub context_depth: usize,
    pub cpu: i64,
    pub mem: i64,
    pub validator_phase: ValidatorPhase,
    pub current_check: Option<String>,
    pub script_context: Option<ScriptContextSnapshot>,
}

/// The mathematical value of a [`StepSnapshot`]. `unlabelled` says that the
/// snapshot carries no classification: its phase is `Custom` with an empty
/// label, and it names no check and no transaction.
pub struct SnapshotV {
    pub step: nat,
    pub state_type: Seq<char>,
    pub term: Seq<char>,
    pub environment: Seq<Seq<char>>,
    pub context_depth: nat,
    pub cpu: int,
    pub mem: int,
    pub unlabelled: bool,
}

impl View for StepSnapshot {
    type V = SnapshotV;

    open spec fn view(&self) -> SnapshotV {
        SnapshotV {
            step: self.step as nat,
            state_type: self.state_type@,
            term: self.term@,
            environment: strings_view(self.environment@),
            context_depth: self.context_depth as nat,
            cpu: self.cpu as int,
            mem: self.mem as int,
            unlabelled: (self.validator_phase matches ValidatorPhase::Custom(label) && label@.len()
                == 0) && self.current_check is None && self.script_context is None,
        }
    }
}

/// The snapshots of a list, in order.
pub open spec fn snapshots_view(snapshots: Seq<StepSnapshot>) -> Seq<SnapshotV> {
    Seq::new(snapshots.len(), |i: int| snapshots[i]@)
}

/// The text of the binding at `index`: the index in square brackets, then
/// the text of the value's term.
pub open spec fn render_binding(index: nat, value: ValueV) -> Seq<char> {
    "["@ + decimal(index) + "] "@ + render(reify(value))
}

/// The text of each binding of `env`, most recent first.
pub open spec fn render_env(env: Seq<ValueV>) -> Seq<Seq<char>> {
    Seq::new(env.len(), |i: int| render_binding(i as nat, env[i]))
}

/// What the recorder notes of `state` as step number `step`, when the run
/// has spent `consumed`.
pub open spec fn snapshot_of(step: nat, state: StateV, consumed: BudgetV) -> SnapshotV {
    match state {
        StateV::Compute(context, env, term) => SnapshotV {
            step,
            state_type: "Compute"@,
            term: render(term),
            environment: render_env(env),
            context_depth: depth(context),
            cpu: consumed.cpu,
            mem: consumed.mem,
            unlabelled: true,
        },
        StateV::Return(context, value) => SnapshotV {
            step,
            state_type: "Return"@,
            term: render(reify(value)),
            environment: Seq::empty(),
            context_depth: depth(context),
            cpu: consumed.cpu,
            mem: consumed.mem,
            unlabelled: true,
        },
        StateV::Done(term) => SnapshotV {
            step,
            state_type: "Done"@,
            term: render(term),
            environment: Seq::empty(),
            context_depth: 0,
            cpu: consumed.cpu,
            mem: consumed.mem,
            unlabelled: true,
        },
    }
}

/// The snapshots of a run that passes through `configs` and started with the
/// budget `initial`: one for each point, numbered from zero, each with what
/// had been spent when the machine was there.
pub open spec fn snapshots_of(initial: BudgetV, configs: Seq<ConfigV>) -> Seq<SnapshotV> {
    Seq::new(
        configs.len(),
        |i: int| snapshot_of(i as nat, configs[i].state, initial.minus(configs[i].budget)),
    )
}

/// A run with its snapshots.
pub struct DebugRunV {
    pub outcome: OutcomeV,
    pub snapshots: Seq<SnapshotV>,
}

/// The recorded run of `term` by a machine that was made with the budget
/// `initial` and has `budget` left. A run that cannot pay the start-up cost
/// has no snapshot.
pub open spec fn debug_run(costs: CostTable, initial: BudgetV, budget: BudgetV, term: TermV) -> DebugRunV {
    match spend(budget, costs.machine_costs.cost(StepKind::StartUp)) {
        None => DebugRunV {
            outcome: OutcomeV { result: Err(MachineError::OutOfBudget), budget },
            snapshots: Seq::empty(),
        },
        Some(left) => {
            let configs = configs_from(costs, left, initial_state(term));
            DebugRunV {
                outcome: outcome_at(costs, configs.last()),
                snapshots: snapshots_of(initial, configs),
            }
        },
    }
}

/// The text of the term that `value` stands for.
pub fn pretty_value(value: &Value) -> (res: String)
    ensures
        res@ == render(reify(value@)),
{
    let term = value_as_term(value);
    term.to_string()
}

/// The number of frames in `context`.
pub fn count_context_depth(context: &Context) -> (res: usize)
    ensures
        res == depth(context@),
        res == 0 <==> context@ == Seq::<FrameV>::empty(),
{
    let res = context.depth();
    assert(res == 0 ==> context@ =~= Seq::<FrameV>::empty());
    res
}

/// The text of each binding of `env`, most recent first.
fn pretty_env(env: &Rc<Env>) -> (res: Vec<String>)
    ensures
        strings_view(res@) == render_env(env@),
{
    let mut out: Vec<String> = Vec::new();
    let mut current: &Env = env;
    loop
        invariant
            current@.len() + out.len() == env@.len(),
            forall|k: int| 0 <= k < current@.len() ==> current@[k] == env@[k + out.len()],
            forall|k: int| 0 <= k < out.len() ==> (#[trigger] out@[k])@ == render_binding(k as nat, env@[k]),
        decreases current@.len(),
    {
        match current {
            Env::Empty => {
                assert(strings_view(out@) =~= render_env(env@));
                return out;
            },
            Env::Bind(value, rest) => {
                assert(current@[0] == value@);
                assert forall|k: int| 0 <= k < rest@.len() implies rest@[k] == env@[k + out.len()
                    + 1] by {
                    assert(current@[k + 1] == rest@[k]);
                }
                let mut line = String::new();
                line.append("[");
                push_decimal(&mut line, out.len() as u128);
                line.append("] ");
                let term = value_as_term(value);
                push_term(&mut line, &term);
                assert(line@ =~= render_binding(out.len() as nat, value@));
                out.push(line);
                current = rest;
            },
        }
    }
}

fn unlabelled_phase() -> (res: ValidatorPhase)
    ensures
        res matches ValidatorPhase::Custom(label) && label@.len() == 0,
{
    ValidatorPhase::Custom(String::new())
}

/// What the recorder notes of `state` as step number `step`, when the run
/// has spent `budget`.
pub fn capture_snapshot(step: usize, state: &MachineState, budget: &ExBudget) -> (res: StepSnapshot)
    ensures
        res@ == snapshot_of(step as nat, state@, budget@),
{
    match state {
        MachineState::Compute(context, env, term) => StepSnapshot {
            step,
            state_type: String::from_str("Compute"),
            term: term.to_string(),
            environment: pretty_env(env),
            context_depth: count_context_depth(context),
            cpu: budget.cpu,
            mem: budget.mem,
            validator_phase: unlabelled_phase(),
            current_check: None,
            script_context: None,
        },
        MachineState::Return(context, value) => {
            let res = StepSnapshot {
                step,
                state_type: String::from_str("Return"),
                term: pretty_value(value),
                environment: Vec::new(),
                context_depth: count_context_depth(context),
                cpu: budget.cpu,
                mem: budget.mem,
                validator_phase: unlabelled_phase(),
                current_check: None,
                script_context: None,
            };
            assert(res@.environment =~= Seq::<Seq<char>>::empty());
            res
        },
        MachineState::Done(term) => {
            let res = StepSnapshot {
                step,
                state_type: String::from_str("Done"),
                term: term.to_string(),
                environment: Vec::new(),
                context_depth: 0,
                cpu: budget.cpu,
                mem: budget.mem,
                validator_phase: unlabelled_phase(),
                current_check: None,
                script_context: None,
            };
            assert(res@.environment =~= Seq::<Seq<char>>::empty());
            res
        },
    }
}

/// The result of a recorded run as mathematics: the value of the term, or
/// the error.
pub open spec fn debug_result_view(
    res: Result<(Term, Vec<StepSnapshot>), (MachineError, Vec<StepSnapshot>)>,
) -> Result<TermV, MachineError> {
    match res {
        Ok((term, _)) => Ok(term@),
        Err((error, _)) => Err(error),
    }
}

/// The snapshots that came back from a recorded run, as mathematics.
pub open spec fn debug_snapshots_view(
    res: Result<(Term, Vec<StepSnapshot>), (MachineError, Vec<StepSnapshot>)>,
) -> Seq<SnapshotV> {
    match res {
        Ok((_, snapshots)) => snapshots_view(snapshots@),
        Err((_, snapshots)) => snapshots_view(snapshots@),
    }
}

/// What `run_debug` promises of a machine with the table `costs`, made with
/// the budget `initial` and with `budget` left, that runs `term`: `res` is
/// what comes back and `left` the budget afterwards.
pub open spec fn run_debug_post(
    costs: CostTable,
    initial: BudgetV,
    budget: BudgetV,
    term: TermV,
    left: BudgetV,
    res: Result<(Term, Vec<StepSnapshot>), (MachineError, Vec<StepSnapshot>)>,
) -> bool {
    let run = debug_run(costs, initial, budget, term);
    &&& left == run.outcome.budget
    &&& debug_result_view(res) == run.outcome.result
    &&& debug_snapshots_view(res) == run.snapshots
}

impl Machine {
    /// Runs `term` as `run` does, and records a snapshot of each state
    /// before its transition and of the state that is done. The snapshots
    /// come back with the result, and with the error where the run fails.
    pub fn run_debug(&mut self, term: Term) -> (res: Result<
        (Term, Vec<StepSnapshot>),
        (MachineError, Vec<StepSnapshot>),
    >)
        ensures
            final(self).costs() == old(self).costs(),
            final(self).initial() == old(self).initial(),
            final(self).language() == old(self).language(),
            run_debug_post(
                old(self).costs(),
                old(self).initial(),
                old(self).budget(),
                term@,
                final(self).budget(),
                res,
            ),
    {
        let mut snapshots: Vec<StepSnapshot> = Vec::new();
        match self.startup() {
            Err(e) => {
                assert(snapshots_view(snapshots@) =~= Seq::<SnapshotV>::empty());
                return Err((e, snapshots));
            },
            Ok(()) => {},
        }
        let ghost costs = self.costs();
        let ghost initial = self.initial();
        let ghost all = configs_from(costs, self.budget(), initial_state(term@));
        let mut state = MachineState::Compute(Context::no_frame(), Env::empty(), term);
        proof {
            lemma_configs_start(costs, self.budget(), state@);
            assert(all.skip(0) =~= all);
        }
        loop
            invariant
                costs.wf(),
                costs == old(self).costs(),
                initial == old(self).initial(),
                self.costs() == costs,
                self.initial() == initial,
                self.language() == old(self).language(),
                debug_run(costs, initial, old(self).budget(), term@) == (DebugRunV {
                    outcome: outcome_at(costs, all.last()),
                    snapshots: snapshots_of(initial, all),
                }),
                snapshots@.len() < all.len(),
                all.skip(snapshots@.len() as int) == configs_from(costs, self.budget(), state@),
                forall|i: int|
                    0 <= i < snapshots@.len() ==> (#[trigger] snapshots@[i])@ == snapshot_of(
                        i as nat,
                        all[i].state,
                        initial.minus(all[i].budget),
                    ),
            decreases self.budget().total(), rank(state@),
        {
            let n = snapshots.len();
            let consumed = self.consumed();
            proof {
                lemma_configs_unfold(costs, self.budget(), state@);
                lemma_configs_start(costs, self.budget(), state@);
                assert(all.skip(n as int)[0] == all[n as int]);
            }
            snapshots.push(capture_snapshot(n, &state, &consumed));
            match state {
                MachineState::Done(t) => {
                    proof {
                        assert(all.skip(n as int).len() == 1);
                        assert(all.last() == all[n as int]);
                        assert(snapshots_view(snapshots@) =~= snapshots_of(initial, all));
                    }
                    return Ok((t, snapshots));
                },
                other => {
                    proof {
                        lemma_step_decreases(costs, self.budget(), other@);
                    }
                    match self.step(other) {
                        Err(e) => {
                            proof {
                                assert(all.skip(n as int).len() == 1);
                                assert(all.last() == all[n as int]);
                                assert(snapshots_view(snapshots@) =~= snapshots_of(initial, all));
                            }
                            return Err((e, snapshots));
                        },
                        Ok(next) => {
                            proof {
                                assert(all.skip(n as int).skip(1) =~= all.skip(n + 1));
                                lemma_configs_start(costs, self.budget(), next@);
                            }
                            state = next;
                        },
                    }
                },
            }
        }
    }
}

} // verus!
