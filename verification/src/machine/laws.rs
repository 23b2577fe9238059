//! What holds of every run.

use crate::machine::context::depth;
use crate::machine::cost_model::{spend, BudgetV, CostTable, StepKind};
use crate::machine::debug::{
    debug_result_view, debug_run, debug_snapshots_view, run_debug_post, StepSnapshot,
};
use crate::machine::driver::{result_view, run_post};
use crate::machine::semantics::{
    configs_from, context_of, initial_state, lemma_configs_unfold, lemma_step_decreases, rank,
    step, transitions_from, MachineError, StateV,
};
use crate::machine::term::{Term, TermV};
use vstd::prelude::*;

verus! {

/// Determinism. Two recorded runs of the same term by machines with the same
/// cost table, the same initial budget and the same budget left give the
/// same result, the same snapshots, text for text, and leave the same
/// budget.
pub proof fn lemma_run_debug_deterministic(
    costs: CostTable,
    initial: BudgetV,
    budget: BudgetV,
    term: TermV,
    left_a: BudgetV,
    res_a: Result<(Term, Vec<StepSnapshot>), (MachineError, Vec<StepSnapshot>)>,
    left_b: BudgetV,
    res_b: Result<(Term, Vec<StepSnapshot>), (MachineError, Vec<StepSnapshot>)>,
)
    requires
        run_debug_post(costs, initial, budget, term, left_a, res_a),
        run_debug_post(costs, initial, budget, term, left_b, res_b),
    ensures
        debug_result_view(res_a) == debug_result_view(res_b),
        debug_snapshots_view(res_a) == debug_snapshots_view(res_b),
        left_a == left_b,
{
}

/// Non-interference. A plain run and a recorded run of the same term, from
/// the same cost table and the same budget left, give the same result and
/// leave the same budget: recording changes nothing.
pub proof fn lemma_recording_changes_nothing(
    costs: CostTable,
    initial: BudgetV,
    budget: BudgetV,
    term: TermV,
    left_plain: BudgetV,
    res_plain: Result<Term, MachineError>,
    left_recorded: BudgetV,
    res_recorded: Result<(Term, Vec<StepSnapshot>), (MachineError, Vec<StepSnapshot>)>,
)
    requires
        run_post(costs, budget, term, left_plain, res_plain),
        run_debug_post(costs, initial, budget, term, left_recorded, res_recorded),
    ensures
        result_view(res_plain) == debug_result_view(res_recorded),
        left_plain == left_recorded,
{
}

/// Along a run no counter ever rises, and from a budget without a negative
/// counter none ever goes negative.
pub proof fn lemma_budgets_fall(costs: CostTable, budget: BudgetV, state: StateV)
    requires
        costs.wf(),
    ensures
        ({
            let configs = configs_from(costs, budget, state);
            &&& forall|i: int|
                0 <= i < configs.len() ==> {
                    &&& (#[trigger] configs[i]).budget.cpu <= budget.cpu
                    &&& configs[i].budget.mem <= budget.mem
                    &&& (budget.non_negative() ==> configs[i].budget.non_negative())
                }
            &&& forall|i: int|
                0 <= i < configs.len() - 1 ==> {
                    &&& configs[i + 1].budget.cpu <= (#[trigger] configs[i]).budget.cpu
                    &&& configs[i + 1].budget.mem <= configs[i].budget.mem
                }
        }),
    decreases budget.total(), rank(state),
{
    lemma_configs_unfold(costs, budget, state);
    let configs = configs_from(costs, budget, state);
    let after = step(costs, budget, state);
    if !(state is Done) && after.next is Ok {
        lemma_step_decreases(costs, budget, state);
        let rest = configs_from(costs, after.budget, after.next->Ok_0);
        lemma_budgets_fall(costs, after.budget, after.next->Ok_0);
        lemma_configs_unfold(costs, after.budget, after.next->Ok_0);
        assert forall|i: int| 0 <= i < configs.len() implies {
            &&& (#[trigger] configs[i]).budget.cpu <= budget.cpu
            &&& configs[i].budget.mem <= budget.mem
            &&& (budget.non_negative() ==> configs[i].budget.non_negative())
        } by {
            if i > 0 {
                assert(configs[i] == rest[i - 1]);
            }
        }
        assert forall|i: int| 0 <= i < configs.len() - 1 implies {
            &&& configs[i + 1].budget.cpu <= (#[trigger] configs[i]).budget.cpu
            &&& configs[i + 1].budget.mem <= configs[i].budget.mem
        } by {
            assert(configs[i + 1] == rest[i]);
            if i > 0 {
                assert(configs[i] == rest[i - 1]);
            }
        }
    }
}

/// Budget monotonicity. In the snapshots of a recorded run, what has been
/// spent never falls from one snapshot to the next, in either counter; and
/// a run that starts without a negative counter ends without one.
pub proof fn lemma_consumption_never_falls(
    costs: CostTable,
    initial: BudgetV,
    budget: BudgetV,
    term: TermV,
)
    requires
        costs.wf(),
    ensures
        ({
            let run = debug_run(costs, initial, budget, term);
            &&& forall|i: int|
                0 <= i < run.snapshots.len() - 1 ==> {
                    &&& (#[trigger] run.snapshots[i]).cpu <= run.snapshots[i + 1].cpu
                    &&& run.snapshots[i].mem <= run.snapshots[i + 1].mem
                }
            &&& run.outcome.budget.cpu <= budget.cpu
            &&& run.outcome.budget.mem <= budget.mem
            &&& (budget.non_negative() ==> run.outcome.budget.non_negative())
        }),
{
    costs.machine_costs.lemma_wf();
    match spend(budget, costs.machine_costs.cost(StepKind::StartUp)) {
        None => {},
        Some(left) => {
            let start = initial_state(term);
            let configs = configs_from(costs, left, start);
            lemma_budgets_fall(costs, left, start);
            lemma_configs_unfold(costs, left, start);
            let last = configs.last();
            if !(last.state is Done) {
                lemma_step_decreases(costs, last.budget, last.state);
            }
            let run = debug_run(costs, initial, budget, term);
            assert forall|i: int| 0 <= i < run.snapshots.len() - 1 implies {
                &&& (#[trigger] run.snapshots[i]).cpu <= run.snapshots[i + 1].cpu
                &&& run.snapshots[i].mem <= run.snapshots[i + 1].mem
            } by {
                assert(configs[i + 1].budget.cpu <= configs[i].budget.cpu);
            }
        },
    }
}

/// A run passes through one point more than it takes transitions, and only
/// its last point can be a state that is done.
pub proof fn lemma_points_of_run(costs: CostTable, budget: BudgetV, state: StateV)
    requires
        costs.wf(),
    ensures
        ({
            let configs = configs_from(costs, budget, state);
            &&& configs.len() == transitions_from(costs, budget, state) + 1
            &&& forall|i: int| 0 <= i < configs.len() - 1 ==> !((#[trigger] configs[i]).state is Done)
        }),
    decreases budget.total(), rank(state),
{
    lemma_configs_unfold(costs, budget, state);
    let configs = configs_from(costs, budget, state);
    let after = step(costs, budget, state);
    if !(state is Done) && after.next is Ok {
        lemma_step_decreases(costs, budget, state);
        let rest = configs_from(costs, after.budget, after.next->Ok_0);
        lemma_points_of_run(costs, after.budget, after.next->Ok_0);
        assert forall|i: int| 0 <= i < configs.len() - 1 implies !((#[trigger] configs[i]).state is Done) by {
            if i > 0 {
                assert(configs[i] == rest[i - 1]);
            }
        }
    }
}

/// Snapshot count. A recorded run that pays the start-up cost has one
/// snapshot for each transition it takes and one more; a run that succeeds
/// has that last one of the state that is done, and no other of such a
/// state. A run that cannot pay the start-up cost has none.
pub proof fn lemma_snapshot_count(costs: CostTable, initial: BudgetV, budget: BudgetV, term: TermV)
    requires
        costs.wf(),
    ensures
        ({
            let run = debug_run(costs, initial, budget, term);
            match spend(budget, costs.machine_costs.cost(StepKind::StartUp)) {
                None => run.snapshots.len() == 0,
                Some(left) => {
                    let configs = configs_from(costs, left, initial_state(term));
                    &&& run.snapshots.len() == transitions_from(costs, left, initial_state(term))
                        + 1
                    &&& run.outcome.result is Ok <==> configs.last().state is Done
                    &&& forall|i: int|
                        0 <= i < run.snapshots.len() - 1 ==> !((#[trigger] configs[i]).state is Done)
                },
            }
        }),
{
    match spend(budget, costs.machine_costs.cost(StepKind::StartUp)) {
        None => {},
        Some(left) => {
            lemma_points_of_run(costs, left, initial_state(term));
        },
    }
}

/// Context depth. Each snapshot of a recorded run gives as its depth the
/// number of frames in the continuation of the state that it was taken of,
/// which is zero exactly where that continuation has no frame.
pub proof fn lemma_snapshot_depth(costs: CostTable, initial: BudgetV, budget: BudgetV, term: TermV)
    requires
        costs.wf(),
    ensures
        ({
            let run = debug_run(costs, initial, budget, term);
            match spend(budget, costs.machine_costs.cost(StepKind::StartUp)) {
                None => run.snapshots.len() == 0,
                Some(left) => {
                    let configs = configs_from(costs, left, initial_state(term));
                    &&& run.snapshots.len() == configs.len()
                    &&& forall|i: int|
                        0 <= i < configs.len() ==> {
                            &&& (#[trigger] run.snapshots[i]).context_depth == depth(
                                context_of(configs[i].state),
                            )
                            &&& (run.snapshots[i].context_depth == 0 <==> context_of(
                                configs[i].state,
                            ) =~= Seq::empty())
                            &&& run.snapshots[i].step == i
                        }
                },
            }
        }),
{
}

/// The depth of the continuation grows only where a state that evaluates
/// defers work, by one frame, and shrinks only where a state that returns
/// resolves a frame, by one frame.
pub proof fn lemma_depth_changes(costs: CostTable, budget: BudgetV, state: StateV)
    ensures
        step(costs, budget, state).next matches Ok(next) ==> {
            let before = depth(context_of(state));
            let after = depth(context_of(next));
            match state {
                StateV::Compute(_, _, _) => after == before || after == before + 1,
                StateV::Return(_, _) => after == before || after + 1 == before,
                StateV::Done(_) => after == before,
            }
        },
{
}

/// What a state can still cost in transitions beyond what its budget pays
/// for: one for each frame to resolve, and one for a value in hand.
pub open spec fn pending(state: StateV) -> nat {
    depth(context_of(state)) + if state is Return {
        1nat
    } else {
        0nat
    }
}

/// A run is bounded by its budget: from a budget without a negative counter
/// it takes at most three transitions for each unit of the budget, and as
/// many more as the state has pending.
pub proof fn lemma_run_is_bounded(costs: CostTable, budget: BudgetV, state: StateV)
    requires
        costs.wf(),
        budget.non_negative(),
    ensures
        transitions_from(costs, budget, state) <= 3 * budget.total() + pending(state),
    decreases budget.total(), rank(state),
{
    let after = step(costs, budget, state);
    if !(state is Done) && after.next is Ok {
        lemma_step_decreases(costs, budget, state);
        lemma_depth_changes(costs, budget, state);
        lemma_run_is_bounded(costs, after.budget, after.next->Ok_0);
    }
}

} // verus!
