//! Running a program under the standard costs and budget.

use crate::machine::cost_model::{CostModel, ExBudget, Language};
use crate::machine::debug::{debug_run, snapshots_view, StepSnapshot};
use crate::machine::driver::Machine;
use crate::machine::semantics::MachineError;
use crate::program::Program;
use vstd::prelude::*;

verus! {

/// The language version that a program of `version` is run as: the second
/// from major version 6 on, the first before.
pub open spec fn language_of(version: (nat, nat, nat)) -> Language {
    if version.0 >= 6 {
        Language::PlutusV2
    } else {
        Language::PlutusV1
    }
}

/// Runs the program with the standard cost model and the standard budget,
/// and records it. A run that succeeds gives its snapshots and what is left
/// of the budget; one that fails gives its error and its snapshots.
pub fn execute_program(program: Program) -> (res: Result<
    (Vec<StepSnapshot>, ExBudget),
    (MachineError, Vec<StepSnapshot>),
>)
    ensures
        ({
            let costs = CostModel::standard().table(language_of(program@.version));
            let budget = ExBudget::standard()@;
            let run = debug_run(costs, budget, budget, program@.term);
            match res {
                Ok((snapshots, left)) => {
                    &&& run.outcome.result is Ok
                    &&& snapshots_view(snapshots@) == run.snapshots
                    &&& left@ == run.outcome.budget
                },
                Err((error, snapshots)) => {
                    &&& run.outcome.result == Err::<crate::machine::term::TermV, MachineError>(
                        error,
                    )
                    &&& snapshots_view(snapshots@) == run.snapshots
                },
            }
        }),
{
    let language = if program.version.0 >= 6 {
        Language::PlutusV2
    } else {
        Language::PlutusV1
    };
    let mut machine = Machine::new(language, CostModel::default_model(), ExBudget::default_budget());
    match machine.run_debug(program.term) {
        Ok((_, snapshots)) => Ok((snapshots, machine.ex_budget())),
        Err(failure) => Err(failure),
    }
}

} // verus!
