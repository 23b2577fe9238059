use cek_debugger::machine::cost_model::{
    BuiltinCost, BuiltinCosts, CostModel, CostTable, ExBudget, Language, MachineCosts, StepKind,
};
use cek_debugger::machine::debug::StepSnapshot;
use cek_debugger::machine::driver::{Machine, MachineState};
use cek_debugger::machine::semantics::MachineError;
use cek_debugger::machine::term::{Constant, DefaultFunction, Term};
use std::rc::Rc;

fn integer(i: i128) -> Term {
    Term::Constant(Rc::new(Constant::Integer(i)))
}

fn bytes(b: &[u8]) -> Term {
    Term::Constant(Rc::new(Constant::ByteString(b.to_vec())))
}

fn boolean(b: bool) -> Term {
    Term::Constant(Rc::new(Constant::Bool(b)))
}

fn var(i: usize) -> Term {
    Term::Var(i)
}

fn lam(body: Term) -> Term {
    Term::Lambda(Rc::new(body))
}

fn apply(f: Term, a: Term) -> Term {
    Term::Apply(Rc::new(f), Rc::new(a))
}

fn delay(body: Term) -> Term {
    Term::Delay(Rc::new(body))
}

fn force(body: Term) -> Term {
    Term::Force(Rc::new(body))
}

fn constr(tag: usize, fields: Vec<Term>) -> Term {
    Term::Constr(tag, Rc::new(fields))
}

fn case(scrutinee: Term, branches: Vec<Term>) -> Term {
    Term::Case(Rc::new(scrutinee), Rc::new(branches))
}

fn builtin(fun: DefaultFunction) -> Term {
    Term::Builtin(fun)
}

fn call2(fun: DefaultFunction, a: Term, b: Term) -> Term {
    apply(apply(builtin(fun), a), b)
}

fn machine() -> Machine {
    Machine::new(Language::PlutusV3, CostModel::default(), ExBudget::default())
}

fn machine_with(budget: ExBudget) -> Machine {
    Machine::new(Language::PlutusV3, CostModel::default(), budget)
}

fn kinds(snapshots: &[StepSnapshot]) -> Vec<String> {
    snapshots.iter().map(|s| s.state_type.clone()).collect()
}

fn run(term: Term) -> Result<Term, MachineError> {
    machine().run(term)
}

#[test]
fn a_constant_runs_to_itself() {
    let mut m = machine();
    let (term, snapshots) = m.run_debug(integer(42)).unwrap();
    assert_eq!(term, integer(42));
    assert_eq!(kinds(&snapshots), vec!["Compute", "Return", "Done"]);
    assert_eq!(snapshots.iter().filter(|s| s.state_type == "Compute").count(), 1);
    assert_eq!(snapshots.iter().filter(|s| s.state_type == "Done").count(), 1);
    assert_eq!(snapshots[0].term, "(con integer 42)");
    assert_eq!(snapshots[2].term, "(con integer 42)");
    let spent = m.consumed();
    assert_eq!(spent.cpu, 100 + 16000);
    assert_eq!(spent.mem, 100 + 100);
    let left = m.ex_budget();
    assert_eq!(left.cpu, 10_000_000_000 - 16100);
    assert_eq!(left.mem, 14_000_000 - 200);
}

#[test]
fn the_identity_applied_to_five() {
    let mut m = machine();
    let program = apply(lam(var(0)), integer(5));
    let (term, snapshots) = m.run_debug(program).unwrap();
    assert_eq!(term, integer(5));
    assert_eq!(
        kinds(&snapshots),
        vec!["Compute", "Compute", "Return", "Compute", "Return", "Compute", "Return", "Done"]
    );
    let depths: Vec<usize> = snapshots.iter().map(|s| s.context_depth).collect();
    assert_eq!(depths, vec![0, 1, 1, 1, 1, 0, 0, 0]);
    // The value of the argument comes back to the frame that holds the function.
    assert_eq!(snapshots[4].state_type, "Return");
    assert_eq!(snapshots[4].term, "(con integer 5)");
    assert_eq!(snapshots[4].context_depth, 1);
    assert_eq!(snapshots[5].environment, vec!["[0] (con integer 5)".to_string()]);
}

#[test]
fn the_error_term_ends_the_run() {
    let mut m = machine();
    let (error, snapshots) = m.run_debug(Term::Error).unwrap_err();
    assert_eq!(error, MachineError::ExplicitError);
    assert_eq!(snapshots.len(), 1);
    assert_eq!(snapshots.last().unwrap().term, "(error)");
    assert!(snapshots.iter().all(|s| s.state_type != "Done"));
    assert_eq!(run(Term::Error), Err(MachineError::ExplicitError));
}

#[test]
fn a_budget_below_the_start_up_cost() {
    let mut m = machine_with(ExBudget { mem: 99, cpu: 100 });
    let (error, snapshots) = m.run_debug(integer(1)).unwrap_err();
    assert_eq!(error, MachineError::OutOfBudget);
    assert!(snapshots.is_empty());
    assert_eq!(m.ex_budget(), ExBudget { mem: 99, cpu: 100 });
    let mut n = machine_with(ExBudget { mem: 100, cpu: 99 });
    assert_eq!(n.run(integer(1)), Err(MachineError::OutOfBudget));
    assert_eq!(n.ex_budget(), ExBudget { mem: 100, cpu: 99 });
}

#[test]
fn constructor_fields_keep_their_order() {
    let cheap = integer(1);
    let costly = apply(lam(apply(lam(var(0)), var(0))), integer(2));
    let (term, _) = machine().run_debug(constr(7, vec![cheap.clone(), costly.clone()])).unwrap();
    assert_eq!(term, constr(7, vec![integer(1), integer(2)]));
    let (term, _) = machine().run_debug(constr(7, vec![costly, cheap])).unwrap();
    assert_eq!(term, constr(7, vec![integer(2), integer(1)]));
}

#[test]
fn runs_are_deterministic() {
    let program = apply(
        lam(call2(DefaultFunction::AddInteger, var(0), integer(1))),
        constr(0, vec![integer(3)]),
    );
    let first = machine().run_debug(program.clone());
    let second = machine().run_debug(program);
    assert_eq!(first, second);
    let program = call2(DefaultFunction::MultiplyInteger, integer(6), integer(7));
    let mut a = machine();
    let mut b = machine();
    assert_eq!(a.run_debug(program.clone()), b.run_debug(program));
    assert_eq!(a.ex_budget(), b.ex_budget());
}

#[test]
fn recording_changes_nothing() {
    let programs = vec![
        integer(42),
        apply(lam(var(0)), integer(5)),
        Term::Error,
        var(3),
        force(integer(1)),
        call2(DefaultFunction::AddInteger, integer(1), boolean(true)),
        case(constr(1, vec![integer(9)]), vec![lam(integer(0)), lam(var(0))]),
    ];
    for program in programs {
        let mut plain = machine();
        let mut recorded = machine();
        let a = plain.run(program.clone());
        let b = recorded.run_debug(program);
        match (a, b) {
            (Ok(x), Ok((y, _))) => assert_eq!(x, y),
            (Err(x), Err((y, _))) => assert_eq!(x, y),
            (a, b) => panic!("{:?} and {:?} differ", a, b),
        }
        assert_eq!(plain.ex_budget(), recorded.ex_budget());
    }
}

#[test]
fn consumption_never_falls() {
    let program = apply(
        lam(call2(DefaultFunction::AppendByteString, var(0), bytes(&[1, 2, 3]))),
        bytes(&[9]),
    );
    let mut m = machine();
    let (_, snapshots) = m.run_debug(program).unwrap();
    for pair in snapshots.windows(2) {
        assert!(pair[0].cpu <= pair[1].cpu);
        assert!(pair[0].mem <= pair[1].mem);
    }
    assert_eq!(snapshots[0].cpu, 100);
    assert_eq!(snapshots[0].mem, 100);
    assert!(m.ex_budget().cpu >= 0);
    assert!(m.ex_budget().mem >= 0);
    assert_eq!(snapshots.last().unwrap().cpu, m.consumed().cpu);
    assert_eq!(snapshots.last().unwrap().mem, m.consumed().mem);
}

#[test]
fn one_snapshot_more_than_transitions() {
    let program = apply(lam(constr(0, vec![var(0), var(0)])), integer(5));
    let (_, snapshots) = machine().run_debug(program.clone()).unwrap();
    let mut m = machine();
    m.startup().unwrap();
    let mut state = MachineState::Compute(
        cek_debugger::machine::context::Context::no_frame(),
        cek_debugger::machine::value::Env::empty(),
        program,
    );
    let mut transitions = 0;
    loop {
        if let MachineState::Done(_) = state {
            break;
        }
        state = m.step(state).unwrap();
        transitions += 1;
    }
    assert_eq!(snapshots.len(), transitions + 1);
    for (i, snapshot) in snapshots.iter().enumerate() {
        assert_eq!(snapshot.step, i);
    }
}

#[test]
fn depth_is_the_number_of_frames() {
    let program = force(force(delay(delay(integer(1)))));
    let mut m = machine();
    m.startup().unwrap();
    let mut state = MachineState::Compute(
        cek_debugger::machine::context::Context::no_frame(),
        cek_debugger::machine::value::Env::empty(),
        program.clone(),
    );
    let (_, snapshots) = machine().run_debug(program).unwrap();
    let mut i = 0;
    loop {
        let frames = match &state {
            MachineState::Compute(context, _, _) => context.frames.len(),
            MachineState::Return(context, _) => context.frames.len(),
            MachineState::Done(_) => 0,
        };
        assert_eq!(snapshots[i].context_depth, frames);
        if let MachineState::Done(_) = state {
            break;
        }
        state = m.step(state).unwrap();
        i += 1;
    }
    let depths: Vec<usize> = snapshots.iter().map(|s| s.context_depth).collect();
    assert_eq!(depths, vec![0, 1, 2, 2, 1, 1, 0, 0, 0]);
}

#[test]
fn unbound_variable_fails() {
    assert_eq!(run(var(0)), Err(MachineError::UnboundVariable));
    assert_eq!(run(apply(lam(var(1)), integer(1))), Err(MachineError::UnboundVariable));
    assert_eq!(run(apply(lam(var(0)), integer(1))), Ok(integer(1)));
}

#[test]
fn variable_index_counts_from_the_latest_binding() {
    let program = apply(apply(lam(lam(var(0))), integer(1)), integer(2));
    assert_eq!(run(program), Ok(integer(2)));
    let program = apply(apply(lam(lam(var(1))), integer(1)), integer(2));
    assert_eq!(run(program), Ok(integer(1)));
}

#[test]
fn stuck_states() {
    assert_eq!(run(force(integer(1))), Err(MachineError::MachineStuck));
    assert_eq!(run(force(lam(var(0)))), Err(MachineError::MachineStuck));
    assert_eq!(run(apply(integer(1), integer(2))), Err(MachineError::MachineStuck));
    assert_eq!(run(apply(delay(integer(1)), integer(2))), Err(MachineError::MachineStuck));
    assert_eq!(run(case(constr(2, vec![]), vec![integer(0), integer(1)])), Err(MachineError::MachineStuck));
    assert_eq!(run(case(integer(0), vec![integer(0)])), Err(MachineError::MachineStuck));
    assert_eq!(run(force(builtin(DefaultFunction::IfThenElse))), Err(MachineError::MachineStuck));
}

#[test]
fn delay_and_force() {
    assert_eq!(run(force(delay(integer(3)))), Ok(integer(3)));
    assert_eq!(run(delay(Term::Error)), Ok(delay(Term::Error)));
    assert_eq!(run(force(delay(Term::Error))), Err(MachineError::ExplicitError));
}

#[test]
fn case_selects_by_tag_and_binds_fields() {
    let branches = vec![integer(10), var(0), var(1)];
    assert_eq!(run(case(constr(0, vec![]), branches.clone())), Ok(integer(10)));
    assert_eq!(run(case(constr(1, vec![integer(7), integer(8)]), branches.clone())), Ok(integer(8)));
    assert_eq!(run(case(constr(2, vec![integer(7), integer(8)]), branches)), Ok(integer(7)));
}

#[test]
fn empty_constructor() {
    let (term, snapshots) = machine().run_debug(constr(3, vec![])).unwrap();
    assert_eq!(term, constr(3, vec![]));
    assert_eq!(kinds(&snapshots), vec!["Compute", "Return", "Done"]);
    assert_eq!(snapshots[2].term, "(constr 3)");
}

#[test]
fn integer_builtins() {
    assert_eq!(run(call2(DefaultFunction::AddInteger, integer(2), integer(3))), Ok(integer(5)));
    assert_eq!(run(call2(DefaultFunction::SubtractInteger, integer(2), integer(3))), Ok(integer(-1)));
    assert_eq!(run(call2(DefaultFunction::MultiplyInteger, integer(-4), integer(3))), Ok(integer(-12)));
    assert_eq!(run(call2(DefaultFunction::EqualsInteger, integer(2), integer(2))), Ok(boolean(true)));
    assert_eq!(run(call2(DefaultFunction::EqualsInteger, integer(2), integer(3))), Ok(boolean(false)));
    assert_eq!(run(call2(DefaultFunction::LessThanInteger, integer(2), integer(3))), Ok(boolean(true)));
    assert_eq!(run(call2(DefaultFunction::LessThanInteger, integer(3), integer(3))), Ok(boolean(false)));
    assert_eq!(run(call2(DefaultFunction::LessThanEqualsInteger, integer(3), integer(3))), Ok(boolean(true)));
    assert_eq!(run(call2(DefaultFunction::LessThanEqualsInteger, integer(4), integer(3))), Ok(boolean(false)));
}

#[test]
fn integer_results_beyond_range_fail() {
    assert_eq!(
        run(call2(DefaultFunction::AddInteger, integer(i128::MAX), integer(1))),
        Err(MachineError::BuiltinApplicationError)
    );
    assert_eq!(
        run(call2(DefaultFunction::SubtractInteger, integer(i128::MIN), integer(1))),
        Err(MachineError::BuiltinApplicationError)
    );
    assert_eq!(
        run(call2(DefaultFunction::MultiplyInteger, integer(i128::MAX), integer(2))),
        Err(MachineError::BuiltinApplicationError)
    );
    assert_eq!(run(call2(DefaultFunction::AddInteger, integer(i128::MAX), integer(0))), Ok(integer(i128::MAX)));
}

#[test]
fn byte_string_builtins() {
    assert_eq!(run(call2(DefaultFunction::AppendByteString, bytes(&[1, 2]), bytes(&[3]))), Ok(bytes(&[1, 2, 3])));
    assert_eq!(run(call2(DefaultFunction::AppendByteString, bytes(&[]), bytes(&[]))), Ok(bytes(&[])));
    assert_eq!(run(call2(DefaultFunction::EqualsByteString, bytes(&[1, 2]), bytes(&[1, 2]))), Ok(boolean(true)));
    assert_eq!(run(call2(DefaultFunction::EqualsByteString, bytes(&[1, 2]), bytes(&[1, 3]))), Ok(boolean(false)));
    assert_eq!(run(call2(DefaultFunction::EqualsByteString, bytes(&[1, 2]), bytes(&[1]))), Ok(boolean(false)));
    assert_eq!(run(apply(builtin(DefaultFunction::LengthOfByteString), bytes(&[5, 6, 7]))), Ok(integer(3)));
}

#[test]
fn if_then_else_picks_a_branch() {
    let pick = |c: bool| {
        apply(
            apply(apply(builtin(DefaultFunction::IfThenElse), boolean(c)), integer(1)),
            integer(2),
        )
    };
    assert_eq!(run(pick(true)), Ok(integer(1)));
    assert_eq!(run(pick(false)), Ok(integer(2)));
}

#[test]
fn builtin_with_wrong_arguments_fails() {
    assert_eq!(
        run(call2(DefaultFunction::AddInteger, integer(1), boolean(true))),
        Err(MachineError::BuiltinApplicationError)
    );
    assert_eq!(
        run(call2(DefaultFunction::AppendByteString, integer(1), bytes(&[1]))),
        Err(MachineError::BuiltinApplicationError)
    );
    assert_eq!(
        run(apply(builtin(DefaultFunction::LengthOfByteString), integer(1))),
        Err(MachineError::BuiltinApplicationError)
    );
    assert_eq!(
        run(apply(apply(apply(builtin(DefaultFunction::IfThenElse), integer(0)), integer(1)), integer(2))),
        Err(MachineError::BuiltinApplicationError)
    );
    // A builtin that has run is a value like any other: it takes no more arguments.
    assert_eq!(
        run(apply(call2(DefaultFunction::AddInteger, integer(1), integer(2)), integer(3))),
        Err(MachineError::MachineStuck)
    );
}

#[test]
fn partial_builtin_is_a_value() {
    assert_eq!(run(builtin(DefaultFunction::AddInteger)), Ok(builtin(DefaultFunction::AddInteger)));
    assert_eq!(
        run(apply(builtin(DefaultFunction::AddInteger), integer(1))),
        Ok(apply(builtin(DefaultFunction::AddInteger), integer(1)))
    );
}

#[test]
fn builtin_cost_grows_with_operand_size() {
    // Two steps of applying, one of the builtin, two of the constants, and the start-up.
    let steps_cpu = 100 + 5 * 16000;
    let steps_mem = 100 + 5 * 100;
    let mut m = machine();
    m.run(call2(DefaultFunction::AddInteger, integer(1), integer(2))).unwrap();
    assert_eq!(m.consumed().cpu, steps_cpu + 1000 + 2);
    assert_eq!(m.consumed().mem, steps_mem + 1 + 2);
    let mut m = machine();
    m.run(call2(DefaultFunction::AddInteger, integer(1 << 64), integer(2))).unwrap();
    assert_eq!(m.consumed().cpu, steps_cpu + 1000 + 3);
    assert_eq!(m.consumed().mem, steps_mem + 1 + 3);
    let mut m = machine();
    m.run(call2(DefaultFunction::AddInteger, integer(-(1 << 64)), integer((1 << 64) - 1))).unwrap();
    assert_eq!(m.consumed().cpu, steps_cpu + 1000 + 3);
    let mut m = machine();
    m.run(call2(DefaultFunction::AppendByteString, bytes(&[0; 10]), bytes(&[0; 5]))).unwrap();
    assert_eq!(m.consumed().cpu, steps_cpu + 1000 + 15);
    assert_eq!(m.consumed().mem, steps_mem + 1 + 15);
}

#[test]
fn out_of_budget_in_the_middle_of_a_run() {
    // Enough for the start-up and two steps, not for a third.
    let mut m = machine_with(ExBudget { mem: 1000, cpu: 100 + 2 * 16000 });
    let (error, snapshots) = m.run_debug(apply(lam(var(0)), integer(5))).unwrap_err();
    assert_eq!(error, MachineError::OutOfBudget);
    assert_eq!(m.ex_budget(), ExBudget { mem: 1000 - 300, cpu: 0 });
    assert_eq!(kinds(&snapshots), vec!["Compute", "Compute", "Return", "Compute"]);
    // The memory counter alone can end a run too.
    let mut m = machine_with(ExBudget { mem: 250, cpu: 1_000_000 });
    assert_eq!(m.run(apply(lam(var(0)), integer(5))), Err(MachineError::OutOfBudget));
    assert_eq!(m.ex_budget(), ExBudget { mem: 50, cpu: 1_000_000 - 16100 });
}

#[test]
fn out_of_budget_at_a_builtin_call() {
    let steps_cpu = 100 + 5 * 16000;
    let mut m = machine_with(ExBudget { mem: 10_000, cpu: steps_cpu + 1001 });
    let program = call2(DefaultFunction::AddInteger, integer(1), integer(2));
    assert_eq!(m.run(program), Err(MachineError::OutOfBudget));
    assert_eq!(m.ex_budget(), ExBudget { mem: 10_000 - 600, cpu: 1001 });
}

#[test]
fn negative_budget_cannot_start() {
    let mut m = machine_with(ExBudget { mem: -1, cpu: 1_000_000 });
    assert_eq!(m.run(integer(1)), Err(MachineError::OutOfBudget));
    assert_eq!(m.ex_budget(), ExBudget { mem: -1, cpu: 1_000_000 });
    assert_eq!(m.consumed(), ExBudget { mem: 0, cpu: 0 });
}

#[test]
fn language_selects_the_table() {
    let mut v1 = Machine::new(Language::PlutusV1, CostModel::default(), ExBudget::default());
    let mut v2 = Machine::new(Language::PlutusV2, CostModel::default(), ExBudget::default());
    let mut v3 = Machine::new(Language::PlutusV3, CostModel::default(), ExBudget::default());
    v1.run(integer(1)).unwrap();
    v2.run(integer(1)).unwrap();
    v3.run(integer(1)).unwrap();
    assert_eq!(v1.consumed().cpu, 100 + 23000);
    assert_eq!(v2.consumed().cpu, 100 + 23000);
    assert_eq!(v3.consumed().cpu, 100 + 16000);
}

#[test]
fn custom_cost_tables() {
    let startup = ExBudget { mem: 1, cpu: 2 };
    let step = ExBudget { mem: 3, cpu: 4 };
    let mut machine_costs = MachineCosts::uniform(startup, step).unwrap();
    assert!(machine_costs.set(StepKind::Constant, ExBudget { mem: 5, cpu: 0 }));
    assert!(!machine_costs.set(StepKind::Var, ExBudget { mem: 0, cpu: 0 }));
    assert!(!machine_costs.set(StepKind::Var, ExBudget { mem: -1, cpu: 5 }));
    assert!(machine_costs.set(StepKind::StartUp, ExBudget { mem: 0, cpu: 0 }));
    assert_eq!(machine_costs.get(StepKind::Constant), ExBudget { mem: 5, cpu: 0 });
    assert_eq!(machine_costs.get(StepKind::Var), step);
    assert_eq!(machine_costs.get(StepKind::StartUp), ExBudget { mem: 0, cpu: 0 });
    let flat = BuiltinCost { cpu_intercept: 7, cpu_slope: 0, mem_intercept: 0, mem_slope: 2 };
    let mut builtin_costs = BuiltinCosts::uniform(flat).unwrap();
    let dear = BuiltinCost { cpu_intercept: 1, cpu_slope: 10, mem_intercept: 1, mem_slope: 1 };
    assert!(builtin_costs.set(DefaultFunction::AddInteger, dear));
    assert_eq!(builtin_costs.get(DefaultFunction::AddInteger), dear);
    assert_eq!(builtin_costs.get(DefaultFunction::IfThenElse), flat);
    let model = CostModel::uniform(CostTable { machine_costs, builtin_costs });
    let budget = ExBudget { mem: 1000, cpu: 1000 };
    let mut m = Machine::new(Language::PlutusV1, model, budget);
    m.run(call2(DefaultFunction::AddInteger, integer(1), integer(2))).unwrap();
    // Two applications and the builtin at (3, 4); two constants at (5, 0); the call at size 2.
    assert_eq!(m.consumed(), ExBudget { mem: 3 * 3 + 2 * 5 + 1 + 2, cpu: 3 * 4 + 1 + 20 });
    let mut m = Machine::new(Language::PlutusV1, model, budget);
    m.run(call2(DefaultFunction::EqualsInteger, integer(1), integer(2))).unwrap();
    assert_eq!(m.consumed(), ExBudget { mem: 3 * 3 + 2 * 5 + 4, cpu: 3 * 4 + 7 });
}

#[test]
fn invalid_costs_are_refused() {
    let ok = ExBudget { mem: 1, cpu: 1 };
    assert!(MachineCosts::uniform(ExBudget { mem: 0, cpu: 0 }, ok).is_some());
    assert!(MachineCosts::uniform(ExBudget { mem: -1, cpu: 0 }, ok).is_none());
    assert!(MachineCosts::uniform(ok, ExBudget { mem: 0, cpu: 0 }).is_none());
    assert!(MachineCosts::uniform(ok, ExBudget { mem: 0, cpu: -1 }).is_none());
    assert!(MachineCosts::uniform(ok, ExBudget { mem: 0, cpu: 1 }).is_some());
    let bad = BuiltinCost { cpu_intercept: 0, cpu_slope: -1, mem_intercept: 0, mem_slope: 0 };
    assert!(BuiltinCosts::uniform(bad).is_none());
    let free = BuiltinCost { cpu_intercept: 0, cpu_slope: 0, mem_intercept: 0, mem_slope: 0 };
    let mut costs = BuiltinCosts::uniform(free).unwrap();
    assert!(!costs.set(DefaultFunction::AddInteger, bad));
    assert_eq!(costs.get(DefaultFunction::AddInteger), free);
}

#[test]
fn a_cost_beyond_the_counters_is_out_of_budget() {
    let step = ExBudget { mem: 1, cpu: 1 };
    let machine_costs = MachineCosts::uniform(ExBudget { mem: 0, cpu: 0 }, step).unwrap();
    let huge = BuiltinCost { cpu_intercept: i64::MAX, cpu_slope: 1, mem_intercept: 0, mem_slope: 0 };
    let builtin_costs = BuiltinCosts::uniform(huge).unwrap();
    let model = CostModel::uniform(CostTable { machine_costs, builtin_costs });
    let mut m = Machine::new(Language::PlutusV1, model, ExBudget { mem: i64::MAX, cpu: i64::MAX });
    let program = call2(DefaultFunction::AddInteger, integer(1), integer(2));
    assert_eq!(m.run(program), Err(MachineError::OutOfBudget));
    assert_eq!(m.consumed(), ExBudget { mem: 5, cpu: 5 });
}

#[test]
fn a_run_is_bounded_by_its_budget() {
    let step = ExBudget { mem: 0, cpu: 1 };
    let machine_costs = MachineCosts::uniform(ExBudget { mem: 0, cpu: 0 }, step).unwrap();
    let free = BuiltinCost { cpu_intercept: 0, cpu_slope: 0, mem_intercept: 0, mem_slope: 0 };
    let builtin_costs = BuiltinCosts::uniform(free).unwrap();
    let model = CostModel::uniform(CostTable { machine_costs, builtin_costs });
    // A term that applies itself to itself runs for as long as it is paid for.
    let omega = lam(apply(var(0), var(0)));
    let program = apply(omega.clone(), omega);
    for budget in [0i64, 1, 2, 5, 40] {
        let mut m = Machine::new(Language::PlutusV1, model, ExBudget { mem: 0, cpu: budget });
        let (error, snapshots) = m.run_debug(program.clone()).unwrap_err();
        assert_eq!(error, MachineError::OutOfBudget);
        assert_eq!(m.ex_budget(), ExBudget { mem: 0, cpu: 0 });
        let transitions = snapshots.len() - 1;
        assert!(transitions as i64 <= 3 * budget);
        assert!(transitions as i64 >= budget);
    }
}

#[test]
fn a_run_continues_from_what_is_left() {
    let mut m = machine();
    m.run(integer(1)).unwrap();
    m.run(integer(2)).unwrap();
    assert_eq!(m.consumed().cpu, 2 * 16100);
    assert_eq!(m.initial_budget(), ExBudget::default());
}

#[test]
fn a_closure_is_reified_with_its_environment() {
    let program = apply(lam(lam(var(1))), integer(5));
    assert_eq!(run(program), Ok(lam(integer(5))));
    let program = apply(lam(lam(var(0))), integer(5));
    assert_eq!(run(program), Ok(lam(var(0))));
    let program = apply(lam(delay(constr(0, vec![var(0), var(1)]))), integer(5));
    assert_eq!(run(program), Ok(delay(constr(0, vec![integer(5), var(1)]))));
    let program = apply(lam(lam(lam(apply(var(2), var(0))))), bytes(&[255]));
    assert_eq!(run(program), Ok(lam(lam(apply(bytes(&[255]), var(0))))));
}
