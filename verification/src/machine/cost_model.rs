//! Budgets and the tables that price each machine step and each builtin.

use crate::machine::term::DefaultFunction;
use vstd::prelude::*;

verus! {

/// An amount of the two metered resources: memory units and computation
/// units. A machine holds one as what is left to spend; a cost table holds
/// one per priced step.
#[derive(Clone, Copy, Debug, PartialEq, Eq, Structural)]
pub struct ExBudget {
    pub mem: i64,
    pub cpu: i64,
}

/// The mathematical value of an [`ExBudget`], and the type of costs that may
/// exceed what the counters can hold.
pub struct BudgetV {
    pub cpu: int,
    pub mem: int,
}

impl View for ExBudget {
    type V = BudgetV;

    open spec fn view(&self) -> BudgetV {
        BudgetV { cpu: self.cpu as int, mem: self.mem as int }
    }
}

impl BudgetV {
    /// Both amounts of `cost` can be deducted without a counter going
    /// negative.
    pub open spec fn covers(self, cost: BudgetV) -> bool {
        cost.cpu <= self.cpu && cost.mem <= self.mem
    }

    pub open spec fn minus(self, cost: BudgetV) -> BudgetV {
        BudgetV { cpu: self.cpu - cost.cpu, mem: self.mem - cost.mem }
    }

    /// The two counters added up.
    pub open spec fn total(self) -> int {
        self.cpu + self.mem
    }

    pub open spec fn non_negative(self) -> bool {
        self.cpu >= 0 && self.mem >= 0
    }
}

/// Spending is atomic: both amounts are deducted, or, where either counter
/// would go negative, nothing is.
pub open spec fn spend(budget: BudgetV, cost: BudgetV) -> Option<BudgetV> {
    if budget.covers(cost) {
        Some(budget.minus(cost))
    } else {
        None
    }
}

impl ExBudget {
    /// The budget of a run that is given none of its own.
    pub open spec fn standard() -> ExBudget {
        ExBudget { mem: 14_000_000, cpu: 10_000_000_000 }
    }

    /// The budget of a run that is given none of its own.
    pub fn default_budget() -> (res: ExBudget)
        ensures
            res == ExBudget::standard(),
    {
        ExBudget { mem: 14_000_000, cpu: 10_000_000_000 }
    }
}

impl Default for ExBudget {
    fn default() -> (res: ExBudget)
        ensures
            res == ExBudget::standard(),
    {
        ExBudget::default_budget()
    }
}

/// The language version of a program, which selects the cost table that
/// prices its run.
#[derive(Clone, Copy, Debug, PartialEq, Eq, Structural)]
pub enum Language {
    PlutusV1,
    PlutusV2,
    PlutusV3,
}

/// The kinds of machine step that a cost table prices.
#[derive(Clone, Copy, Debug, PartialEq, Eq, Structural)]
pub enum StepKind {
    StartUp,
    Var,
    Lambda,
    Apply,
    Delay,
    Force,
    Constant,
    Builtin,
    Constr,
    Case,
}

/// A start-up cost is valid when neither amount is negative.
pub open spec fn valid_startup_cost(cost: BudgetV) -> bool {
    cost.non_negative()
}

/// A step cost is valid when neither amount is negative and the step costs
/// at least one unit: a run is bounded by its budget alone.
pub open spec fn valid_step_cost(cost: BudgetV) -> bool {
    cost.non_negative() && cost.total() >= 1
}

/// The fixed cost of each kind of machine step.
#[derive(Clone, Copy, Debug, PartialEq, Eq)]
pub struct MachineCosts {
    startup: ExBudget,
    var: ExBudget,
    lambda: ExBudget,
    apply: ExBudget,
    delay: ExBudget,
    force: ExBudget,
    constant: ExBudget,
    builtin: ExBudget,
    constr: ExBudget,
    case: ExBudget,
}

impl MachineCosts {
    /// The cost that the table gives for `kind`.
    pub closed spec fn cost(self, kind: StepKind) -> BudgetV {
        match kind {
            StepKind::StartUp => self.startup@,
            StepKind::Var => self.var@,
            StepKind::Lambda => self.lambda@,
            StepKind::Apply => self.apply@,
            StepKind::Delay => self.delay@,
            StepKind::Force => self.force@,
            StepKind::Constant => self.constant@,
            StepKind::Builtin => self.builtin@,
            StepKind::Constr => self.constr@,
            StepKind::Case => self.case@,
        }
    }

    /// Every cost in the table is valid for its kind.
    #[verifier::type_invariant]
    pub closed spec fn wf(self) -> bool {
        &&& valid_startup_cost(self.startup@)
        &&& valid_step_cost(self.var@)
        &&& valid_step_cost(self.lambda@)
        &&& valid_step_cost(self.apply@)
        &&& valid_step_cost(self.delay@)
        &&& valid_step_cost(self.force@)
        &&& valid_step_cost(self.constant@)
        &&& valid_step_cost(self.builtin@)
        &&& valid_step_cost(self.constr@)
        &&& valid_step_cost(self.case@)
    }

    /// What a well-formed table gives for each kind.
    pub proof fn lemma_wf(self)
        requires
            self.wf(),
        ensures
            valid_startup_cost(self.cost(StepKind::StartUp)),
            forall|kind: StepKind|
                kind != StepKind::StartUp ==> valid_step_cost(#[trigger] self.cost(kind)),
    {
    }

    /// A table that gives `startup` for start-up and `step` for every other
    /// kind, or `None` where either is not valid.
    pub fn uniform(startup: ExBudget, step: ExBudget) -> (res: Option<MachineCosts>)
        ensures
            res is Some <==> valid_startup_cost(startup@) && valid_step_cost(step@),
            res matches Some(costs) ==> costs.wf() && forall|kind: StepKind|
                #[trigger] costs.cost(kind) == if kind == StepKind::StartUp {
                    startup@
                } else {
                    step@
                },
    {
        if startup.cpu < 0 || startup.mem < 0 || step.cpu < 0 || step.mem < 0 || (step.cpu == 0
            && step.mem == 0) {
            return None;
        }
        Some(
            MachineCosts {
                startup,
                var: step,
                lambda: step,
                apply: step,
                delay: step,
                force: step,
                constant: step,
                builtin: step,
                constr: step,
                case: step,
            },
        )
    }

    /// Replaces the cost of one kind. Returns `false`, and changes nothing,
    /// where `cost` is not valid for `kind`.
    pub fn set(&mut self, kind: StepKind, cost: ExBudget) -> (res: bool)
        ensures
            res <==> if kind == StepKind::StartUp {
                valid_startup_cost(cost@)
            } else {
                valid_step_cost(cost@)
            },
            !res ==> *final(self) == *old(self),
            res ==> forall|other: StepKind|
                #[trigger] final(self).cost(other) == if other == kind {
                    cost@
                } else {
                    old(self).cost(other)
                },
    {
        proof {
            use_type_invariant(&*self);
        }
        if cost.cpu < 0 || cost.mem < 0 {
            return false;
        }
        match kind {
            StepKind::StartUp => {
                self.startup = cost;
                true
            },
            _ => {
                if cost.cpu == 0 && cost.mem == 0 {
                    return false;
                }
                match kind {
                    StepKind::StartUp => {},
                    StepKind::Var => {
                        self.var = cost;
                    },
                    StepKind::Lambda => {
                        self.lambda = cost;
                    },
                    StepKind::Apply => {
                        self.apply = cost;
                    },
                    StepKind::Delay => {
                        self.delay = cost;
                    },
                    StepKind::Force => {
                        self.force = cost;
                    },
                    StepKind::Constant => {
                        self.constant = cost;
                    },
                    StepKind::Builtin => {
                        self.builtin = cost;
                    },
                    StepKind::Constr => {
                        self.constr = cost;
                    },
                    StepKind::Case => {
                        self.case = cost;
                    },
                }
                true
            },
        }
    }

    /// The cost of one step of `kind`.
    pub fn get(&self, kind: StepKind) -> (res: ExBudget)
        ensures
            res@ == self.cost(kind),
            self.wf(),
    {
        proof {
            use_type_invariant(self);
        }
        match kind {
            StepKind::StartUp => self.startup,
            StepKind::Var => self.var,
            StepKind::Lambda => self.lambda,
            StepKind::Apply => self.apply,
            StepKind::Delay => self.delay,
            StepKind::Force => self.force,
            StepKind::Constant => self.constant,
            StepKind::Builtin => self.builtin,
            StepKind::Constr => self.constr,
            StepKind::Case => self.case,
        }
    }
}

/// The cost of one builtin as a function of the size of its operands: for
/// each counter an intercept and a slope.
#[derive(Clone, Copy, Debug, PartialEq, Eq, Structural)]
pub struct BuiltinCost {
    pub cpu_intercept: i64,
    pub cpu_slope: i64,
    pub mem_intercept: i64,
    pub mem_slope: i64,
}

impl BuiltinCost {
    /// No parameter is negative.
    pub open spec fn valid(self) -> bool {
        self.cpu_intercept >= 0 && self.cpu_slope >= 0 && self.mem_intercept >= 0 && self.mem_slope
            >= 0
    }

    /// The cost for operands of total size `size`.
    pub open spec fn at(self, size: nat) -> BudgetV {
        BudgetV {
            cpu: self.cpu_intercept + self.cpu_slope * size,
            mem: self.mem_intercept + self.mem_slope * size,
        }
    }

    fn is_valid(&self) -> (res: bool)
        ensures
            res == self.valid(),
    {
        self.cpu_intercept >= 0 && self.cpu_slope >= 0 && self.mem_intercept >= 0 && self.mem_slope
            >= 0
    }
}

/// The cost function of each builtin.
#[derive(Clone, Copy, Debug, PartialEq, Eq)]
pub struct BuiltinCosts {
    add_integer: BuiltinCost,
    subtract_integer: BuiltinCost,
    multiply_integer: BuiltinCost,
    equals_integer: BuiltinCost,
    less_than_integer: BuiltinCost,
    less_than_equals_integer: BuiltinCost,
    append_byte_string: BuiltinCost,
    equals_byte_string: BuiltinCost,
    length_of_byte_string: BuiltinCost,
    if_then_else: BuiltinCost,
}

impl BuiltinCosts {
    /// The cost function that the table gives for `fun`.
    pub closed spec fn cost(self, fun: DefaultFunction) -> BuiltinCost {
        match fun {
            DefaultFunction::AddInteger => self.add_integer,
            DefaultFunction::SubtractInteger => self.subtract_integer,
            DefaultFunction::MultiplyInteger => self.multiply_integer,
            DefaultFunction::EqualsInteger => self.equals_integer,
            DefaultFunction::LessThanInteger => self.less_than_integer,
            DefaultFunction::LessThanEqualsInteger => self.less_than_equals_integer,
            DefaultFunction::AppendByteString => self.append_byte_string,
            DefaultFunction::EqualsByteString => self.equals_byte_string,
            DefaultFunction::LengthOfByteString => self.length_of_byte_string,
            DefaultFunction::IfThenElse => self.if_then_else,
        }
    }

    /// Every cost function in the table is valid.
    #[verifier::type_invariant]
    pub closed spec fn wf(self) -> bool {
        &&& self.add_integer.valid()
        &&& self.subtract_integer.valid()
        &&& self.multiply_integer.valid()
        &&& self.equals_integer.valid()
        &&& self.less_than_integer.valid()
        &&& self.less_than_equals_integer.valid()
        &&& self.append_byte_string.valid()
        &&& self.equals_byte_string.valid()
        &&& self.length_of_byte_string.valid()
        &&& self.if_then_else.valid()
    }

    /// What a well-formed table gives for each builtin.
    pub proof fn lemma_wf(self)
        requires
            self.wf(),
        ensures
            forall|fun: DefaultFunction| (#[trigger] self.cost(fun)).valid(),
    {
    }

    /// A table that gives `cost` for every builtin, or `None` where `cost`
    /// is not valid.
    pub fn uniform(cost: BuiltinCost) -> (res: Option<BuiltinCosts>)
        ensures
            res is Some <==> cost.valid(),
            res matches Some(costs) ==> costs.wf() && forall|fun: DefaultFunction|
                #[trigger] costs.cost(fun) == cost,
    {
        if !cost.is_valid() {
            return None;
        }
        Some(
            BuiltinCosts {
                add_integer: cost,
                subtract_integer: cost,
                multiply_integer: cost,
                equals_integer: cost,
                less_than_integer: cost,
                less_than_equals_integer: cost,
                append_byte_string: cost,
                equals_byte_string: cost,
                length_of_byte_string: cost,
                if_then_else: cost,
            },
        )
    }

    /// Replaces the cost function of one builtin. Returns `false`, and
    /// changes nothing, where `cost` is not valid.
    pub fn set(&mut self, fun: DefaultFunction, cost: BuiltinCost) -> (res: bool)
        ensures
            res <==> cost.valid(),
            !res ==> *final(self) == *old(self),
            res ==> forall|other: DefaultFunction|
                #[trigger] final(self).cost(other) == if other == fun {
                    cost
                } else {
                    old(self).cost(other)
                },
    {
        proof {
            use_type_invariant(&*self);
        }
        if !cost.is_valid() {
            return false;
        }
        match fun {
            DefaultFunction::AddInteger => {
                self.add_integer = cost;
            },
            DefaultFunction::SubtractInteger => {
                self.subtract_integer = cost;
            },
            DefaultFunction::MultiplyInteger => {
                self.multiply_integer = cost;
            },
            DefaultFunction::EqualsInteger => {
                self.equals_integer = cost;
            },
            DefaultFunction::LessThanInteger => {
                self.less_than_integer = cost;
            },
            DefaultFunction::LessThanEqualsInteger => {
                self.less_than_equals_integer = cost;
            },
            DefaultFunction::AppendByteString => {
                self.append_byte_string = cost;
            },
            DefaultFunction::EqualsByteString => {
                self.equals_byte_string = cost;
            },
            DefaultFunction::LengthOfByteString => {
                self.length_of_byte_string = cost;
            },
            DefaultFunction::IfThenElse => {
                self.if_then_else = cost;
            },
        }
        true
    }

    /// The cost function of `fun`.
    pub fn get(&self, fun: DefaultFunction) -> (res: BuiltinCost)
        ensures
            res == self.cost(fun),
            self.wf(),
    {
        proof {
            use_type_invariant(self);
        }
        match fun {
            DefaultFunction::AddInteger => self.add_integer,
            DefaultFunction::SubtractInteger => self.subtract_integer,
            DefaultFunction::MultiplyInteger => self.multiply_integer,
            DefaultFunction::EqualsInteger => self.equals_integer,
            DefaultFunction::LessThanInteger => self.less_than_integer,
            DefaultFunction::LessThanEqualsInteger => self.less_than_equals_integer,
            DefaultFunction::AppendByteString => self.append_byte_string,
            DefaultFunction::EqualsByteString => self.equals_byte_string,
            DefaultFunction::LengthOfByteString => self.length_of_byte_string,
            DefaultFunction::IfThenElse => self.if_then_else,
        }
    }
}

/// The prices of one language version: machine steps and builtins.
#[derive(Clone, Copy, Debug, PartialEq, Eq)]
pub struct CostTable {
    pub machine_costs: MachineCosts,
    pub builtin_costs: BuiltinCosts,
}

impl CostTable {
    pub open spec fn wf(self) -> bool {
        self.machine_costs.wf() && self.builtin_costs.wf()
    }

    /// The table in which a step costs 100 memory units and `step_cpu`
    /// computation units, start-up costs 100 of each, and a builtin costs
    /// `builtin_cpu` computation units and one memory unit, plus one of each
    /// per unit of operand size.
    pub closed spec fn standard_table(step_cpu: i64, builtin_cpu: i64) -> CostTable {
        let startup = ExBudget { mem: 100, cpu: 100 };
        let step = ExBudget { mem: 100, cpu: step_cpu };
        let cost = BuiltinCost {
            cpu_intercept: builtin_cpu,
            cpu_slope: 1,
            mem_intercept: 1,
            mem_slope: 1,
        };
        CostTable {
            machine_costs: MachineCosts {
                startup,
                var: step,
                lambda: step,
                apply: step,
                delay: step,
                force: step,
                constant: step,
                builtin: step,
                constr: step,
                case: step,
            },
            builtin_costs: BuiltinCosts {
                add_integer: cost,
                subtract_integer: cost,
                multiply_integer: cost,
                equals_integer: cost,
                less_than_integer: cost,
                less_than_equals_integer: cost,
                append_byte_string: cost,
                equals_byte_string: cost,
                length_of_byte_string: cost,
                if_then_else: cost,
            },
        }
    }

    /// What the standard table gives for each step and each builtin.
    pub proof fn lemma_standard_table(step_cpu: i64, builtin_cpu: i64)
        requires
            step_cpu >= 0,
            builtin_cpu >= 0,
        ensures
            ({
                let table = CostTable::standard_table(step_cpu, builtin_cpu);
                &&& table.wf()
                &&& forall|kind: StepKind|
                    #[trigger] table.machine_costs.cost(kind) == (if kind == StepKind::StartUp {
                        BudgetV { cpu: 100, mem: 100 }
                    } else {
                        BudgetV { cpu: step_cpu as int, mem: 100 }
                    })
                &&& forall|fun: DefaultFunction|
                    #[trigger] table.builtin_costs.cost(fun) == (BuiltinCost {
                        cpu_intercept: builtin_cpu,
                        cpu_slope: 1,
                        mem_intercept: 1,
                        mem_slope: 1,
                    })
            }),
    {
    }

    fn standard(step_cpu: i64, builtin_cpu: i64) -> (res: CostTable)
        requires
            step_cpu >= 0,
            builtin_cpu >= 0,
        ensures
            res == CostTable::standard_table(step_cpu, builtin_cpu),
    {
        let startup = ExBudget { mem: 100, cpu: 100 };
        let step = ExBudget { mem: 100, cpu: step_cpu };
        let cost = BuiltinCost {
            cpu_intercept: builtin_cpu,
            cpu_slope: 1,
            mem_intercept: 1,
            mem_slope: 1,
        };
        CostTable {
            machine_costs: MachineCosts {
                startup,
                var: step,
                lambda: step,
                apply: step,
                delay: step,
                force: step,
                constant: step,
                builtin: step,
                constr: step,
                case: step,
            },
            builtin_costs: BuiltinCosts {
                add_integer: cost,
                subtract_integer: cost,
                multiply_integer: cost,
                equals_integer: cost,
                less_than_integer: cost,
                less_than_equals_integer: cost,
                append_byte_string: cost,
                equals_byte_string: cost,
                length_of_byte_string: cost,
                if_then_else: cost,
            },
        }
    }
}

/// One cost table for each language version.
#[derive(Clone, Copy, Debug, PartialEq, Eq)]
pub struct CostModel {
    pub v1: CostTable,
    pub v2: CostTable,
    pub v3: CostTable,
}

impl CostModel {
    /// The table that prices programs of `language`.
    pub open spec fn table(self, language: Language) -> CostTable {
        match language {
            Language::PlutusV1 => self.v1,
            Language::PlutusV2 => self.v2,
            Language::PlutusV3 => self.v3,
        }
    }

    /// The model that prices every language version by `table`.
    pub fn uniform(table: CostTable) -> (res: CostModel)
        ensures
            res == (CostModel { v1: table, v2: table, v3: table }),
    {
        CostModel { v1: table, v2: table, v3: table }
    }

    /// The table that prices programs of `language`.
    pub fn select(&self, language: Language) -> (res: CostTable)
        ensures
            res == self.table(language),
            res.wf(),
    {
        let table = match language {
            Language::PlutusV1 => self.v1,
            Language::PlutusV2 => self.v2,
            Language::PlutusV3 => self.v3,
        };
        proof {
            use_type_invariant(&table.machine_costs);
            use_type_invariant(&table.builtin_costs);
        }
        table
    }

    /// The model of a run that is given none of its own: a machine step
    /// costs 23000 computation units under the first two language versions
    /// and 16000 under the third, and a builtin 1000.
    pub open spec fn standard() -> CostModel {
        CostModel {
            v1: CostTable::standard_table(23000, 1000),
            v2: CostTable::standard_table(23000, 1000),
            v3: CostTable::standard_table(16000, 1000),
        }
    }

    /// The model of a run that is given none of its own.
    pub fn default_model() -> (res: CostModel)
        ensures
            res == CostModel::standard(),
    {
        CostModel {
            v1: CostTable::standard(23000, 1000),
            v2: CostTable::standard(23000, 1000),
            v3: CostTable::standard(16000, 1000),
        }
    }
}

impl Default for CostModel {
    fn default() -> (res: CostModel)
        ensures
            res == CostModel::standard(),
    {
        CostModel::default_model()
    }
}

} // verus!
