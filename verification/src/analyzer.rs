//! A reading of a failed run: what the validator wanted, what it was given,
//! and what to change.
//!
//! The reading goes by the text of the last snapshot and by what that
//! snapshot carries of the transaction. It is a heuristic.

use crate::machine::debug::{ScriptContextSnapshot, StepSnapshot};
use crate::text::{contains, copy_strings, str_contains, strings_view};
use std::collections::BTreeMap;
use vstd::prelude::*;
use vstd::string::StringExecFns;

verus! {

/// Why a validator rejected.
#[derive(Clone, Debug, PartialEq, Eq)]
pub enum MismatchCause {
    /// A value is not the one that the validator wants.
    ValueMismatch { expected: String, actual: String },
    /// A signature that the validator wants is missing.
    MissingSignature { required: String },
}

/// The mathematical value of a [`MismatchCause`].
pub enum MismatchCauseV {
    ValueMismatch { expected: Seq<char>, actual: Seq<char> },
    MissingSignature { required: Seq<char> },
}

impl View for MismatchCause {
    type V = MismatchCauseV;

    open spec fn view(&self) -> MismatchCauseV {
        match self {
            MismatchCause::ValueMismatch { expected, actual } => MismatchCauseV::ValueMismatch {
                expected: expected@,
                actual: actual@,
            },
            MismatchCause::MissingSignature { required } => MismatchCauseV::MissingSignature {
                required: required@,
            },
        }
    }
}

/// What a transaction gave the validator.
#[derive(Clone, Debug, PartialEq, Eq)]
pub struct TxData {
    pub redeemer: String,
    pub datum: String,
    pub signatories: Vec<String>,
}

/// The mathematical value of a [`TxData`].
pub struct TxDataV {
    pub redeemer: Seq<char>,
    pub datum: Seq<char>,
    pub signatories: Seq<Seq<char>>,
}

impl View for TxData {
    type V = TxDataV;

    open spec fn view(&self) -> TxDataV {
        TxDataV {
            redeemer: self.redeemer@,
            datum: self.datum@,
            signatories: strings_view(self.signatories@),
        }
    }
}

/// The reading of a failed run.
#[derive(Debug)]
pub struct ValidationFailure {
    pub intent: String,
    pub provided: TxData,
    pub root_cause: MismatchCause,
    pub fix_suggestion: String,
}

/// The mathematical value of a [`ValidationFailure`].
pub struct ValidationFailureV {
    pub intent: Seq<char>,
    pub provided: TxDataV,
    pub root_cause: MismatchCauseV,
    pub fix_suggestion: Seq<char>,
}

impl View for ValidationFailure {
    type V = ValidationFailureV;

    open spec fn view(&self) -> ValidationFailureV {
        ValidationFailureV {
            intent: self.intent@,
            provided: self.provided@,
            root_cause: self.root_cause@,
            fix_suggestion: self.fix_suggestion@,
        }
    }
}

pub const INTENT_INTEGER_MATCH: &'static str = "Validator requires exact integer match";

pub const INTENT_SIGNATURE: &'static str = "Validator requires valid signature";

pub const INTENT_UNKNOWN: &'static str = "Unknown validation logic";

pub const FIX_VALUE_FROM: &'static str = "Change transaction value from ";

pub const FIX_VALUE_TO: &'static str = " to ";

pub const FIX_SIGNATURE: &'static str = "Add signature from address: ";

/// What the validator wants at a step whose term reads `term`: by the name
/// of the builtin that occurs in it, an integer to match or a signature to
/// hold.
pub open spec fn intent_of(term: Seq<char>) -> Seq<char> {
    if contains(term, "equalsInteger"@) {
        INTENT_INTEGER_MATCH@
    } else if contains(term, "verifySignature"@) {
        INTENT_SIGNATURE@
    } else {
        INTENT_UNKNOWN@
    }
}

/// The text of an optional string; empty where there is none.
pub open spec fn text_or_empty(text: Option<String>) -> Seq<char> {
    match text {
        Some(t) => t@,
        None => Seq::empty(),
    }
}

/// Why the validator rejected at a step whose term reads `term` and whose
/// current check is `check`: where the term verifies a signature, the
/// signature that the check names is missing; else the value that the check
/// names was wanted, and the term is what there was.
pub open spec fn cause_of(term: Seq<char>, check: Option<String>) -> MismatchCauseV {
    if contains(term, "verifySignature"@) {
        MismatchCauseV::MissingSignature { required: text_or_empty(check) }
    } else {
        MismatchCauseV::ValueMismatch { expected: text_or_empty(check), actual: term }
    }
}

/// What the transaction of a snapshot gave the validator: its redeemer and
/// its signatories. A snapshot records no datum; one without a transaction
/// gave nothing.
pub open spec fn provided_by(context: Option<ScriptContextSnapshot>) -> TxDataV {
    match context {
        Some(c) => TxDataV {
            redeemer: c.redeemer@,
            datum: Seq::empty(),
            signatories: strings_view(c.signatories@),
        },
        None => TxDataV { redeemer: Seq::empty(), datum: Seq::empty(), signatories: Seq::empty() },
    }
}

/// What to change so that the validator no longer rejects for `cause`.
pub open spec fn fix_for(cause: MismatchCauseV) -> Seq<char> {
    match cause {
        MismatchCauseV::ValueMismatch { expected, actual } => FIX_VALUE_FROM@ + actual
            + FIX_VALUE_TO@ + expected,
        MismatchCauseV::MissingSignature { required } => FIX_SIGNATURE@ + required,
    }
}

/// The reading of a run that failed at the step that `step` records.
pub open spec fn failure_at(step: StepSnapshot) -> ValidationFailureV {
    ValidationFailureV {
        intent: intent_of(step.term@),
        provided: provided_by(step.script_context),
        root_cause: cause_of(step.term@, step.current_check),
        fix_suggestion: fix_for(cause_of(step.term@, step.current_check)),
    }
}

/// The snapshots of a failed run, which is never without one, and the source
/// map of its program.
pub struct ValidatorAnalyzer {
    snapshots: Vec<StepSnapshot>,
    source_map: BTreeMap<u64, String>,
}

fn copy_text(text: &Option<String>) -> (res: String)
    ensures
        res@ == text_or_empty(*text),
{
    match text {
        Some(t) => t.clone(),
        None => String::new(),
    }
}

impl ValidatorAnalyzer {
    /// The snapshots that the analyzer reads.
    pub closed spec fn steps(&self) -> Seq<StepSnapshot> {
        self.snapshots@
    }

    #[verifier::type_invariant]
    pub closed spec fn wf(&self) -> bool {
        self.snapshots@.len() > 0
    }

    /// An analyzer of the run that `snapshots` records; `None` where they
    /// record no step.
    pub fn new(snapshots: Vec<StepSnapshot>, source_map: BTreeMap<u64, String>) -> (res: Option<
        ValidatorAnalyzer,
    >)
        ensures
            res is Some <==> snapshots@.len() > 0,
            res matches Some(analyzer) ==> analyzer.steps() == snapshots@ && analyzer.wf(),
    {
        if snapshots.len() == 0 {
            None
        } else {
            Some(ValidatorAnalyzer { snapshots, source_map })
        }
    }

    /// The step at which the run failed: the last one recorded.
    fn find_failing_step(&self) -> (res: &StepSnapshot)
        ensures
            self.steps().len() > 0,
            *res == self.steps().last(),
    {
        proof {
            use_type_invariant(self);
        }
        &self.snapshots[self.snapshots.len() - 1]
    }

    /// What the validator wants at `step`.
    pub fn reconstruct_intent(&self, step: &StepSnapshot) -> (res: String)
        ensures
            res@ == intent_of(step.term@),
    {
        if str_contains(step.term.as_str(), "equalsInteger") {
            String::from_str(INTENT_INTEGER_MATCH)
        } else if str_contains(step.term.as_str(), "verifySignature") {
            String::from_str(INTENT_SIGNATURE)
        } else {
            String::from_str(INTENT_UNKNOWN)
        }
    }

    /// Why the validator rejected at `step`.
    fn identify_mismatch(&self, step: &StepSnapshot) -> (res: MismatchCause)
        ensures
            res@ == cause_of(step.term@, step.current_check),
    {
        if str_contains(step.term.as_str(), "verifySignature") {
            MismatchCause::MissingSignature { required: copy_text(&step.current_check) }
        } else {
            MismatchCause::ValueMismatch {
                expected: copy_text(&step.current_check),
                actual: step.term.clone(),
            }
        }
    }

    /// What the transaction of `step` gave the validator.
    fn extract_tx_data(&self, step: &StepSnapshot) -> (res: TxData)
        ensures
            res@ == provided_by(step.script_context),
    {
        match &step.script_context {
            Some(context) => TxData {
                redeemer: context.redeemer.clone(),
                datum: String::new(),
                signatories: copy_strings(&context.signatories),
            },
            None => {
                let res = TxData {
                    redeemer: String::new(),
                    datum: String::new(),
                    signatories: Vec::new(),
                };
                assert(res@.signatories =~= Seq::<Seq<char>>::empty());
                res
            },
        }
    }

    /// What to change so that the validator no longer rejects for `cause`.
    pub fn generate_fix(&self, cause: &MismatchCause) -> (res: String)
        ensures
            res@ == fix_for(cause@),
    {
        match cause {
            MismatchCause::ValueMismatch { expected, actual } => {
                let mut text = String::from_str(FIX_VALUE_FROM);
                text.append(actual.as_str());
                text.append(FIX_VALUE_TO);
                text.append(expected.as_str());
                assert(text@ =~= fix_for(cause@));
                text
            },
            MismatchCause::MissingSignature { required } => {
                let mut text = String::from_str(FIX_SIGNATURE);
                text.append(required.as_str());
                text
            },
        }
    }

    /// The reading of the run: what the validator wanted at the step where
    /// it failed, what the transaction gave it, why it rejected, and what to
    /// change.
    pub fn analyze_failure(&self) -> (res: ValidationFailure)
        ensures
            self.steps().len() > 0,
            res@ == failure_at(self.steps().last()),
    {
        let failing_step = self.find_failing_step();
        let intent = self.reconstruct_intent(failing_step);
        let mismatch = self.identify_mismatch(failing_step);
        let fix_suggestion = self.generate_fix(&mismatch);
        ValidationFailure {
            intent,
            provided: self.extract_tx_data(failing_step),
            root_cause: mismatch,
            fix_suggestion,
        }
    }
}

} // verus!
