use cek_debugger::analyzer::{MismatchCause, TxData, ValidationFailure, ValidatorAnalyzer};
use cek_debugger::frames::Frame;
use cek_debugger::machine::cost_model::ExBudget;
use cek_debugger::machine::debug::{capture_snapshot, ScriptContextSnapshot, StepSnapshot};
use cek_debugger::machine::driver::MachineState;
use cek_debugger::machine::term::Term;
use cek_debugger::reporter::{
    extract_failing_term, find_source_location, format_failure_reason, FailureReport,
};
use std::collections::BTreeMap;

fn snapshot(term: &str) -> StepSnapshot {
    let mut s = capture_snapshot(0, &MachineState::Done(Term::Error), &ExBudget { mem: 0, cpu: 0 });
    s.term = term.to_string();
    s
}

fn frame(term: &str, location: Option<&str>) -> Frame {
    Frame {
        step: 0,
        state_type: "Compute".to_string(),
        term: term.to_string(),
        environment: vec![],
        context_depth: 0,
        cpu: 0,
        mem: 0,
        source_location: location.map(|l| l.to_string()),
    }
}

fn analyzer(snapshots: Vec<StepSnapshot>) -> ValidatorAnalyzer {
    ValidatorAnalyzer::new(snapshots, BTreeMap::new()).unwrap()
}

#[test]
fn an_analyzer_needs_a_step() {
    assert!(ValidatorAnalyzer::new(vec![], BTreeMap::new()).is_none());
    assert!(ValidatorAnalyzer::new(vec![snapshot("x")], BTreeMap::new()).is_some());
}

#[test]
fn intent_by_the_builtin_in_the_term() {
    let a = analyzer(vec![snapshot("x")]);
    assert_eq!(
        a.reconstruct_intent(&snapshot("[(builtin equalsInteger) a b]")),
        "Validator requires exact integer match"
    );
    assert_eq!(
        a.reconstruct_intent(&snapshot("(builtin verifySignature)")),
        "Validator requires valid signature"
    );
    assert_eq!(
        a.reconstruct_intent(&snapshot("verifySignature equalsInteger")),
        "Validator requires exact integer match"
    );
    assert_eq!(a.reconstruct_intent(&snapshot("equalsinteger")), "Unknown validation logic");
    assert_eq!(a.reconstruct_intent(&snapshot("")), "Unknown validation logic");
}

#[test]
fn fix_by_the_cause() {
    let a = analyzer(vec![snapshot("x")]);
    let cause = MismatchCause::ValueMismatch { expected: "100".to_string(), actual: "50".to_string() };
    assert_eq!(a.generate_fix(&cause), "Change transaction value from 50 to 100");
    let cause = MismatchCause::MissingSignature { required: "addr1xyz".to_string() };
    assert_eq!(a.generate_fix(&cause), "Add signature from address: addr1xyz");
}

#[test]
fn the_last_step_is_the_one_that_failed() {
    let mut last = snapshot("[(builtin verifySignature) k m s]");
    last.current_check = Some("addr1owner".to_string());
    last.script_context = Some(ScriptContextSnapshot {
        inputs: vec![],
        outputs: vec![],
        signatories: vec!["addr1other".to_string()],
        time_range: None,
        redeemer: "Unit".to_string(),
    });
    let failure = analyzer(vec![snapshot("[(builtin equalsInteger) a b]"), last]).analyze_failure();
    assert_eq!(failure.intent, "Validator requires valid signature");
    assert_eq!(
        failure.root_cause,
        MismatchCause::MissingSignature { required: "addr1owner".to_string() }
    );
    assert_eq!(failure.fix_suggestion, "Add signature from address: addr1owner");
    assert_eq!(
        failure.provided,
        TxData {
            redeemer: "Unit".to_string(),
            datum: String::new(),
            signatories: vec!["addr1other".to_string()],
        }
    );
}

#[test]
fn a_step_without_a_transaction() {
    let failure = analyzer(vec![snapshot("[(builtin equalsInteger) a b]")]).analyze_failure();
    assert_eq!(failure.intent, "Validator requires exact integer match");
    assert_eq!(
        failure.root_cause,
        MismatchCause::ValueMismatch {
            expected: String::new(),
            actual: "[(builtin equalsInteger) a b]".to_string(),
        }
    );
    assert_eq!(
        failure.fix_suggestion,
        "Change transaction value from [(builtin equalsInteger) a b] to "
    );
    assert_eq!(
        failure.provided,
        TxData { redeemer: String::new(), datum: String::new(), signatories: vec![] }
    );
}

#[test]
fn reason_term_and_place() {
    let cause = MismatchCause::ValueMismatch { expected: "100".to_string(), actual: "50".to_string() };
    assert_eq!(format_failure_reason(&cause), "Expected 100 but found 50");
    let cause = MismatchCause::MissingSignature { required: "addr1xyz".to_string() };
    assert_eq!(format_failure_reason(&cause), "Missing required signature: addr1xyz");
    assert_eq!(extract_failing_term(&vec![]), "");
    assert_eq!(extract_failing_term(&vec![frame("a", None), frame("b", None)]), "b");
    assert!(find_source_location(&vec![]).is_none());
    assert!(find_source_location(&vec![frame("a", Some("x.ak:1")), frame("b", None)]).is_none());
    let snippet = find_source_location(&vec![frame("b", Some("validators/vesting.ak:23"))]).unwrap();
    assert_eq!(snippet.source_file, "validators/vesting.ak");
    assert_eq!(snippet.line_number, 23);
    assert_eq!(snippet.code, "b");
    assert_eq!(snippet.highlight, "This step failed");
    let snippet = find_source_location(&vec![frame("b", Some("12:validators/foo.ak"))]).unwrap();
    assert_eq!(snippet.source_file, "12");
    assert_eq!(snippet.line_number, 0);
    let snippet = find_source_location(&vec![frame("b", Some("a:7:9"))]).unwrap();
    assert_eq!(snippet.source_file, "a");
    assert_eq!(snippet.line_number, 0);
    let snippet = find_source_location(&vec![frame("b", Some("plain"))]).unwrap();
    assert_eq!(snippet.source_file, "plain");
    assert_eq!(snippet.line_number, 0);
    let snippet = find_source_location(&vec![frame("b", Some(":5"))]).unwrap();
    assert_eq!(snippet.source_file, "");
    assert_eq!(snippet.line_number, 5);
}

#[test]
fn lines_of_a_fix() {
    let fix_of = |text: &str| {
        let failure = ValidationFailure { fix_suggestion: text.to_string(), ..failure() };
        FailureReport::generate(&vec![], failure).how_to_fix
    };
    assert!(fix_of("").is_empty());
    assert_eq!(fix_of("one"), vec!["one"]);
    assert_eq!(fix_of("one\n"), vec!["one"]);
    assert_eq!(fix_of("one\ntwo"), vec!["one", "two"]);
    assert_eq!(fix_of("one\r\ntwo\r\n"), vec!["one", "two"]);
    assert_eq!(fix_of("\n"), vec![""]);
    assert_eq!(fix_of("one\n\ntwo"), vec!["one", "", "two"]);
    assert_eq!(fix_of("one\rtwo"), vec!["one\rtwo"]);
    assert_eq!(fix_of("one\r"), vec!["one\r"]);
    assert_eq!(fix_of("one\r\r\n"), vec!["one\r"]);
    assert_eq!(fix_of("\r\n\r"), vec!["", "\r"]);
}

#[test]
fn line_numbers_of_places() {
    let line_of = |location: &str| {
        find_source_location(&vec![frame("t", Some(location))]).unwrap().line_number
    };
    assert_eq!(line_of("a.ak:0"), 0);
    assert_eq!(line_of("a.ak:23"), 23);
    assert_eq!(line_of("a.ak:+23"), 23);
    assert_eq!(line_of("a.ak:0023"), 23);
    assert_eq!(line_of("a.ak:18446744073709551615"), usize::MAX);
    assert_eq!(line_of("a.ak:18446744073709551616"), 0);
    assert_eq!(line_of("a.ak:-1"), 0);
    assert_eq!(line_of("a.ak:+"), 0);
    assert_eq!(line_of("a.ak:++1"), 0);
    assert_eq!(line_of("a.ak: 23"), 0);
    assert_eq!(line_of("a.ak:23 "), 0);
    assert_eq!(line_of("a.ak:2_3"), 0);
    assert_eq!(line_of("a.ak:٢٣"), 0);
    assert_eq!(line_of("a.ak:"), 0);
}

fn failure() -> ValidationFailure {
    ValidationFailure {
        intent: "Validator requires valid signature".to_string(),
        provided: TxData {
            redeemer: "Unit".to_string(),
            datum: "42".to_string(),
            signatories: vec!["addr\"1".to_string(), "addr2".to_string()],
        },
        root_cause: MismatchCause::MissingSignature { required: "owner".to_string() },
        fix_suggestion: "Sign it\r\nSend it again\n".to_string(),
    }
}

#[test]
fn a_report_of_a_failure() {
    let frames = vec![frame("first", None), frame("last", Some("v.ak:3"))];
    let report = FailureReport::generate(&frames, failure());
    assert_eq!(report.validator_intent, "Validator requires valid signature");
    assert_eq!(
        report.transaction_provided,
        vec!["Redeemer: Unit", "Datum: 42", "Signatories: [\"addr\\\"1\", \"addr2\"]"]
    );
    assert_eq!(report.failure_reason, "Missing required signature: owner");
    assert_eq!(report.technical_root_cause, "last");
    assert_eq!(report.how_to_fix, vec!["Sign it", "Send it again"]);
    let snippet = report.failing_code_snippet.unwrap();
    assert_eq!(snippet.source_file, "v.ak");
    assert_eq!(snippet.line_number, 3);
}

#[test]
fn a_report_as_text() {
    let frames = vec![frame("last", Some("v.ak:3"))];
    let report = FailureReport::generate(&frames, failure());
    let expected = "
╔════════════════════════════════════════════════════════════╗
║              VALIDATOR FAILURE ANALYSIS                    ║
╠════════════════════════════════════════════════════════════╣

Validator Intent:
  Validator requires valid signature

What Transaction Provided:
  • Redeemer: Unit
  • Datum: 42
  • Signatories: [\"addr\\\"1\", \"addr2\"]

Why Validation Failed:
  Missing required signature: owner

Technical Root Cause:
  last

How to Fix:
  1. Sign it
  2. Send it again

Failing Code (v.ak:L3):
  last
  ↑ This step failed
╚════════════════════════════════════════════════════════════╝
            ";
    assert_eq!(report.display(), expected);
}

#[test]
fn a_report_without_a_place_or_a_fix() {
    let report = FailureReport {
        validator_intent: "I".to_string(),
        transaction_provided: vec![],
        failure_reason: "R".to_string(),
        technical_root_cause: "T".to_string(),
        how_to_fix: vec![],
        failing_code_snippet: None,
    };
    let expected = "
╔════════════════════════════════════════════════════════════╗
║              VALIDATOR FAILURE ANALYSIS                    ║
╠════════════════════════════════════════════════════════════╣

Validator Intent:
  I

What Transaction Provided:


Why Validation Failed:
  R

Technical Root Cause:
  T

How to Fix:



╚════════════════════════════════════════════════════════════╝
            ";
    assert_eq!(report.display(), expected);
}
