use cek_debugger::diagnostics::{
    analyze_frame, diagnose_error, find, find_error, format_diagnostic, Diagnostic,
    DiagnosticStatus, Finding, Severity,
};
use cek_debugger::frames::Frame;

fn frame(step: usize, term: &str) -> Frame {
    Frame {
        step,
        state_type: "Compute".to_string(),
        term: term.to_string(),
        environment: vec![],
        context_depth: 0,
        cpu: 0,
        mem: 0,
        source_location: None,
    }
}

fn title_of(step: usize, term: &str) -> Option<String> {
    analyze_frame(&frame(step, term), None).map(|d| d.title)
}

#[test]
fn test_error_detection() {
    let frame = Frame {
        step: 0,
        state_type: "Error".to_string(),
        term: "(error \"invalid signature\")".to_string(),
        environment: vec![],
        context_depth: 0,
        cpu: 0,
        mem: 0,
        source_location: None,
    };

    let diag = analyze_frame(&frame, None);
    assert!(diag.is_some());
    assert_eq!(diag.unwrap().status, DiagnosticStatus::Error);
}

#[test]
fn error_diagnostic_in_full() {
    let diag = analyze_frame(&frame(0, "(error \"invalid signature\")"), None).unwrap();
    assert_eq!(diag.title, "❌ SIGNATURE VALIDATION FAILED");
    assert_eq!(diag.severity, Severity::Critical);
    assert_eq!(
        diag.explanation,
        "The validator rejected because:\n  ✗ Signature doesn't match validator expectations\n  ✗ Signing key is incorrect\n  ✗ Data was modified after signing"
    );
    assert_eq!(
        diag.next_steps,
        vec![
            "1️⃣ Check you're using the correct key pair",
            "2️⃣ Verify the signature matches the validator's public key",
            "3️⃣ Ensure no data changed between signing and submission",
            "4️⃣ Re-sign the transaction with the correct key",
        ]
    );
}

#[test]
fn the_term_is_read_in_lower_case() {
    assert_eq!(title_of(0, "(ERROR)").unwrap(), "❌ VALIDATOR REJECTION");
    assert_eq!(title_of(0, "Bad DATUM: Error").unwrap(), "❌ INVALID DATUM");
    assert_eq!(title_of(0, "(FORCE x)").unwrap(), "Lazy Evaluation");
    assert_eq!(title_of(0, "(Lam x x)").unwrap(), "Executing Validator Function");
}

#[test]
fn kinds_of_rejection() {
    assert_eq!(title_of(0, "error: signature").unwrap(), "❌ SIGNATURE VALIDATION FAILED");
    assert_eq!(title_of(0, "error: redeemer and datum").unwrap(), "❌ INVALID REDEEMER");
    assert_eq!(title_of(0, "error: datum").unwrap(), "❌ INVALID DATUM");
    assert_eq!(title_of(0, "(error)").unwrap(), "❌ VALIDATOR REJECTION");
    // A name with a capital letter never occurs in a text in lower case.
    assert_eq!(title_of(0, "error equalsByteString").unwrap(), "❌ VALIDATOR REJECTION");
    assert_eq!(title_of(0, "error equalsInteger").unwrap(), "❌ VALIDATOR REJECTION");
    assert_eq!(find_error("equalsByteString"), Finding::ComparisonFailed);
    assert_eq!(find_error("equalsInteger"), Finding::IntegerCheckFailed);
    assert_eq!(find_error("equalsinteger"), Finding::Rejected);
    assert_eq!(find_error("a redeemer's signature"), Finding::SignatureFailed);
}

#[test]
fn the_rejection_without_a_reason_quotes_the_term() {
    let diag = diagnose_error("(Error)");
    assert_eq!(diag.title, "❌ VALIDATOR REJECTION");
    assert_eq!(diag.status, DiagnosticStatus::Error);
    assert_eq!(diag.severity, Severity::Critical);
    assert_eq!(
        diag.explanation,
        "The validator rejected the transaction.\n\nError term: (Error)"
    );
    assert_eq!(diag.next_steps.len(), 4);
    assert_eq!(diag.next_steps[0], "1️⃣ Review the error term above");
}

#[test]
fn findings_of_steps_that_go_on() {
    assert_eq!(title_of(0, "check the signature").unwrap(), "Checking Signature Validation");
    assert_eq!(title_of(0, "(force (delay x))").unwrap(), "Lazy Evaluation");
    assert_eq!(title_of(0, "(delay x)").unwrap(), "Lazy Evaluation");
    assert_eq!(title_of(0, "(lam i_0 i_0)").unwrap(), "Executing Validator Function");
    assert_eq!(title_of(0, "(con unit ())").unwrap(), "Unit Value (Placeholder)");
    assert_eq!(title_of(3, "(con unit ())").unwrap(), "Unit Value (Placeholder)");
    assert_eq!(title_of(1, "(con integer 5)").unwrap(), "Execution Complete");
    assert_eq!(title_of(0, "(con integer 5)"), None);
    assert_eq!(title_of(0, "i_0"), None);
    assert_eq!(title_of(5, "i_0"), None);
    assert_eq!(title_of(0, "(builtin addInteger)"), None);
    assert_eq!(title_of(0, "(builtin ifThenElse)"), None);
    assert_eq!(title_of(2, "[(builtin addInteger) (con integer 1)]").unwrap(), "Execution Complete");
}

#[test]
fn findings_by_words_as_they_are_given() {
    assert_eq!(find("unConstrData", 0), Some(Finding::SignatureCheck));
    assert_eq!(find("equalsByteString", 0), Some(Finding::DataComparison));
    assert_eq!(find("unMapData", 0), Some(Finding::InputProcessing));
    assert_eq!(find("ifThenElse", 0), Some(Finding::DecisionPoint));
    assert_eq!(find("builtin addInteger", 0), Some(Finding::Arithmetic));
    assert_eq!(find("builtin subtractInteger", 0), Some(Finding::Arithmetic));
    assert_eq!(find("builtin appendByteString", 0), Some(Finding::ByteData));
    assert_eq!(find("builtin sliceByteString", 0), Some(Finding::ByteData));
    assert_eq!(find("addInteger", 0), None);
    assert_eq!(find("builtin", 0), None);
    assert_eq!(find("builtin", 1), None);
    assert_eq!(find("lam", 0), Some(Finding::FunctionExecution));
    assert_eq!(find("con unit", 0), Some(Finding::UnitValue));
    assert_eq!(find("con", 0), None);
    assert_eq!(find("con", 1), Some(Finding::ExecutionComplete));
    assert_eq!(find("", 1), None);
    assert_eq!(find("error con lam", 1), Some(Finding::Rejected));
}

#[test]
fn every_finding_has_its_diagnostic() {
    let all = [
        (Finding::SignatureCheck, DiagnosticStatus::Info, Severity::Hint, 3),
        (Finding::DataComparison, DiagnosticStatus::Info, Severity::Warning, 3),
        (Finding::InputProcessing, DiagnosticStatus::Info, Severity::Hint, 3),
        (Finding::DecisionPoint, DiagnosticStatus::Info, Severity::Warning, 3),
        (Finding::LazyEvaluation, DiagnosticStatus::Info, Severity::Debug, 2),
        (Finding::Arithmetic, DiagnosticStatus::Info, Severity::Debug, 2),
        (Finding::ByteData, DiagnosticStatus::Info, Severity::Debug, 2),
        (Finding::FunctionExecution, DiagnosticStatus::Info, Severity::Debug, 2),
        (Finding::UnitValue, DiagnosticStatus::Info, Severity::Debug, 1),
        (Finding::ExecutionComplete, DiagnosticStatus::Success, Severity::Debug, 2),
        (Finding::SignatureFailed, DiagnosticStatus::Error, Severity::Critical, 4),
        (Finding::InvalidRedeemer, DiagnosticStatus::Error, Severity::Critical, 4),
        (Finding::InvalidDatum, DiagnosticStatus::Error, Severity::Critical, 4),
        (Finding::ComparisonFailed, DiagnosticStatus::Error, Severity::Critical, 4),
        (Finding::IntegerCheckFailed, DiagnosticStatus::Error, Severity::Critical, 3),
        (Finding::Rejected, DiagnosticStatus::Error, Severity::Critical, 4),
    ];
    for (finding, status, severity, steps) in all {
        let diag = finding.describe("the term");
        assert_eq!(diag.status, status);
        assert_eq!(diag.severity, severity);
        assert_eq!(diag.next_steps.len(), steps);
        assert!(!diag.title.is_empty());
        assert_eq!(diag.explanation.contains("the term"), finding == Finding::Rejected);
    }
    assert_eq!(Finding::DecisionPoint.describe("").title, "Validation Decision Point");
    assert_eq!(
        Finding::UnitValue.describe("").next_steps,
        vec!["This is normal - continue execution"]
    );
    assert_eq!(Finding::IntegerCheckFailed.describe("").title, "❌ VALIDATION CHECK FAILED");
    assert_eq!(Finding::ComparisonFailed.describe("").title, "❌ DATA COMPARISON FAILED");
}

#[test]
fn severities_are_ordered() {
    assert!(Severity::Debug < Severity::Hint);
    assert!(Severity::Hint < Severity::Warning);
    assert!(Severity::Warning < Severity::Error);
    assert!(Severity::Error < Severity::Critical);
}

#[test]
fn signs() {
    assert_eq!(Severity::Debug.symbol(), "ℹ️");
    assert_eq!(Severity::Hint.symbol(), "💡");
    assert_eq!(Severity::Warning.symbol(), "⚠️");
    assert_eq!(Severity::Error.symbol(), "❌");
    assert_eq!(Severity::Critical.symbol(), "🚨");
    assert_eq!(DiagnosticStatus::Info.symbol(), "ℹ");
    assert_eq!(DiagnosticStatus::Warning.symbol(), "⚠");
    assert_eq!(DiagnosticStatus::Error.symbol(), "✗");
    assert_eq!(DiagnosticStatus::Success.symbol(), "✓");
}

#[test]
fn a_diagnostic_as_text() {
    let diag = Diagnostic {
        title: "Title".to_string(),
        status: DiagnosticStatus::Warning,
        explanation: "Why".to_string(),
        next_steps: vec!["one".to_string(), "two".to_string()],
        severity: Severity::Hint,
    };
    let double = "═".repeat(80);
    let single = "─".repeat(80);
    let expected = format!(
        "\n{}\n💡 Title  [WARNING]\n{}\n\n📝 Why\n\n✅ What to do next:\n   one\n   two\n{}\n",
        double, single, double
    );
    assert_eq!(format_diagnostic(&diag), expected);
    let bare = Diagnostic { next_steps: vec![], status: DiagnosticStatus::Success, ..diag };
    let expected = format!("\n{}\n💡 Title  [SUCCESS]\n{}\n\n📝 Why\n\n{}\n", double, single, double);
    assert_eq!(format_diagnostic(&bare), expected);
}
