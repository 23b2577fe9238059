//! Plain-language diagnostics for the steps of a validator's run.
//!
//! A diagnostic is chosen by the words that occur in the text of a frame's
//! term. The choice is a heuristic: it reads text, not structure.

use crate::frames::Frame;
use crate::text::{contains, lowercase_of, str_contains, strings_view, to_lowercase};
use vstd::prelude::*;
use vstd::string::StringExecFns;

verus! {

/// What a diagnostic reports: a title, a status, an explanation, what to do
/// next, and how grave it is.
#[derive(Debug, Clone)]
pub struct Diagnostic {
    pub title: String,
    pub status: DiagnosticStatus,
    pub explanation: String,
    pub next_steps: Vec<String>,
    pub severity: Severity,
}

#[derive(Debug, Clone, Copy, PartialEq, Eq, Structural)]
pub enum DiagnosticStatus {
    Info,
    Warning,
    Error,
    Success,
}

/// How grave a diagnostic is, from the least to the most.
#[derive(Debug, Clone, Copy, PartialEq, Eq, PartialOrd, Structural)]
pub enum Severity {
    /// Information only.
    Debug,
    /// A helpful suggestion.
    Hint,
    /// Something might be wrong.
    Warning,
    /// Validation failed.
    Error,
    /// A fatal error.
    Critical,
}

/// The mathematical value of a [`Diagnostic`].
pub struct DiagnosticV {
    pub title: Seq<char>,
    pub status: DiagnosticStatus,
    pub explanation: Seq<char>,
    pub next_steps: Seq<Seq<char>>,
    pub severity: Severity,
}

impl View for Diagnostic {
    type V = DiagnosticV;

    open spec fn view(&self) -> DiagnosticV {
        DiagnosticV {
            title: self.title@,
            status: self.status,
            explanation: self.explanation@,
            next_steps: strings_view(self.next_steps@),
            severity: self.severity,
        }
    }
}

pub const SEVERITY_DEBUG_SYMBOL: &'static str = "ℹ️";

pub const SEVERITY_HINT_SYMBOL: &'static str = "💡";

pub const SEVERITY_WARNING_SYMBOL: &'static str = "⚠️";

pub const SEVERITY_ERROR_SYMBOL: &'static str = "❌";

pub const SEVERITY_CRITICAL_SYMBOL: &'static str = "🚨";

pub const STATUS_INFO_SYMBOL: &'static str = "ℹ";

pub const STATUS_WARNING_SYMBOL: &'static str = "⚠";

pub const STATUS_ERROR_SYMBOL: &'static str = "✗";

pub const STATUS_SUCCESS_SYMBOL: &'static str = "✓";

impl Severity {
    /// The sign that stands for the severity.
    pub open spec fn sign(self) -> Seq<char> {
        match self {
            Severity::Debug => SEVERITY_DEBUG_SYMBOL@,
            Severity::Hint => SEVERITY_HINT_SYMBOL@,
            Severity::Warning => SEVERITY_WARNING_SYMBOL@,
            Severity::Error => SEVERITY_ERROR_SYMBOL@,
            Severity::Critical => SEVERITY_CRITICAL_SYMBOL@,
        }
    }

    /// The sign that stands for the severity.
    pub fn symbol(&self) -> (res: &'static str)
        ensures
            res@ == self.sign(),
    {
        match self {
            Severity::Debug => SEVERITY_DEBUG_SYMBOL,
            Severity::Hint => SEVERITY_HINT_SYMBOL,
            Severity::Warning => SEVERITY_WARNING_SYMBOL,
            Severity::Error => SEVERITY_ERROR_SYMBOL,
            Severity::Critical => SEVERITY_CRITICAL_SYMBOL,
        }
    }
}

impl DiagnosticStatus {
    /// The sign that stands for the status.
    pub open spec fn sign(self) -> Seq<char> {
        match self {
            DiagnosticStatus::Info => STATUS_INFO_SYMBOL@,
            DiagnosticStatus::Warning => STATUS_WARNING_SYMBOL@,
            DiagnosticStatus::Error => STATUS_ERROR_SYMBOL@,
            DiagnosticStatus::Success => STATUS_SUCCESS_SYMBOL@,
        }
    }

    /// The sign that stands for the status.
    pub fn symbol(&self) -> (res: &'static str)
        ensures
            res@ == self.sign(),
    {
        match self {
            DiagnosticStatus::Info => STATUS_INFO_SYMBOL,
            DiagnosticStatus::Warning => STATUS_WARNING_SYMBOL,
            DiagnosticStatus::Error => STATUS_ERROR_SYMBOL,
            DiagnosticStatus::Success => STATUS_SUCCESS_SYMBOL,
        }
    }
}

/// What a diagnostic can find in a step.
#[derive(Debug, Clone, Copy, PartialEq, Eq, Structural)]
pub enum Finding {
    /// The validator checks that data was signed.
    SignatureCheck,
    /// The validator compares byte strings.
    DataComparison,
    /// The validator unpacks its redeemer or datum.
    InputProcessing,
    /// The validator decides between two branches.
    DecisionPoint,
    /// The validator delays or forces a computation.
    LazyEvaluation,
    /// The validator adds or subtracts integers.
    Arithmetic,
    /// The validator appends or slices byte strings.
    ByteData,
    /// A function of the validator is applied.
    FunctionExecution,
    /// The step handles the unit value.
    UnitValue,
    /// The validator has produced its result.
    ExecutionComplete,
    /// The validator rejected a signature.
    SignatureFailed,
    /// The validator rejected the redeemer.
    InvalidRedeemer,
    /// The validator rejected the datum.
    InvalidDatum,
    /// A comparison of byte strings failed.
    ComparisonFailed,
    /// A comparison of integers failed.
    IntegerCheckFailed,
    /// The validator rejected the transaction for a reason that the text does not tell.
    Rejected,
}

pub const SIGNATURE_CHECK_TITLE: &'static str = "Checking Signature Validation";

pub const SIGNATURE_CHECK_EXPLANATION: &'static str = "The validator is checking if data has been properly signed. Make sure:\n  • Redeemer is correctly signed with the validator's key\n  • Datum contains the expected signature";

pub const SIGNATURE_CHECK_STEP_1: &'static str = "Verify you're using the correct signing key";

pub const SIGNATURE_CHECK_STEP_2: &'static str = "Check that the transaction signature matches the validator expectations";

pub const SIGNATURE_CHECK_STEP_3: &'static str = "Ensure datum contains all required signature fields";

pub const DATA_COMPARISON_TITLE: &'static str = "Comparing Signatures or Data";

pub const DATA_COMPARISON_EXPLANATION: &'static str = "The validator is comparing byte strings - likely checking:\n  • Cryptographic signatures match\n  • Public keys are valid\n  • Hashes are identical";

pub const DATA_COMPARISON_STEP_1: &'static str = "If this fails, signatures don't match";

pub const DATA_COMPARISON_STEP_2: &'static str = "Check that both signatures use the same key";

pub const DATA_COMPARISON_STEP_3: &'static str = "Verify no data was modified between signing and validation";

pub const INPUT_PROCESSING_TITLE: &'static str = "Processing Validator Input";

pub const INPUT_PROCESSING_EXPLANATION: &'static str = "The validator is unpacking the redeemer or datum structure. This is where:\n  • Redeemer data is extracted from the transaction\n  • Datum constraints are read\n  • Parameters are prepared for validation logic";

pub const INPUT_PROCESSING_STEP_1: &'static str = "Ensure redeemer structure matches what validator expects";

pub const INPUT_PROCESSING_STEP_2: &'static str = "Check that datum contains all required fields";

pub const INPUT_PROCESSING_STEP_3: &'static str = "Verify data types match (integers, bytes, etc.)";

pub const DECISION_POINT_TITLE: &'static str = "Validation Decision Point";

pub const DECISION_POINT_EXPLANATION: &'static str = "The validator is making a critical decision:\n  • If the condition is TRUE → ✓ Validation PASSES\n  • If the condition is FALSE → ✗ Validation FAILS\n\nThis is where your validator logic decides accept or reject.";

pub const DECISION_POINT_STEP_1: &'static str = "Check if the condition matches your expectations";

pub const DECISION_POINT_STEP_2: &'static str = "If it fails, your inputs don't satisfy the validator's rules";

pub const DECISION_POINT_STEP_3: &'static str = "Review the logic before this decision";

pub const LAZY_EVALUATION_TITLE: &'static str = "Lazy Evaluation";

pub const LAZY_EVALUATION_EXPLANATION: &'static str = "The validator is using lazy evaluation. Think of it like:\n  • DELAY = 'wait to calculate this'\n  • FORCE = 'calculate it now'\n\nThis helps validators avoid unnecessary computation.";

pub const LAZY_EVALUATION_STEP_1: &'static str = "No action needed - this is normal validator behavior";

pub const LAZY_EVALUATION_STEP_2: &'static str = "If stuck here, the validator may have circular dependencies";

pub const ARITHMETIC_TITLE: &'static str = "Performing Math Calculation";

pub const ARITHMETIC_EXPLANATION: &'static str = "The validator is performing arithmetic. Make sure:\n  • Input numbers are in the correct range\n  • No integer overflow\n  • Result is as expected";

pub const ARITHMETIC_STEP_1: &'static str = "Check your input values";

pub const ARITHMETIC_STEP_2: &'static str = "Verify calculation matches your logic";

pub const BYTE_DATA_TITLE: &'static str = "Processing Byte Data";

pub const BYTE_DATA_EXPLANATION: &'static str = "The validator is manipulating byte strings:\n  • Concatenating data\n  • Slicing/extracting portions\n  • Building composite data structures";

pub const BYTE_DATA_STEP_1: &'static str = "Verify byte string lengths are correct";

pub const BYTE_DATA_STEP_2: &'static str = "Check slice indices are within bounds";

pub const FUNCTION_EXECUTION_TITLE: &'static str = "Executing Validator Function";

pub const FUNCTION_EXECUTION_EXPLANATION: &'static str = "A validator function is being executed with parameters. The validator is:\n  • Receiving transaction data\n  • Processing your redeemer\n  • Applying validation rules";

pub const FUNCTION_EXECUTION_STEP_1: &'static str = "Continue stepping to see validation logic";

pub const FUNCTION_EXECUTION_STEP_2: &'static str = "Watch for decision points (ifThenElse)";

pub const UNIT_VALUE_TITLE: &'static str = "Unit Value (Placeholder)";

pub const UNIT_VALUE_EXPLANATION: &'static str = "Unit is like a placeholder or 'nothing' value in Plutus. Used when:\n  • A function returns nothing\n  • Placeholder in tuples\n  • Void/null equivalent";

pub const UNIT_VALUE_STEP_1: &'static str = "This is normal - continue execution";

pub const EXECUTION_COMPLETE_TITLE: &'static str = "Execution Complete";

pub const EXECUTION_COMPLETE_EXPLANATION: &'static str = "The validator has finished executing and produced a result:\n  • ✓ Validation logic completed\n  • ✓ All checks passed\n  • ✓ Result generated successfully";

pub const EXECUTION_COMPLETE_STEP_1: &'static str = "Validator accepted the transaction";

pub const EXECUTION_COMPLETE_STEP_2: &'static str = "Check result value above";

pub const SIGNATURE_FAILED_TITLE: &'static str = "❌ SIGNATURE VALIDATION FAILED";

pub const SIGNATURE_FAILED_EXPLANATION: &'static str = "The validator rejected because:\n  ✗ Signature doesn't match validator expectations\n  ✗ Signing key is incorrect\n  ✗ Data was modified after signing";

pub const SIGNATURE_FAILED_STEP_1: &'static str = "1️⃣ Check you're using the correct key pair";

pub const SIGNATURE_FAILED_STEP_2: &'static str = "2️⃣ Verify the signature matches the validator's public key";

pub const SIGNATURE_FAILED_STEP_3: &'static str = "3️⃣ Ensure no data changed between signing and submission";

pub const SIGNATURE_FAILED_STEP_4: &'static str = "4️⃣ Re-sign the transaction with the correct key";

pub const INVALID_REDEEMER_TITLE: &'static str = "❌ INVALID REDEEMER";

pub const INVALID_REDEEMER_EXPLANATION: &'static str = "The validator rejected because:\n  ✗ Redeemer format is incorrect\n  ✗ Redeemer doesn't contain required fields\n  ✗ Redeemer values don't match validator expectations";

pub const INVALID_REDEEMER_STEP_1: &'static str = "1️⃣ Check redeemer structure matches validator requirements";

pub const INVALID_REDEEMER_STEP_2: &'static str = "2️⃣ Verify all required fields are present";

pub const INVALID_REDEEMER_STEP_3: &'static str = "3️⃣ Check data types (integers, bytes, etc.)";

pub const INVALID_REDEEMER_STEP_4: &'static str = "4️⃣ Use correct redeemer for this endpoint";

pub const INVALID_DATUM_TITLE: &'static str = "❌ INVALID DATUM";

pub const INVALID_DATUM_EXPLANATION: &'static str = "The validator rejected because:\n  ✗ Datum is missing required fields\n  ✗ Datum data doesn't match expectations\n  ✗ Datum wasn't signed correctly";

pub const INVALID_DATUM_STEP_1: &'static str = "1️⃣ Check datum contains all required data";

pub const INVALID_DATUM_STEP_2: &'static str = "2️⃣ Verify datum structure matches UTXO specification";

pub const INVALID_DATUM_STEP_3: &'static str = "3️⃣ Ensure datum is properly encoded in the UTXO";

pub const INVALID_DATUM_STEP_4: &'static str = "4️⃣ Check transaction includes this UTXO";

pub const COMPARISON_FAILED_TITLE: &'static str = "❌ DATA COMPARISON FAILED";

pub const COMPARISON_FAILED_EXPLANATION: &'static str = "The validator rejected because:\n  ✗ Two pieces of data don't match\n  ✗ Usually: expected value ≠ actual value\n  ✗ Could be: signature, hash, or constraint mismatch";

pub const COMPARISON_FAILED_STEP_1: &'static str = "1️⃣ Compare the expected vs actual values";

pub const COMPARISON_FAILED_STEP_2: &'static str = "2️⃣ Check for typos in keys or addresses";

pub const COMPARISON_FAILED_STEP_3: &'static str = "3️⃣ Verify cryptographic hashes match";

pub const COMPARISON_FAILED_STEP_4: &'static str = "4️⃣ Review transaction data";

pub const INTEGER_CHECK_FAILED_TITLE: &'static str = "❌ VALIDATION CHECK FAILED";

pub const INTEGER_CHECK_FAILED_EXPLANATION: &'static str = "The validator rejected because:\n  ✗ Two numbers don't match\n  ✗ Usually: transaction amount, count, or ID mismatch\n  ✗ Constraint violation: expected X, got Y";

pub const INTEGER_CHECK_FAILED_STEP_1: &'static str = "1️⃣ Check transaction amounts/counts";

pub const INTEGER_CHECK_FAILED_STEP_2: &'static str = "2️⃣ Verify input values match validator expectations";

pub const INTEGER_CHECK_FAILED_STEP_3: &'static str = "3️⃣ Review numeric constraints";

pub const REJECTED_TITLE: &'static str = "❌ VALIDATOR REJECTION";

pub const REJECTED_EXPLANATION: &'static str = "The validator rejected the transaction.\n\nError term: ";

pub const REJECTED_STEP_1: &'static str = "1️⃣ Review the error term above";

pub const REJECTED_STEP_2: &'static str = "2️⃣ Check all redeemer and datum fields";

pub const REJECTED_STEP_3: &'static str = "3️⃣ Verify cryptographic signatures";

pub const REJECTED_STEP_4: &'static str = "4️⃣ Ensure transaction data matches validator rules";

impl Finding {
    /// The title of the diagnostic for this finding.
    pub open spec fn title(self) -> Seq<char> {
        match self {
            Finding::SignatureCheck => SIGNATURE_CHECK_TITLE@,
            Finding::DataComparison => DATA_COMPARISON_TITLE@,
            Finding::InputProcessing => INPUT_PROCESSING_TITLE@,
            Finding::DecisionPoint => DECISION_POINT_TITLE@,
            Finding::LazyEvaluation => LAZY_EVALUATION_TITLE@,
            Finding::Arithmetic => ARITHMETIC_TITLE@,
            Finding::ByteData => BYTE_DATA_TITLE@,
            Finding::FunctionExecution => FUNCTION_EXECUTION_TITLE@,
            Finding::UnitValue => UNIT_VALUE_TITLE@,
            Finding::ExecutionComplete => EXECUTION_COMPLETE_TITLE@,
            Finding::SignatureFailed => SIGNATURE_FAILED_TITLE@,
            Finding::InvalidRedeemer => INVALID_REDEEMER_TITLE@,
            Finding::InvalidDatum => INVALID_DATUM_TITLE@,
            Finding::ComparisonFailed => COMPARISON_FAILED_TITLE@,
            Finding::IntegerCheckFailed => INTEGER_CHECK_FAILED_TITLE@,
            Finding::Rejected => REJECTED_TITLE@,
        }
    }

    /// The status of the diagnostic for this finding.
    pub open spec fn status(self) -> DiagnosticStatus {
        match self {
            Finding::SignatureCheck => DiagnosticStatus::Info,
            Finding::DataComparison => DiagnosticStatus::Info,
            Finding::InputProcessing => DiagnosticStatus::Info,
            Finding::DecisionPoint => DiagnosticStatus::Info,
            Finding::LazyEvaluation => DiagnosticStatus::Info,
            Finding::Arithmetic => DiagnosticStatus::Info,
            Finding::ByteData => DiagnosticStatus::Info,
            Finding::FunctionExecution => DiagnosticStatus::Info,
            Finding::UnitValue => DiagnosticStatus::Info,
            Finding::ExecutionComplete => DiagnosticStatus::Success,
            Finding::SignatureFailed => DiagnosticStatus::Error,
            Finding::InvalidRedeemer => DiagnosticStatus::Error,
            Finding::InvalidDatum => DiagnosticStatus::Error,
            Finding::ComparisonFailed => DiagnosticStatus::Error,
            Finding::IntegerCheckFailed => DiagnosticStatus::Error,
            Finding::Rejected => DiagnosticStatus::Error,
        }
    }

    /// The severity of the diagnostic for this finding.
    pub open spec fn severity(self) -> Severity {
        match self {
            Finding::SignatureCheck => Severity::Hint,
            Finding::DataComparison => Severity::Warning,
            Finding::InputProcessing => Severity::Hint,
            Finding::DecisionPoint => Severity::Warning,
            Finding::LazyEvaluation => Severity::Debug,
            Finding::Arithmetic => Severity::Debug,
            Finding::ByteData => Severity::Debug,
            Finding::FunctionExecution => Severity::Debug,
            Finding::UnitValue => Severity::Debug,
            Finding::ExecutionComplete => Severity::Debug,
            Finding::SignatureFailed => Severity::Critical,
            Finding::InvalidRedeemer => Severity::Critical,
            Finding::InvalidDatum => Severity::Critical,
            Finding::ComparisonFailed => Severity::Critical,
            Finding::IntegerCheckFailed => Severity::Critical,
            Finding::Rejected => Severity::Critical,
        }
    }

    /// The explanation of the diagnostic for this finding in a step whose
    /// term reads `term`. Only a rejection without a known reason quotes the
    /// term.
    pub open spec fn explanation(self, term: Seq<char>) -> Seq<char> {
        match self {
            Finding::SignatureCheck => SIGNATURE_CHECK_EXPLANATION@,
            Finding::DataComparison => DATA_COMPARISON_EXPLANATION@,
            Finding::InputProcessing => INPUT_PROCESSING_EXPLANATION@,
            Finding::DecisionPoint => DECISION_POINT_EXPLANATION@,
            Finding::LazyEvaluation => LAZY_EVALUATION_EXPLANATION@,
            Finding::Arithmetic => ARITHMETIC_EXPLANATION@,
            Finding::ByteData => BYTE_DATA_EXPLANATION@,
            Finding::FunctionExecution => FUNCTION_EXECUTION_EXPLANATION@,
            Finding::UnitValue => UNIT_VALUE_EXPLANATION@,
            Finding::ExecutionComplete => EXECUTION_COMPLETE_EXPLANATION@,
            Finding::SignatureFailed => SIGNATURE_FAILED_EXPLANATION@,
            Finding::InvalidRedeemer => INVALID_REDEEMER_EXPLANATION@,
            Finding::InvalidDatum => INVALID_DATUM_EXPLANATION@,
            Finding::ComparisonFailed => COMPARISON_FAILED_EXPLANATION@,
            Finding::IntegerCheckFailed => INTEGER_CHECK_FAILED_EXPLANATION@,
            Finding::Rejected => REJECTED_EXPLANATION@ + term,
        }
    }

    /// What the diagnostic for this finding says to do next.
    pub open spec fn next_steps(self) -> Seq<Seq<char>> {
        match self {
            Finding::SignatureCheck => seq![SIGNATURE_CHECK_STEP_1@, SIGNATURE_CHECK_STEP_2@, SIGNATURE_CHECK_STEP_3@],
            Finding::DataComparison => seq![DATA_COMPARISON_STEP_1@, DATA_COMPARISON_STEP_2@, DATA_COMPARISON_STEP_3@],
            Finding::InputProcessing => seq![INPUT_PROCESSING_STEP_1@, INPUT_PROCESSING_STEP_2@, INPUT_PROCESSING_STEP_3@],
            Finding::DecisionPoint => seq![DECISION_POINT_STEP_1@, DECISION_POINT_STEP_2@, DECISION_POINT_STEP_3@],
            Finding::LazyEvaluation => seq![LAZY_EVALUATION_STEP_1@, LAZY_EVALUATION_STEP_2@],
            Finding::Arithmetic => seq![ARITHMETIC_STEP_1@, ARITHMETIC_STEP_2@],
            Finding::ByteData => seq![BYTE_DATA_STEP_1@, BYTE_DATA_STEP_2@],
            Finding::FunctionExecution => seq![FUNCTION_EXECUTION_STEP_1@, FUNCTION_EXECUTION_STEP_2@],
            Finding::UnitValue => seq![UNIT_VALUE_STEP_1@],
            Finding::ExecutionComplete => seq![EXECUTION_COMPLETE_STEP_1@, EXECUTION_COMPLETE_STEP_2@],
            Finding::SignatureFailed => seq![SIGNATURE_FAILED_STEP_1@, SIGNATURE_FAILED_STEP_2@, SIGNATURE_FAILED_STEP_3@, SIGNATURE_FAILED_STEP_4@],
            Finding::InvalidRedeemer => seq![INVALID_REDEEMER_STEP_1@, INVALID_REDEEMER_STEP_2@, INVALID_REDEEMER_STEP_3@, INVALID_REDEEMER_STEP_4@],
            Finding::InvalidDatum => seq![INVALID_DATUM_STEP_1@, INVALID_DATUM_STEP_2@, INVALID_DATUM_STEP_3@, INVALID_DATUM_STEP_4@],
            Finding::ComparisonFailed => seq![COMPARISON_FAILED_STEP_1@, COMPARISON_FAILED_STEP_2@, COMPARISON_FAILED_STEP_3@, COMPARISON_FAILED_STEP_4@],
            Finding::IntegerCheckFailed => seq![INTEGER_CHECK_FAILED_STEP_1@, INTEGER_CHECK_FAILED_STEP_2@, INTEGER_CHECK_FAILED_STEP_3@],
            Finding::Rejected => seq![REJECTED_STEP_1@, REJECTED_STEP_2@, REJECTED_STEP_3@, REJECTED_STEP_4@],
        }
    }

    /// The diagnostic for this finding in a step whose term reads `term`.
    pub open spec fn diagnostic(self, term: Seq<char>) -> DiagnosticV {
        DiagnosticV {
            title: self.title(),
            status: self.status(),
            explanation: self.explanation(term),
            next_steps: self.next_steps(),
            severity: self.severity(),
        }
    }

    fn title_text(&self) -> (res: &'static str)
        ensures
            res@ == self.title(),
    {
        match self {
            Finding::SignatureCheck => SIGNATURE_CHECK_TITLE,
            Finding::DataComparison => DATA_COMPARISON_TITLE,
            Finding::InputProcessing => INPUT_PROCESSING_TITLE,
            Finding::DecisionPoint => DECISION_POINT_TITLE,
            Finding::LazyEvaluation => LAZY_EVALUATION_TITLE,
            Finding::Arithmetic => ARITHMETIC_TITLE,
            Finding::ByteData => BYTE_DATA_TITLE,
            Finding::FunctionExecution => FUNCTION_EXECUTION_TITLE,
            Finding::UnitValue => UNIT_VALUE_TITLE,
            Finding::ExecutionComplete => EXECUTION_COMPLETE_TITLE,
            Finding::SignatureFailed => SIGNATURE_FAILED_TITLE,
            Finding::InvalidRedeemer => INVALID_REDEEMER_TITLE,
            Finding::InvalidDatum => INVALID_DATUM_TITLE,
            Finding::ComparisonFailed => COMPARISON_FAILED_TITLE,
            Finding::IntegerCheckFailed => INTEGER_CHECK_FAILED_TITLE,
            Finding::Rejected => REJECTED_TITLE,
        }
    }

    fn status_of(&self) -> (res: DiagnosticStatus)
        ensures
            res == self.status(),
    {
        match self {
            Finding::SignatureCheck => DiagnosticStatus::Info,
            Finding::DataComparison => DiagnosticStatus::Info,
            Finding::InputProcessing => DiagnosticStatus::Info,
            Finding::DecisionPoint => DiagnosticStatus::Info,
            Finding::LazyEvaluation => DiagnosticStatus::Info,
            Finding::Arithmetic => DiagnosticStatus::Info,
            Finding::ByteData => DiagnosticStatus::Info,
            Finding::FunctionExecution => DiagnosticStatus::Info,
            Finding::UnitValue => DiagnosticStatus::Info,
            Finding::ExecutionComplete => DiagnosticStatus::Success,
            Finding::SignatureFailed => DiagnosticStatus::Error,
            Finding::InvalidRedeemer => DiagnosticStatus::Error,
            Finding::InvalidDatum => DiagnosticStatus::Error,
            Finding::ComparisonFailed => DiagnosticStatus::Error,
            Finding::IntegerCheckFailed => DiagnosticStatus::Error,
            Finding::Rejected => DiagnosticStatus::Error,
        }
    }

    fn severity_of(&self) -> (res: Severity)
        ensures
            res == self.severity(),
    {
        match self {
            Finding::SignatureCheck => Severity::Hint,
            Finding::DataComparison => Severity::Warning,
            Finding::InputProcessing => Severity::Hint,
            Finding::DecisionPoint => Severity::Warning,
            Finding::LazyEvaluation => Severity::Debug,
            Finding::Arithmetic => Severity::Debug,
            Finding::ByteData => Severity::Debug,
            Finding::FunctionExecution => Severity::Debug,
            Finding::UnitValue => Severity::Debug,
            Finding::ExecutionComplete => Severity::Debug,
            Finding::SignatureFailed => Severity::Critical,
            Finding::InvalidRedeemer => Severity::Critical,
            Finding::InvalidDatum => Severity::Critical,
            Finding::ComparisonFailed => Severity::Critical,
            Finding::IntegerCheckFailed => Severity::Critical,
            Finding::Rejected => Severity::Critical,
        }
    }

    fn explanation_text(&self, term: &str) -> (res: String)
        ensures
            res@ == self.explanation(term@),
    {
        match self {
            Finding::SignatureCheck => String::from_str(SIGNATURE_CHECK_EXPLANATION),
            Finding::DataComparison => String::from_str(DATA_COMPARISON_EXPLANATION),
            Finding::InputProcessing => String::from_str(INPUT_PROCESSING_EXPLANATION),
            Finding::DecisionPoint => String::from_str(DECISION_POINT_EXPLANATION),
            Finding::LazyEvaluation => String::from_str(LAZY_EVALUATION_EXPLANATION),
            Finding::Arithmetic => String::from_str(ARITHMETIC_EXPLANATION),
            Finding::ByteData => String::from_str(BYTE_DATA_EXPLANATION),
            Finding::FunctionExecution => String::from_str(FUNCTION_EXECUTION_EXPLANATION),
            Finding::UnitValue => String::from_str(UNIT_VALUE_EXPLANATION),
            Finding::ExecutionComplete => String::from_str(EXECUTION_COMPLETE_EXPLANATION),
            Finding::SignatureFailed => String::from_str(SIGNATURE_FAILED_EXPLANATION),
            Finding::InvalidRedeemer => String::from_str(INVALID_REDEEMER_EXPLANATION),
            Finding::InvalidDatum => String::from_str(INVALID_DATUM_EXPLANATION),
            Finding::ComparisonFailed => String::from_str(COMPARISON_FAILED_EXPLANATION),
            Finding::IntegerCheckFailed => String::from_str(INTEGER_CHECK_FAILED_EXPLANATION),
            Finding::Rejected => {
                let mut text = String::from_str(REJECTED_EXPLANATION);
                text.append(term);
                text
            },
        }
    }

    fn next_steps_list(&self) -> (res: Vec<String>)
        ensures
            strings_view(res@) == self.next_steps(),
    {
        let mut steps: Vec<String> = Vec::new();
        match self {
            Finding::SignatureCheck => {
                steps.push(String::from_str(SIGNATURE_CHECK_STEP_1));
                steps.push(String::from_str(SIGNATURE_CHECK_STEP_2));
                steps.push(String::from_str(SIGNATURE_CHECK_STEP_3));
            },
            Finding::DataComparison => {
                steps.push(String::from_str(DATA_COMPARISON_STEP_1));
                steps.push(String::from_str(DATA_COMPARISON_STEP_2));
                steps.push(String::from_str(DATA_COMPARISON_STEP_3));
            },
            Finding::InputProcessing => {
                steps.push(String::from_str(INPUT_PROCESSING_STEP_1));
                steps.push(String::from_str(INPUT_PROCESSING_STEP_2));
                steps.push(String::from_str(INPUT_PROCESSING_STEP_3));
            },
            Finding::DecisionPoint => {
                steps.push(String::from_str(DECISION_POINT_STEP_1));
                steps.push(String::from_str(DECISION_POINT_STEP_2));
                steps.push(String::from_str(DECISION_POINT_STEP_3));
            },
            Finding::LazyEvaluation => {
                steps.push(String::from_str(LAZY_EVALUATION_STEP_1));
                steps.push(String::from_str(LAZY_EVALUATION_STEP_2));
            },
            Finding::Arithmetic => {
                steps.push(String::from_str(ARITHMETIC_STEP_1));
                steps.push(String::from_str(ARITHMETIC_STEP_2));
            },
            Finding::ByteData => {
                steps.push(String::from_str(BYTE_DATA_STEP_1));
                steps.push(String::from_str(BYTE_DATA_STEP_2));
            },
            Finding::FunctionExecution => {
                steps.push(String::from_str(FUNCTION_EXECUTION_STEP_1));
                steps.push(String::from_str(FUNCTION_EXECUTION_STEP_2));
            },
            Finding::UnitValue => {
                steps.push(String::from_str(UNIT_VALUE_STEP_1));
            },
            Finding::ExecutionComplete => {
                steps.push(String::from_str(EXECUTION_COMPLETE_STEP_1));
                steps.push(String::from_str(EXECUTION_COMPLETE_STEP_2));
            },
            Finding::SignatureFailed => {
                steps.push(String::from_str(SIGNATURE_FAILED_STEP_1));
                steps.push(String::from_str(SIGNATURE_FAILED_STEP_2));
                steps.push(String::from_str(SIGNATURE_FAILED_STEP_3));
                steps.push(String::from_str(SIGNATURE_FAILED_STEP_4));
            },
            Finding::InvalidRedeemer => {
                steps.push(String::from_str(INVALID_REDEEMER_STEP_1));
                steps.push(String::from_str(INVALID_REDEEMER_STEP_2));
                steps.push(String::from_str(INVALID_REDEEMER_STEP_3));
                steps.push(String::from_str(INVALID_REDEEMER_STEP_4));
            },
            Finding::InvalidDatum => {
                steps.push(String::from_str(INVALID_DATUM_STEP_1));
                steps.push(String::from_str(INVALID_DATUM_STEP_2));
                steps.push(String::from_str(INVALID_DATUM_STEP_3));
                steps.push(String::from_str(INVALID_DATUM_STEP_4));
            },
            Finding::ComparisonFailed => {
                steps.push(String::from_str(COMPARISON_FAILED_STEP_1));
                steps.push(String::from_str(COMPARISON_FAILED_STEP_2));
                steps.push(String::from_str(COMPARISON_FAILED_STEP_3));
                steps.push(String::from_str(COMPARISON_FAILED_STEP_4));
            },
            Finding::IntegerCheckFailed => {
                steps.push(String::from_str(INTEGER_CHECK_FAILED_STEP_1));
                steps.push(String::from_str(INTEGER_CHECK_FAILED_STEP_2));
                steps.push(String::from_str(INTEGER_CHECK_FAILED_STEP_3));
            },
            Finding::Rejected => {
                steps.push(String::from_str(REJECTED_STEP_1));
                steps.push(String::from_str(REJECTED_STEP_2));
                steps.push(String::from_str(REJECTED_STEP_3));
                steps.push(String::from_str(REJECTED_STEP_4));
            },
        }
        assert(strings_view(steps@) =~= self.next_steps());
        steps
    }

    /// The diagnostic for this finding in a step whose term reads `term`.
    pub fn describe(&self, term: &str) -> (res: Diagnostic)
        ensures
            res@ == self.diagnostic(term@),
    {
        Diagnostic {
            title: String::from_str(self.title_text()),
            status: self.status_of(),
            explanation: self.explanation_text(term),
            next_steps: self.next_steps_list(),
            severity: self.severity_of(),
        }
    }
}

/// Why a step whose term, in lower case, reads `lower` was rejected, by the
/// first of these words that occurs in it: a signature, the redeemer, the
/// datum, a comparison of byte strings, a comparison of integers; and for
/// none of them, a rejection without a known reason.
pub open spec fn error_finding(lower: Seq<char>) -> Finding {
    if contains(lower, "signature"@) {
        Finding::SignatureFailed
    } else if contains(lower, "redeemer"@) {
        Finding::InvalidRedeemer
    } else if contains(lower, "datum"@) {
        Finding::InvalidDatum
    } else if contains(lower, "equalsByteString"@) {
        Finding::ComparisonFailed
    } else if contains(lower, "equalsInteger"@) {
        Finding::IntegerCheckFailed
    } else {
        Finding::Rejected
    }
}

/// What there is to say of step number `step` whose term, in lower case,
/// reads `lower`: the first rule that applies decides, and a step to which
/// none applies has no finding.
pub open spec fn finding(lower: Seq<char>, step: nat) -> Option<Finding> {
    if contains(lower, "error"@) {
        Some(error_finding(lower))
    } else if contains(lower, "unConstrData"@) || contains(lower, "signature"@) {
        Some(Finding::SignatureCheck)
    } else if contains(lower, "equalsByteString"@) {
        Some(Finding::DataComparison)
    } else if contains(lower, "unMapData"@) || contains(lower, "unConstrData"@) {
        Some(Finding::InputProcessing)
    } else if contains(lower, "ifThenElse"@) {
        Some(Finding::DecisionPoint)
    } else if contains(lower, "force"@) || contains(lower, "delay"@) {
        Some(Finding::LazyEvaluation)
    } else if contains(lower, "builtin"@) && (contains(lower, "addInteger"@) || contains(
        lower,
        "subtractInteger"@,
    )) {
        Some(Finding::Arithmetic)
    } else if contains(lower, "builtin"@) && (contains(lower, "appendByteString"@) || contains(
        lower,
        "sliceByteString"@,
    )) {
        Some(Finding::ByteData)
    } else if contains(lower, "lam"@) {
        Some(Finding::FunctionExecution)
    } else if contains(lower, "con"@) && contains(lower, "unit"@) {
        Some(Finding::UnitValue)
    } else if step > 0 && contains(lower, "con"@) {
        Some(Finding::ExecutionComplete)
    } else {
        None
    }
}

/// The diagnostic, if any, of step number `step` whose term reads `term`.
pub open spec fn analysis(term: Seq<char>, step: nat) -> Option<DiagnosticV> {
    match finding(lowercase_of(term), step) {
        Some(found) => Some(found.diagnostic(term)),
        None => None,
    }
}

/// Why a step whose term, in lower case, reads `lower` was rejected.
pub fn find_error(lower: &str) -> (res: Finding)
    ensures
        res == error_finding(lower@),
{
    if str_contains(lower, "signature") {
        Finding::SignatureFailed
    } else if str_contains(lower, "redeemer") {
        Finding::InvalidRedeemer
    } else if str_contains(lower, "datum") {
        Finding::InvalidDatum
    } else if str_contains(lower, "equalsByteString") {
        Finding::ComparisonFailed
    } else if str_contains(lower, "equalsInteger") {
        Finding::IntegerCheckFailed
    } else {
        Finding::Rejected
    }
}

/// What there is to say of step number `step` whose term, in lower case,
/// reads `lower`.
pub fn find(lower: &str, step: usize) -> (res: Option<Finding>)
    ensures
        res == finding(lower@, step as nat),
{
    if str_contains(lower, "error") {
        return Some(find_error(lower));
    }
    if str_contains(lower, "unConstrData") || str_contains(lower, "signature") {
        return Some(Finding::SignatureCheck);
    }
    if str_contains(lower, "equalsByteString") {
        return Some(Finding::DataComparison);
    }
    if str_contains(lower, "unMapData") || str_contains(lower, "unConstrData") {
        return Some(Finding::InputProcessing);
    }
    if str_contains(lower, "ifThenElse") {
        return Some(Finding::DecisionPoint);
    }
    if str_contains(lower, "force") || str_contains(lower, "delay") {
        return Some(Finding::LazyEvaluation);
    }
    if str_contains(lower, "builtin") {
        if str_contains(lower, "addInteger") || str_contains(lower, "subtractInteger") {
            return Some(Finding::Arithmetic);
        }
        if str_contains(lower, "appendByteString") || str_contains(lower, "sliceByteString") {
            return Some(Finding::ByteData);
        }
    }
    if str_contains(lower, "lam") {
        return Some(Finding::FunctionExecution);
    }
    if str_contains(lower, "con") {
        if str_contains(lower, "unit") {
            return Some(Finding::UnitValue);
        }
    }
    if step > 0 && str_contains(lower, "con") && !str_contains(lower, "error") {
        return Some(Finding::ExecutionComplete);
    }
    None
}

/// The diagnostic of a frame, chosen by the words in the text of its term;
/// `None` where no rule applies. The frame before it has no say.
pub fn analyze_frame(frame: &Frame, _previous_frame: Option<&Frame>) -> (res: Option<Diagnostic>)
    ensures
        match res {
            Some(diagnostic) => analysis(frame.term@, frame.step as nat) == Some(diagnostic@),
            None => analysis(frame.term@, frame.step as nat) is None,
        },
{
    let term_lower = to_lowercase(frame.term.as_str());
    match find(term_lower.as_str(), frame.step) {
        Some(found) => Some(found.describe(frame.term.as_str())),
        None => None,
    }
}

pub const RULE_DOUBLE: &'static str =
    "════════════════════════════════════════════════════════════════════════════════";

pub const RULE_SINGLE: &'static str =
    "────────────────────────────────────────────────────────────────────────────────";

pub const LABEL_INFO: &'static str = "INFO";

pub const LABEL_WARNING: &'static str = "WARNING";

pub const LABEL_ERROR: &'static str = "ERROR";

pub const LABEL_SUCCESS: &'static str = "SUCCESS";

pub const EXPLANATION_MARK: &'static str = "
📝 ";

pub const NEXT_STEPS_HEADING: &'static str = "✅ What to do next:
";

pub const NEXT_STEP_INDENT: &'static str = "   ";

impl DiagnosticStatus {
    /// The word that stands for the status.
    pub open spec fn label(self) -> Seq<char> {
        match self {
            DiagnosticStatus::Info => LABEL_INFO@,
            DiagnosticStatus::Warning => LABEL_WARNING@,
            DiagnosticStatus::Error => LABEL_ERROR@,
            DiagnosticStatus::Success => LABEL_SUCCESS@,
        }
    }

    fn label_text(&self) -> (res: &'static str)
        ensures
            res@ == self.label(),
    {
        match self {
            DiagnosticStatus::Info => LABEL_INFO,
            DiagnosticStatus::Warning => LABEL_WARNING,
            DiagnosticStatus::Error => LABEL_ERROR,
            DiagnosticStatus::Success => LABEL_SUCCESS,
        }
    }
}

/// Each of `steps` on a line of its own, indented.
pub open spec fn step_lines(steps: Seq<Seq<char>>) -> Seq<char>
    decreases steps.len(),
{
    if steps.len() == 0 {
        Seq::empty()
    } else {
        step_lines(steps.drop_last()) + NEXT_STEP_INDENT@ + steps.last() + "
"@
    }
}

/// The text that shows a diagnostic: between two rules, the sign of its
/// severity, its title and its status; the explanation; and what to do
/// next, where there is anything.
pub open spec fn diagnostic_text(diagnostic: DiagnosticV) -> Seq<char> {
    "
"@ + RULE_DOUBLE@ + "
"@ + diagnostic.severity.sign() + " "@ + diagnostic.title + "  ["@
        + diagnostic.status.label() + "]
"@ + RULE_SINGLE@ + "
"@ + EXPLANATION_MARK@
        + diagnostic.explanation + "

"@ + (if diagnostic.next_steps.len() > 0 {
        NEXT_STEPS_HEADING@ + step_lines(diagnostic.next_steps)
    } else {
        Seq::empty()
    }) + RULE_DOUBLE@ + "
"@
}

/// The text that shows `diagnostic`.
pub fn format_diagnostic(diagnostic: &Diagnostic) -> (res: String)
    ensures
        res@ == diagnostic_text(diagnostic@),
{
    let mut out = String::from_str("
");
    out.append(RULE_DOUBLE);
    out.append("
");
    out.append(diagnostic.severity.symbol());
    out.append(" ");
    out.append(diagnostic.title.as_str());
    out.append("  [");
    out.append(diagnostic.status.label_text());
    out.append("]
");
    out.append(RULE_SINGLE);
    out.append("
");
    out.append(EXPLANATION_MARK);
    out.append(diagnostic.explanation.as_str());
    out.append("

");
    let ghost start = out@;
    let ghost steps = strings_view(diagnostic.next_steps@);
    if diagnostic.next_steps.len() > 0 {
        out.append(NEXT_STEPS_HEADING);
        let ghost listed = out@;
        let mut i: usize = 0;
        assert(out@ =~= listed + step_lines(steps.subrange(0, 0)));
        while i < diagnostic.next_steps.len()
            invariant
                i <= diagnostic.next_steps.len(),
                steps == strings_view(diagnostic.next_steps@),
                out@ == listed + step_lines(steps.subrange(0, i as int)),
            decreases diagnostic.next_steps.len() - i,
        {
            out.append(NEXT_STEP_INDENT);
            out.append(diagnostic.next_steps[i].as_str());
            out.append("
");
            i = i + 1;
            proof {
                let upto = steps.subrange(0, i as int);
                assert(upto.drop_last() =~= steps.subrange(0, i - 1));
                assert(upto.last() == diagnostic.next_steps@[i - 1]@);
                assert(out@ =~= listed + step_lines(upto));
            }
        }
        assert(steps.subrange(0, i as int) =~= steps);
        assert(out@ =~= start + (NEXT_STEPS_HEADING@ + step_lines(steps)));
    }
    out.append(RULE_DOUBLE);
    out.append("
");
    assert(out@ =~= diagnostic_text(diagnostic@));
    out
}

/// The diagnostic of a step that was rejected and whose term reads `term`.
pub fn diagnose_error(term: &str) -> (res: Diagnostic)
    ensures
        res@ == error_finding(lowercase_of(term@)).diagnostic(term@),
{
    let term_lower = to_lowercase(term);
    find_error(term_lower.as_str()).describe(term)
}

} // verus!
