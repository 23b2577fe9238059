//! The report of a failed run, and its text.

use crate::analyzer::{MismatchCause, MismatchCauseV, ValidationFailure, ValidationFailureV};
use crate::frames::{file_of, Frame};
use crate::machine::pretty::{decimal, push_decimal};
use crate::text::{
    debug_list, first_position, format_debug_list, lemma_first_position, lemma_no_position, lines,
    lines_of, number_of, parse_number, split_once, strings_view,
};
use vstd::prelude::*;
use vstd::string::StringExecFns;

verus! {

/// What to tell the author of a transaction that a validator rejected.
pub struct FailureReport {
    pub validator_intent: String,
    pub transaction_provided: Vec<String>,
    pub failure_reason: String,
    pub technical_root_cause: String,
    pub how_to_fix: Vec<String>,
    pub failing_code_snippet: Option<CodeSnippet>,
}

/// The place in the source where a run failed.
#[derive(Debug)]
pub struct CodeSnippet {
    pub source_file: String,
    pub line_number: usize,
    pub code: String,
    pub highlight: String,
}

/// The mathematical value of a [`CodeSnippet`].
pub struct CodeSnippetV {
    pub source_file: Seq<char>,
    pub line_number: nat,
    pub code: Seq<char>,
    pub highlight: Seq<char>,
}

impl View for CodeSnippet {
    type V = CodeSnippetV;

    open spec fn view(&self) -> CodeSnippetV {
        CodeSnippetV {
            source_file: self.source_file@,
            line_number: self.line_number as nat,
            code: self.code@,
            highlight: self.highlight@,
        }
    }
}

/// The mathematical value of a [`FailureReport`].
pub struct FailureReportV {
    pub validator_intent: Seq<char>,
    pub transaction_provided: Seq<Seq<char>>,
    pub failure_reason: Seq<char>,
    pub technical_root_cause: Seq<char>,
    pub how_to_fix: Seq<Seq<char>>,
    pub failing_code_snippet: Option<CodeSnippetV>,
}

impl View for FailureReport {
    type V = FailureReportV;

    open spec fn view(&self) -> FailureReportV {
        FailureReportV {
            validator_intent: self.validator_intent@,
            transaction_provided: strings_view(self.transaction_provided@),
            failure_reason: self.failure_reason@,
            technical_root_cause: self.technical_root_cause@,
            how_to_fix: strings_view(self.how_to_fix@),
            failing_code_snippet: match self.failing_code_snippet {
                Some(snippet) => Some(snippet@),
                None => None,
            },
        }
    }
}

pub const PROVIDED_REDEEMER: &'static str = "Redeemer: ";

pub const PROVIDED_DATUM: &'static str = "Datum: ";

pub const PROVIDED_SIGNATORIES: &'static str = "Signatories: ";

pub const REASON_VALUE_EXPECTED: &'static str = "Expected ";

pub const REASON_VALUE_FOUND: &'static str = " but found ";

pub const REASON_SIGNATURE: &'static str = "Missing required signature: ";

pub const SNIPPET_HIGHLIGHT: &'static str = "This step failed";

pub const REPORT_HEADER: &'static str =
    "\n╔════════════════════════════════════════════════════════════╗\n║              VALIDATOR FAILURE ANALYSIS                    ║\n╠════════════════════════════════════════════════════════════╣\n\nValidator Intent:\n  ";

pub const REPORT_PROVIDED: &'static str = "\n\nWhat Transaction Provided:\n";

pub const REPORT_REASON: &'static str = "\n\nWhy Validation Failed:\n  ";

pub const REPORT_CAUSE: &'static str = "\n\nTechnical Root Cause:\n  ";

pub const REPORT_FIX: &'static str = "\n\nHow to Fix:\n";

pub const REPORT_GAP: &'static str = "\n\n";

pub const REPORT_FOOTER: &'static str =
    "\n╚════════════════════════════════════════════════════════════╝\n            ";

pub const BULLET: &'static str = "  • ";

pub const INDENT: &'static str = "  ";

pub const NUMBER_END: &'static str = ". ";

pub const LINE_END: &'static str = "\n";

pub const SNIPPET_START: &'static str = "Failing Code (";

pub const SNIPPET_LINE: &'static str = ":L";

pub const SNIPPET_CODE: &'static str = "):\n  ";

pub const SNIPPET_MARK: &'static str = "\n  ↑ ";

/// Why validation failed, in words.
pub open spec fn reason_for(cause: MismatchCauseV) -> Seq<char> {
    match cause {
        MismatchCauseV::ValueMismatch { expected, actual } => REASON_VALUE_EXPECTED@ + expected
            + REASON_VALUE_FOUND@ + actual,
        MismatchCauseV::MissingSignature { required } => REASON_SIGNATURE@ + required,
    }
}

/// The term at which the run failed: that of the last frame; empty where
/// there is no frame.
pub open spec fn failing_term(frames: Seq<Frame>) -> Seq<char> {
    if frames.len() == 0 {
        Seq::empty()
    } else {
        frames.last().term@
    }
}

/// The line of a place in the source: the number that stands after its
/// first colon; zero where there is none, or none that a line number can
/// hold.
pub open spec fn line_of(location: Seq<char>) -> nat {
    if location.contains(':') {
        match number_of(
            location.subrange(first_position(location, ':') as int + 1, location.len() as int),
        ) {
            Some(n) => if n <= usize::MAX {
                n as nat
            } else {
                0
            },
            None => 0,
        }
    } else {
        0
    }
}

/// The place in the source where the run failed: that of the last frame, if
/// it names one, with the frame's term as the code.
pub open spec fn failing_snippet(frames: Seq<Frame>) -> Option<CodeSnippetV> {
    if frames.len() == 0 {
        None
    } else {
        match frames.last().source_location {
            None => None,
            Some(location) => Some(
                CodeSnippetV {
                    source_file: file_of(location@),
                    line_number: line_of(location@),
                    code: frames.last().term@,
                    highlight: SNIPPET_HIGHLIGHT@,
                },
            ),
        }
    }
}

/// The report of a run whose frames are `frames` and whose reading is
/// `failure`.
pub open spec fn report_of(frames: Seq<Frame>, failure: ValidationFailureV) -> FailureReportV {
    FailureReportV {
        validator_intent: failure.intent,
        transaction_provided: seq![
            PROVIDED_REDEEMER@ + failure.provided.redeemer,
            PROVIDED_DATUM@ + failure.provided.datum,
            PROVIDED_SIGNATORIES@ + debug_list(failure.provided.signatories),
        ],
        failure_reason: reason_for(failure.root_cause),
        technical_root_cause: failing_term(frames),
        how_to_fix: lines_of(failure.fix_suggestion),
        failing_code_snippet: failing_snippet(frames),
    }
}

/// Each of `items` after a bullet, one to a line.
pub open spec fn bulleted(items: Seq<Seq<char>>) -> Seq<char>
    decreases items.len(),
{
    if items.len() == 0 {
        Seq::empty()
    } else if items.len() == 1 {
        BULLET@ + items[0]
    } else {
        bulleted(items.drop_last()) + LINE_END@ + BULLET@ + items.last()
    }
}

/// Each of `items` after its number, counted from one, one to a line.
pub open spec fn numbered(items: Seq<Seq<char>>) -> Seq<char>
    decreases items.len(),
{
    if items.len() == 0 {
        Seq::empty()
    } else if items.len() == 1 {
        INDENT@ + decimal(1) + NUMBER_END@ + items[0]
    } else {
        numbered(items.drop_last()) + LINE_END@ + INDENT@ + decimal(items.len()) + NUMBER_END@
            + items.last()
    }
}

/// The text of a snippet; empty where there is none.
pub open spec fn snippet_text(snippet: Option<CodeSnippetV>) -> Seq<char> {
    match snippet {
        Some(s) => SNIPPET_START@ + s.source_file + SNIPPET_LINE@ + decimal(s.line_number)
            + SNIPPET_CODE@ + s.code + SNIPPET_MARK@ + s.highlight,
        None => Seq::empty(),
    }
}

/// The text of a report.
pub open spec fn report_text(report: FailureReportV) -> Seq<char> {
    REPORT_HEADER@ + report.validator_intent + REPORT_PROVIDED@ + bulleted(
        report.transaction_provided,
    ) + REPORT_REASON@ + report.failure_reason + REPORT_CAUSE@ + report.technical_root_cause
        + REPORT_FIX@ + numbered(report.how_to_fix) + REPORT_GAP@ + snippet_text(
        report.failing_code_snippet,
    ) + REPORT_FOOTER@
}

/// Why validation failed, in words.
pub fn format_failure_reason(cause: &MismatchCause) -> (res: String)
    ensures
        res@ == reason_for(cause@),
{
    match cause {
        MismatchCause::ValueMismatch { expected, actual } => {
            let mut text = String::from_str(REASON_VALUE_EXPECTED);
            text.append(expected.as_str());
            text.append(REASON_VALUE_FOUND);
            text.append(actual.as_str());
            assert(text@ =~= reason_for(cause@));
            text
        },
        MismatchCause::MissingSignature { required } => {
            let mut text = String::from_str(REASON_SIGNATURE);
            text.append(required.as_str());
            text
        },
    }
}

/// The term at which the run failed.
pub fn extract_failing_term(frames: &Vec<Frame>) -> (res: String)
    ensures
        res@ == failing_term(frames@),
{
    if frames.len() == 0 {
        String::new()
    } else {
        frames[frames.len() - 1].term.clone()
    }
}

/// The place in the source where the run failed.
pub fn find_source_location(frames: &Vec<Frame>) -> (res: Option<CodeSnippet>)
    ensures
        match res {
            Some(snippet) => failing_snippet(frames@) == Some(snippet@),
            None => failing_snippet(frames@) is None,
        },
{
    if frames.len() == 0 {
        return None;
    }
    let last = &frames[frames.len() - 1];
    match &last.source_location {
        None => None,
        Some(location) => {
            let (source_file, line_number) = match split_once(location.as_str(), ':') {
                None => {
                    proof {
                        lemma_no_position(location@, ':');
                        assert(location@.subrange(0, location@.len() as int) =~= location@);
                    }
                    (location.clone(), 0)
                },
                Some((before, after)) => {
                    proof {
                        lemma_first_position(before@, ':', after@);
                        let at = before@.len() as int;
                        assert(location@[at] == ':');
                        assert(location@.subrange(0, at) =~= before@);
                        assert(location@.subrange(at + 1, location@.len() as int) =~= after@);
                    }
                    let line: usize = match parse_number(after.as_str()) {
                        Some(n) => if n <= usize::MAX as u64 {
                            n as usize
                        } else {
                            0
                        },
                        None => 0,
                    };
                    (before, line)
                },
            };
            Some(
                CodeSnippet {
                    source_file,
                    line_number,
                    code: last.term.clone(),
                    highlight: String::from_str(SNIPPET_HIGHLIGHT),
                },
            )
        },
    }
}

/// `prefix` followed by `text`.
fn prefixed(prefix: &str, text: &str) -> (res: String)
    ensures
        res@ == prefix@ + text@,
{
    let mut out = String::from_str(prefix);
    out.append(text);
    out
}

impl FailureReport {
    /// The report of a run whose frames are `frames` and whose reading is
    /// `failure`.
    pub fn generate(frames: &Vec<Frame>, failure: ValidationFailure) -> (res: FailureReport)
        ensures
            res@ == report_of(frames@, failure@),
    {
        let signatories = format_debug_list(&failure.provided.signatories);
        let mut transaction_provided: Vec<String> = Vec::new();
        transaction_provided.push(prefixed(PROVIDED_REDEEMER, failure.provided.redeemer.as_str()));
        transaction_provided.push(prefixed(PROVIDED_DATUM, failure.provided.datum.as_str()));
        transaction_provided.push(prefixed(PROVIDED_SIGNATORIES, signatories.as_str()));
        let res = FailureReport {
            validator_intent: failure.intent,
            transaction_provided,
            failure_reason: format_failure_reason(&failure.root_cause),
            technical_root_cause: extract_failing_term(frames),
            how_to_fix: lines(failure.fix_suggestion.as_str()),
            failing_code_snippet: find_source_location(frames),
        };
        assert(res@.transaction_provided =~= report_of(frames@, failure@).transaction_provided);
        res
    }

    /// The text of the report.
    pub fn display(&self) -> (res: String)
        ensures
            res@ == report_text(self@),
    {
        let mut out = String::from_str(REPORT_HEADER);
        out.append(self.validator_intent.as_str());
        out.append(REPORT_PROVIDED);
        let ghost provided_start = out@;
        let ghost provided = strings_view(self.transaction_provided@);
        let mut i: usize = 0;
        assert(provided.subrange(0, 0) =~= Seq::<Seq<char>>::empty());
        while i < self.transaction_provided.len()
            invariant
                i <= self.transaction_provided.len(),
                provided == strings_view(self.transaction_provided@),
                out@ == provided_start + bulleted(provided.subrange(0, i as int)),
            decreases self.transaction_provided.len() - i,
        {
            if i > 0 {
                out.append(LINE_END);
            }
            out.append(BULLET);
            out.append(self.transaction_provided[i].as_str());
            proof {
                let upto = provided.subrange(0, i + 1);
                assert(upto.drop_last() =~= provided.subrange(0, i as int));
                assert(upto.last() == self.transaction_provided@[i as int]@);
                if i == 0 {
                    assert(upto[0] == upto.last());
                    assert(bulleted(provided.subrange(0, 0)) =~= Seq::<char>::empty());
                }
                assert(out@ =~= provided_start + bulleted(upto));
            }
            i = i + 1;
        }
        assert(provided.subrange(0, i as int) =~= provided);
        out.append(REPORT_REASON);
        out.append(self.failure_reason.as_str());
        out.append(REPORT_CAUSE);
        out.append(self.technical_root_cause.as_str());
        out.append(REPORT_FIX);
        let ghost fix_start = out@;
        let ghost fixes = strings_view(self.how_to_fix@);
        let mut j: usize = 0;
        assert(fixes.subrange(0, 0) =~= Seq::<Seq<char>>::empty());
        while j < self.how_to_fix.len()
            invariant
                j <= self.how_to_fix.len(),
                fixes == strings_view(self.how_to_fix@),
                out@ == fix_start + numbered(fixes.subrange(0, j as int)),
            decreases self.how_to_fix.len() - j,
        {
            if j > 0 {
                out.append(LINE_END);
            }
            out.append(INDENT);
            push_decimal(&mut out, (j + 1) as u128);
            out.append(NUMBER_END);
            out.append(self.how_to_fix[j].as_str());
            proof {
                let upto = fixes.subrange(0, j + 1);
                assert(upto.drop_last() =~= fixes.subrange(0, j as int));
                assert(upto.last() == self.how_to_fix@[j as int]@);
                if j == 0 {
                    assert(upto[0] == upto.last());
                    assert(numbered(fixes.subrange(0, 0)) =~= Seq::<char>::empty());
                }
                assert(out@ =~= fix_start + numbered(upto));
            }
            j = j + 1;
        }
        assert(fixes.subrange(0, j as int) =~= fixes);
        out.append(REPORT_GAP);
        let ghost snippet_start = out@;
        match &self.failing_code_snippet {
            Some(snippet) => {
                out.append(SNIPPET_START);
                out.append(snippet.source_file.as_str());
                out.append(SNIPPET_LINE);
                push_decimal(&mut out, snippet.line_number as u128);
                out.append(SNIPPET_CODE);
                out.append(snippet.code.as_str());
                out.append(SNIPPET_MARK);
                out.append(snippet.highlight.as_str());
            },
            None => {},
        }
        assert(out@ =~= snippet_start + snippet_text(self@.failing_code_snippet));
        out.append(REPORT_FOOTER);
        assert(out@ =~= report_text(self@));
        out
    }
}

} // verus!
