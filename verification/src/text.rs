//! Text: lower case, substring search and splitting into tokens.

use vstd::prelude::*;

verus! {

/// The lower-case form of a text, as the standard library defines it for
/// every character of Unicode.
pub uninterp spec fn lowercase_of(text: Seq<char>) -> Seq<char>;

/// The tokens of a text: its maximal runs of characters that are not white
/// space, in order, as the standard library tells white space apart.
pub uninterp spec fn tokens_of(text: Seq<char>) -> Seq<Seq<char>>;

/// A line without the carriage return at its end, if it has one.
pub open spec fn without_carriage_return(line: Seq<char>) -> Seq<char> {
    if line.len() > 0 && line.last() == '\r' {
        line.drop_last()
    } else {
        line
    }
}

/// The lines of a text, without their line endings. A line ends with a line
/// feed, or with a carriage return and a line feed; a carriage return that
/// no line feed follows belongs to its line; the last line needs no line
/// ending, and a text that ends with one has no empty line after it.
pub open spec fn lines_of(text: Seq<char>) -> Seq<Seq<char>>
    decreases text.len(),
{
    let at = first_position(text, '\n');
    if text.len() == 0 {
        Seq::empty()
    } else if at >= text.len() {
        seq![text]
    } else {
        seq![without_carriage_return(text.subrange(0, at as int))] + lines_of(
            text.subrange(at as int + 1, text.len() as int),
        )
    }
}

/// A list of texts as the standard library writes it for debugging: in
/// square brackets, each text quoted and escaped.
pub uninterp spec fn debug_list(items: Seq<Seq<char>>) -> Seq<char>;

/// The number that decimal digits spell.
pub open spec fn digits_number(digits: Seq<char>) -> nat
    decreases digits.len(),
{
    if digits.len() == 0 {
        0
    } else {
        10 * digits_number(digits.drop_last()) + (digits.last() as int - 48) as nat
    }
}

/// Every character is one of the ten decimal digits.
pub open spec fn all_decimal(digits: Seq<char>) -> bool {
    forall|i: int| 0 <= i < digits.len() ==> 48 <= (#[trigger] digits[i]) as int <= 57
}

/// The number that a text spells: an optional plus sign, then one decimal
/// digit or more and nothing else; `None` where the text is not of that
/// form or spells a number that 64 bits cannot hold.
pub open spec fn number_of(text: Seq<char>) -> Option<u64> {
    let digits = if text.len() > 0 && text[0] == '+' {
        text.drop_first()
    } else {
        text
    };
    if digits.len() > 0 && all_decimal(digits) && digits_number(digits) <= u64::MAX {
        Some(digits_number(digits) as u64)
    } else {
        None
    }
}

/// A text without the white space at its start and at its end, as the
/// standard library tells white space apart.
pub uninterp spec fn trimmed(text: Seq<char>) -> Seq<char>;

/// The upper-case form of a text, as the standard library defines it for
/// every character of Unicode.
pub uninterp spec fn uppercase_of(text: Seq<char>) -> Seq<char>;

/// `pattern` stands in `text` at position `at`.
pub open spec fn occurs_at(text: Seq<char>, pattern: Seq<char>, at: int) -> bool {
    0 <= at && at + pattern.len() <= text.len() && text.subrange(at, at + pattern.len())
        == pattern
}

/// `pattern` stands somewhere in `text`.
pub open spec fn contains(text: Seq<char>, pattern: Seq<char>) -> bool {
    exists|at: int| occurs_at(text, pattern, at)
}

/// `text` ends with `pattern`.
pub open spec fn ends_with(text: Seq<char>, pattern: Seq<char>) -> bool {
    occurs_at(text, pattern, text.len() - pattern.len())
}

/// The position of the first `c` in `text`; the length of `text` where it
/// holds none.
pub open spec fn first_position(text: Seq<char>, c: char) -> nat
    decreases text.len(),
{
    if text.len() == 0 {
        0
    } else if text[0] == c {
        0
    } else {
        1 + first_position(text.drop_first(), c)
    }
}

/// In a text that is `before`, then `c`, then `after`, where `before` holds
/// no `c`, the first `c` stands right after `before`.
pub proof fn lemma_first_position(before: Seq<char>, c: char, after: Seq<char>)
    requires
        !before.contains(c),
    ensures
        first_position(before + seq![c] + after, c) == before.len(),
    decreases before.len(),
{
    let text = before + seq![c] + after;
    if before.len() == 0 {
        assert(text[0] == c);
    } else {
        assert(text[0] == before[0]);
        assert(before.contains(before[0]));
        assert(text.drop_first() =~= before.drop_first() + seq![c] + after);
        assert forall|i: int| 0 <= i < before.drop_first().len() implies before.drop_first()[i]
            != c by {
            assert(before.contains(before[i + 1]));
        }
        lemma_first_position(before.drop_first(), c, after);
    }
}

/// No `c` stands before the first `c` of a text, which is no further than
/// the text's end.
pub proof fn lemma_before_first_position(text: Seq<char>, c: char)
    ensures
        first_position(text, c) <= text.len(),
        forall|i: int| 0 <= i < first_position(text, c) ==> text[i] != c,
    decreases text.len(),
{
    if text.len() > 0 && text[0] != c {
        let rest = text.drop_first();
        lemma_before_first_position(rest, c);
        assert forall|i: int| 0 <= i < first_position(text, c) implies text[i] != c by {
            if i > 0 {
                assert(text[i] == rest[i - 1]);
            }
        }
    }
}

/// No line of a text holds a line feed.
pub proof fn lemma_lines_hold_no_line_feed(text: Seq<char>)
    ensures
        forall|k: int|
            0 <= k < lines_of(text).len() ==> !(#[trigger] lines_of(text)[k]).contains('\n'),
    decreases text.len(),
{
    let at = first_position(text, '\n');
    lemma_before_first_position(text, '\n');
    if text.len() > 0 && at < text.len() {
        let first = without_carriage_return(text.subrange(0, at as int));
        let rest = text.subrange(at as int + 1, text.len() as int);
        lemma_lines_hold_no_line_feed(rest);
        assert forall|k: int| 0 <= k < lines_of(text).len() implies !(#[trigger] lines_of(
            text,
        )[k]).contains('\n') by {
            if k == 0 {
                assert forall|i: int| 0 <= i < first.len() implies first[i] != '\n' by {
                    assert(first[i] == text[i]);
                }
            } else {
                assert(lines_of(text)[k] == lines_of(rest)[k - 1]);
            }
        }
    } else if text.len() > 0 {
        assert(lines_of(text) =~= seq![text]);
    }
}

/// A text that holds no `c` has its first `c` at its end.
pub proof fn lemma_no_position(text: Seq<char>, c: char)
    requires
        !text.contains(c),
    ensures
        first_position(text, c) == text.len(),
    decreases text.len(),
{
    if text.len() > 0 {
        assert(text.contains(text[0]));
        assert forall|i: int| 0 <= i < text.drop_first().len() implies text.drop_first()[i] != c by {
            assert(text.contains(text[i + 1]));
        }
        lemma_no_position(text.drop_first(), c);
    }
}

/// The texts of a list of strings, in order.
pub open spec fn strings_view(strings: Seq<String>) -> Seq<Seq<char>> {
    Seq::new(strings.len(), |i: int| strings[i]@)
}

/// `str::to_lowercase`. The contract gives the result the name
/// [`lowercase_of`] and claims nothing more of it.
#[verifier::external_body]
pub(crate) fn to_lowercase(text: &str) -> (res: String)
    ensures
        res@ == lowercase_of(text@),
{
    text.to_lowercase()
}

/// `str::contains` with a string as the pattern. The contract claims that it
/// returns whether the pattern matches a part of the text.
#[verifier::external_body]
pub(crate) fn str_contains(text: &str, pattern: &str) -> (res: bool)
    ensures
        res == contains(text@, pattern@),
{
    text.contains(pattern)
}

/// `str::ends_with` with a string as the pattern. The contract claims that
/// it returns whether the pattern matches the end of the text.
#[verifier::external_body]
pub(crate) fn str_ends_with(text: &str, pattern: &str) -> (res: bool)
    ensures
        res == ends_with(text@, pattern@),
{
    text.ends_with(pattern)
}

/// `str::split_whitespace`, each part turned into a string of its own. The
/// contract gives the parts the name [`tokens_of`] and claims nothing more
/// of them.
#[verifier::external_body]
pub(crate) fn split_whitespace(text: &str) -> (res: Vec<String>)
    ensures
        strings_view(res@) == tokens_of(text@),
{
    text.split_whitespace().map(|token| token.to_string()).collect()
}

/// `str::lines`, each line turned into a string of its own. The contract
/// claims that the lines are those that [`lines_of`] describes: the text
/// split at each line feed, each line without its line feed and without a
/// carriage return right before it.
#[verifier::external_body]
pub(crate) fn lines(text: &str) -> (res: Vec<String>)
    ensures
        strings_view(res@) == lines_of(text@),
{
    text.lines().map(|line| line.to_string()).collect()
}

/// `format!` with `{:?}` on a list of strings. The contract gives the text
/// the name [`debug_list`] and claims nothing more of it.
#[verifier::external_body]
pub(crate) fn format_debug_list(items: &Vec<String>) -> (res: String)
    ensures
        res@ == debug_list(strings_view(items@)),
{
    format!("{:?}", items)
}

/// `str::parse` to a `u64`. The contract claims that it reads what
/// [`number_of`] describes: an optional plus sign and decimal digits, and
/// no number beyond 64 bits.
#[verifier::external_body]
pub(crate) fn parse_number(text: &str) -> (res: Option<u64>)
    ensures
        res == number_of(text@),
{
    text.parse::<u64>().ok()
}

/// `str::split_once` with a character as the delimiter. The contract claims
/// that it splits at the first occurrence of the delimiter, which goes to
/// neither part, and returns `None` where the delimiter does not occur.
#[verifier::external_body]
pub(crate) fn split_once(text: &str, delimiter: char) -> (res: Option<(String, String)>)
    ensures
        match res {
            Some((before, after)) => text@ == before@ + seq![delimiter] + after@
                && !before@.contains(delimiter),
            None => !text@.contains(delimiter),
        },
{
    text.split_once(delimiter).map(|(before, after)| (before.to_string(), after.to_string()))
}

/// `str::trim`, turned into a string of its own. The contract gives the
/// result the name [`trimmed`] and claims nothing more of it.
#[verifier::external_body]
pub(crate) fn trim(text: &str) -> (res: String)
    ensures
        res@ == trimmed(text@),
{
    text.trim().to_string()
}

/// `str::to_uppercase`. The contract gives the result the name
/// [`uppercase_of`] and claims nothing more of it.
#[verifier::external_body]
pub(crate) fn to_uppercase(text: &str) -> (res: String)
    ensures
        res@ == uppercase_of(text@),
{
    text.to_uppercase()
}

/// A copy of `strings`.
pub(crate) fn copy_strings(strings: &Vec<String>) -> (res: Vec<String>)
    ensures
        strings_view(res@) == strings_view(strings@),
{
    let mut out: Vec<String> = Vec::new();
    let mut i: usize = 0;
    while i < strings.len()
        invariant
            i <= strings.len(),
            out.len() == i,
            forall|k: int| 0 <= k < i ==> (#[trigger] out@[k])@ == strings@[k]@,
        decreases strings.len() - i,
    {
        out.push(strings[i].clone());
        i = i + 1;
    }
    assert(strings_view(out@) =~= strings_view(strings@));
    out
}

} // verus!
