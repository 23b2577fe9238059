//! The textual form of programs.
//!
//! A program is `(program MAJOR.MINOR.PATCH TERM)`. A term is a name; a
//! lambda `(lam NAME TERM)`; an application `[TERM TERM ...]`, which applies
//! its first term to each of the others in turn; `(delay TERM)`;
//! `(force TERM)`; a constant `(con TYPE LITERAL)`; `(builtin NAME)`;
//! `(constr TAG TERM ...)`; `(case TERM TERM ...)`; or `(error)`. White
//! space separates and is otherwise ignored.
//!
//! A name stands for the innermost lambda that binds it; a name that no
//! lambda binds and that reads `i_` and a number stands for the binding
//! with that index.
//!
//! Terms may nest no deeper than [`NESTING_LIMIT`] allows; a text that
//! nests deeper is refused like any other that is not a program.

use crate::codec::{hex_decoded, hex_digit_value, is_hex};
use crate::machine::discharge::apply_all;
use crate::machine::term::{terms_view, Constant, ConstantV, DefaultFunction, Term, TermV};
use crate::program::{Program, ProgramV};
use std::rc::Rc;
use vstd::prelude::*;
use vstd::string::StringSliceAdditionalSpecFns;

verus! {

/// A text is not a program.
#[derive(Clone, Copy, Debug, PartialEq, Eq, Structural)]
pub enum ParseError {
    /// The text does not follow the grammar.
    Syntax,
}

/// The bytes of a text.
pub open spec fn bytes_of(text: &str) -> Seq<u8> {
    text.spec_bytes()
}

/// A space, a tab, a line feed or a carriage return.
pub open spec fn is_space(b: u8) -> bool {
    b == 32 || b == 9 || b == 10 || b == 13
}

/// A letter, a digit, an underscore or an apostrophe.
pub open spec fn is_word_byte(b: u8) -> bool {
    (97 <= b <= 122) || (65 <= b <= 90) || (48 <= b <= 57) || b == 95 || b == 39
}

/// The first position from `pos` on that holds no white space.
pub open spec fn skip_spaces(input: Seq<u8>, pos: nat) -> nat
    decreases input.len() - pos,
{
    if pos < input.len() && is_space(input[pos as int]) {
        skip_spaces(input, pos + 1)
    } else {
        pos
    }
}

/// The end of the word that starts at `pos`: the first position from
/// `pos` on that holds no byte of a word.
pub open spec fn word_end(input: Seq<u8>, pos: nat) -> nat
    decreases input.len() - pos,
{
    if pos < input.len() && is_word_byte(input[pos as int]) {
        word_end(input, pos + 1)
    } else {
        pos
    }
}

/// The position after the byte `b`, which is to stand at `pos` after any
/// white space.
pub open spec fn expect(input: Seq<u8>, pos: nat, b: u8) -> Option<nat> {
    let at = skip_spaces(input, pos);
    if at < input.len() && input[at as int] == b {
        Some(at + 1)
    } else {
        None
    }
}

/// The word that stands at `pos` after any white space, and the position
/// after it; `None` where no word stands there.
pub open spec fn word_at(input: Seq<u8>, pos: nat) -> Option<(Seq<u8>, nat)> {
    let from = skip_spaces(input, pos);
    let to = word_end(input, from);
    if to > from {
        Some((input.subrange(from as int, to as int), to))
    } else {
        None
    }
}

/// The number that decimal digits spell.
pub open spec fn digits_value(digits: Seq<u8>) -> nat
    decreases digits.len(),
{
    if digits.len() == 0 {
        0
    } else {
        10 * digits_value(digits.drop_last()) + (digits.last() - 48) as nat
    }
}

/// The number that a word spells: the word is one decimal digit or more.
pub open spec fn natural(word: Seq<u8>) -> Option<nat> {
    if word.len() > 0 && forall|i: int| 0 <= i < word.len() ==> 48 <= #[trigger] word[i] <= 57 {
        Some(digits_value(word))
    } else {
        None
    }
}

/// The number that a word spells, where an index can hold it.
pub open spec fn index_of_word(word: Seq<u8>) -> Option<usize> {
    match natural(word) {
        Some(n) => if n <= usize::MAX {
            Some(n as usize)
        } else {
            None
        },
        None => None,
    }
}

/// The integer that stands at `pos` after any white space, and the position
/// after it: an optional sign and a number, which the machine's integers
/// can hold.
pub open spec fn integer_at(input: Seq<u8>, pos: nat) -> Option<(int, nat)> {
    let at = skip_spaces(input, pos);
    let negative = at < input.len() && input[at as int] == 45;
    let signed = at < input.len() && (input[at as int] == 45 || input[at as int] == 43);
    let from = if signed {
        at + 1
    } else {
        at
    };
    let to = word_end(input, from);
    match natural(input.subrange(from as int, to as int)) {
        None => None,
        Some(n) => {
            let value = if negative {
                -(n as int)
            } else {
                n as int
            };
            if i128::MIN <= value <= i128::MAX {
                Some((value, to))
            } else {
                None
            }
        },
    }
}

/// The bytes that stand at `pos` after any white space, and the position
/// after them: a number sign and hexadecimal digits, two for each byte.
pub open spec fn hex_at(input: Seq<u8>, pos: nat) -> Option<(Seq<u8>, nat)> {
    match expect(input, pos, 35) {
        None => None,
        Some(from) => {
            let to = word_end(input, from);
            let digits = input.subrange(from as int, to as int);
            if is_hex(digits) {
                Some((hex_decoded(digits), to))
            } else {
                None
            }
        },
    }
}

/// The constant that stands at `pos`, and the position after it: the name
/// of its type, then its literal.
pub open spec fn constant_at(input: Seq<u8>, pos: nat) -> Option<(ConstantV, nat)> {
    match word_at(input, pos) {
        None => None,
        Some((kind, after)) => if kind == bytes_of("integer") {
            match integer_at(input, after) {
                Some((i, end)) => Some((ConstantV::Integer(i), end)),
                None => None,
            }
        } else if kind == bytes_of("bytestring") {
            match hex_at(input, after) {
                Some((bytes, end)) => Some((ConstantV::ByteString(bytes), end)),
                None => None,
            }
        } else if kind == bytes_of("data") {
            match hex_at(input, after) {
                Some((bytes, end)) => Some((ConstantV::Data(bytes), end)),
                None => None,
            }
        } else if kind == bytes_of("bool") {
            match word_at(input, after) {
                Some((literal, end)) => if literal == bytes_of("True") {
                    Some((ConstantV::Bool(true), end))
                } else if literal == bytes_of("False") {
                    Some((ConstantV::Bool(false), end))
                } else {
                    None
                },
                None => None,
            }
        } else if kind == bytes_of("unit") {
            match expect(input, after, 40) {
                Some(open) => match expect(input, open, 41) {
                    Some(end) => Some((ConstantV::Unit, end)),
                    None => None,
                },
                None => None,
            }
        } else {
            None
        },
    }
}

/// The builtin that a name stands for.
pub open spec fn builtin_of(name: Seq<u8>) -> Option<DefaultFunction> {
    if name == bytes_of("addInteger") {
        Some(DefaultFunction::AddInteger)
    } else if name == bytes_of("subtractInteger") {
        Some(DefaultFunction::SubtractInteger)
    } else if name == bytes_of("multiplyInteger") {
        Some(DefaultFunction::MultiplyInteger)
    } else if name == bytes_of("equalsInteger") {
        Some(DefaultFunction::EqualsInteger)
    } else if name == bytes_of("lessThanInteger") {
        Some(DefaultFunction::LessThanInteger)
    } else if name == bytes_of("lessThanEqualsInteger") {
        Some(DefaultFunction::LessThanEqualsInteger)
    } else if name == bytes_of("appendByteString") {
        Some(DefaultFunction::AppendByteString)
    } else if name == bytes_of("equalsByteString") {
        Some(DefaultFunction::EqualsByteString)
    } else if name == bytes_of("lengthOfByteString") {
        Some(DefaultFunction::LengthOfByteString)
    } else if name == bytes_of("ifThenElse") {
        Some(DefaultFunction::IfThenElse)
    } else {
        None
    }
}

/// The index of the innermost binding of `name` in `scope`, which lists the
/// names that are bound, outermost first.
pub open spec fn bound_index(scope: Seq<Seq<u8>>, name: Seq<u8>) -> Option<nat>
    decreases scope.len(),
{
    if scope.len() == 0 {
        None
    } else if scope.last() == name {
        Some(0)
    } else {
        match bound_index(scope.drop_last(), name) {
            Some(i) => Some(i + 1),
            None => None,
        }
    }
}

/// The index that a name spells by itself: `i_` and a number.
pub open spec fn spelled_index(name: Seq<u8>) -> Option<usize> {
    if name.len() > 2 && name[0] == 105 && name[1] == 95 {
        index_of_word(name.subrange(2, name.len() as int))
    } else {
        None
    }
}

/// The variable that `name` stands for under `scope`.
pub open spec fn resolve(scope: Seq<Seq<u8>>, name: Seq<u8>) -> Option<nat> {
    match bound_index(scope, name) {
        Some(i) => Some(i),
        None => match spelled_index(name) {
            Some(i) => Some(i as nat),
            None => None,
        },
    }
}

/// `term` once the closing parenthesis has been read at `pos`.
pub open spec fn closed(input: Seq<u8>, pos: nat, term: TermV) -> Option<(TermV, nat)> {
    match expect(input, pos, 41) {
        Some(end) => Some((term, end)),
        None => None,
    }
}

/// The term that follows the keyword `keyword` of a parenthesis, and the
/// position after its closing parenthesis.
pub open spec fn form_at(
    input: Seq<u8>,
    keyword: Seq<u8>,
    pos: nat,
    scope: Seq<Seq<u8>>,
    depth: nat,
) -> Option<(TermV, nat)>
    decreases depth, 2nat, 0nat,
{
    if depth == 0 {
        None
    } else if keyword == bytes_of("lam") {
        match word_at(input, pos) {
            None => None,
            Some((name, after)) => match term_at(input, after, scope.push(name), (depth - 1) as nat) {
                None => None,
                Some((body, end)) => closed(input, end, TermV::Lambda(Box::new(body))),
            },
        }
    } else if keyword == bytes_of("delay") {
        match term_at(input, pos, scope, (depth - 1) as nat) {
            None => None,
            Some((body, end)) => closed(input, end, TermV::Delay(Box::new(body))),
        }
    } else if keyword == bytes_of("force") {
        match term_at(input, pos, scope, (depth - 1) as nat) {
            None => None,
            Some((body, end)) => closed(input, end, TermV::Force(Box::new(body))),
        }
    } else if keyword == bytes_of("con") {
        match constant_at(input, pos) {
            None => None,
            Some((c, end)) => closed(input, end, TermV::Constant(c)),
        }
    } else if keyword == bytes_of("builtin") {
        match word_at(input, pos) {
            None => None,
            Some((name, end)) => match builtin_of(name) {
                None => None,
                Some(fun) => closed(input, end, TermV::Builtin(fun)),
            },
        }
    } else if keyword == bytes_of("constr") {
        match word_at(input, pos) {
            None => None,
            Some((word, after)) => match index_of_word(word) {
                None => None,
                Some(tag) => match terms_at(input, after, scope, (depth - 1) as nat) {
                    None => None,
                    Some((fields, end)) => closed(input, end, TermV::Constr(tag as nat, fields)),
                },
            },
        }
    } else if keyword == bytes_of("case") {
        match term_at(input, pos, scope, (depth - 1) as nat) {
            None => None,
            Some((scrutinee, after)) => match terms_at(input, after, scope, (depth - 1) as nat) {
                None => None,
                Some((branches, end)) => closed(
                    input,
                    end,
                    TermV::Case(Box::new(scrutinee), branches),
                ),
            },
        }
    } else if keyword == bytes_of("error") {
        closed(input, pos, TermV::Error)
    } else {
        None
    }
}

/// The term that stands at `pos` after any white space, under the names of
/// `scope`, and the position after it. `depth` bounds how deeply terms may
/// nest from here on.
pub open spec fn term_at(input: Seq<u8>, pos: nat, scope: Seq<Seq<u8>>, depth: nat) -> Option<
    (TermV, nat),
>
    decreases depth, 3nat, 0nat,
{
    let at = skip_spaces(input, pos);
    if depth == 0 || at >= input.len() {
        None
    } else if input[at as int] == 40 {
        match word_at(input, at + 1) {
            None => None,
            Some((keyword, after)) => form_at(input, keyword, after, scope, (depth - 1) as nat),
        }
    } else if input[at as int] == 91 {
        match term_at(input, at + 1, scope, (depth - 1) as nat) {
            None => None,
            Some((head, after)) => match terms_at(input, after, scope, (depth - 1) as nat) {
                None => None,
                Some((arguments, end)) => if arguments.len() == 0 {
                    None
                } else {
                    match expect(input, end, 93) {
                        None => None,
                        Some(done) => Some((apply_all(head, arguments), done)),
                    }
                },
            },
        }
    } else {
        match word_at(input, at) {
            None => None,
            Some((name, end)) => match resolve(scope, name) {
                None => None,
                Some(index) => Some((TermV::Var(index), end)),
            },
        }
    }
}

/// The terms that stand at `pos`, one after the other, up to a closing
/// parenthesis or bracket or the end of the text, and the position after
/// the last of them. A list holds no more terms than the text has bytes.
pub open spec fn terms_at(input: Seq<u8>, pos: nat, scope: Seq<Seq<u8>>, depth: nat) -> Option<
    (Seq<TermV>, nat),
>
    decreases depth, 1nat, 0nat,
{
    terms_from(input, pos, scope, depth, input.len())
}

/// The terms that stand at `pos`, of which there are to be no more than
/// `count`. The terms of a list nest as deeply as the list itself does.
pub open spec fn terms_from(
    input: Seq<u8>,
    pos: nat,
    scope: Seq<Seq<u8>>,
    depth: nat,
    count: nat,
) -> Option<(Seq<TermV>, nat)>
    decreases depth, 0nat, count,
{
    let at = skip_spaces(input, pos);
    if at >= input.len() || input[at as int] == 41 || input[at as int] == 93 {
        Some((Seq::empty(), pos))
    } else if depth == 0 || count == 0 {
        None
    } else {
        match term_at(input, pos, scope, (depth - 1) as nat) {
            None => None,
            Some((first, after)) => match terms_from(
                input,
                after,
                scope,
                depth,
                (count - 1) as nat,
            ) {
                None => None,
                Some((rest, end)) => Some((seq![first] + rest, end)),
            },
        }
    }
}

/// One number of a version, which stands at `pos`, and the position after
/// it.
pub open spec fn version_part_at(input: Seq<u8>, pos: nat) -> Option<(usize, nat)> {
    let to = word_end(input, pos);
    match index_of_word(input.subrange(pos as int, to as int)) {
        Some(n) => Some((n, to)),
        None => None,
    }
}

/// The byte `b`, which is to stand at `pos` itself.
pub open spec fn stands_at(input: Seq<u8>, pos: nat, b: u8) -> bool {
    pos < input.len() && input[pos as int] == b
}

/// The version that stands at `pos` after any white space, and the position
/// after it: three numbers with a full stop between them.
pub open spec fn version_at(input: Seq<u8>, pos: nat) -> Option<((usize, usize, usize), nat)> {
    match version_part_at(input, skip_spaces(input, pos)) {
        None => None,
        Some((major, a)) => if !stands_at(input, a, 46) {
            None
        } else {
            match version_part_at(input, a + 1) {
                None => None,
                Some((minor, b)) => if !stands_at(input, b, 46) {
                    None
                } else {
                    match version_part_at(input, b + 1) {
                        None => None,
                        Some((patch, end)) => Some(((major, minor, patch), end)),
                    }
                },
            }
        },
    }
}

/// How deeply the terms of a program may nest, in levels of reading: a term
/// in parentheses takes one level for itself and one for what follows its
/// keyword, and the terms of a list stand one level below the list. The
/// reader takes stack for each level, and this many fit a stack of ordinary
/// size.
pub const NESTING_LIMIT: usize = 1024;

/// How deeply the terms of a program may nest.
pub open spec fn nesting_limit() -> nat {
    NESTING_LIMIT as nat
}

/// The program that a text spells: the program in parentheses, and nothing
/// but white space after it.
pub open spec fn program_of(input: Seq<u8>) -> Option<ProgramV> {
    match expect(input, 0, 40) {
        None => None,
        Some(a) => match word_at(input, a) {
            None => None,
            Some((keyword, b)) => if keyword != bytes_of("program") {
                None
            } else {
                match version_at(input, b) {
                    None => None,
                    Some((version, c)) => match term_at(input, c, Seq::empty(), nesting_limit()) {
                        None => None,
                        Some((term, d)) => match expect(input, d, 41) {
                            None => None,
                            Some(end) => if skip_spaces(input, end) == input.len() {
                                Some(
                                    ProgramV {
                                        version: (
                                            version.0 as nat,
                                            version.1 as nat,
                                            version.2 as nat,
                                        ),
                                        term,
                                    },
                                )
                            } else {
                                None
                            },
                        },
                    },
                }
            },
        },
    }
}

/// A number is at least the number that any of its leading digits spell.
proof fn lemma_digits_grow(digits: Seq<u8>, k: int)
    requires
        0 <= k <= digits.len(),
        forall|i: int| 0 <= i < digits.len() ==> 48 <= #[trigger] digits[i] <= 57,
    ensures
        digits_value(digits.subrange(0, k)) <= digits_value(digits),
    decreases digits.len() - k,
{
    if k == digits.len() {
        assert(digits.subrange(0, k) =~= digits);
    } else {
        let next = digits.subrange(0, k + 1);
        assert(next.drop_last() =~= digits.subrange(0, k));
        lemma_digits_grow(digits, k + 1);
    }
}

/// The names of a scope as sequences of bytes.
pub open spec fn scope_view(scope: Seq<Vec<u8>>) -> Seq<Seq<u8>> {
    Seq::new(scope.len(), |i: int| scope[i]@)
}

fn skip(input: &[u8], pos: usize) -> (res: usize)
    requires
        pos <= input@.len(),
    ensures
        res == skip_spaces(input@, pos as nat),
        pos <= res <= input@.len(),
{
    let mut at = pos;
    while at < input.len() && (input[at] == 32 || input[at] == 9 || input[at] == 10 || input[at]
        == 13)
        invariant
            pos <= at <= input@.len(),
            skip_spaces(input@, at as nat) == skip_spaces(input@, pos as nat),
        decreases input@.len() - at,
    {
        at = at + 1;
    }
    at
}

fn is_word(b: u8) -> (res: bool)
    ensures
        res == is_word_byte(b),
{
    (97 <= b && b <= 122) || (65 <= b && b <= 90) || (48 <= b && b <= 57) || b == 95 || b == 39
}

fn end_of_word(input: &[u8], pos: usize) -> (res: usize)
    requires
        pos <= input@.len(),
    ensures
        res == word_end(input@, pos as nat),
        pos <= res <= input@.len(),
{
    let mut at = pos;
    while at < input.len() && is_word(input[at])
        invariant
            pos <= at <= input@.len(),
            word_end(input@, at as nat) == word_end(input@, pos as nat),
        decreases input@.len() - at,
    {
        at = at + 1;
    }
    at
}

fn expect_byte(input: &[u8], pos: usize, b: u8) -> (res: Option<usize>)
    requires
        pos <= input@.len(),
    ensures
        match res {
            Some(end) => expect(input@, pos as nat, b) == Some(end as nat) && pos < end
                <= input@.len(),
            None => expect(input@, pos as nat, b) is None,
        },
{
    let at = skip(input, pos);
    if at < input.len() && input[at] == b {
        Some(at + 1)
    } else {
        None
    }
}

/// The bounds of the word at `pos`.
fn read_word(input: &[u8], pos: usize) -> (res: Option<(usize, usize)>)
    requires
        pos <= input@.len(),
    ensures
        match res {
            Some((from, to)) => {
                &&& pos <= from < to <= input@.len()
                &&& word_at(input@, pos as nat) == Some(
                    (input@.subrange(from as int, to as int), to as nat),
                )
            },
            None => word_at(input@, pos as nat) is None,
        },
{
    let from = skip(input, pos);
    let to = end_of_word(input, from);
    if to > from {
        Some((from, to))
    } else {
        None
    }
}

/// Whether the bytes from `from` to `to` spell `keyword`.
fn word_is(input: &[u8], from: usize, to: usize, keyword: &str) -> (res: bool)
    requires
        from <= to <= input@.len(),
    ensures
        res == (input@.subrange(from as int, to as int) == bytes_of(keyword)),
{
    let wanted = keyword.as_bytes();
    let ghost word = input@.subrange(from as int, to as int);
    if wanted.len() != to - from {
        return false;
    }
    let mut i: usize = 0;
    while i < wanted.len()
        invariant
            from <= to <= input@.len(),
            wanted@ == bytes_of(keyword),
            wanted@.len() == to - from,
            word == input@.subrange(from as int, to as int),
            i <= wanted@.len(),
            forall|k: int| 0 <= k < i ==> word[k] == wanted@[k],
        decreases wanted@.len() - i,
    {
        if input[from + i] != wanted[i] {
            assert(word[i as int] != wanted@[i as int]);
            return false;
        }
        i = i + 1;
    }
    assert(word =~= wanted@);
    true
}

/// The number that the digits from `from` to `to` spell, where it is no
/// more than `limit`.
fn read_natural(input: &[u8], from: usize, to: usize, limit: u128) -> (res: Option<u128>)
    requires
        from <= to <= input@.len(),
    ensures
        match res {
            Some(n) => natural(input@.subrange(from as int, to as int)) == Some(n as nat) && n
                <= limit,
            None => match natural(input@.subrange(from as int, to as int)) {
                Some(n) => n > limit,
                None => true,
            },
        },
{
    let ghost word = input@.subrange(from as int, to as int);
    if to == from {
        return None;
    }
    let mut value: u128 = 0;
    let mut i: usize = from;
    assert(word.subrange(0, 0) =~= Seq::<u8>::empty());
    while i < to
        invariant
            from <= i <= to <= input@.len(),
            word == input@.subrange(from as int, to as int),
            forall|k: int| 0 <= k < i - from ==> 48 <= #[trigger] word[k] <= 57,
            value == digits_value(word.subrange(0, i - from)),
            value <= limit,
        decreases to - i,
    {
        let b = input[i];
        if b < 48 || b > 57 {
            assert(word[i - from] == b);
            return None;
        }
        let digit: u128 = (b - 48) as u128;
        proof {
            let next = word.subrange(0, i - from + 1);
            assert(next.drop_last() =~= word.subrange(0, i - from));
            assert(next.last() == b);
            assert(word[i - from] == b);
        }
        if digit > limit || value > (limit - digit) / 10 {
            proof {
                assert(10 * value + digit > limit);
                if forall|k: int| 0 <= k < word.len() ==> 48 <= #[trigger] word[k] <= 57 {
                    lemma_digits_grow(word, i - from + 1);
                }
            }
            return None;
        }
        value = 10 * value + digit;
        i = i + 1;
    }
    assert(word.subrange(0, to - from) =~= word);
    Some(value)
}

fn read_index(input: &[u8], from: usize, to: usize) -> (res: Option<usize>)
    requires
        from <= to <= input@.len(),
    ensures
        res == index_of_word(input@.subrange(from as int, to as int)),
{
    match read_natural(input, from, to, usize::MAX as u128) {
        Some(n) => Some(n as usize),
        None => None,
    }
}

fn read_integer(input: &[u8], pos: usize) -> (res: Option<(i128, usize)>)
    requires
        pos <= input@.len(),
    ensures
        match res {
            Some((i, end)) => integer_at(input@, pos as nat) == Some((i as int, end as nat))
                && pos <= end <= input@.len(),
            None => integer_at(input@, pos as nat) is None,
        },
{
    let at = skip(input, pos);
    let negative = at < input.len() && input[at] == 45;
    let signed = at < input.len() && (input[at] == 45 || input[at] == 43);
    let from = if signed {
        at + 1
    } else {
        at
    };
    let to = end_of_word(input, from);
    if negative {
        match read_natural(input, from, to, 0x8000_0000_0000_0000_0000_0000_0000_0000) {
            None => None,
            Some(n) => {
                if n == 0x8000_0000_0000_0000_0000_0000_0000_0000 {
                    Some((i128::MIN, to))
                } else {
                    Some((-(n as i128), to))
                }
            },
        }
    } else {
        match read_natural(input, from, to, 0x7fff_ffff_ffff_ffff_ffff_ffff_ffff_ffff) {
            None => None,
            Some(n) => Some((n as i128, to)),
        }
    }
}

fn hex_value(b: u8) -> (res: Option<u8>)
    ensures
        match res {
            Some(v) => hex_digit_value(b) == Some(v as int) && v < 16,
            None => hex_digit_value(b) is None,
        },
{
    if 0x30 <= b && b <= 0x39 {
        Some(b - 0x30)
    } else if 0x41 <= b && b <= 0x46 {
        Some(b - 0x41 + 10)
    } else if 0x61 <= b && b <= 0x66 {
        Some(b - 0x61 + 10)
    } else {
        None
    }
}

fn read_hex(input: &[u8], pos: usize) -> (res: Option<(Vec<u8>, usize)>)
    requires
        pos <= input@.len(),
    ensures
        match res {
            Some((bytes, end)) => hex_at(input@, pos as nat) == Some((bytes@, end as nat)) && pos
                <= end <= input@.len(),
            None => hex_at(input@, pos as nat) is None,
        },
{
    let from = match expect_byte(input, pos, 35) {
        None => {
            return None;
        },
        Some(from) => from,
    };
    let to = end_of_word(input, from);
    let ghost digits = input@.subrange(from as int, to as int);
    if (to - from) % 2 != 0 {
        return None;
    }
    let mut bytes: Vec<u8> = Vec::new();
    let mut i: usize = from;
    while i < to
        invariant
            from <= i <= to <= input@.len(),
            (i - from) % 2 == 0,
            (to - from) % 2 == 0,
            expect(input@, pos as nat, 35) == Some(from as nat),
            to == word_end(input@, from as nat),
            digits == input@.subrange(from as int, to as int),
            forall|k: int| 0 <= k < i - from ==> hex_digit_value(#[trigger] digits[k]) is Some,
            bytes@.len() == (i - from) / 2,
            forall|k: int| 0 <= k < bytes@.len() ==> #[trigger] bytes@[k] == hex_decoded(digits)[k],
        decreases to - i,
    {
        assert(digits[i - from] == input@[i as int]);
        assert(digits[i - from + 1] == input@[i + 1]);
        let high = match hex_value(input[i]) {
            None => {
                return None;
            },
            Some(v) => v,
        };
        let low = match hex_value(input[i + 1]) {
            None => {
                return None;
            },
            Some(v) => v,
        };
        bytes.push(16 * high + low);
        i = i + 2;
    }
    assert(bytes@ =~= hex_decoded(digits));
    Some((bytes, to))
}

fn read_constant(input: &[u8], pos: usize) -> (res: Option<(Constant, usize)>)
    requires
        pos <= input@.len(),
    ensures
        match res {
            Some((c, end)) => constant_at(input@, pos as nat) == Some((c@, end as nat)) && pos
                <= end <= input@.len(),
            None => constant_at(input@, pos as nat) is None,
        },
{
    let (from, to) = match read_word(input, pos) {
        None => {
            return None;
        },
        Some(word) => word,
    };
    if word_is(input, from, to, "integer") {
        match read_integer(input, to) {
            Some((i, end)) => Some((Constant::Integer(i), end)),
            None => None,
        }
    } else if word_is(input, from, to, "bytestring") {
        match read_hex(input, to) {
            Some((bytes, end)) => Some((Constant::ByteString(bytes), end)),
            None => None,
        }
    } else if word_is(input, from, to, "data") {
        match read_hex(input, to) {
            Some((bytes, end)) => Some((Constant::Data(bytes), end)),
            None => None,
        }
    } else if word_is(input, from, to, "bool") {
        match read_word(input, to) {
            Some((a, b)) => if word_is(input, a, b, "True") {
                Some((Constant::Bool(true), b))
            } else if word_is(input, a, b, "False") {
                Some((Constant::Bool(false), b))
            } else {
                None
            },
            None => None,
        }
    } else if word_is(input, from, to, "unit") {
        match expect_byte(input, to, 40) {
            Some(open) => match expect_byte(input, open, 41) {
                Some(end) => Some((Constant::Unit, end)),
                None => None,
            },
            None => None,
        }
    } else {
        None
    }
}

fn read_builtin(input: &[u8], from: usize, to: usize) -> (res: Option<DefaultFunction>)
    requires
        from <= to <= input@.len(),
    ensures
        res == builtin_of(input@.subrange(from as int, to as int)),
{
    if word_is(input, from, to, "addInteger") {
        Some(DefaultFunction::AddInteger)
    } else if word_is(input, from, to, "subtractInteger") {
        Some(DefaultFunction::SubtractInteger)
    } else if word_is(input, from, to, "multiplyInteger") {
        Some(DefaultFunction::MultiplyInteger)
    } else if word_is(input, from, to, "equalsInteger") {
        Some(DefaultFunction::EqualsInteger)
    } else if word_is(input, from, to, "lessThanInteger") {
        Some(DefaultFunction::LessThanInteger)
    } else if word_is(input, from, to, "lessThanEqualsInteger") {
        Some(DefaultFunction::LessThanEqualsInteger)
    } else if word_is(input, from, to, "appendByteString") {
        Some(DefaultFunction::AppendByteString)
    } else if word_is(input, from, to, "equalsByteString") {
        Some(DefaultFunction::EqualsByteString)
    } else if word_is(input, from, to, "lengthOfByteString") {
        Some(DefaultFunction::LengthOfByteString)
    } else if word_is(input, from, to, "ifThenElse") {
        Some(DefaultFunction::IfThenElse)
    } else {
        None
    }
}

/// Whether `name` holds the bytes from `from` to `to`.
fn name_is(name: &Vec<u8>, input: &[u8], from: usize, to: usize) -> (res: bool)
    requires
        from <= to <= input@.len(),
    ensures
        res == (name@ == input@.subrange(from as int, to as int)),
{
    let ghost word = input@.subrange(from as int, to as int);
    if name.len() != to - from {
        return false;
    }
    let mut i: usize = 0;
    while i < name.len()
        invariant
            from <= to <= input@.len(),
            name@.len() == to - from,
            word == input@.subrange(from as int, to as int),
            i <= name@.len(),
            forall|k: int| 0 <= k < i ==> word[k] == name@[k],
        decreases name@.len() - i,
    {
        if input[from + i] != name[i] {
            assert(word[i as int] != name@[i as int]);
            return false;
        }
        i = i + 1;
    }
    assert(word =~= name@);
    true
}

/// The variable that the name from `from` to `to` stands for under `scope`.
fn resolve_name(scope: &Vec<Vec<u8>>, input: &[u8], from: usize, to: usize) -> (res: Option<usize>)
    requires
        from < to <= input@.len(),
    ensures
        match res {
            Some(index) => resolve(scope_view(scope@), input@.subrange(from as int, to as int))
                == Some(index as nat),
            None => resolve(scope_view(scope@), input@.subrange(from as int, to as int)) is None,
        },
{
    let ghost names = scope_view(scope@);
    let ghost name = input@.subrange(from as int, to as int);
    let mut i: usize = scope.len();
    assert(names.subrange(0, i as int) =~= names);
    while i > 0
        invariant
            from < to <= input@.len(),
            i <= scope@.len(),
            names == scope_view(scope@),
            name == input@.subrange(from as int, to as int),
            bound_index(names, name) == match bound_index(names.subrange(0, i as int), name) {
                Some(k) => Some(k + (scope@.len() - i) as nat),
                None => None,
            },
        decreases i,
    {
        let ghost upto = names.subrange(0, i as int);
        assert(upto.last() == scope@[i - 1]@);
        assert(upto.drop_last() =~= names.subrange(0, i - 1));
        if name_is(&scope[i - 1], input, from, to) {
            return Some(scope.len() - i);
        }
        i = i - 1;
    }
    assert(names.subrange(0, 0) =~= Seq::<Seq<u8>>::empty());
    if to - from > 2 && input[from] == 105 && input[from + 1] == 95 {
        assert(name[0] == input@[from as int]);
        assert(name[1] == input@[from + 1]);
        assert(name.subrange(2, name.len() as int) =~= input@.subrange(from + 2, to as int));
        read_index(input, from + 2, to)
    } else {
        assert(name[0] == input@[from as int]);
        if to - from > 2 {
            assert(name[1] == input@[from + 1]);
        }
        None
    }
}

/// A copy of the bytes from `from` to `to`.
fn copy_word(input: &[u8], from: usize, to: usize) -> (res: Vec<u8>)
    requires
        from <= to <= input@.len(),
    ensures
        res@ == input@.subrange(from as int, to as int),
{
    let mut out: Vec<u8> = Vec::new();
    let mut i: usize = from;
    while i < to
        invariant
            from <= i <= to <= input@.len(),
            out@ == input@.subrange(from as int, i as int),
        decreases to - i,
    {
        out.push(input[i]);
        i = i + 1;
        assert(out@ =~= input@.subrange(from as int, i as int));
    }
    out
}

/// `head` applied to each of `arguments` in turn.
fn apply_to_all(head: Term, arguments: &Vec<Term>) -> (res: Term)
    ensures
        res@ == apply_all(head@, terms_view(arguments@)),
{
    let ghost all = terms_view(arguments@);
    let ghost first = head@;
    let mut term = head;
    let mut i: usize = 0;
    assert(all.subrange(0, 0) =~= Seq::<TermV>::empty());
    while i < arguments.len()
        invariant
            i <= arguments@.len(),
            all == terms_view(arguments@),
            term@ == apply_all(first, all.subrange(0, i as int)),
        decreases arguments@.len() - i,
    {
        proof {
            let upto = all.subrange(0, i + 1);
            assert(upto.drop_last() =~= all.subrange(0, i as int));
            assert(upto.last() == arguments@[i as int]@);
        }
        term = Term::Apply(Rc::new(term), Rc::new(arguments[i].share()));
        i = i + 1;
    }
    assert(all.subrange(0, i as int) =~= all);
    term
}

fn close(input: &[u8], pos: usize, term: Term) -> (res: Option<(Term, usize)>)
    requires
        pos <= input@.len(),
    ensures
        match res {
            Some((t, end)) => closed(input@, pos as nat, term@) == Some((t@, end as nat)) && pos
                < end <= input@.len(),
            None => closed(input@, pos as nat, term@) is None,
        },
{
    match expect_byte(input, pos, 41) {
        Some(end) => Some((term, end)),
        None => None,
    }
}

/// `res` is the exec form of the spec result `expected`.
pub open spec fn same_term(res: Option<(Term, usize)>, expected: Option<(TermV, nat)>) -> bool {
    match res {
        Some((term, end)) => expected == Some((term@, end as nat)),
        None => expected is None,
    }
}

fn read_form(
    input: &[u8],
    keyword_from: usize,
    keyword_to: usize,
    pos: usize,
    scope: &mut Vec<Vec<u8>>,
    depth: usize,
) -> (res: Option<(Term, usize)>)
    requires
        keyword_from <= keyword_to <= input@.len(),
        pos <= input@.len(),
    ensures
        final(scope)@ == old(scope)@,
        res matches Some((_, end)) ==> pos <= end <= input@.len(),
        same_term(
            res,
            form_at(
                input@,
                input@.subrange(keyword_from as int, keyword_to as int),
                pos as nat,
                scope_view(old(scope)@),
                depth as nat,
            ),
        ),
    decreases depth, 1nat,
{
    if depth == 0 {
        return None;
    }
    if word_is(input, keyword_from, keyword_to, "lam") {
        let (from, to) = match read_word(input, pos) {
            None => {
                return None;
            },
            Some(word) => word,
        };
        let ghost outer = scope@;
        scope.push(copy_word(input, from, to));
        assert(scope_view(scope@) =~= scope_view(outer).push(input@.subrange(from as int, to as int)));
        let body = read_term(input, to, scope, depth - 1);
        scope.pop();
        assert(scope@ =~= outer);
        match body {
            None => None,
            Some((body, end)) => close(input, end, Term::Lambda(Rc::new(body))),
        }
    } else if word_is(input, keyword_from, keyword_to, "delay") {
        match read_term(input, pos, scope, depth - 1) {
            None => None,
            Some((body, end)) => close(input, end, Term::Delay(Rc::new(body))),
        }
    } else if word_is(input, keyword_from, keyword_to, "force") {
        match read_term(input, pos, scope, depth - 1) {
            None => None,
            Some((body, end)) => close(input, end, Term::Force(Rc::new(body))),
        }
    } else if word_is(input, keyword_from, keyword_to, "con") {
        match read_constant(input, pos) {
            None => None,
            Some((c, end)) => close(input, end, Term::Constant(Rc::new(c))),
        }
    } else if word_is(input, keyword_from, keyword_to, "builtin") {
        match read_word(input, pos) {
            None => None,
            Some((from, to)) => match read_builtin(input, from, to) {
                None => None,
                Some(fun) => close(input, to, Term::Builtin(fun)),
            },
        }
    } else if word_is(input, keyword_from, keyword_to, "constr") {
        match read_word(input, pos) {
            None => None,
            Some((from, to)) => match read_index(input, from, to) {
                None => None,
                Some(tag) => match read_terms(input, to, scope, depth - 1) {
                    None => None,
                    Some((fields, end)) => {
                        let term = Term::Constr(tag, Rc::new(fields));
                        proof {
                            term.lemma_model_lists();
                        }
                        close(input, end, term)
                    },
                },
            },
        }
    } else if word_is(input, keyword_from, keyword_to, "case") {
        match read_term(input, pos, scope, depth - 1) {
            None => None,
            Some((scrutinee, after)) => match read_terms(input, after, scope, depth - 1) {
                None => None,
                Some((branches, end)) => {
                    let term = Term::Case(Rc::new(scrutinee), Rc::new(branches));
                    proof {
                        term.lemma_model_lists();
                    }
                    close(input, end, term)
                },
            },
        }
    } else if word_is(input, keyword_from, keyword_to, "error") {
        close(input, pos, Term::Error)
    } else {
        None
    }
}

fn read_term(input: &[u8], pos: usize, scope: &mut Vec<Vec<u8>>, depth: usize) -> (res: Option<
    (Term, usize),
>)
    requires
        pos <= input@.len(),
    ensures
        final(scope)@ == old(scope)@,
        res matches Some((_, end)) ==> pos <= end <= input@.len(),
        same_term(res, term_at(input@, pos as nat, scope_view(old(scope)@), depth as nat)),
    decreases depth, 2nat,
{
    let at = skip(input, pos);
    if depth == 0 || at >= input.len() {
        return None;
    }
    if input[at] == 40 {
        match read_word(input, at + 1) {
            None => None,
            Some((from, to)) => read_form(input, from, to, to, scope, depth - 1),
        }
    } else if input[at] == 91 {
        match read_term(input, at + 1, scope, depth - 1) {
            None => None,
            Some((head, after)) => match read_terms(input, after, scope, depth - 1) {
                None => None,
                Some((arguments, end)) => {
                    if arguments.len() == 0 {
                        None
                    } else {
                        match expect_byte(input, end, 93) {
                            None => None,
                            Some(done) => Some((apply_to_all(head, &arguments), done)),
                        }
                    }
                },
            },
        }
    } else {
        match read_word(input, at) {
            None => None,
            Some((from, to)) => match resolve_name(scope, input, from, to) {
                None => None,
                Some(index) => Some((Term::Var(index), to)),
            },
        }
    }
}

/// What a list of terms is once `done` of them have been read: the rest of
/// the list after them.
pub open spec fn after_terms(done: Seq<TermV>, rest: Option<(Seq<TermV>, nat)>) -> Option<
    (Seq<TermV>, nat),
> {
    match rest {
        Some((terms, end)) => Some((done + terms, end)),
        None => None,
    }
}

fn read_terms(input: &[u8], pos: usize, scope: &mut Vec<Vec<u8>>, depth: usize) -> (res: Option<
    (Vec<Term>, usize),
>)
    requires
        pos <= input@.len(),
    ensures
        final(scope)@ == old(scope)@,
        res matches Some((_, end)) ==> pos <= end <= input@.len(),
        match res {
            Some((terms, end)) => terms_at(
                input@,
                pos as nat,
                scope_view(old(scope)@),
                depth as nat,
            ) == Some((terms_view(terms@), end as nat)),
            None => terms_at(input@, pos as nat, scope_view(old(scope)@), depth as nat) is None,
        },
    decreases depth, 0nat,
{
    let ghost names = scope_view(scope@);
    let ghost whole = terms_at(input@, pos as nat, names, depth as nat);
    let mut terms: Vec<Term> = Vec::new();
    let mut at = pos;
    let mut left = input.len();
    assert(terms_view(terms@) =~= Seq::<TermV>::empty());
    loop
        invariant
            pos <= at <= input@.len(),
            scope@ == old(scope)@,
            names == scope_view(scope@),
            whole == terms_at(input@, pos as nat, names, depth as nat),
            whole == after_terms(
                terms_view(terms@),
                terms_from(input@, at as nat, names, depth as nat, left as nat),
            ),
        decreases left,
    {
        let next = skip(input, at);
        if next >= input.len() || input[next] == 41 || input[next] == 93 {
            assert(terms_view(terms@) + Seq::<TermV>::empty() =~= terms_view(terms@));
            return Some((terms, at));
        }
        if depth == 0 || left == 0 {
            return None;
        }
        match read_term(input, at, scope, depth - 1) {
            None => {
                return None;
            },
            Some((term, after)) => {
                proof {
                    let before = terms_view(terms@);
                    let rest = terms_from(
                        input@,
                        after as nat,
                        names,
                        depth as nat,
                        (left - 1) as nat,
                    );
                    match rest {
                        Some((others, end)) => {
                            assert(before + (seq![term@] + others) =~= before.push(term@) + others);
                        },
                        None => {},
                    }
                    assert(terms_view(terms@.push(term)) =~= before.push(term@));
                }
                terms.push(term);
                at = after;
                left = left - 1;
            },
        }
    }
}

fn read_version_part(input: &[u8], pos: usize) -> (res: Option<(usize, usize)>)
    requires
        pos <= input@.len(),
    ensures
        match res {
            Some((n, end)) => version_part_at(input@, pos as nat) == Some((n, end as nat)) && pos
                <= end <= input@.len(),
            None => version_part_at(input@, pos as nat) is None,
        },
{
    let to = end_of_word(input, pos);
    match read_index(input, pos, to) {
        Some(n) => Some((n, to)),
        None => None,
    }
}

fn read_version(input: &[u8], pos: usize) -> (res: Option<((usize, usize, usize), usize)>)
    requires
        pos <= input@.len(),
    ensures
        match res {
            Some((version, end)) => version_at(input@, pos as nat) == Some((version, end as nat))
                && pos <= end <= input@.len(),
            None => version_at(input@, pos as nat) is None,
        },
{
    let start = skip(input, pos);
    let (major, a) = match read_version_part(input, start) {
        None => {
            return None;
        },
        Some(part) => part,
    };
    if !(a < input.len() && input[a] == 46) {
        return None;
    }
    let (minor, b) = match read_version_part(input, a + 1) {
        None => {
            return None;
        },
        Some(part) => part,
    };
    if !(b < input.len() && input[b] == 46) {
        return None;
    }
    match read_version_part(input, b + 1) {
        None => None,
        Some((patch, end)) => Some(((major, minor, patch), end)),
    }
}

/// Reads a program from its text.
pub fn parse_program(text: &str) -> (res: Result<Program, ParseError>)
    ensures
        match res {
            Ok(program) => program_of(bytes_of(text)) == Some(program@),
            Err(_) => program_of(bytes_of(text)) is None,
        },
{
    let input = text.as_bytes();
    let a = match expect_byte(input, 0, 40) {
        None => {
            return Err(ParseError::Syntax);
        },
        Some(a) => a,
    };
    let (from, b) = match read_word(input, a) {
        None => {
            return Err(ParseError::Syntax);
        },
        Some(word) => word,
    };
    if !word_is(input, from, b, "program") {
        return Err(ParseError::Syntax);
    }
    let (version, c) = match read_version(input, b) {
        None => {
            return Err(ParseError::Syntax);
        },
        Some(v) => v,
    };
    let mut scope: Vec<Vec<u8>> = Vec::new();
    assert(scope_view(scope@) =~= Seq::<Seq<u8>>::empty());
    let (term, d) = match read_term(input, c, &mut scope, NESTING_LIMIT) {
        None => {
            return Err(ParseError::Syntax);
        },
        Some(t) => t,
    };
    let end = match expect_byte(input, d, 41) {
        None => {
            return Err(ParseError::Syntax);
        },
        Some(end) => end,
    };
    if skip(input, end) != input.len() {
        return Err(ParseError::Syntax);
    }
    Ok(Program { version, term })
}

} // verus!
