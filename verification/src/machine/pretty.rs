//! The textual rendering of terms.

use crate::machine::term::{terms_view, Constant, ConstantV, DefaultFunction, Term, TermV};
use vstd::prelude::*;
use vstd::string::StringExecFns;

verus! {

/// The character of a decimal or hexadecimal digit.
pub open spec fn digit_char(d: nat) -> char {
    if d == 0 {
        '0'
    } else if d == 1 {
        '1'
    } else if d == 2 {
        '2'
    } else if d == 3 {
        '3'
    } else if d == 4 {
        '4'
    } else if d == 5 {
        '5'
    } else if d == 6 {
        '6'
    } else if d == 7 {
        '7'
    } else if d == 8 {
        '8'
    } else if d == 9 {
        '9'
    } else if d == 10 {
        'a'
    } else if d == 11 {
        'b'
    } else if d == 12 {
        'c'
    } else if d == 13 {
        'd'
    } else if d == 14 {
        'e'
    } else {
        'f'
    }
}

/// A natural number in decimal, without leading zeros.
pub open spec fn decimal(n: nat) -> Seq<char>
    decreases n,
{
    if n < 10 {
        seq![digit_char(n)]
    } else {
        decimal(n / 10) + seq![digit_char(n % 10)]
    }
}

/// An integer in decimal, with a minus sign where it is negative.
pub open spec fn signed_decimal(i: int) -> Seq<char> {
    if i < 0 {
        seq!['-'] + decimal((-i) as nat)
    } else {
        decimal(i as nat)
    }
}

/// Bytes in hexadecimal, two lower-case digits each.
pub open spec fn hex(bytes: Seq<u8>) -> Seq<char>
    decreases bytes.len(),
{
    if bytes.len() == 0 {
        Seq::empty()
    } else {
        hex(bytes.drop_last()) + seq![
            digit_char((bytes.last() / 16) as nat),
            digit_char((bytes.last() % 16) as nat),
        ]
    }
}

/// The name of a builtin.
pub open spec fn builtin_name(fun: DefaultFunction) -> Seq<char> {
    match fun {
        DefaultFunction::AddInteger => "addInteger"@,
        DefaultFunction::SubtractInteger => "subtractInteger"@,
        DefaultFunction::MultiplyInteger => "multiplyInteger"@,
        DefaultFunction::EqualsInteger => "equalsInteger"@,
        DefaultFunction::LessThanInteger => "lessThanInteger"@,
        DefaultFunction::LessThanEqualsInteger => "lessThanEqualsInteger"@,
        DefaultFunction::AppendByteString => "appendByteString"@,
        DefaultFunction::EqualsByteString => "equalsByteString"@,
        DefaultFunction::LengthOfByteString => "lengthOfByteString"@,
        DefaultFunction::IfThenElse => "ifThenElse"@,
    }
}

/// A constant as its type and its literal.
pub open spec fn render_constant(c: ConstantV) -> Seq<char> {
    match c {
        ConstantV::Integer(i) => "integer "@ + signed_decimal(i),
        ConstantV::ByteString(bytes) => "bytestring #"@ + hex(bytes),
        ConstantV::Bool(b) => if b {
            "bool True"@
        } else {
            "bool False"@
        },
        ConstantV::Unit => "unit ()"@,
        ConstantV::Data(bytes) => "data #"@ + hex(bytes),
    }
}

/// Each of `terms` rendered after a space, one after the other.
pub open spec fn render_each(terms: Seq<TermV>) -> Seq<char>
    decreases terms, 0nat,
{
    if terms.len() == 0 {
        Seq::empty()
    } else {
        render_each(terms.drop_last()) + " "@ + render(terms.last())
    }
}

/// The text of a term. A variable is `i_` and its index; every lambda names
/// its parameter `i_0`.
pub open spec fn render(term: TermV) -> Seq<char>
    decreases term, 1nat,
{
    match term {
        TermV::Var(i) => "i_"@ + decimal(i),
        TermV::Lambda(body) => "(lam i_0 "@ + render(*body) + ")"@,
        TermV::Apply(function, argument) => "["@ + render(*function) + " "@ + render(*argument)
            + "]"@,
        TermV::Delay(body) => "(delay "@ + render(*body) + ")"@,
        TermV::Force(body) => "(force "@ + render(*body) + ")"@,
        TermV::Constant(c) => "(con "@ + render_constant(c) + ")"@,
        TermV::Builtin(fun) => "(builtin "@ + builtin_name(fun) + ")"@,
        TermV::Constr(tag, fields) => "(constr "@ + decimal(tag) + render_each(fields) + ")"@,
        TermV::Case(scrutinee, branches) => "(case "@ + render(*scrutinee) + render_each(branches)
            + ")"@,
        TermV::Error => "(error)"@,
    }
}

/// The text of one digit.
fn digit_str(d: u8) -> (res: &'static str)
    requires
        d < 16,
    ensures
        res@ == seq![digit_char(d as nat)],
{
    proof {
        reveal_strlit("0");
        reveal_strlit("1");
        reveal_strlit("2");
        reveal_strlit("3");
        reveal_strlit("4");
        reveal_strlit("5");
        reveal_strlit("6");
        reveal_strlit("7");
        reveal_strlit("8");
        reveal_strlit("9");
        reveal_strlit("a");
        reveal_strlit("b");
        reveal_strlit("c");
        reveal_strlit("d");
        reveal_strlit("e");
        reveal_strlit("f");
    }
    let res = match d {
        0 => "0",
        1 => "1",
        2 => "2",
        3 => "3",
        4 => "4",
        5 => "5",
        6 => "6",
        7 => "7",
        8 => "8",
        9 => "9",
        10 => "a",
        11 => "b",
        12 => "c",
        13 => "d",
        14 => "e",
        _ => "f",
    };
    assert(res@ =~= seq![digit_char(d as nat)]);
    res
}

/// Appends `n` in decimal.
pub fn push_decimal(out: &mut String, n: u128)
    ensures
        final(out)@ == old(out)@ + decimal(n as nat),
    decreases n,
{
    if n >= 10 {
        push_decimal(out, n / 10);
    }
    out.append(digit_str((n % 10) as u8));
    assert(out@ =~= old(out)@ + decimal(n as nat));
}

/// Appends `i` in decimal, with its sign.
pub fn push_signed_decimal(out: &mut String, i: i128)
    ensures
        final(out)@ == old(out)@ + signed_decimal(i as int),
{
    if i < 0 {
        proof {
            reveal_strlit("-");
        }
        out.append("-");
        let magnitude: u128 = (-(i + 1)) as u128 + 1;
        push_decimal(out, magnitude);
        assert(out@ =~= old(out)@ + signed_decimal(i as int));
    } else {
        push_decimal(out, i as u128);
    }
}

/// Appends `bytes` in hexadecimal.
pub fn push_hex(out: &mut String, bytes: &Vec<u8>)
    ensures
        final(out)@ == old(out)@ + hex(bytes@),
{
    let ghost start = out@;
    let mut i: usize = 0;
    assert(out@ =~= start + hex(bytes@.subrange(0, 0)));
    while i < bytes.len()
        invariant
            i <= bytes.len(),
            out@ == start + hex(bytes@.subrange(0, i as int)),
        decreases bytes.len() - i,
    {
        let byte = bytes[i];
        let ghost before = out@;
        out.append(digit_str(byte / 16));
        out.append(digit_str(byte % 16));
        i = i + 1;
        proof {
            let upto = bytes@.subrange(0, i as int);
            assert(upto.drop_last() =~= bytes@.subrange(0, i - 1));
            assert(upto.last() == byte);
            assert(out@ =~= start + hex(upto));
        }
    }
    assert(bytes@.subrange(0, i as int) =~= bytes@);
}

/// The name of `fun`.
pub fn name_of(fun: DefaultFunction) -> (res: &'static str)
    ensures
        res@ == builtin_name(fun),
{
    match fun {
        DefaultFunction::AddInteger => "addInteger",
        DefaultFunction::SubtractInteger => "subtractInteger",
        DefaultFunction::MultiplyInteger => "multiplyInteger",
        DefaultFunction::EqualsInteger => "equalsInteger",
        DefaultFunction::LessThanInteger => "lessThanInteger",
        DefaultFunction::LessThanEqualsInteger => "lessThanEqualsInteger",
        DefaultFunction::AppendByteString => "appendByteString",
        DefaultFunction::EqualsByteString => "equalsByteString",
        DefaultFunction::LengthOfByteString => "lengthOfByteString",
        DefaultFunction::IfThenElse => "ifThenElse",
    }
}

/// Appends the text of a constant.
fn push_constant(out: &mut String, c: &Constant)
    ensures
        final(out)@ == old(out)@ + render_constant(c@),
{
    match c {
        Constant::Integer(i) => {
            out.append("integer ");
            push_signed_decimal(out, *i);
        },
        Constant::ByteString(bytes) => {
            out.append("bytestring #");
            push_hex(out, bytes);
        },
        Constant::Bool(b) => {
            if *b {
                out.append("bool True");
            } else {
                out.append("bool False");
            }
        },
        Constant::Unit => {
            out.append("unit ()");
        },
        Constant::Data(bytes) => {
            out.append("data #");
            push_hex(out, bytes);
        },
    }
    assert(out@ =~= old(out)@ + render_constant(c@));
}

/// Appends each of `terms`, which are the subterms of `parent`, after a
/// space.
fn push_each(out: &mut String, terms: &Vec<Term>, Ghost(parent): Ghost<TermV>)
    requires
        forall|i: int| 0 <= i < terms@.len() ==> decreases_to!(parent => (#[trigger] terms@[i])@),
    ensures
        final(out)@ == old(out)@ + render_each(terms_view(terms@)),
    decreases parent, 0nat,
{
    let ghost start = out@;
    let ghost all = terms_view(terms@);
    let mut j: usize = 0;
    assert(out@ =~= start + render_each(all.subrange(0, 0)));
    while j < terms.len()
        invariant
            j <= terms.len(),
            all == terms_view(terms@),
            forall|i: int| 0 <= i < terms@.len() ==> decreases_to!(parent => (#[trigger] terms@[i])@),
            out@ == start + render_each(all.subrange(0, j as int)),
        decreases terms.len() - j,
    {
        out.append(" ");
        push_term(out, &terms[j]);
        j = j + 1;
        proof {
            let upto = all.subrange(0, j as int);
            assert(upto.drop_last() =~= all.subrange(0, j - 1));
            assert(upto.last() == terms@[j - 1]@);
            assert(out@ =~= start + render_each(upto));
        }
    }
    assert(all.subrange(0, j as int) =~= all);
}

/// Appends the text of `term`.
pub fn push_term(out: &mut String, term: &Term)
    ensures
        final(out)@ == old(out)@ + render(term@),
    decreases term@, 1nat,
{
    proof {
        term.lemma_model_lists();
        match term {
            Term::Constr(_, fields) => {
                let all = term@->Constr_1;
                assert forall|i: int| 0 <= i < fields@.len() implies decreases_to!(term@ => (#[trigger] fields@[i])@) by {
                    assert(all[i] == fields@[i]@);
                    assert(decreases_to!(term@ => all));
                    assert(decreases_to!(all => all[i]));
                }
            },
            Term::Case(scrutinee, branches) => {
                let all = term@->Case_1;
                assert(*term@->Case_0 == scrutinee@);
                assert forall|i: int| 0 <= i < branches@.len() implies decreases_to!(term@ => (#[trigger] branches@[i])@) by {
                    assert(all[i] == branches@[i]@);
                    assert(decreases_to!(term@ => all));
                    assert(decreases_to!(all => all[i]));
                }
            },
            _ => {},
        }
    }
    match term {
        Term::Var(i) => {
            out.append("i_");
            push_decimal(out, *i as u128);
        },
        Term::Lambda(body) => {
            out.append("(lam i_0 ");
            push_term(out, body);
            out.append(")");
        },
        Term::Apply(function, argument) => {
            out.append("[");
            push_term(out, function);
            out.append(" ");
            push_term(out, argument);
            out.append("]");
        },
        Term::Delay(body) => {
            out.append("(delay ");
            push_term(out, body);
            out.append(")");
        },
        Term::Force(body) => {
            out.append("(force ");
            push_term(out, body);
            out.append(")");
        },
        Term::Constant(c) => {
            out.append("(con ");
            push_constant(out, c);
            out.append(")");
        },
        Term::Builtin(fun) => {
            out.append("(builtin ");
            out.append(name_of(*fun));
            out.append(")");
        },
        Term::Constr(tag, fields) => {
            out.append("(constr ");
            push_decimal(out, *tag as u128);
            push_each(out, fields, Ghost(term@));
            out.append(")");
        },
        Term::Case(scrutinee, branches) => {
            out.append("(case ");
            push_term(out, scrutinee);
            push_each(out, branches, Ghost(term@));
            out.append(")");
        },
        Term::Error => {
            out.append("(error)");
        },
    }
    assert(out@ =~= old(out)@ + render(term@));
}

impl Term {
    /// The text of the term.
    pub fn to_string(&self) -> (res: String)
        ensures
            res@ == render(self@),
    {
        let mut out = String::new();
        push_term(&mut out, self);
        assert(out@ =~= render(self@));
        out
    }
}

} // verus!
