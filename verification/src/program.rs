//! Programs: a term with the version of the language it is written in.

use crate::machine::pretty::{decimal, push_decimal, push_term, render};
use crate::machine::term::{Constant, ConstantV, Term, TermV};
use std::rc::Rc;
use vstd::prelude::*;
use vstd::string::StringExecFns;

verus! {

/// A program: the three numbers of its version and its term.
#[derive(Debug, PartialEq, Eq)]
pub struct Program {
    pub version: (usize, usize, usize),
    pub term: Term,
}

/// The mathematical value of a [`Program`].
pub struct ProgramV {
    pub version: (nat, nat, nat),
    pub term: TermV,
}

impl View for Program {
    type V = ProgramV;

    open spec fn view(&self) -> ProgramV {
        ProgramV {
            version: (self.version.0 as nat, self.version.1 as nat, self.version.2 as nat),
            term: self.term@,
        }
    }
}

impl Clone for Program {
    /// A copy of the program that shares its term's subterms.
    fn clone(&self) -> (res: Program)
        ensures
            res@ == self@,
    {
        Program { version: (self.version.0, self.version.1, self.version.2), term: self.term.share() }
    }
}

/// The term that holds `data`, given in its CBOR encoding, as a constant.
pub open spec fn data_term(data: Seq<u8>) -> TermV {
    TermV::Constant(ConstantV::Data(data))
}

/// The text of a program: its version and its term.
pub open spec fn render_program(program: ProgramV) -> Seq<char> {
    "(program "@ + decimal(program.version.0) + "."@ + decimal(program.version.1) + "."@
        + decimal(program.version.2) + " "@ + render(program.term) + ")"@
}

impl Program {
    /// The program whose term is this program's term applied to `data`,
    /// given in its CBOR encoding.
    pub fn apply_data(self, data: Vec<u8>) -> (res: Program)
        ensures
            res@.version == self@.version,
            res@.term == TermV::Apply(Box::new(self@.term), Box::new(data_term(data@))),
    {
        let argument = Term::Constant(Rc::new(Constant::Data(data)));
        assert(argument@ == data_term(data@));
        Program { version: self.version, term: Term::Apply(Rc::new(self.term), Rc::new(argument)) }
    }

    /// The text of the program.
    pub fn to_string(&self) -> (res: String)
        ensures
            res@ == render_program(self@),
    {
        let mut out = String::from_str("(program ");
        push_decimal(&mut out, self.version.0 as u128);
        out.append(".");
        push_decimal(&mut out, self.version.1 as u128);
        out.append(".");
        push_decimal(&mut out, self.version.2 as u128);
        out.append(" ");
        push_term(&mut out, &self.term);
        out.append(")");
        assert(out@ =~= render_program(self@));
        out
    }
}

} // verus!
