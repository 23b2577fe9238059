//! What the error term means to a reader.

use crate::machine::term::Term;
use vstd::prelude::*;
use vstd::string::StringExecFns;

verus! {

pub const EVALUATION_ERROR: &'static str = "UPLC evaluation error (IndexedTerm::Error)";

/// The message for the error term; `None` for any other term.
pub fn interpret_error(term: &Term) -> (res: Option<String>)
    ensures
        match res {
            Some(message) => term@ is Error && message@ == EVALUATION_ERROR@,
            None => !(term@ is Error),
        },
{
    match term {
        Term::Error => Some(String::from_str(EVALUATION_ERROR)),
        _ => None,
    }
}

} // verus!
