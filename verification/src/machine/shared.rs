//! Shared ownership of immutable data.

use std::rc::Rc;
use vstd::prelude::*;

verus! {

/// `Rc::clone`: another pointer to the same allocation. The contract claims
/// that the new pointer reads the same value as the one that was cloned.
#[verifier::external_body]
pub(crate) fn rc_clone<T>(rc: &Rc<T>) -> (res: Rc<T>)
    ensures
        res == *rc,
{
    Rc::clone(rc)
}

} // verus!
