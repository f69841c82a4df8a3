//! The error value that the fallible operations return.

use vstd::prelude::*;

verus! {

/// `kerr::KErr`, carried through as an opaque value.
#[verifier::external_type_specification]
#[verifier::external_body]
pub struct ExKErr(kerr::KErr);

/// The error that `KErr::new` makes of a message: the message in its `err` field, and an
/// empty chain of context behind it.
pub uninterp spec fn error_of(message: Seq<char>) -> kerr::KErr;

/// Calls `KErr::new`, which copies its argument into the error's `err` field and starts an
/// empty chain of context, so that the error is a function of the message alone.
#[verifier::external_body]
pub(crate) fn error_with(message: &str) -> (e: kerr::KErr)
    ensures
        e == error_of(message@),
{
    kerr::KErr::new(message)
}

} // verus!
