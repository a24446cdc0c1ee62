//! Recognising email addresses.

use validator::ValidateEmail;
use vstd::prelude::*;

verus! {

/// Whether `validator::ValidateEmail::validate_email` accepts a text as an
/// email address.
pub uninterp spec fn valid_email(text: Seq<char>) -> bool;

/// `validator::ValidateEmail::validate_email` on a text: the answer is what
/// `valid_email` names, a function of the text alone.
#[verifier::external_body]
pub(crate) fn is_email(text: &str) -> (r: bool)
    ensures
        r == valid_email(text@),
{
    text.validate_email()
}

} // verus!
