//! Hashing passwords and checking them against a stored hash.

use vstd::prelude::*;

verus! {

/// The error type of the `bcrypt` crate.
#[verifier::external_type_specification]
#[verifier::external_body]
pub struct ExBcryptError(bcrypt::BcryptError);

/// The cost that passwords are hashed with where none is configured.
pub const DEFAULT_COST: u32 = 12;

/// What `bcrypt::verify` answers for a password and a stored hash: whether
/// the hash was made from the password, or `None` where the hash cannot be
/// read.
pub uninterp spec fn password_verdict(password: Seq<char>, hash: Seq<char>) -> Option<bool>;

/// `bcrypt::verify`: the answer is the verdict that `password_verdict` names,
/// a function of the password and the hash alone.
#[verifier::external_body]
pub(crate) fn verify_password(password: &str, hash: &str) -> (r: Result<bool, bcrypt::BcryptError>)
    ensures
        match r {
            Ok(matches) => password_verdict(password@, hash@) == Some(matches),
            Err(_) => password_verdict(password@, hash@) is None,
        },
{
    bcrypt::verify(password, hash)
}

/// `bcrypt::hash`: a salted hash of the password. The salt is random, so
/// nothing is claimed of the hash; a cost outside 4 to 31 is refused.
#[verifier::external_body]
pub(crate) fn hash_password(password: &str, cost: u32) -> (r: Result<String, bcrypt::BcryptError>)
    ensures
        cost < 4 || cost > 31 ==> r is Err,
{
    bcrypt::hash(password, cost)
}

} // verus!
