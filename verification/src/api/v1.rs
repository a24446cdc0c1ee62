//! The first version of the service's interface.

pub mod auth;
pub mod category;
pub mod entries;
pub mod entry;
pub mod metrics;
pub mod sessions;
pub mod tag;
pub mod user;

use crate::services::auth::{after_authorize, authorized};
use crate::store::StoreView;
use crate::util::error::EphemerideError;
use vstd::prelude::*;

verus! {

/// What a request that acts for a user does to the store and answers: the
/// session of its token is marked as used at `now`, and `then` says what
/// happens next, for the store so marked and the session's user. A request
/// whose token resolves to no session does nothing more, and is answered
/// with the error of the authorization.
pub open spec fn gated<T>(
    s: StoreView,
    header: Option<Seq<char>>,
    now: i64,
    then: spec_fn(StoreView, Seq<char>) -> (StoreView, Result<T, EphemerideError>),
) -> (StoreView, Result<T, EphemerideError>) {
    let marked = after_authorize(s, header, now);
    match authorized(s, header) {
        Ok(session) => then(marked, session.user_id),
        Err(error) => (marked, Err(error)),
    }
}

/// The answer to a request to change or delete something, from the answer
/// of the operation: that nothing was there to change is the error
/// `missing`.
pub open spec fn found_or(
    done: (StoreView, Result<bool, EphemerideError>),
    missing: EphemerideError,
) -> (StoreView, Result<(), EphemerideError>) {
    (
        done.0,
        match done.1 {
            Ok(true) => Ok(()),
            Ok(false) => Err(missing),
            Err(error) => Err(error),
        },
    )
}

/// The answer to a request to change or delete something, from the answer
/// of the operation.
pub fn answer(done: Result<bool, EphemerideError>, missing: EphemerideError) -> (r: Result<
    (),
    EphemerideError,
>)
    ensures
        r == match done {
            Ok(true) => Ok::<(), EphemerideError>(()),
            Ok(false) => Err(missing),
            Err(error) => Err(error),
        },
{
    match done {
        Ok(true) => Ok(()),
        Ok(false) => Err(missing),
        Err(error) => Err(error),
    }
}

} // verus!
