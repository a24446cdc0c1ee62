//! Requests for the sessions of the current user.

use crate::services::auth::{
    list_sessions, sessions_listed, token_from_header, token_of, touched, Session, SessionImage,
};
use crate::store::{outcomes, sound, Store, StoreView};
use crate::util::error::EphemerideError;
use crate::util::unix_time::unix_ms;
use vstd::prelude::*;

verus! {

/// What a request for the sessions of the current user does and answers:
/// the token is looked up, which marks its session as used at `now`, and
/// the sessions of its user are listed. A request without a token is
/// answered with `SessionNotFound`.
pub open spec fn sessions_requested(s: StoreView, header: Option<Seq<char>>, now: i64) -> (
    StoreView,
    Result<Seq<SessionImage>, EphemerideError>,
) {
    match header {
        Some(header) => (
            touched(s, token_of(header), now),
            sessions_listed(s, token_of(header), now),
        ),
        None => (s, Err(EphemerideError::SessionNotFound)),
    }
}

/// The sessions of the user of the request's session, at a given time.
pub fn get_sessions_at(store: &mut Store, authorization: Option<&str>, now: i64) -> (r: Result<
    Vec<Session>,
    EphemerideError,
>)
    ensures
        sound(old(store)@) ==> sound(final(store)@),
        (final(store)@, outcomes(r)) == sessions_requested(
            old(store)@,
            authorization.deep_view(),
            now,
        ),
{
    match token_from_header(authorization) {
        Some(token) => list_sessions(store, token.as_str(), now),
        None => Err(EphemerideError::SessionNotFound),
    }
}

/// The sessions of the user of the request's session.
pub fn get_sessions(store: &mut Store, authorization: Option<&str>) -> (r: Result<
    Vec<Session>,
    EphemerideError,
>)
    ensures
        sound(old(store)@) ==> sound(final(store)@),
        exists|now: i64|
            (final(store)@, outcomes(r)) == #[trigger] sessions_requested(
                old(store)@,
                authorization.deep_view(),
                now,
            ),
{
    get_sessions_at(store, authorization, unix_ms())
}

} // verus!
