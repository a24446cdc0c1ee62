//! Requests to log in.

use crate::services::auth::{
    check_password, create_session_with, session_created, verdict_for, Session, SessionImage,
    SessionMetadata, UserCredentials,
};
use crate::services::user::AuthUser;
use crate::store::{outcome, sound, Store, StoreView};
use crate::util::email::{is_email, valid_email};
use crate::util::error::EphemerideError;
use crate::util::invite_code::new_id;
use crate::util::text::{has_length_within, length_within};
use crate::util::unix_time::unix_ms;
use vstd::prelude::*;

verus! {

/// What a client is told of how to sign up.
#[derive(Debug, Clone, Copy, PartialEq, Eq, Structural)]
pub struct AuthConfig {
    pub invite_required: bool,
}

/// What a client is told of how to sign up, given whether invites are
/// required.
pub fn auth_config(invite_required: bool) -> (config: AuthConfig)
    ensures
        config.invite_required == invite_required,
{
    AuthConfig { invite_required }
}

/// Whether the fields of a request to log in are valid. `email_ok` says
/// whether the email is a valid address.
pub open spec fn valid_login(password: Seq<char>, email_ok: bool) -> bool {
    email_ok && length_within(password, 7, 255)
}

/// What a request to log in does and answers, given whether the email is a
/// valid address and whether the password matches the stored hash. Invalid
/// fields are refused before anything is looked up.
pub open spec fn login_requested(
    s: StoreView,
    email: Seq<char>,
    password: Seq<char>,
    email_ok: bool,
    verdict: Option<bool>,
    ip_address: Seq<char>,
    user_agent: Seq<char>,
    id: Seq<char>,
    now: i64,
) -> (StoreView, Result<SessionImage, EphemerideError>) {
    if !valid_login(password, email_ok) {
        (s, Err(EphemerideError::BadRequest))
    } else {
        session_created(s, email, verdict, ip_address, user_agent, id, now)
    }
}

/// Logs a user in, given whether the email is a valid address, whether the
/// password matches the stored hash, the new session's id and the time.
pub fn authenticate_with(
    store: &mut Store,
    user: AuthUser,
    email_ok: bool,
    verdict: Option<bool>,
    metadata: SessionMetadata,
    id: String,
    now: i64,
) -> (r: Result<Session, EphemerideError>)
    ensures
        sound(old(store)@) ==> sound(final(store)@),
        (final(store)@, outcome(r)) == login_requested(
            old(store)@,
            user.email@,
            user.password@,
            email_ok,
            verdict,
            metadata.ip_address@,
            metadata.user_agent@,
            id@,
            now,
        ),
{
    if !(email_ok && has_length_within(user.password.as_str(), 7, 255)) {
        return Err(EphemerideError::BadRequest);
    }
    create_session_with(store, user.email.as_str(), verdict, metadata, id, now)
}

/// Logs a user in: checks the fields and the password, and opens a session.
pub fn authenticate_user(
    store: &mut Store,
    user: AuthUser,
    metadata: SessionMetadata,
) -> (r: Result<
    Session,
    EphemerideError,
>)
    ensures
        sound(old(store)@) ==> sound(final(store)@),
        exists|id: Seq<char>, now: i64|
            (final(store)@, outcome(r)) == #[trigger] login_requested(
                old(store)@,
                user.email@,
                user.password@,
                valid_email(user.email@),
                verdict_for(old(store)@, user.email@, user.password@),
                metadata.ip_address@,
                metadata.user_agent@,
                id,
                now,
            ),
{
    let email_ok = is_email(user.email.as_str());
    let credentials = UserCredentials {
        email: user.email.clone(),
        password: user.password.clone(),
    };
    let verdict = check_password(store, &credentials);
    authenticate_with(store, user, email_ok, verdict, metadata, new_id(), unix_ms())
}

} // verus!
