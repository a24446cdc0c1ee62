//! The session manager, and the authorization of requests by bearer token.

use crate::services::user::{get_password_hash, get_user_id, user_by_email, user_by_id};
use crate::store::table::{
    amended, first, first_hit, first_hit_none, first_hit_pushed, none_left, remaining, remove,
    select, selected, update, Amend, Record, Row,
};
use crate::store::{append, outcome, outcomes, sound, Store, StoreView};
use crate::util::error::EphemerideError;
use crate::util::invite_code::new_id;
use crate::util::password::{password_verdict, verify_password};
use crate::util::text::{str_eq, strip_prefix, without_prefix};
use crate::util::unix_time::unix_ms;
use vstd::prelude::*;

verus! {

/// A session. Its id is also the bearer token: whoever holds it is
/// authenticated as the session's user.
#[derive(Debug)]
pub struct Session {
    pub id: String,
    pub user_id: String,
    pub created_at: i64,
    pub accessed_at: i64,
    pub ip_address: String,
    pub user_agent: String,
}

/// What contracts say of a session.
pub ghost struct SessionImage {
    pub id: Seq<char>,
    pub user_id: Seq<char>,
    pub created_at: i64,
    pub accessed_at: i64,
    pub ip_address: Seq<char>,
    pub user_agent: Seq<char>,
}

impl View for Session {
    type V = SessionImage;

    open spec fn view(&self) -> SessionImage {
        SessionImage {
            id: self.id@,
            user_id: self.user_id@,
            created_at: self.created_at,
            accessed_at: self.accessed_at,
            ip_address: self.ip_address@,
            user_agent: self.user_agent@,
        }
    }
}

/// What is known of the client that opens a session.
pub struct SessionMetadata {
    pub ip_address: String,
    pub user_agent: String,
}

/// The email and password that a user logs in with.
#[derive(Debug)]
pub struct UserCredentials {
    pub email: String,
    pub password: String,
}

/// Which sessions a lookup asks for.
pub enum SessionQuery {
    Id(String),
    User(String),
    ActiveFor(String, i64),
}

/// What contracts say of a lookup of sessions.
pub ghost enum SessionProbe {
    Id(Seq<char>),
    User(Seq<char>),
    ActiveFor(Seq<char>, i64),
}

impl View for SessionQuery {
    type V = SessionProbe;

    open spec fn view(&self) -> SessionProbe {
        match self {
            SessionQuery::Id(id) => SessionProbe::Id(id@),
            SessionQuery::User(user_id) => SessionProbe::User(user_id@),
            SessionQuery::ActiveFor(user_id, since) => SessionProbe::ActiveFor(user_id@, *since),
        }
    }
}

impl Record for Session {
    fn copy(&self) -> (r: Session) {
        Session {
            id: self.id.clone(),
            user_id: self.user_id.clone(),
            created_at: self.created_at,
            accessed_at: self.accessed_at,
            ip_address: self.ip_address.clone(),
            user_agent: self.user_agent.clone(),
        }
    }
}

impl Row for Session {
    type Query = SessionQuery;

    open spec fn hit(image: SessionImage, query: SessionProbe) -> bool {
        match query {
            SessionProbe::Id(id) => image.id == id,
            SessionProbe::User(user_id) => image.user_id == user_id,
            SessionProbe::ActiveFor(user_id, since) => image.user_id == user_id
                && image.accessed_at >= since,
        }
    }

    fn hits(&self, query: &SessionQuery) -> (r: bool) {
        assert(query@ is Id || query@ is User || query@ is ActiveFor);
        match query {
            SessionQuery::Id(id) => str_eq(self.id.as_str(), id.as_str()),
            SessionQuery::User(user_id) => str_eq(self.user_id.as_str(), user_id.as_str()),
            SessionQuery::ActiveFor(user_id, since) => str_eq(
                self.user_id.as_str(),
                user_id.as_str(),
            ) && self.accessed_at >= *since,
        }
    }
}

/// What an update writes into a session: the time of its last use.
pub struct Touch {
    pub at: i64,
}

impl View for Touch {
    type V = i64;

    open spec fn view(&self) -> i64 {
        self.at
    }
}

impl Amend for Session {
    type Change = Touch;

    open spec fn changed(image: SessionImage, at: i64) -> SessionImage {
        SessionImage { accessed_at: at, ..image }
    }

    fn amend(self, change: &Touch) -> (r: Session) {
        assert(change@ == change.at);
        Session {
            id: self.id,
            user_id: self.user_id,
            created_at: self.created_at,
            accessed_at: change.at,
            ip_address: self.ip_address,
            user_agent: self.user_agent,
        }
    }
}

/// What is known of a client: its address, and its user agent, `unknown`
/// where it names none.
pub fn session_metadata(remote_addr: &str, user_agent: Option<&str>) -> (metadata: SessionMetadata)
    ensures
        metadata.ip_address@ == remote_addr@,
        metadata.user_agent@ == match user_agent {
            Some(agent) => agent@,
            None => "unknown"@,
        },
{
    SessionMetadata {
        ip_address: remote_addr.to_owned(),
        user_agent: match user_agent {
            Some(agent) => agent.to_owned(),
            None => "unknown".to_owned(),
        },
    }
}

/// The bearer token that an `Authorization` header carries: what follows
/// `Bearer `, or the whole header where it does not start so.
pub open spec fn token_of(header: Seq<char>) -> Seq<char> {
    without_prefix(header, "Bearer "@)
}

/// The bearer token of a request, given its `Authorization` header.
pub fn token_from_header(header: Option<&str>) -> (token: Option<String>)
    ensures
        token.deep_view() == match header {
            Some(header) => Some(token_of(header@)),
            None => None,
        },
{
    match header {
        Some(header) => Some(strip_prefix(header, "Bearer ")),
        None => None,
    }
}

/// The session with a given id.
pub open spec fn session_by_id(s: StoreView, token: Seq<char>) -> Option<SessionImage> {
    first_hit::<Session>(s.sessions, SessionProbe::Id(token))
}

/// The stored password hash of the user with a given email.
pub open spec fn hash_for(s: StoreView, email: Seq<char>) -> Result<Seq<char>, EphemerideError> {
    match user_by_email(s, email) {
        None => Err(EphemerideError::UserNotFound),
        Some(user) => match user_by_id(s, user.id) {
            None => Err(EphemerideError::DatabaseError),
            Some(user) => Ok(user.password),
        },
    }
}

/// The stored password hash of the user with a given email.
pub fn stored_hash(store: &Store, email: &str) -> (r: Result<String, EphemerideError>)
    ensures
        outcome(r) == hash_for(store@, email@),
{
    let user_id = match get_user_id(store, email) {
        Ok(id) => id,
        Err(_) => return Err(EphemerideError::UserNotFound),
    };
    match get_password_hash(store, user_id.as_str()) {
        Ok(hash) => Ok(hash),
        Err(_) => Err(EphemerideError::DatabaseError),
    }
}

/// A store in which a session was opened, and the answer: the new session.
/// `verdict` says whether the password matches the stored hash, `None` where
/// the hash cannot be read; `id` is the new session's id, which is also its
/// token, and `now` the time.
pub open spec fn session_created(
    s: StoreView,
    email: Seq<char>,
    verdict: Option<bool>,
    ip_address: Seq<char>,
    user_agent: Seq<char>,
    id: Seq<char>,
    now: i64,
) -> (StoreView, Result<SessionImage, EphemerideError>) {
    match hash_for(s, email) {
        Err(error) => (s, Err(error)),
        Ok(_) => if verdict is None {
            (s, Err(EphemerideError::InternalServerError))
        } else if verdict == Some(false) {
            (s, Err(EphemerideError::InvalidPassword))
        } else if session_by_id(s, id) is Some {
            (s, Err(EphemerideError::DatabaseError))
        } else {
            let session = SessionImage {
                id,
                user_id: user_by_email(s, email)->0.id,
                created_at: now,
                accessed_at: now,
                ip_address,
                user_agent,
            };
            (StoreView { sessions: s.sessions.push(session), ..s }, Ok(session))
        },
    }
}

/// Opens a session, given whether the password matches the stored hash, the
/// new session's id and the time.
pub fn create_session_with(
    store: &mut Store,
    email: &str,
    verdict: Option<bool>,
    metadata: SessionMetadata,
    id: String,
    now: i64,
) -> (r: Result<Session, EphemerideError>)
    ensures
        sound(old(store)@) ==> sound(final(store)@),
        (final(store)@, outcome(r)) == session_created(
            old(store)@,
            email@,
            verdict,
            metadata.ip_address@,
            metadata.user_agent@,
            id@,
            now,
        ),
{
    proof {
        if sound(store@) {
            crate::store::consistency::session_created_keeps(
                store@,
                email@,
                verdict,
                metadata.ip_address@,
                metadata.user_agent@,
                id@,
                now,
            );
            crate::store::references::references_of_the_journal(
                store@,
                session_created(
                    store@,
                    email@,
                    verdict,
                    metadata.ip_address@,
                    metadata.user_agent@,
                    id@,
                    now,
                ).0,
            );
        }
    }
    let user_id = match get_user_id(store, email) {
        Ok(id) => id,
        Err(_) => return Err(EphemerideError::UserNotFound),
    };
    if get_password_hash(store, user_id.as_str()).is_err() {
        return Err(EphemerideError::DatabaseError);
    }
    match verdict {
        Some(true) => {},
        Some(false) => return Err(EphemerideError::InvalidPassword),
        None => return Err(EphemerideError::InternalServerError),
    }
    if first(&store.sessions, &SessionQuery::Id(id.clone())).is_some() {
        return Err(EphemerideError::DatabaseError);
    }
    let session = Session {
        id,
        user_id,
        created_at: now,
        accessed_at: now,
        ip_address: metadata.ip_address,
        user_agent: metadata.user_agent,
    };
    let copy = session.copy();
    append(&mut store.sessions, session);
    Ok(copy)
}

/// Whether a password matches the hash stored for an email; `None` where no
/// hash is stored or it cannot be read.
pub open spec fn verdict_for(s: StoreView, email: Seq<char>, password: Seq<char>) -> Option<bool> {
    match hash_for(s, email) {
        Ok(hash) => password_verdict(password, hash),
        Err(_) => None,
    }
}

/// Checks a password against the hash stored for an email.
pub fn check_password(store: &Store, credentials: &UserCredentials) -> (verdict: Option<bool>)
    ensures
        verdict == verdict_for(store@, credentials.email@, credentials.password@),
{
    match stored_hash(store, credentials.email.as_str()) {
        Ok(hash) => match verify_password(credentials.password.as_str(), hash.as_str()) {
            Ok(matches) => Some(matches),
            Err(_) => None,
        },
        Err(_) => None,
    }
}

/// Logs a user in: checks the password against the stored hash and opens a
/// session with a fresh token.
pub fn create_user_session(
    store: &mut Store,
    user_credentials: UserCredentials,
    metadata: SessionMetadata,
) -> (r: Result<Session, EphemerideError>)
    ensures
        sound(old(store)@) ==> sound(final(store)@),
        exists|id: Seq<char>, now: i64|
            (final(store)@, outcome(r)) == #[trigger] session_created(
                old(store)@,
                user_credentials.email@,
                verdict_for(old(store)@, user_credentials.email@, user_credentials.password@),
                metadata.ip_address@,
                metadata.user_agent@,
                id,
                now,
            ),
{
    let verdict = check_password(store, &user_credentials);
    create_session_with(
        store,
        user_credentials.email.as_str(),
        verdict,
        metadata,
        new_id(),
        unix_ms(),
    )
}

/// A store in which the session with a given id, if there is one, was last
/// used at `now`.
pub open spec fn touched(s: StoreView, token: Seq<char>, now: i64) -> StoreView {
    StoreView { sessions: amended::<Session>(s.sessions, SessionProbe::Id(token), now), ..s }
}

/// Marks a session as used at a given time.
pub fn touch_session(store: &mut Store, session_id: &str, now: i64) -> (r: Result<
    bool,
    EphemerideError,
>)
    ensures
        sound(old(store)@) ==> sound(final(store)@),
        final(store)@ == touched(old(store)@, session_id@, now),
        r == Ok::<bool, EphemerideError>(true),
{
    proof {
        if sound(store@) {
            crate::store::consistency::sessions_keep(store@, session_id@, now, SessionProbe::Id(session_id@));
            crate::store::references::references_of_the_journal(store@, touched(store@, session_id@, now));
        }
    }
    let query = SessionQuery::Id(session_id.to_owned());
    let _ = update(&mut store.sessions, &query, &Touch { at: now });
    Ok(true)
}

/// Marks a session as used now.
pub fn update_accessed_at(store: &mut Store, session_id: &str) -> (r: Result<bool, EphemerideError>)
    ensures
        sound(old(store)@) ==> sound(final(store)@),
        exists|now: i64| final(store)@ == #[trigger] touched(old(store)@, session_id@, now),
        r == Ok::<bool, EphemerideError>(true),
{
    touch_session(store, session_id, unix_ms())
}

/// What looking a token up answers: the session as it stood, or
/// `SessionNotFound`.
pub open spec fn session_found(s: StoreView, token: Seq<char>) -> Result<
    SessionImage,
    EphemerideError,
> {
    match session_by_id(s, token) {
        Some(session) => Ok(session),
        None => Err(EphemerideError::SessionNotFound),
    }
}

/// Looks a token up at a given time. The session is marked as used at that
/// time; the answer is the session as it stood before.
pub fn lookup_session(store: &mut Store, session_id: &str, now: i64) -> (r: Result<
    Session,
    EphemerideError,
>)
    ensures
        sound(old(store)@) ==> sound(final(store)@),
        final(store)@ == touched(old(store)@, session_id@, now),
        outcome(r) == session_found(old(store)@, session_id@),
{
    let found = first(&store.sessions, &SessionQuery::Id(session_id.to_owned()));
    let _ = touch_session(store, session_id, now);
    match found {
        Some(session) => Ok(session),
        None => Err(EphemerideError::SessionNotFound),
    }
}

/// Looks a token up and marks its session as used now.
pub fn get_user_session_by_id(store: &mut Store, session_id: &str) -> (r: Result<
    Session,
    EphemerideError,
>)
    ensures
        sound(old(store)@) ==> sound(final(store)@),
        exists|now: i64| final(store)@ == #[trigger] touched(old(store)@, session_id@, now),
        outcome(r) == session_found(old(store)@, session_id@),
{
    lookup_session(store, session_id, unix_ms())
}

/// The sessions of the user that a token belongs to, as they stand once the
/// token has been looked up.
pub open spec fn sessions_listed(s: StoreView, token: Seq<char>, now: i64) -> Result<
    Seq<SessionImage>,
    EphemerideError,
> {
    match session_by_id(s, token) {
        Some(session) => Ok(
            selected::<Session>(
                touched(s, token, now).sessions,
                SessionProbe::User(session.user_id),
            ),
        ),
        None => Err(EphemerideError::SessionNotFound),
    }
}

/// Looks a token up at a given time and lists the sessions of its user.
pub fn list_sessions(store: &mut Store, session_id: &str, now: i64) -> (r: Result<
    Vec<Session>,
    EphemerideError,
>)
    ensures
        sound(old(store)@) ==> sound(final(store)@),
        final(store)@ == touched(old(store)@, session_id@, now),
        outcomes(r) == sessions_listed(old(store)@, session_id@, now),
{
    let current = match lookup_session(store, session_id, now) {
        Ok(session) => session,
        Err(_) => return Err(EphemerideError::SessionNotFound),
    };
    Ok(select(&store.sessions, &SessionQuery::User(current.user_id)))
}

/// Looks a token up and lists the sessions of its user.
pub fn get_all_user_sessions(store: &mut Store, session_id: &str) -> (r: Result<
    Vec<Session>,
    EphemerideError,
>)
    ensures
        sound(old(store)@) ==> sound(final(store)@),
        exists|now: i64|
            final(store)@ == #[trigger] touched(old(store)@, session_id@, now) && outcomes(r)
                == sessions_listed(old(store)@, session_id@, now),
{
    list_sessions(store, session_id, unix_ms())
}

/// A store from which the sessions that a query hits are gone.
pub open spec fn without_sessions(s: StoreView, query: SessionProbe) -> StoreView {
    StoreView { sessions: remaining::<Session>(s.sessions, query), ..s }
}

/// Revokes a session and says whether there was one.
pub fn delete_user_session(store: &mut Store, session_id: &str) -> (r: Result<
    bool,
    EphemerideError,
>)
    ensures
        sound(old(store)@) ==> sound(final(store)@),
        final(store)@ == without_sessions(old(store)@, SessionProbe::Id(session_id@)),
        r == Ok::<bool, EphemerideError>(session_by_id(old(store)@, session_id@) is Some),
{
    proof {
        if sound(store@) {
            crate::store::consistency::sessions_keep(store@, session_id@, 0, SessionProbe::Id(session_id@));
            crate::store::references::references_of_the_journal(
                store@,
                without_sessions(store@, SessionProbe::Id(session_id@)),
            );
        }
    }
    let removed = remove(&mut store.sessions, &SessionQuery::Id(session_id.to_owned()));
    Ok(removed > 0)
}

/// Revokes every session of a user and says whether there was one.
pub fn delete_all_user_sessions(store: &mut Store, user_id: &str) -> (r: Result<
    bool,
    EphemerideError,
>)
    ensures
        sound(old(store)@) ==> sound(final(store)@),
        final(store)@ == without_sessions(old(store)@, SessionProbe::User(user_id@)),
        r == Ok::<bool, EphemerideError>(
            selected::<Session>(old(store)@.sessions, SessionProbe::User(user_id@)).len() > 0,
        ),
{
    proof {
        if sound(store@) {
            crate::store::consistency::sessions_keep(store@, user_id@, 0, SessionProbe::User(user_id@));
            crate::store::references::references_of_the_journal(
                store@,
                without_sessions(store@, SessionProbe::User(user_id@)),
            );
        }
    }
    let removed = remove(&mut store.sessions, &SessionQuery::User(user_id.to_owned()));
    Ok(removed > 0)
}

/// What authorizing a request answers: the session of its token, or
/// `SessionNotFound` where it carries none or the token is not a session's.
pub open spec fn authorized(s: StoreView, header: Option<Seq<char>>) -> Result<
    SessionImage,
    EphemerideError,
> {
    match header {
        Some(header) => session_found(s, token_of(header)),
        None => Err(EphemerideError::SessionNotFound),
    }
}

/// A store in which the session that a request's token names was last used
/// at `now`.
pub open spec fn after_authorize(s: StoreView, header: Option<Seq<char>>, now: i64) -> StoreView {
    match header {
        Some(header) => touched(s, token_of(header), now),
        None => s,
    }
}

/// Authorizes a request at a given time: resolves its token to the session
/// and marks the session as used.
pub fn authorize(store: &mut Store, header: Option<&str>, now: i64) -> (r: Result<
    Session,
    EphemerideError,
>)
    ensures
        sound(old(store)@) ==> sound(final(store)@),
        final(store)@ == after_authorize(old(store)@, header.deep_view(), now),
        outcome(r) == authorized(old(store)@, header.deep_view()),
{
    match token_from_header(header) {
        Some(token) => lookup_session(store, token.as_str(), now),
        None => Err(EphemerideError::SessionNotFound),
    }
}

/// Authorizes a request, given its `Authorization` header: resolves its
/// token to the session and marks the session as used now.
pub fn authorize_request(store: &mut Store, header: Option<&str>) -> (r: Result<
    Session,
    EphemerideError,
>)
    ensures
        sound(old(store)@) ==> sound(final(store)@),
        exists|now: i64|
            final(store)@ == #[trigger] after_authorize(old(store)@, header.deep_view(), now),
        outcome(r) == authorized(old(store)@, header.deep_view()),
{
    authorize(store, header, unix_ms())
}

/// Logging in with the email of a user and the password that matches the
/// stored hash opens a session, unless the fresh token is taken already.
/// The session belongs to that user, and looking its token up afterwards
/// answers that session.
pub proof fn login_opens_a_session(
    s: StoreView,
    email: Seq<char>,
    ip_address: Seq<char>,
    user_agent: Seq<char>,
    id: Seq<char>,
    now: i64,
)
    requires
        hash_for(s, email) is Ok,
    ensures
        ({
            let (after, opened) = session_created(
                s,
                email,
                Some(true),
                ip_address,
                user_agent,
                id,
                now,
            );
            &&& opened is Ok <==> session_by_id(s, id) is None
            &&& opened is Ok ==> opened->Ok_0.user_id == user_by_email(s, email)->0.id
                && session_found(after, id) == opened
        }),
{
    let (after, opened) = session_created(s, email, Some(true), ip_address, user_agent, id, now);
    if opened is Ok {
        first_hit_pushed::<Session>(s.sessions, opened->Ok_0, SessionProbe::Id(id));
    }
}

/// Logging in with a password that does not match the stored hash fails
/// with `InvalidPassword`, and logging in with an email that no user has
/// fails with `UserNotFound`. Neither changes anything.
pub proof fn login_is_refused(
    s: StoreView,
    email: Seq<char>,
    verdict: Option<bool>,
    ip_address: Seq<char>,
    user_agent: Seq<char>,
    id: Seq<char>,
    now: i64,
)
    ensures
        hash_for(s, email) is Ok && verdict == Some(false) ==> session_created(
            s,
            email,
            verdict,
            ip_address,
            user_agent,
            id,
            now,
        ) == (s, Err::<SessionImage, EphemerideError>(EphemerideError::InvalidPassword)),
        user_by_email(s, email) is None ==> session_created(
            s,
            email,
            verdict,
            ip_address,
            user_agent,
            id,
            now,
        ) == (s, Err::<SessionImage, EphemerideError>(EphemerideError::UserNotFound)),
{
}

/// Looking up a token that no session has fails with `SessionNotFound`.
pub proof fn unknown_token_is_refused(s: StoreView, token: Seq<char>)
    requires
        forall|i: int| 0 <= i < s.sessions.len() ==> (#[trigger] s.sessions[i]).id != token,
    ensures
        session_found(s, token) == Err::<SessionImage, EphemerideError>(
            EphemerideError::SessionNotFound,
        ),
{
    first_hit_none::<Session>(s.sessions, SessionProbe::Id(token));
}

/// Looking up a token whose session has been revoked fails with
/// `SessionNotFound`; and once every session of a user has been revoked, the
/// user has no session left.
pub proof fn revoked_token_is_refused(s: StoreView, token: Seq<char>, user_id: Seq<char>)
    ensures
        session_found(without_sessions(s, SessionProbe::Id(token)), token) == Err::<
            SessionImage,
            EphemerideError,
        >(EphemerideError::SessionNotFound),
        selected::<Session>(
            without_sessions(s, SessionProbe::User(user_id)).sessions,
            SessionProbe::User(user_id),
        ).len() == 0,
{
    none_left::<Session>(s.sessions, SessionProbe::Id(token), SessionProbe::Id(token));
    none_left::<Session>(s.sessions, SessionProbe::User(user_id), SessionProbe::User(user_id));
}

} // verus!
