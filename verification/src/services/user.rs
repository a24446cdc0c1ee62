//! The identity store: user rows and what is read from and written to them.

use crate::services::auth::{
    delete_all_user_sessions, without_sessions, Session, SessionProbe, SessionQuery,
};
use crate::services::log::{
    create_default_data_with, default_data_created, remove_journal, without_journal, DefaultIds,
    DefaultIdsImage,
};
use crate::services::category::{Category, CategoryProbe};
use crate::services::entry::{Entry, EntryProbe};
use crate::services::tag::{Tag, TagProbe};
use crate::store::table::{
    amended, count, filter_step, first, first_hit, none_left, remaining, remove, selected, update,
    Amend, Record, Row,
};
use crate::store::{append, outcome, sound, Store, StoreView};
use crate::util::invite_code::new_id;
use crate::util::unix_time::unix_ms;
use crate::util::email::{is_email, valid_email};
use crate::util::error::EphemerideError;
use crate::util::password::{hash_password, DEFAULT_COST};
use crate::util::text::{copy_optional, has_length_within, length_within, str_eq};
use vstd::prelude::*;

verus! {

/// A user as stored, password hash included.
#[derive(Debug)]
pub struct User {
    pub id: String,
    pub created_at: i64,
    pub name: String,
    pub email: String,
    pub password: String,
    pub invite: Option<String>,
}

/// What contracts say of a stored user.
pub ghost struct UserImage {
    pub id: Seq<char>,
    pub created_at: i64,
    pub name: Seq<char>,
    pub email: Seq<char>,
    pub password: Seq<char>,
    pub invite: Option<Seq<char>>,
}

impl View for User {
    type V = UserImage;

    open spec fn view(&self) -> UserImage {
        UserImage {
            id: self.id@,
            created_at: self.created_at,
            name: self.name@,
            email: self.email@,
            password: self.password@,
            invite: self.invite.deep_view(),
        }
    }
}

/// The public profile of a user: everything but the password hash.
#[derive(Debug)]
pub struct UserDetails {
    pub id: String,
    pub created_at: i64,
    pub name: String,
    pub email: String,
    pub invite: Option<String>,
}

/// What contracts say of a public profile.
pub ghost struct UserDetailsImage {
    pub id: Seq<char>,
    pub created_at: i64,
    pub name: Seq<char>,
    pub email: Seq<char>,
    pub invite: Option<Seq<char>>,
}

impl View for UserDetails {
    type V = UserDetailsImage;

    open spec fn view(&self) -> UserDetailsImage {
        UserDetailsImage {
            id: self.id@,
            created_at: self.created_at,
            name: self.name@,
            email: self.email@,
            invite: self.invite.deep_view(),
        }
    }
}

/// The public profile of a stored user.
pub open spec fn details_of(user: UserImage) -> UserDetailsImage {
    UserDetailsImage {
        id: user.id,
        created_at: user.created_at,
        name: user.name,
        email: user.email,
        invite: user.invite,
    }
}

/// What is asked for to sign up.
#[derive(Debug)]
pub struct CreateUser {
    pub name: String,
    pub email: String,
    pub password: String,
    pub invite: Option<String>,
}

/// What is asked for to log in.
#[derive(Debug)]
pub struct AuthUser {
    pub email: String,
    pub password: String,
}

/// What is asked for to change a user's name and email.
#[derive(Debug)]
pub struct UpdateUser {
    pub name: String,
    pub email: String,
}

/// What is asked for to change a user's password.
#[derive(Debug)]
pub struct UpdatePassword {
    pub password: String,
}

/// Which users a lookup asks for.
pub enum UserQuery {
    All,
    Id(String),
    Email(String),
}

/// What contracts say of a lookup of users.
pub ghost enum UserProbe {
    All,
    Id(Seq<char>),
    Email(Seq<char>),
}

impl View for UserQuery {
    type V = UserProbe;

    open spec fn view(&self) -> UserProbe {
        match self {
            UserQuery::All => UserProbe::All,
            UserQuery::Id(id) => UserProbe::Id(id@),
            UserQuery::Email(email) => UserProbe::Email(email@),
        }
    }
}

impl Record for User {
    fn copy(&self) -> (r: User) {
        User {
            id: self.id.clone(),
            created_at: self.created_at,
            name: self.name.clone(),
            email: self.email.clone(),
            password: self.password.clone(),
            invite: copy_optional(&self.invite),
        }
    }
}

impl Row for User {
    type Query = UserQuery;

    open spec fn hit(image: UserImage, query: UserProbe) -> bool {
        match query {
            UserProbe::All => true,
            UserProbe::Id(id) => image.id == id,
            UserProbe::Email(email) => image.email == email,
        }
    }

    fn hits(&self, query: &UserQuery) -> (r: bool) {
        assert(query@ is All || query@ is Id || query@ is Email);
        match query {
            UserQuery::All => true,
            UserQuery::Id(id) => str_eq(self.id.as_str(), id.as_str()),
            UserQuery::Email(email) => str_eq(self.email.as_str(), email.as_str()),
        }
    }
}

/// What an update writes into a user row.
pub enum UserChange {
    Profile(String, String),
    Password(String),
}

/// What contracts say of an update of a user row.
pub ghost enum UserEdit {
    Profile(Seq<char>, Seq<char>),
    Password(Seq<char>),
}

impl View for UserChange {
    type V = UserEdit;

    open spec fn view(&self) -> UserEdit {
        match self {
            UserChange::Profile(name, email) => UserEdit::Profile(name@, email@),
            UserChange::Password(hash) => UserEdit::Password(hash@),
        }
    }
}

impl Amend for User {
    type Change = UserChange;

    open spec fn changed(image: UserImage, change: UserEdit) -> UserImage {
        match change {
            UserEdit::Profile(name, email) => UserImage { name, email, ..image },
            UserEdit::Password(hash) => UserImage { password: hash, ..image },
        }
    }

    fn amend(self, change: &UserChange) -> (r: User) {
        assert(change@ is Profile || change@ is Password);
        match change {
            UserChange::Profile(name, email) => User {
                id: self.id,
                created_at: self.created_at,
                name: name.clone(),
                email: email.clone(),
                password: self.password,
                invite: self.invite,
            },
            UserChange::Password(hash) => User {
                id: self.id,
                created_at: self.created_at,
                name: self.name,
                email: self.email,
                password: hash.clone(),
                invite: self.invite,
            },
        }
    }
}

/// The user with a given id.
pub open spec fn user_by_id(s: StoreView, id: Seq<char>) -> Option<UserImage> {
    first_hit::<User>(s.users, UserProbe::Id(id))
}

/// The user with a given email.
pub open spec fn user_by_email(s: StoreView, email: Seq<char>) -> Option<UserImage> {
    first_hit::<User>(s.users, UserProbe::Email(email))
}

/// Whether a user with a given id exists.
pub open spec fn user_known(s: StoreView, id: Seq<char>) -> bool {
    user_by_id(s, id) is Some
}

/// The public profile of a user.
pub fn user_details(user: User) -> (details: UserDetails)
    ensures
        details@ == details_of(user@),
{
    UserDetails {
        id: user.id,
        created_at: user.created_at,
        name: user.name,
        email: user.email,
        invite: user.invite,
    }
}

/// Whether a user with a given id exists.
pub fn user_exists(store: &Store, id: &str) -> (known: bool)
    ensures
        known == user_known(store@, id@),
{
    first(&store.users, &UserQuery::Id(id.to_owned())).is_some()
}

/// The id of the user with a given email.
pub fn get_user_id(store: &Store, email: &str) -> (r: Result<String, EphemerideError>)
    ensures
        outcome(r) == match user_by_email(store@, email@) {
            Some(user) => Ok::<Seq<char>, EphemerideError>(user.id),
            None => Err(EphemerideError::UserNotFound),
        },
{
    match first(&store.users, &UserQuery::Email(email.to_owned())) {
        Some(user) => Ok(user.id),
        None => Err(EphemerideError::UserNotFound),
    }
}

/// The user with a given email, as stored.
pub fn get_user_by_email(store: &Store, email: &str) -> (r: Result<User, EphemerideError>)
    ensures
        outcome(r) == match user_by_email(store@, email@) {
            Some(user) => Ok::<UserImage, EphemerideError>(user),
            None => Err(EphemerideError::UserNotFound),
        },
{
    match first(&store.users, &UserQuery::Email(email.to_owned())) {
        Some(user) => Ok(user),
        None => Err(EphemerideError::UserNotFound),
    }
}

/// The public profile of the user with a given id.
pub fn get_user(store: &Store, id: &str) -> (r: Result<UserDetails, EphemerideError>)
    ensures
        outcome(r) == match user_by_id(store@, id@) {
            Some(user) => Ok::<UserDetailsImage, EphemerideError>(details_of(user)),
            None => Err(EphemerideError::UserNotFound),
        },
{
    match first(&store.users, &UserQuery::Id(id.to_owned())) {
        Some(user) => Ok(user_details(user)),
        None => Err(EphemerideError::UserNotFound),
    }
}

/// The stored password hash of the user with a given id.
pub fn get_password_hash(store: &Store, id: &str) -> (r: Result<String, EphemerideError>)
    ensures
        outcome(r) == match user_by_id(store@, id@) {
            Some(user) => Ok::<Seq<char>, EphemerideError>(user.password),
            None => Err(EphemerideError::UserNotFound),
        },
{
    match first(&store.users, &UserQuery::Id(id.to_owned())) {
        Some(user) => Ok(user.password),
        None => Err(EphemerideError::UserNotFound),
    }
}

/// A count of rows as the service reports it.
pub open spec fn reported(n: nat) -> i64 {
    if n <= i64::MAX {
        n as i64
    } else {
        i64::MAX
    }
}

/// Reports a count of rows.
pub fn report(n: usize) -> (r: i64)
    ensures
        r == reported(n as nat),
{
    let wide: u64 = n as u64;
    if wide <= 0x7fff_ffff_ffff_ffffu64 {
        wide as i64
    } else {
        i64::MAX
    }
}

/// How many users there are.
pub fn user_count(store: &Store) -> (r: Result<i64, EphemerideError>)
    ensures
        r == Ok::<i64, EphemerideError>(reported(store@.users.len())),
{
    Ok(report(store.users.len()))
}

/// Whether a user has a session that was used at `since` or later.
pub open spec fn is_active(
    sessions: Seq<crate::services::auth::SessionImage>,
    since: i64,
) -> spec_fn(
    UserImage,
) -> bool {
    |user: UserImage|
        selected::<Session>(sessions, SessionProbe::ActiveFor(user.id, since)).len() > 0
}

/// How many users have a session that was used at `since` or later.
pub fn active_user_count(store: &Store, since_timestamp: i64) -> (r: Result<i64, EphemerideError>)
    ensures
        r == Ok::<i64, EphemerideError>(
            reported(store@.users.filter(is_active(store@.sessions, since_timestamp)).len()),
        ),
{
    let mut n: usize = 0;
    let mut i: usize = 0;
    let ghost active = is_active(store@.sessions, since_timestamp);
    proof {
        assert(store@.users.take(0) =~= Seq::<UserImage>::empty());
        reveal(Seq::filter);
    }
    while i < store.users.len()
        invariant
            i <= store.users.len(),
            n <= i,
            active == is_active(store@.sessions, since_timestamp),
            n == store@.users.take(i as int).filter(active).len(),
        decreases store.users.len() - i,
    {
        proof {
            filter_step(store@.users.take(i as int), store.users[i as int]@, active);
            assert(store@.users.take(i as int).push(store.users[i as int]@) =~= store@.users.take(
                i + 1,
            ));
        }
        let query = SessionQuery::ActiveFor(store.users[i].id.clone(), since_timestamp);
        if count(&store.sessions, &query) > 0 {
            n += 1;
        }
        i += 1;
    }
    proof {
        assert(store@.users.take(store.users.len() as int) =~= store@.users);
    }
    Ok(report(n))
}

/// Whether a name and an email make a valid profile. `email_ok` says whether
/// the email is a valid address.
pub open spec fn valid_profile(name: Seq<char>, email_ok: bool) -> bool {
    length_within(name, 1, 255) && email_ok
}

/// A store in which a user's name and email were changed, and the answer:
/// whether there was such a user. An invalid profile and an email that some
/// user already has are refused.
pub open spec fn user_updated(
    s: StoreView,
    id: Seq<char>,
    name: Seq<char>,
    email: Seq<char>,
    email_ok: bool,
) -> (StoreView, Result<bool, EphemerideError>) {
    if !valid_profile(name, email_ok) {
        (s, Err(EphemerideError::BadRequest))
    } else if user_by_email(s, email) is Some {
        (s, Err(EphemerideError::EmailAlreadyInUse))
    } else {
        (
            StoreView {
                users: amended::<User>(s.users, UserProbe::Id(id), UserEdit::Profile(name, email)),
                ..s
            },
            Ok(selected::<User>(s.users, UserProbe::Id(id)).len() > 0),
        )
    }
}

/// Changes a user's name and email, given whether the email is a valid
/// address.
pub fn update_user_with(
    store: &mut Store,
    id: &str,
    user: UpdateUser,
    email_ok: bool,
) -> (r: Result<
    bool,
    EphemerideError,
>)
    ensures
        sound(old(store)@) ==> sound(final(store)@),
        (final(store)@, r) == user_updated(old(store)@, id@, user.name@, user.email@, email_ok),
{
    proof {
        if sound(store@) {
            crate::store::consistency::user_updates_keep(
                store@,
                id@,
                user.name@,
                user.email@,
                email_ok,
                Seq::empty(),
            );
            crate::store::references::references_of_the_journal(
                store@,
                user_updated(store@, id@, user.name@, user.email@, email_ok).0,
            );
        }
    }
    if !(has_length_within(user.name.as_str(), 1, 255) && email_ok) {
        return Err(EphemerideError::BadRequest);
    }
    if first(&store.users, &UserQuery::Email(user.email.clone())).is_some() {
        return Err(EphemerideError::EmailAlreadyInUse);
    }
    let changed = update(
        &mut store.users,
        &UserQuery::Id(id.to_owned()),
        &UserChange::Profile(user.name, user.email),
    );
    Ok(changed > 0)
}

/// Changes a user's name and email.
pub fn update_user(store: &mut Store, id: &str, user: UpdateUser) -> (r: Result<
    bool,
    EphemerideError,
>)
    ensures
        sound(old(store)@) ==> sound(final(store)@),
        (final(store)@, r) == user_updated(
            old(store)@,
            id@,
            user.name@,
            user.email@,
            valid_email(user.email@),
        ),
{
    let email_ok = is_email(user.email.as_str());
    update_user_with(store, id, user, email_ok)
}

/// A store in which a user's password hash was replaced.
pub open spec fn password_updated(s: StoreView, id: Seq<char>, hash: Seq<char>) -> StoreView {
    StoreView {
        users: amended::<User>(s.users, UserProbe::Id(id), UserEdit::Password(hash)),
        ..s
    }
}

/// Replaces a user's password hash and says whether there was such a user.
pub fn update_password_with(store: &mut Store, id: &str, hash: String) -> (r: Result<
    bool,
    EphemerideError,
>)
    ensures
        sound(old(store)@) ==> sound(final(store)@),
        final(store)@ == password_updated(old(store)@, id@, hash@),
        r == Ok::<bool, EphemerideError>(user_known(old(store)@, id@)),
{
    proof {
        if sound(store@) {
            crate::store::consistency::user_updates_keep(store@, id@, Seq::empty(), Seq::empty(), false, hash@);
            crate::store::references::references_of_the_journal(store@, password_updated(store@, id@, hash@));
        }
    }
    let query = UserQuery::Id(id.to_owned());
    let changed = update(&mut store.users, &query, &UserChange::Password(hash));
    Ok(changed > 0)
}

/// Hashes a new password and stores the hash. Where hashing fails nothing
/// changes and the answer is `InternalServerError`.
pub fn update_password(store: &mut Store, id: &str, password: UpdatePassword) -> (r: Result<
    bool,
    EphemerideError,
>)
    ensures
        sound(old(store)@) ==> sound(final(store)@),
        match r {
            Ok(found) => found == user_known(old(store)@, id@) && exists|hash: Seq<char>|
                final(store)@ == #[trigger] password_updated(old(store)@, id@, hash),
            Err(error) => error == EphemerideError::InternalServerError && final(store)@ == old(
                store,
            )@,
        },
{
    match hash_password(password.password.as_str(), DEFAULT_COST) {
        Ok(hash) => update_password_with(store, id, hash),
        Err(_) => Err(EphemerideError::InternalServerError),
    }
}

/// Whether the fields of a new user are valid. `email_ok` says whether the
/// email is a valid address.
pub open spec fn valid_new_user(name: Seq<char>, password: Seq<char>, email_ok: bool) -> bool {
    length_within(name, 1, 255) && email_ok && length_within(password, 7, 255)
}

/// Why a new user is refused before anything is written, if it is: the
/// fields are invalid, or some user has the email already.
pub open spec fn new_user_refused(
    s: StoreView,
    name: Seq<char>,
    email: Seq<char>,
    password: Seq<char>,
    email_ok: bool,
) -> Option<EphemerideError> {
    if !valid_new_user(name, password, email_ok) {
        Some(EphemerideError::BadRequest)
    } else if user_by_email(s, email) is Some {
        Some(EphemerideError::EmailAlreadyInUse)
    } else {
        None
    }
}

/// Checks a new user before anything is written, given whether the email is
/// a valid address.
pub fn check_new_user(store: &Store, user: &CreateUser, email_ok: bool) -> (refused: Option<
    EphemerideError,
>)
    ensures
        refused == new_user_refused(store@, user.name@, user.email@, user.password@, email_ok),
{
    if !(has_length_within(user.name.as_str(), 1, 255) && email_ok && has_length_within(
        user.password.as_str(),
        7,
        255,
    )) {
        return Some(EphemerideError::BadRequest);
    }
    if first(&store.users, &UserQuery::Email(user.email.clone())).is_some() {
        return Some(EphemerideError::EmailAlreadyInUse);
    }
    None
}

/// A store in which a user signed up, and the answer: the new user's public
/// profile. `hash` is the hash of the password, `None` where hashing
/// failed; `id` is the new user's id, `ids` those of the categories and
/// tags that the user starts with, and `now` the time.
pub open spec fn user_created(
    s: StoreView,
    name: Seq<char>,
    email: Seq<char>,
    password: Seq<char>,
    invite: Option<Seq<char>>,
    email_ok: bool,
    hash: Option<Seq<char>>,
    id: Seq<char>,
    ids: DefaultIdsImage,
    now: i64,
) -> (StoreView, Result<UserDetailsImage, EphemerideError>) {
    if new_user_refused(s, name, email, password, email_ok) is Some {
        (s, Err(new_user_refused(s, name, email, password, email_ok)->0))
    } else if hash is None {
        (s, Err(EphemerideError::InternalServerError))
    } else if user_by_id(s, id) is Some {
        (s, Err(EphemerideError::DatabaseError))
    } else {
        let user = UserImage { id, created_at: now, name, email, password: hash->0, invite };
        let (after, defaults) = default_data_created(
            StoreView { users: s.users.push(user), ..s },
            id,
            ids,
            now,
        );
        (
            after,
            if defaults is Ok {
                Ok(details_of(user))
            } else {
                Err(EphemerideError::DatabaseError)
            },
        )
    }
}

/// Signs a user up, given whether the email is a valid address, the hash of
/// the password, the ids to give out and the time.
pub fn register_user(
    store: &mut Store,
    user: CreateUser,
    email_ok: bool,
    hash: Option<String>,
    id: String,
    ids: &DefaultIds,
    now: i64,
) -> (r: Result<UserDetails, EphemerideError>)
    ensures
        sound(old(store)@) ==> sound(final(store)@),
        (final(store)@, outcome(r)) == user_created(
            old(store)@,
            user.name@,
            user.email@,
            user.password@,
            user.invite.deep_view(),
            email_ok,
            hash.deep_view(),
            id@,
            ids@,
            now,
        ),
{
    proof {
        if sound(store@) {
            crate::store::consistency::user_created_keeps(
                store@,
                user.name@,
                user.email@,
                user.password@,
                user.invite.deep_view(),
                email_ok,
                hash.deep_view(),
                id@,
                ids@,
                now,
            );
            crate::store::references::user_created_keeps_references(
                store@,
                user.name@,
                user.email@,
                user.password@,
                user.invite.deep_view(),
                email_ok,
                hash.deep_view(),
                id@,
                ids@,
                now,
            );
        }
    }
    match check_new_user(store, &user, email_ok) {
        Some(error) => return Err(error),
        None => {},
    }
    let hash = match hash {
        Some(hash) => hash,
        None => return Err(EphemerideError::InternalServerError),
    };
    if first(&store.users, &UserQuery::Id(id.clone())).is_some() {
        return Err(EphemerideError::DatabaseError);
    }
    let row = User {
        id: id.clone(),
        created_at: now,
        name: user.name,
        email: user.email,
        password: hash,
        invite: user.invite,
    };
    let copy = row.copy();
    append(&mut store.users, row);
    if create_default_data_with(store, id, ids, now).is_err() {
        return Err(EphemerideError::DatabaseError);
    }
    Ok(user_details(copy))
}

/// Signs a user up: checks the fields, hashes the password with the given
/// cost, stores the user and creates the categories and tags that every
/// user starts with.
pub fn create_user(store: &mut Store, user: CreateUser, cost: u32) -> (r: Result<
    UserDetails,
    EphemerideError,
>)
    ensures
        sound(old(store)@) ==> sound(final(store)@),
        exists|hash: Option<Seq<char>>, id: Seq<char>, ids: DefaultIdsImage, now: i64|
            (final(store)@, outcome(r)) == #[trigger] user_created(
                old(store)@,
                user.name@,
                user.email@,
                user.password@,
                user.invite.deep_view(),
                valid_email(user.email@),
                hash,
                id,
                ids,
                now,
            ) && ((cost < 4 || cost > 31) ==> hash is None),
{
    let email_ok = is_email(user.email.as_str());
    let hash = match check_new_user(store, &user, email_ok) {
        Some(_) => None,
        None => match hash_password(user.password.as_str(), cost) {
            Ok(hash) => Some(hash),
            Err(_) => None,
        },
    };
    let ids = DefaultIds::fresh();
    register_user(store, user, email_ok, hash, new_id(), &ids, unix_ms())
}

/// A store from which a user is gone, with the user's sessions and journal,
/// and the answer: whether there was such a user.
pub open spec fn user_deleted(s: StoreView, id: Seq<char>) -> (
    StoreView,
    Result<bool, EphemerideError>,
) {
    let signed_out = without_sessions(s, SessionProbe::User(id));
    if !user_known(s, id) {
        (signed_out, Ok(false))
    } else {
        (
            StoreView {
                users: remaining::<User>(s.users, UserProbe::Id(id)),
                ..without_journal(signed_out, id)
            },
            Ok(true),
        )
    }
}

/// Deletes a user: the sessions, then the entries, tags and categories with
/// the links between them, then the user.
pub fn delete_user(store: &mut Store, id: &str) -> (r: Result<bool, EphemerideError>)
    ensures
        sound(old(store)@) ==> sound(final(store)@),
        (final(store)@, r) == user_deleted(old(store)@, id@),
{
    proof {
        if sound(store@) {
            crate::store::consistency::user_deleted_keeps(store@, id@);
            crate::store::references::user_deleted_keeps_references(store@, id@);
        }
    }
    let _ = delete_all_user_sessions(store, id);
    if !user_exists(store, id) {
        return Ok(false);
    }
    remove_journal(store, id);
    let _ = remove(&mut store.users, &UserQuery::Id(id.to_owned()));
    Ok(true)
}

/// Deleting a user takes everything the user owns: afterwards no session,
/// entry, tag or category of that user is left, and the user cannot be found
/// by id. The sessions are gone even where there was no such user.
pub proof fn deleting_a_user_cascades(s: StoreView, id: Seq<char>)
    ensures
        ({
            let (after, deleted) = user_deleted(s, id);
            &&& selected::<Session>(after.sessions, SessionProbe::User(id)).len() == 0
            &&& deleted == Ok::<bool, EphemerideError>(user_known(s, id))
            &&& user_known(s, id) ==> {
                &&& !user_known(after, id)
                &&& selected::<Entry>(after.entries, EntryProbe::User(id)).len() == 0
                &&& selected::<Tag>(after.tags, TagProbe::User(id)).len() == 0
                &&& selected::<Category>(after.categories, CategoryProbe::User(id)).len() == 0
            }
        }),
{
    none_left::<Session>(s.sessions, SessionProbe::User(id), SessionProbe::User(id));
    none_left::<User>(s.users, UserProbe::Id(id), UserProbe::Id(id));
    none_left::<Entry>(s.entries, EntryProbe::User(id), EntryProbe::User(id));
    none_left::<Tag>(s.tags, TagProbe::User(id), TagProbe::User(id));
    none_left::<Category>(s.categories, CategoryProbe::User(id), CategoryProbe::User(id));
}

} // verus!
