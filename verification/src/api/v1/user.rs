//! Requests on users: signing up, and what a user does with the account.

use crate::services::auth::{
    create_user_session, session_created, verdict_for, Session, SessionImage, SessionMetadata,
    UserCredentials,
};
use crate::services::category::{
    categories_of, with_its_tags, CategoryImage, CategoryWithTags, CategoryWithTagsImage,
};
use crate::services::invite::{invite_used, use_invite};
use crate::services::log::DefaultIdsImage;
use crate::services::user::{
    details_of, password_updated, user_by_id, user_created, user_deleted, user_known,
    user_updated, CreateUser, UpdatePassword, UpdateUser, UserDetails, UserDetailsImage,
};
use crate::util::email::valid_email;
use crate::api::v1::{answer, found_or, gated};
use crate::services::auth::authorize;
use crate::store::{outcome, outcomes, sound, Store, StoreView};
use crate::util::error::EphemerideError;
use crate::util::unix_time::unix_ms;
use vstd::prelude::*;

verus! {

/// The public profile of a user, or `UserNotFound`.
pub open spec fn user_found(s: StoreView, id: Seq<char>) -> Result<
    UserDetailsImage,
    EphemerideError,
> {
    match user_by_id(s, id) {
        Some(user) => Ok(details_of(user)),
        None => Err(EphemerideError::UserNotFound),
    }
}

/// What a request for the profile of the current user does and answers.
pub open spec fn profile_requested(
    s: StoreView,
    header: Option<Seq<char>>,
    now: i64,
) -> (StoreView, Result<UserDetailsImage, EphemerideError>) {
    gated(
        s,
        header,
        now,
        |marked: StoreView, user_id: Seq<char>| (marked, user_found(marked, user_id)),
    )
}

/// The public profile of the user of the request's session.
pub fn get_current_user(store: &mut Store, authorization: Option<&str>) -> (r: Result<
    UserDetails,
    EphemerideError,
>)
    ensures
        sound(old(store)@) ==> sound(final(store)@),
        exists|now: i64|
            (final(store)@, outcome(r)) == #[trigger] profile_requested(
                old(store)@,
                authorization.deep_view(),
                now,
            ),
{
    let now = unix_ms();
    let session = match authorize(store, authorization, now) {
        Ok(session) => session,
        Err(error) => {
            proof {
                assert((store@, Err::<UserDetailsImage, EphemerideError>(error)) == profile_requested(
                    old(store)@,
                    authorization.deep_view(),
                    now,
                ));
            }
            return Err(error);
        },
    };
    let r = crate::services::user::get_user(store, session.user_id.as_str());
    proof {
        assert((store@, outcome(r)) == profile_requested(
            old(store)@,
            authorization.deep_view(),
            now,
        ));
    }
    r
}

/// What a request to delete the current user does and answers.
pub open spec fn user_delete_requested(
    s: StoreView,
    header: Option<Seq<char>>,
    now: i64,
) -> (StoreView, Result<(), EphemerideError>) {
    gated(
        s,
        header,
        now,
        |marked: StoreView, user_id: Seq<char>|
            found_or(user_deleted(marked, user_id), EphemerideError::UserNotFound),
    )
}

/// Deletes the user of the request's session, with everything the user owns.
pub fn delete_user(store: &mut Store, authorization: Option<&str>) -> (r: Result<
    (),
    EphemerideError,
>)
    ensures
        sound(old(store)@) ==> sound(final(store)@),
        exists|now: i64|
            (final(store)@, r) == #[trigger] user_delete_requested(
                old(store)@,
                authorization.deep_view(),
                now,
            ),
{
    let now = unix_ms();
    let session = match authorize(store, authorization, now) {
        Ok(session) => session,
        Err(error) => {
            proof {
                assert((store@, Err::<(), EphemerideError>(error)) == user_delete_requested(
                    old(store)@,
                    authorization.deep_view(),
                    now,
                ));
            }
            return Err(error);
        },
    };
    let r = answer(
        crate::services::user::delete_user(store, session.user_id.as_str()),
        EphemerideError::UserNotFound,
    );
    proof {
        assert((store@, r) == user_delete_requested(
            old(store)@,
            authorization.deep_view(),
            now,
        ));
    }
    r
}

/// What a request to change the current user's name and email does and answers.
pub open spec fn user_update_requested(
    s: StoreView,
    header: Option<Seq<char>>,
    name: Seq<char>,
    email: Seq<char>,
    now: i64,
) -> (StoreView, Result<(), EphemerideError>) {
    gated(
        s,
        header,
        now,
        |marked: StoreView, user_id: Seq<char>|
            found_or(
                user_updated(marked, user_id, name, email, valid_email(email)),
                EphemerideError::UserNotFound,
            ),
    )
}

/// Changes the name and email of the user of the request's session.
pub fn update_user(store: &mut Store, authorization: Option<&str>, user: UpdateUser) -> (r: Result<
    (),
    EphemerideError,
>)
    ensures
        sound(old(store)@) ==> sound(final(store)@),
        exists|now: i64|
            (final(store)@, r) == #[trigger] user_update_requested(
                old(store)@,
                authorization.deep_view(),
                user.name@,
                user.email@,
                now,
            ),
{
    let now = unix_ms();
    let session = match authorize(store, authorization, now) {
        Ok(session) => session,
        Err(error) => {
            proof {
                assert((store@, Err::<(), EphemerideError>(error)) == user_update_requested(
                    old(store)@,
                    authorization.deep_view(),
                    user.name@,
                    user.email@,
                    now,
                ));
            }
            return Err(error);
        },
    };
    let r = answer(
        crate::services::user::update_user(store, session.user_id.as_str(), user),
        EphemerideError::UserNotFound,
    );
    proof {
        assert((store@, r) == user_update_requested(
            old(store)@,
            authorization.deep_view(),
            user.name@,
            user.email@,
            now,
        ));
    }
    r
}

/// What a request to change the current user's password does and answers.
/// `hash` is the hash of the new password, `None` where hashing failed.
pub open spec fn password_requested(
    s: StoreView,
    header: Option<Seq<char>>,
    hash: Option<Seq<char>>,
    now: i64,
) -> (StoreView, Result<(), EphemerideError>) {
    gated(
        s,
        header,
        now,
        |marked: StoreView, user_id: Seq<char>|
            match hash {
                None => (marked, Err(EphemerideError::InternalServerError)),
                Some(hash) => (
                    password_updated(marked, user_id, hash),
                    if user_known(marked, user_id) {
                        Ok(())
                    } else {
                        Err(EphemerideError::UserNotFound)
                    },
                ),
            },
    )
}

/// Changes the password of the user of the request's session.
pub fn update_password(
    store: &mut Store,
    authorization: Option<&str>,
    password: UpdatePassword,
) -> (r:
    Result<(), EphemerideError>)
    ensures
        sound(old(store)@) ==> sound(final(store)@),
        exists|hash: Option<Seq<char>>, now: i64|
            (final(store)@, r) == #[trigger] password_requested(
                old(store)@,
                authorization.deep_view(),
                hash,
                now,
            ),
{
    let now = unix_ms();
    let session = match authorize(store, authorization, now) {
        Ok(session) => session,
        Err(error) => {
            proof {
                assert((store@, Err::<(), EphemerideError>(error)) == password_requested(
                    old(store)@,
                    authorization.deep_view(),
                    None,
                    now,
                ));
            }
            return Err(error);
        },
    };
    let ghost marked = store@;
    let updated = crate::services::user::update_password(
        store,
        session.user_id.as_str(),
        password,
    );
    let r = answer(updated, EphemerideError::UserNotFound);
    proof {
        match updated {
            Ok(_) => {
                let hash = choose|hash: Seq<char>|
                    store@ == #[trigger] password_updated(marked, session.user_id@, hash);
                assert((store@, r) == password_requested(
                    old(store)@,
                    authorization.deep_view(),
                    Some(hash),
                    now,
                ));
            },
            Err(_) => {
                assert((store@, r) == password_requested(
                    old(store)@,
                    authorization.deep_view(),
                    None,
                    now,
                ));
            },
        }
    }
    r
}

/// What a request for the current user's categories does and answers.
pub open spec fn categories_requested(s: StoreView, header: Option<Seq<char>>, now: i64) -> (
    StoreView,
    Result<Seq<CategoryWithTagsImage>, EphemerideError>,
) {
    gated(
        s,
        header,
        now,
        |marked: StoreView, user_id: Seq<char>|
            (
                marked,
                if user_known(marked, user_id) {
                    Ok(
                        categories_of(marked, user_id).map_values(
                            |category: CategoryImage| with_its_tags(marked.tags, category),
                        ),
                    )
                } else {
                    Err(EphemerideError::DatabaseError)
                },
            ),
    )
}

/// The categories of the user of the request's session, listed by name, each
/// with its tags.
pub fn get_user_categories_with_tags(store: &mut Store, authorization: Option<&str>) -> (r: Result<
    Vec<CategoryWithTags>,
    EphemerideError,
>)
    ensures
        sound(old(store)@) ==> sound(final(store)@),
        exists|now: i64|
            (final(store)@, outcomes(r)) == #[trigger] categories_requested(
                old(store)@,
                authorization.deep_view(),
                now,
            ),
{
    let now = unix_ms();
    let session = match authorize(store, authorization, now) {
        Ok(session) => session,
        Err(error) => {
            proof {
                assert((store@, Err::<Seq<CategoryWithTagsImage>, EphemerideError>(error))
                    == categories_requested(old(store)@, authorization.deep_view(), now));
            }
            return Err(error);
        },
    };
    let r = crate::services::category::get_user_categories_with_tags(
        store,
        session.user_id.as_str(),
    );
    proof {
        assert((store@, outcomes(r)) == categories_requested(
            old(store)@,
            authorization.deep_view(),
            now,
        ));
    }
    r
}

/// The store once the invite of a new user has been checked, and whether
/// the sign-up is refused for it. Where invites are required, the invite is
/// redeemed; a sign-up without an invite, or with one that cannot be
/// redeemed, is refused.
pub open spec fn invite_checked(s: StoreView, invite_required: bool, invite: Option<Seq<char>>) -> (
    StoreView,
    bool,
) {
    if !invite_required {
        (s, false)
    } else {
        match invite {
            Some(code) => (invite_used(s, code).0, invite_used(s, code).1 is Err),
            None => (s, true),
        }
    }
}

/// What a request to sign up does and answers: the invite is checked, the
/// user is created, and a session is opened for the new user with the
/// password that was just set. `hash` is the hash of the password, `id` the
/// new user's id, `ids` those of the categories and tags that the user
/// starts with, `token` the id of the session, and `now` and `later` the
/// times of the two steps.
pub open spec fn signed_up(
    s: StoreView,
    name: Seq<char>,
    email: Seq<char>,
    password: Seq<char>,
    invite: Option<Seq<char>>,
    invite_required: bool,
    ip_address: Seq<char>,
    user_agent: Seq<char>,
    hash: Option<Seq<char>>,
    id: Seq<char>,
    ids: DefaultIdsImage,
    now: i64,
    token: Seq<char>,
    later: i64,
) -> (StoreView, Result<SessionImage, EphemerideError>) {
    let (checked, refused) = invite_checked(s, invite_required, invite);
    if refused {
        (checked, Err(EphemerideError::InviteNotFound))
    } else {
        let (created, user) = user_created(
            checked,
            name,
            email,
            password,
            invite,
            valid_email(email),
            hash,
            id,
            ids,
            now,
        );
        match user {
            Err(error) => (created, Err(error)),
            Ok(user) => session_created(
                created,
                user.email,
                verdict_for(created, user.email, password),
                ip_address,
                user_agent,
                token,
                later,
            ),
        }
    }
}

/// Signs a user up and logs the new user in. Where invites are required, the
/// user's invite is redeemed first.
pub fn create_user(
    store: &mut Store,
    user: CreateUser,
    invite_required: bool,
    cost: u32,
    metadata: SessionMetadata,
) -> (r: Result<Session, EphemerideError>)
    ensures
        sound(old(store)@) ==> sound(final(store)@),
        exists|
            hash: Option<Seq<char>>,
            id: Seq<char>,
            ids: DefaultIdsImage,
            now: i64,
            token: Seq<char>,
            later: i64,
        |
            (final(store)@, outcome(r)) == #[trigger] signed_up(
                old(store)@,
                user.name@,
                user.email@,
                user.password@,
                user.invite.deep_view(),
                invite_required,
                metadata.ip_address@,
                metadata.user_agent@,
                hash,
                id,
                ids,
                now,
                token,
                later,
            ),
{
    let ghost nothing = Seq::<char>::empty();
    let ghost no_ids = DefaultIdsImage {
        activities: nothing,
        work: nothing,
        movie: nothing,
        exercise: nothing,
        read: nothing,
        shopping: nothing,
        gaming: nothing,
        tags: nothing,
        travel: nothing,
        important: nothing,
        sick: nothing,
    };
    if invite_required {
        let redeemed = match &user.invite {
            Some(code) => use_invite(store, code.as_str()).is_ok(),
            None => false,
        };
        if !redeemed {
            proof {
                assert((store@, Err::<SessionImage, EphemerideError>(
                    EphemerideError::InviteNotFound,
                )) == signed_up(
                    old(store)@,
                    user.name@,
                    user.email@,
                    user.password@,
                    user.invite.deep_view(),
                    invite_required,
                    metadata.ip_address@,
                    metadata.user_agent@,
                    None,
                    nothing,
                    no_ids,
                    0,
                    nothing,
                    0,
                ));
            }
            return Err(EphemerideError::InviteNotFound);
        }
    }
    let ghost checked = store@;
    let password = user.password.clone();
    let created = crate::services::user::create_user(store, user, cost);
    let ghost after = store@;
    let ghost (hash, id, ids, now) = choose|
        hash: Option<Seq<char>>,
        id: Seq<char>,
        ids: DefaultIdsImage,
        now: i64,
    |
        (after, outcome(created)) == #[trigger] user_created(
            checked,
            user.name@,
            user.email@,
            user.password@,
            user.invite.deep_view(),
            valid_email(user.email@),
            hash,
            id,
            ids,
            now,
        ) && ((cost < 4 || cost > 31) ==> hash is None);
    let created = match created {
        Ok(created) => created,
        Err(error) => {
            proof {
                assert((store@, Err::<SessionImage, EphemerideError>(error)) == signed_up(
                    old(store)@,
                    user.name@,
                    user.email@,
                    user.password@,
                    user.invite.deep_view(),
                    invite_required,
                    metadata.ip_address@,
                    metadata.user_agent@,
                    hash,
                    id,
                    ids,
                    now,
                    nothing,
                    0,
                ));
            }
            return Err(error);
        },
    };
    let credentials = UserCredentials { email: created.email, password };
    let r = create_user_session(store, credentials, metadata);
    proof {
        let (token, later) = choose|token: Seq<char>, later: i64|
            (store@, outcome(r)) == #[trigger] session_created(
                after,
                credentials.email@,
                verdict_for(after, credentials.email@, credentials.password@),
                metadata.ip_address@,
                metadata.user_agent@,
                token,
                later,
            );
        assert((store@, outcome(r)) == signed_up(
            old(store)@,
            user.name@,
            user.email@,
            user.password@,
            user.invite.deep_view(),
            invite_required,
            metadata.ip_address@,
            metadata.user_agent@,
            hash,
            id,
            ids,
            now,
            token,
            later,
        ));
    }
    r
}

} // verus!
