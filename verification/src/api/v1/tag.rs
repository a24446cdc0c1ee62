//! Requests on tags.

use crate::services::tag::{
    create_tag_with, tag_created, tag_deleted, tag_edited, CreateTag, EditTag, Tag, TagImage,
};
use crate::util::color::{color_of, Color};
use crate::api::v1::{answer, found_or, gated};
use crate::services::auth::authorize;
use crate::store::{outcome, sound, Store, StoreView};
use crate::util::error::EphemerideError;
use crate::util::invite_code::new_id;
use crate::util::unix_time::unix_ms;
use vstd::prelude::*;

verus! {

/// The body of a request to create a tag.
#[derive(Debug)]
pub struct CreateTagRequest {
    pub name: String,
    pub color: String,
    pub category_id: String,
}

/// The body of a request to change a tag.
#[derive(Debug)]
pub struct EditTagRequest {
    pub name: String,
    pub color: String,
}

/// What a request to create a tag does and answers.
pub open spec fn tag_requested(
    s: StoreView,
    header: Option<Seq<char>>,
    name: Seq<char>,
    color: Seq<char>,
    category_id: Seq<char>,
    id: Seq<char>,
    now: i64,
) -> (StoreView, Result<TagImage, EphemerideError>) {
    gated(
        s,
        header,
        now,
        |marked: StoreView, user_id: Seq<char>|
            tag_created(marked, name, color, category_id, user_id, color_of(color), id, now),
    )
}

/// Creates a tag for the user of the request's session.
pub fn create_tag(
    store: &mut Store,
    authorization: Option<&str>,
    tag: CreateTagRequest,
) -> (r: Result<
    Tag,
    EphemerideError,
>)
    ensures
        sound(old(store)@) ==> sound(final(store)@),
        exists|id: Seq<char>, now: i64|
            (final(store)@, outcome(r)) == #[trigger] tag_requested(
                old(store)@,
                authorization.deep_view(),
                tag.name@,
                tag.color@,
                tag.category_id@,
                id,
                now,
            ),
{
    let now = unix_ms();
    let id = new_id();
    let color = Color::from(tag.color.as_str());
    let session = match authorize(store, authorization, now) {
        Ok(session) => session,
        Err(error) => {
            proof {
                assert((store@, Err::<TagImage, EphemerideError>(error)) == tag_requested(
                    old(store)@,
                    authorization.deep_view(),
                    tag.name@,
                    tag.color@,
                    tag.category_id@,
                    id@,
                    now,
                ));
            }
            return Err(error);
        },
    };
    let r = create_tag_with(
        store,
        CreateTag {
            name: tag.name,
            color: tag.color,
            category_id: tag.category_id,
            user_id: session.user_id,
        },
        color,
        id,
        now,
    );
    proof {
        assert((store@, outcome(r)) == tag_requested(
            old(store)@,
            authorization.deep_view(),
            tag.name@,
            tag.color@,
            tag.category_id@,
            id@,
            now,
        ));
    }
    r
}

/// What a request to change a tag does and answers.
pub open spec fn tag_edit_requested(
    s: StoreView,
    header: Option<Seq<char>>,
    id: Seq<char>,
    name: Seq<char>,
    color: Seq<char>,
    now: i64,
) -> (StoreView, Result<TagImage, EphemerideError>) {
    gated(
        s,
        header,
        now,
        |marked: StoreView, user_id: Seq<char>|
            tag_edited(marked, id, name, color, user_id, color_of(color)),
    )
}

/// Changes the name and color of a tag of the user of the request's session.
pub fn edit_tag(
    store: &mut Store,
    authorization: Option<&str>,
    id: String,
    tag: EditTagRequest,
) -> (r: Result<
    Tag,
    EphemerideError,
>)
    ensures
        sound(old(store)@) ==> sound(final(store)@),
        exists|now: i64|
            (final(store)@, outcome(r)) == #[trigger] tag_edit_requested(
                old(store)@,
                authorization.deep_view(),
                id@,
                tag.name@,
                tag.color@,
                now,
            ),
{
    let now = unix_ms();
    let session = match authorize(store, authorization, now) {
        Ok(session) => session,
        Err(error) => {
            proof {
                assert((store@, Err::<TagImage, EphemerideError>(error)) == tag_edit_requested(
                    old(store)@,
                    authorization.deep_view(),
                    id@,
                    tag.name@,
                    tag.color@,
                    now,
                ));
            }
            return Err(error);
        },
    };
    let r = crate::services::tag::edit_tag(
        store,
        EditTag { id, name: tag.name, color: tag.color, user_id: session.user_id },
    );
    proof {
        assert((store@, outcome(r)) == tag_edit_requested(
            old(store)@,
            authorization.deep_view(),
            id@,
            tag.name@,
            tag.color@,
            now,
        ));
    }
    r
}

/// What a request to delete a tag does and answers.
pub open spec fn tag_delete_requested(
    s: StoreView,
    header: Option<Seq<char>>,
    id: Seq<char>,
    now: i64,
) -> (StoreView, Result<(), EphemerideError>) {
    gated(
        s,
        header,
        now,
        |marked: StoreView, user_id: Seq<char>|
            found_or(tag_deleted(marked, id, user_id), EphemerideError::TagNotFound),
    )
}

/// Deletes a tag of the user of the request's session. That there is no
/// such tag is the error `TagNotFound`.
pub fn delete_tag(store: &mut Store, authorization: Option<&str>, id: &str) -> (r: Result<
    (),
    EphemerideError,
>)
    ensures
        sound(old(store)@) ==> sound(final(store)@),
        exists|now: i64|
            (final(store)@, r) == #[trigger] tag_delete_requested(
                old(store)@,
                authorization.deep_view(),
                id@,
                now,
            ),
{
    let now = unix_ms();
    let session = match authorize(store, authorization, now) {
        Ok(session) => session,
        Err(error) => {
            proof {
                assert((store@, Err::<(), EphemerideError>(error)) == tag_delete_requested(
                    old(store)@,
                    authorization.deep_view(),
                    id@,
                    now,
                ));
            }
            return Err(error);
        },
    };
    let r = answer(
        crate::services::tag::delete_tag(store, id, session.user_id.as_str()),
        EphemerideError::TagNotFound,
    );
    proof {
        assert((store@, r) == tag_delete_requested(
            old(store)@,
            authorization.deep_view(),
            id@,
            now,
        ));
    }
    r
}

} // verus!
