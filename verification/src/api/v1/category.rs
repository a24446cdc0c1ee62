//! Requests on categories.

use crate::services::category::{
    category_created, category_deleted, category_edited, create_category_with, Category,
    CategoryImage, CreateCategory, EditCategory,
};
use crate::api::v1::{answer, found_or, gated};
use crate::services::auth::authorize;
use crate::store::{outcome, sound, Store, StoreView};
use crate::util::error::EphemerideError;
use crate::util::invite_code::new_id;
use crate::util::unix_time::unix_ms;
use vstd::prelude::*;

verus! {

/// The body of a request to create a category.
#[derive(Debug)]
pub struct CreateCategoryRequest {
    pub name: String,
}

/// The body of a request to rename a category.
#[derive(Debug)]
pub struct EditCategoryRequest {
    pub name: String,
}

/// What a request to create a category does and answers.
pub open spec fn category_requested(
    s: StoreView,
    header: Option<Seq<char>>,
    name: Seq<char>,
    id: Seq<char>,
    now: i64,
) -> (StoreView, Result<CategoryImage, EphemerideError>) {
    gated(
        s,
        header,
        now,
        |marked: StoreView, user_id: Seq<char>| category_created(marked, name, user_id, id, now),
    )
}

/// Creates a category for the user of the request's session.
pub fn create_category(
    store: &mut Store,
    authorization: Option<&str>,
    category: CreateCategoryRequest,
) -> (r: Result<
    Category,
    EphemerideError,
>)
    ensures
        sound(old(store)@) ==> sound(final(store)@),
        exists|id: Seq<char>, now: i64|
            (final(store)@, outcome(r)) == #[trigger] category_requested(
                old(store)@,
                authorization.deep_view(),
                category.name@,
                id,
                now,
            ),
{
    let now = unix_ms();
    let id = new_id();
    let session = match authorize(store, authorization, now) {
        Ok(session) => session,
        Err(error) => {
            proof {
                assert((store@, Err::<CategoryImage, EphemerideError>(error)) == category_requested(
                    old(store)@,
                    authorization.deep_view(),
                    category.name@,
                    id@,
                    now,
                ));
            }
            return Err(error);
        },
    };
    let r = create_category_with(
        store,
        CreateCategory { name: category.name, user_id: session.user_id },
        id,
        now,
    );
    proof {
        assert((store@, outcome(r)) == category_requested(
            old(store)@,
            authorization.deep_view(),
            category.name@,
            id@,
            now,
        ));
    }
    r
}

/// What a request to rename a category does and answers.
pub open spec fn category_edit_requested(
    s: StoreView,
    header: Option<Seq<char>>,
    id: Seq<char>,
    name: Seq<char>,
    now: i64,
) -> (StoreView, Result<CategoryImage, EphemerideError>) {
    gated(
        s,
        header,
        now,
        |marked: StoreView, user_id: Seq<char>| category_edited(marked, id, name, user_id),
    )
}

/// Renames a category of the user of the request's session.
pub fn edit_category(
    store: &mut Store,
    authorization: Option<&str>,
    id: String,
    category: EditCategoryRequest,
) -> (r: Result<
    Category,
    EphemerideError,
>)
    ensures
        sound(old(store)@) ==> sound(final(store)@),
        exists|now: i64|
            (final(store)@, outcome(r)) == #[trigger] category_edit_requested(
                old(store)@,
                authorization.deep_view(),
                id@,
                category.name@,
                now,
            ),
{
    let now = unix_ms();
    let session = match authorize(store, authorization, now) {
        Ok(session) => session,
        Err(error) => {
            proof {
                assert((store@, Err::<CategoryImage, EphemerideError>(error)) == category_edit_requested(
                    old(store)@,
                    authorization.deep_view(),
                    id@,
                    category.name@,
                    now,
                ));
            }
            return Err(error);
        },
    };
    let r = crate::services::category::edit_category(
        store,
        EditCategory { id, name: category.name, user_id: session.user_id },
    );
    proof {
        assert((store@, outcome(r)) == category_edit_requested(
            old(store)@,
            authorization.deep_view(),
            id@,
            category.name@,
            now,
        ));
    }
    r
}

/// What a request to delete a category does and answers.
pub open spec fn category_delete_requested(
    s: StoreView,
    header: Option<Seq<char>>,
    id: Seq<char>,
    now: i64,
) -> (StoreView, Result<(), EphemerideError>) {
    gated(
        s,
        header,
        now,
        |marked: StoreView, user_id: Seq<char>|
            found_or(category_deleted(marked, id, user_id), EphemerideError::CategoryNotFound),
    )
}

/// Deletes a category of the user of the request's session. That there is no
/// such category is the error `CategoryNotFound`.
pub fn delete_category(store: &mut Store, authorization: Option<&str>, id: &str) -> (r: Result<
    (),
    EphemerideError,
>)
    ensures
        sound(old(store)@) ==> sound(final(store)@),
        exists|now: i64|
            (final(store)@, r) == #[trigger] category_delete_requested(
                old(store)@,
                authorization.deep_view(),
                id@,
                now,
            ),
{
    let now = unix_ms();
    let session = match authorize(store, authorization, now) {
        Ok(session) => session,
        Err(error) => {
            proof {
                assert((store@, Err::<(), EphemerideError>(error)) == category_delete_requested(
                    old(store)@,
                    authorization.deep_view(),
                    id@,
                    now,
                ));
            }
            return Err(error);
        },
    };
    let r = answer(
        crate::services::category::delete_category(store, id, session.user_id.as_str()),
        EphemerideError::CategoryNotFound,
    );
    proof {
        assert((store@, r) == category_delete_requested(
            old(store)@,
            authorization.deep_view(),
            id@,
            now,
        ));
    }
    r
}

} // verus!
