//! Requests on single entries.

use crate::services::entry::{
    create_entry_with, entry_created, entry_deleted, entry_edited, CreateEntry, EditEntry,
    EntryWithTags, EntryWithTagsImage,
};
use crate::util::date::{date_of, parse_date};
use crate::api::v1::{answer, found_or, gated};
use crate::services::auth::authorize;
use crate::store::{outcome, sound, Store, StoreView};
use crate::util::error::EphemerideError;
use crate::util::invite_code::new_id;
use crate::util::unix_time::unix_ms;
use vstd::prelude::*;

verus! {

/// The body of a request to create an entry.
#[derive(Debug)]
pub struct CreateEntryRequest {
    pub date: String,
    pub mood: i32,
    pub entry: Option<String>,
    pub selected_tags: Vec<String>,
}

/// The body of a request to change an entry.
#[derive(Debug)]
pub struct EditEntryRequest {
    pub date: String,
    pub mood: i32,
    pub entry: Option<String>,
    pub selected_tags: Vec<String>,
}

/// What a request to create an entry does and answers.
pub open spec fn entry_requested(
    s: StoreView,
    header: Option<Seq<char>>,
    date: Seq<char>,
    mood: i32,
    entry: Option<Seq<char>>,
    selected_tags: Seq<Seq<char>>,
    id: Seq<char>,
    now: i64,
) -> (StoreView, Result<EntryWithTagsImage, EphemerideError>) {
    gated(
        s,
        header,
        now,
        |marked: StoreView, user_id: Seq<char>|
            entry_created(marked, date, mood, entry, selected_tags, user_id, date_of(date), id, now),
    )
}

/// Creates an entry for the user of the request's session.
pub fn create_entry(
    store: &mut Store,
    authorization: Option<&str>,
    entry: CreateEntryRequest,
) -> (r: Result<
    EntryWithTags,
    EphemerideError,
>)
    ensures
        sound(old(store)@) ==> sound(final(store)@),
        exists|id: Seq<char>, now: i64|
            (final(store)@, outcome(r)) == #[trigger] entry_requested(
                old(store)@,
                authorization.deep_view(),
                entry.date@,
                entry.mood,
                entry.entry.deep_view(),
                entry.selected_tags.deep_view(),
                id,
                now,
            ),
{
    let now = unix_ms();
    let id = new_id();
    let date = parse_date(entry.date.as_str());
    let session = match authorize(store, authorization, now) {
        Ok(session) => session,
        Err(error) => {
            proof {
                assert((store@, Err::<EntryWithTagsImage, EphemerideError>(error)) == entry_requested(
                    old(store)@,
                    authorization.deep_view(),
                    entry.date@,
                    entry.mood,
                    entry.entry.deep_view(),
                    entry.selected_tags.deep_view(),
                    id@,
                    now,
                ));
            }
            return Err(error);
        },
    };
    let r = create_entry_with(
        store,
        CreateEntry {
            date: entry.date,
            mood: entry.mood,
            entry: entry.entry,
            selected_tags: entry.selected_tags,
            user_id: session.user_id,
        },
        date,
        id,
        now,
    );
    proof {
        assert((store@, outcome(r)) == entry_requested(
            old(store)@,
            authorization.deep_view(),
            entry.date@,
            entry.mood,
            entry.entry.deep_view(),
            entry.selected_tags.deep_view(),
            id@,
            now,
        ));
    }
    r
}

/// What a request to change an entry does and answers.
pub open spec fn entry_edit_requested(
    s: StoreView,
    header: Option<Seq<char>>,
    id: Seq<char>,
    date: Seq<char>,
    mood: i32,
    entry: Option<Seq<char>>,
    selected_tags: Seq<Seq<char>>,
    now: i64,
) -> (StoreView, Result<EntryWithTagsImage, EphemerideError>) {
    gated(
        s,
        header,
        now,
        |marked: StoreView, user_id: Seq<char>|
            entry_edited(marked, id, date, mood, entry, selected_tags, user_id, date_of(date)),
    )
}

/// Changes an entry of the user of the request's session.
pub fn edit_entry(
    store: &mut Store,
    authorization: Option<&str>,
    id: String,
    entry: EditEntryRequest,
) -> (r: Result<
    EntryWithTags,
    EphemerideError,
>)
    ensures
        sound(old(store)@) ==> sound(final(store)@),
        exists|now: i64|
            (final(store)@, outcome(r)) == #[trigger] entry_edit_requested(
                old(store)@,
                authorization.deep_view(),
                id@,
                entry.date@,
                entry.mood,
                entry.entry.deep_view(),
                entry.selected_tags.deep_view(),
                now,
            ),
{
    let now = unix_ms();
    let session = match authorize(store, authorization, now) {
        Ok(session) => session,
        Err(error) => {
            proof {
                assert((store@, Err::<EntryWithTagsImage, EphemerideError>(error)) == entry_edit_requested(
                    old(store)@,
                    authorization.deep_view(),
                    id@,
                    entry.date@,
                    entry.mood,
                    entry.entry.deep_view(),
                    entry.selected_tags.deep_view(),
                    now,
                ));
            }
            return Err(error);
        },
    };
    let r = crate::services::entry::edit_entry(
        store,
        EditEntry {
            id,
            date: entry.date,
            mood: entry.mood,
            entry: entry.entry,
            selected_tags: entry.selected_tags,
            user_id: session.user_id,
        },
    );
    proof {
        assert((store@, outcome(r)) == entry_edit_requested(
            old(store)@,
            authorization.deep_view(),
            id@,
            entry.date@,
            entry.mood,
            entry.entry.deep_view(),
            entry.selected_tags.deep_view(),
            now,
        ));
    }
    r
}

/// What a request to delete an entry does and answers.
pub open spec fn entry_delete_requested(
    s: StoreView,
    header: Option<Seq<char>>,
    id: Seq<char>,
    now: i64,
) -> (StoreView, Result<(), EphemerideError>) {
    gated(
        s,
        header,
        now,
        |marked: StoreView, user_id: Seq<char>|
            found_or(entry_deleted(marked, id, user_id), EphemerideError::EntryNotFound),
    )
}

/// Deletes an entry of the user of the request's session. That there is no
/// such entry is the error `EntryNotFound`.
pub fn delete_entry(store: &mut Store, authorization: Option<&str>, id: &str) -> (r: Result<
    (),
    EphemerideError,
>)
    ensures
        sound(old(store)@) ==> sound(final(store)@),
        exists|now: i64|
            (final(store)@, r) == #[trigger] entry_delete_requested(
                old(store)@,
                authorization.deep_view(),
                id@,
                now,
            ),
{
    let now = unix_ms();
    let session = match authorize(store, authorization, now) {
        Ok(session) => session,
        Err(error) => {
            proof {
                assert((store@, Err::<(), EphemerideError>(error)) == entry_delete_requested(
                    old(store)@,
                    authorization.deep_view(),
                    id@,
                    now,
                ));
            }
            return Err(error);
        },
    };
    let r = answer(
        crate::services::entry::delete_entry(store, id, session.user_id.as_str()),
        EphemerideError::EntryNotFound,
    );
    proof {
        assert((store@, r) == entry_delete_requested(
            old(store)@,
            authorization.deep_view(),
            id@,
            now,
        ));
    }
    r
}

} // verus!
