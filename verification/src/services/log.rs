//! A user's journal as a whole: the categories and tags that every new user
//! starts with, and the removal of everything a user owns.

pub use super::category::{
    create_category, create_category_with, delete_category, edit_category, get_all_categories,
    get_category, get_category_with_tags, get_user_categories_with_tags, Category,
    CategoryWithTags, CreateCategory, EditCategory,
};
pub use super::entry::{
    create_entry, create_entry_with, delete_entry, edit_entry, edit_entry_with, get_entries,
    get_entries_in_range, get_entry_by_date, get_entry_with_tags, query_entries, CreateEntry,
    EditEntry, Entry, EntryFilter, EntryOptionsOrder, EntryTag, EntryWithTags, GetEntriesOptions,
};
pub use super::tag::{
    create_tag, create_tag_with, delete_all_category_tags, delete_tag, edit_tag, edit_tag_with,
    get_category_tags, get_tag, get_tags, CreateTag, EditTag, Tag,
};

use crate::services::category::{category_created, CategoryProbe, CategoryQuery};
use crate::services::entry::{remove_entries, without_entries, EntryProbe, EntryQuery};
use crate::services::tag::{remove_tags, tag_created, without_tags, TagProbe, TagQuery};
use crate::services::user::{user_exists, user_known};
use crate::store::table::{remaining, remove};
use crate::store::{sound, Store, StoreView};
use crate::util::color::{color_name, Color};
use crate::util::error::EphemerideError;
use crate::util::invite_code::{is_id, new_id};
use crate::util::unix_time::unix_ms;
use vstd::prelude::*;

verus! {

/// The ids of the categories and tags that a new user starts with.
pub struct DefaultIds {
    pub activities: String,
    pub work: String,
    pub movie: String,
    pub exercise: String,
    pub read: String,
    pub shopping: String,
    pub gaming: String,
    pub tags: String,
    pub travel: String,
    pub important: String,
    pub sick: String,
}

/// What contracts say of the ids of the defaults.
pub ghost struct DefaultIdsImage {
    pub activities: Seq<char>,
    pub work: Seq<char>,
    pub movie: Seq<char>,
    pub exercise: Seq<char>,
    pub read: Seq<char>,
    pub shopping: Seq<char>,
    pub gaming: Seq<char>,
    pub tags: Seq<char>,
    pub travel: Seq<char>,
    pub important: Seq<char>,
    pub sick: Seq<char>,
}

impl View for DefaultIds {
    type V = DefaultIdsImage;

    open spec fn view(&self) -> DefaultIdsImage {
        DefaultIdsImage {
            activities: self.activities@,
            work: self.work@,
            movie: self.movie@,
            exercise: self.exercise@,
            read: self.read@,
            shopping: self.shopping@,
            gaming: self.gaming@,
            tags: self.tags@,
            travel: self.travel@,
            important: self.important@,
            sick: self.sick@,
        }
    }
}

/// Whether each of the ids of the defaults has the shape of an identifier.
pub open spec fn are_ids(ids: DefaultIdsImage) -> bool {
    &&& is_id(ids.activities)
    &&& is_id(ids.work)
    &&& is_id(ids.movie)
    &&& is_id(ids.exercise)
    &&& is_id(ids.read)
    &&& is_id(ids.shopping)
    &&& is_id(ids.gaming)
    &&& is_id(ids.tags)
    &&& is_id(ids.travel)
    &&& is_id(ids.important)
    &&& is_id(ids.sick)
}

impl DefaultIds {
    /// Eleven fresh ids, each a random identifier.
    pub fn fresh() -> (ids: DefaultIds)
        ensures
            are_ids(ids@),
    {
        DefaultIds {
            activities: new_id(),
            work: new_id(),
            movie: new_id(),
            exercise: new_id(),
            read: new_id(),
            shopping: new_id(),
            gaming: new_id(),
            tags: new_id(),
            travel: new_id(),
            important: new_id(),
            sick: new_id(),
        }
    }
}

/// One more step of a run of creations: the store so far and whether every
/// step so far went well, then the same after a category was created. Once
/// a step has failed, the later ones do nothing.
pub open spec fn and_category(
    state: (StoreView, bool),
    user_id: Seq<char>,
    name: Seq<char>,
    id: Seq<char>,
    now: i64,
) -> (StoreView, bool) {
    if !state.1 {
        state
    } else {
        let (after, created) = category_created(state.0, name, user_id, id, now);
        (after, created is Ok)
    }
}

/// One more step of a run of creations: a tag is created.
pub open spec fn and_tag(
    state: (StoreView, bool),
    user_id: Seq<char>,
    category_id: Seq<char>,
    name: Seq<char>,
    color: Color,
    id: Seq<char>,
    now: i64,
) -> (StoreView, bool) {
    if !state.1 {
        state
    } else {
        let (after, created) = tag_created(
            state.0,
            name,
            color_name(color),
            category_id,
            user_id,
            color,
            id,
            now,
        );
        (after, created is Ok)
    }
}

/// Creates a default category, unless an earlier step has failed.
fn add_category(
    store: &mut Store,
    ok: bool,
    user_id: &str,
    name: &str,
    id: &String,
    now: i64,
) -> (r:
    bool)
    ensures
        sound(old(store)@) ==> sound(final(store)@),
        (final(store)@, r) == and_category((old(store)@, ok), user_id@, name@, id@, now),
{
    if !ok {
        return false;
    }
    let category = CreateCategory { name: name.to_owned(), user_id: user_id.to_owned() };
    create_category_with(store, category, id.clone(), now).is_ok()
}

/// Creates a default tag, unless an earlier step has failed.
fn add_tag(
    store: &mut Store,
    ok: bool,
    user_id: &str,
    category_id: &String,
    name: &str,
    color: Color,
    id: &String,
    now: i64,
) -> (r: bool)
    ensures
        sound(old(store)@) ==> sound(final(store)@),
        (final(store)@, r) == and_tag(
            (old(store)@, ok),
            user_id@,
            category_id@,
            name@,
            color,
            id@,
            now,
        ),
{
    if !ok {
        return false;
    }
    let tag = CreateTag {
        name: name.to_owned(),
        color: color.to_string(),
        category_id: category_id.clone(),
        user_id: user_id.to_owned(),
    };
    create_tag_with(store, tag, color, id.clone(), now).is_ok()
}

/// The store once the defaults of a user were created one after the other,
/// and whether all of them were: the category `Activities` with six tags,
/// then the category `Tags` with three.
pub open spec fn defaults_added(
    s: StoreView,
    user_id: Seq<char>,
    ids: DefaultIdsImage,
    now: i64,
) -> (
    StoreView,
    bool,
) {
    let a = and_category((s, true), user_id, "Activities"@, ids.activities, now);
    let a = and_tag(a, user_id, ids.activities, "Work"@, Color::Base, ids.work, now);
    let a = and_tag(a, user_id, ids.activities, "Movie"@, Color::Base, ids.movie, now);
    let a = and_tag(a, user_id, ids.activities, "Exercise"@, Color::Base, ids.exercise, now);
    let a = and_tag(a, user_id, ids.activities, "Read"@, Color::Base, ids.read, now);
    let a = and_tag(a, user_id, ids.activities, "Shopping"@, Color::Base, ids.shopping, now);
    let a = and_tag(a, user_id, ids.activities, "Gaming"@, Color::Base, ids.gaming, now);
    let t = and_category(a, user_id, "Tags"@, ids.tags, now);
    let t = and_tag(t, user_id, ids.tags, "Travel"@, Color::Base, ids.travel, now);
    let t = and_tag(t, user_id, ids.tags, "Important"@, Color::Blue, ids.important, now);
    and_tag(t, user_id, ids.tags, "Sick"@, Color::Red, ids.sick, now)
}

/// A store in which the defaults of a user were created, and the answer.
/// Where one of them cannot be created, those before it stay and the answer
/// is `DatabaseError`.
pub open spec fn default_data_created(
    s: StoreView,
    user_id: Seq<char>,
    ids: DefaultIdsImage,
    now: i64,
) -> (StoreView, Result<bool, EphemerideError>) {
    let (after, ok) = defaults_added(s, user_id, ids, now);
    (
        after,
        if ok {
            Ok(true)
        } else {
            Err(EphemerideError::DatabaseError)
        },
    )
}

/// Creates the categories and tags that a new user starts with, given their
/// ids and the time.
pub fn create_default_data_with(
    store: &mut Store,
    user_id: String,
    ids: &DefaultIds,
    now: i64,
) -> (r:
    Result<bool, EphemerideError>)
    ensures
        sound(old(store)@) ==> sound(final(store)@),
        (final(store)@, r) == default_data_created(old(store)@, user_id@, ids@, now),
{
    let user = user_id.as_str();
    let ok = add_category(store, true, user, "Activities", &ids.activities, now);
    let ok = add_tag(store, ok, user, &ids.activities, "Work", Color::Base, &ids.work, now);
    let ok = add_tag(store, ok, user, &ids.activities, "Movie", Color::Base, &ids.movie, now);
    let ok = add_tag(store, ok, user, &ids.activities, "Exercise", Color::Base, &ids.exercise, now);
    let ok = add_tag(store, ok, user, &ids.activities, "Read", Color::Base, &ids.read, now);
    let ok = add_tag(store, ok, user, &ids.activities, "Shopping", Color::Base, &ids.shopping, now);
    let ok = add_tag(store, ok, user, &ids.activities, "Gaming", Color::Base, &ids.gaming, now);
    let ok = add_category(store, ok, user, "Tags", &ids.tags, now);
    let ok = add_tag(store, ok, user, &ids.tags, "Travel", Color::Base, &ids.travel, now);
    let ok = add_tag(store, ok, user, &ids.tags, "Important", Color::Blue, &ids.important, now);
    let ok = add_tag(store, ok, user, &ids.tags, "Sick", Color::Red, &ids.sick, now);
    if ok {
        Ok(true)
    } else {
        Err(EphemerideError::DatabaseError)
    }
}

/// Creates the categories and tags that a new user starts with.
pub fn create_default_data(store: &mut Store, user_id: String) -> (r: Result<bool, EphemerideError>)
    ensures
        sound(old(store)@) ==> sound(final(store)@),
        exists|ids: DefaultIdsImage, now: i64|
            (final(store)@, r) == #[trigger] default_data_created(old(store)@, user_id@, ids, now),
{
    let ids = DefaultIds::fresh();
    create_default_data_with(store, user_id, &ids, unix_ms())
}

/// A store from which everything in a user's journal is gone: the entries
/// with their links, the tags with theirs, and the categories.
pub open spec fn without_journal(s: StoreView, user_id: Seq<char>) -> StoreView {
    let after = without_tags(
        without_entries(s, EntryProbe::User(user_id)),
        TagProbe::User(user_id),
    );
    StoreView {
        categories: remaining::<Category>(after.categories, CategoryProbe::User(user_id)),
        ..after
    }
}

/// Removes everything in a user's journal.
pub fn remove_journal(store: &mut Store, user_id: &str)
    ensures
        sound(old(store)@) ==> sound(final(store)@),
        final(store)@ == without_journal(old(store)@, user_id@),
{
    proof {
        if sound(store@) {
            crate::store::consistency::without_journal_keeps(store@, user_id@);
            crate::store::references::without_journal_keeps_references(store@, user_id@);
        }
    }
    let _ = remove_entries(store, &EntryQuery::User(user_id.to_owned()));
    let _ = remove_tags(store, &TagQuery::User(user_id.to_owned()));
    let _ = remove(&mut store.categories, &CategoryQuery::User(user_id.to_owned()));
}

/// A store from which a user's journal is gone, and the answer.
pub open spec fn user_data_deleted(s: StoreView, user_id: Seq<char>) -> (
    StoreView,
    Result<bool, EphemerideError>,
) {
    if !user_known(s, user_id) {
        (s, Err(EphemerideError::UserNotFound))
    } else {
        (without_journal(s, user_id), Ok(true))
    }
}

/// Deletes every entry, tag and category of a user, and the links between
/// them.
pub fn delete_all_user_data(store: &mut Store, user_id: &str) -> (r: Result<bool, EphemerideError>)
    ensures
        sound(old(store)@) ==> sound(final(store)@),
        (final(store)@, r) == user_data_deleted(old(store)@, user_id@),
{
    if !user_exists(store, user_id) {
        return Err(EphemerideError::UserNotFound);
    }
    remove_journal(store, user_id);
    Ok(true)
}

} // verus!
