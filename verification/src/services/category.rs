//! Categories: the groups that a user's tags belong to.

use crate::services::entry::linked_tags;
use crate::services::tag::{
    remove_tags, removed_tags_are_detached, tag_ids, without_tags, Tag, TagImage, TagProbe,
    TagQuery,
};
use crate::store::table::none_left;
use crate::services::user::{user_exists, user_known};
use crate::store::order::{ranked, sort, Ranked};
use crate::store::table::{
    amended, first, first_hit, images, remaining, remove, select, selected, update, Amend, Record,
    Row,
};
use crate::store::{append, outcome, outcomes, sound, Store, StoreView};
use crate::util::error::EphemerideError;
use crate::util::invite_code::new_id;
use crate::util::text::{has_length_within, length_within, str_eq, str_le, text_le};
use crate::util::unix_time::unix_ms;
use vstd::prelude::*;

verus! {

/// A category of tags, owned by one user.
#[derive(Debug)]
pub struct Category {
    pub id: String,
    pub name: String,
    pub user_id: String,
    pub created_at: i64,
}

/// What contracts say of a category.
pub ghost struct CategoryImage {
    pub id: Seq<char>,
    pub name: Seq<char>,
    pub user_id: Seq<char>,
    pub created_at: i64,
}

impl View for Category {
    type V = CategoryImage;

    open spec fn view(&self) -> CategoryImage {
        CategoryImage {
            id: self.id@,
            name: self.name@,
            user_id: self.user_id@,
            created_at: self.created_at,
        }
    }
}

/// What is asked for to create a category.
#[derive(Debug)]
pub struct CreateCategory {
    pub name: String,
    pub user_id: String,
}

/// What is asked for to rename a category.
#[derive(Debug)]
pub struct EditCategory {
    pub id: String,
    pub name: String,
    pub user_id: String,
}

/// A category together with the tags in it.
#[derive(Debug)]
pub struct CategoryWithTags {
    pub id: String,
    pub name: String,
    pub user_id: String,
    pub created_at: i64,
    pub tags: Vec<Tag>,
}

/// What contracts say of a category with its tags.
pub ghost struct CategoryWithTagsImage {
    pub category: CategoryImage,
    pub tags: Seq<TagImage>,
}

impl View for CategoryWithTags {
    type V = CategoryWithTagsImage;

    open spec fn view(&self) -> CategoryWithTagsImage {
        CategoryWithTagsImage {
            category: CategoryImage {
                id: self.id@,
                name: self.name@,
                user_id: self.user_id@,
                created_at: self.created_at,
            },
            tags: images(self.tags@),
        }
    }
}

/// Which categories a lookup asks for.
pub enum CategoryQuery {
    Id(String),
    Owned(String, String),
    User(String),
}

/// What contracts say of a lookup of categories.
pub ghost enum CategoryProbe {
    Id(Seq<char>),
    Owned(Seq<char>, Seq<char>),
    User(Seq<char>),
}

impl View for CategoryQuery {
    type V = CategoryProbe;

    open spec fn view(&self) -> CategoryProbe {
        match self {
            CategoryQuery::Id(id) => CategoryProbe::Id(id@),
            CategoryQuery::Owned(id, user_id) => CategoryProbe::Owned(id@, user_id@),
            CategoryQuery::User(user_id) => CategoryProbe::User(user_id@),
        }
    }
}

impl Record for Category {
    fn copy(&self) -> (r: Category) {
        Category {
            id: self.id.clone(),
            name: self.name.clone(),
            user_id: self.user_id.clone(),
            created_at: self.created_at,
        }
    }
}

impl Row for Category {
    type Query = CategoryQuery;

    open spec fn hit(image: CategoryImage, query: CategoryProbe) -> bool {
        match query {
            CategoryProbe::Id(id) => image.id == id,
            CategoryProbe::Owned(id, user_id) => image.id == id && image.user_id == user_id,
            CategoryProbe::User(user_id) => image.user_id == user_id,
        }
    }

    fn hits(&self, query: &CategoryQuery) -> (r: bool) {
        assert(query@ is Id || query@ is Owned || query@ is User);
        match query {
            CategoryQuery::Id(id) => str_eq(self.id.as_str(), id.as_str()),
            CategoryQuery::Owned(id, user_id) => str_eq(self.id.as_str(), id.as_str()) && str_eq(
                self.user_id.as_str(),
                user_id.as_str(),
            ),
            CategoryQuery::User(user_id) => str_eq(self.user_id.as_str(), user_id.as_str()),
        }
    }
}

/// What an update writes into a category: its new name.
pub struct Rename {
    pub name: String,
}

impl View for Rename {
    type V = Seq<char>;

    open spec fn view(&self) -> Seq<char> {
        self.name@
    }
}

impl Amend for Category {
    type Change = Rename;

    open spec fn changed(image: CategoryImage, name: Seq<char>) -> CategoryImage {
        CategoryImage { name, ..image }
    }

    fn amend(self, change: &Rename) -> (r: Category) {
        assert(change@ == change.name@);
        Category {
            id: self.id,
            name: change.name.clone(),
            user_id: self.user_id,
            created_at: self.created_at,
        }
    }
}

impl Ranked for Category {
    type Order = ();

    /// Categories are listed by name.
    open spec fn before(a: CategoryImage, b: CategoryImage, order: ()) -> bool {
        text_le(a.name, b.name)
    }

    fn comes_before(&self, other: &Category, order: &()) -> (r: bool) {
        str_le(self.name.as_str(), other.name.as_str())
    }
}

/// The category with a given id that a given user owns.
pub open spec fn category_owned(s: StoreView, category_id: Seq<char>, user_id: Seq<char>) -> Option<
    CategoryImage,
> {
    first_hit::<Category>(s.categories, CategoryProbe::Owned(category_id, user_id))
}

/// Whether a user owns a category with a given id.
pub fn has_category(store: &Store, category_id: &str, user_id: &str) -> (known: bool)
    ensures
        known == category_owned(store@, category_id@, user_id@) is Some,
{
    first(
        &store.categories,
        &CategoryQuery::Owned(category_id.to_owned(), user_id.to_owned()),
    ).is_some()
}

/// A store in which a category was created, and the answer: the new
/// category. `id` is its id and `now` the time.
pub open spec fn category_created(
    s: StoreView,
    name: Seq<char>,
    user_id: Seq<char>,
    id: Seq<char>,
    now: i64,
) -> (StoreView, Result<CategoryImage, EphemerideError>) {
    if !(length_within(name, 1, 255) && length_within(user_id, 1, 255)) {
        (s, Err(EphemerideError::BadRequest))
    } else if !user_known(s, user_id) {
        (s, Err(EphemerideError::UserNotFound))
    } else if first_hit::<Category>(s.categories, CategoryProbe::Id(id)) is Some {
        (s, Err(EphemerideError::DatabaseError))
    } else {
        let category = CategoryImage { id, name, user_id, created_at: now };
        (StoreView { categories: s.categories.push(category), ..s }, Ok(category))
    }
}

/// Creates a category with a given id and time of creation.
pub fn create_category_with(
    store: &mut Store,
    category: CreateCategory,
    id: String,
    now: i64,
) -> (r:
    Result<Category, EphemerideError>)
    ensures
        sound(old(store)@) ==> sound(final(store)@),
        (final(store)@, outcome(r)) == category_created(
            old(store)@,
            category.name@,
            category.user_id@,
            id@,
            now,
        ),
{
    proof {
        if sound(store@) {
            crate::store::consistency::categories_keep(store@, category.name@, category.user_id@, id@, now);
            crate::store::references::categories_keep_references(store@, category.name@, category.user_id@, id@, now);
        }
    }
    if !(has_length_within(category.name.as_str(), 1, 255) && has_length_within(
        category.user_id.as_str(),
        1,
        255,
    )) {
        return Err(EphemerideError::BadRequest);
    }
    if !user_exists(store, category.user_id.as_str()) {
        return Err(EphemerideError::UserNotFound);
    }
    if first(&store.categories, &CategoryQuery::Id(id.clone())).is_some() {
        return Err(EphemerideError::DatabaseError);
    }
    let row = Category { id, name: category.name, user_id: category.user_id, created_at: now };
    let copy = row.copy();
    append(&mut store.categories, row);
    Ok(copy)
}

/// Creates a category for a user.
pub fn create_category(store: &mut Store, category: CreateCategory) -> (r: Result<
    Category,
    EphemerideError,
>)
    ensures
        sound(old(store)@) ==> sound(final(store)@),
        exists|id: Seq<char>, now: i64|
            (final(store)@, outcome(r)) == #[trigger] category_created(
                old(store)@,
                category.name@,
                category.user_id@,
                id,
                now,
            ),
{
    create_category_with(store, category, new_id(), unix_ms())
}

/// A store in which a category was renamed, and the answer: the category as
/// it now stands.
pub open spec fn category_edited(
    s: StoreView,
    id: Seq<char>,
    name: Seq<char>,
    user_id: Seq<char>,
) -> (StoreView, Result<CategoryImage, EphemerideError>) {
    if !(length_within(id, 1, 255) && length_within(name, 1, 255) && length_within(
        user_id,
        1,
        255,
    )) {
        (s, Err(EphemerideError::BadRequest))
    } else if !user_known(s, user_id) {
        (s, Err(EphemerideError::UserNotFound))
    } else {
        let after = StoreView {
            categories: amended::<Category>(
                s.categories,
                CategoryProbe::Owned(id, user_id),
                name,
            ),
            ..s
        };
        (
            after,
            match category_owned(after, id, user_id) {
                Some(category) => Ok(category),
                None => Err(EphemerideError::CategoryNotFound),
            },
        )
    }
}

/// Renames one of the user's categories.
pub fn edit_category(store: &mut Store, category: EditCategory) -> (r: Result<
    Category,
    EphemerideError,
>)
    ensures
        sound(old(store)@) ==> sound(final(store)@),
        (final(store)@, outcome(r)) == category_edited(
            old(store)@,
            category.id@,
            category.name@,
            category.user_id@,
        ),
{
    proof {
        if sound(store@) {
            crate::store::consistency::categories_keep(store@, category.name@, category.user_id@, category.id@, 0);
            crate::store::references::categories_keep_references(
                store@,
                category.name@,
                category.user_id@,
                category.id@,
                0,
            );
        }
    }
    if !(has_length_within(category.id.as_str(), 1, 255) && has_length_within(
        category.name.as_str(),
        1,
        255,
    ) && has_length_within(category.user_id.as_str(), 1, 255)) {
        return Err(EphemerideError::BadRequest);
    }
    if !user_exists(store, category.user_id.as_str()) {
        return Err(EphemerideError::UserNotFound);
    }
    let query = CategoryQuery::Owned(category.id, category.user_id);
    let _ = update(&mut store.categories, &query, &Rename { name: category.name });
    match first(&store.categories, &query) {
        Some(category) => Ok(category),
        None => Err(EphemerideError::CategoryNotFound),
    }
}

/// The category with a given id, if the user owns it.
pub fn get_category(store: &Store, category_id: &str, user_id: &str) -> (r: Result<
    Category,
    EphemerideError,
>)
    ensures
        outcome(r) == match category_owned(store@, category_id@, user_id@) {
            Some(category) => Ok::<CategoryImage, EphemerideError>(category),
            None => Err(EphemerideError::CategoryNotFound),
        },
{
    match first(
        &store.categories,
        &CategoryQuery::Owned(category_id.to_owned(), user_id.to_owned()),
    ) {
        Some(category) => Ok(category),
        None => Err(EphemerideError::CategoryNotFound),
    }
}

/// A category with the tags that stand in it.
pub open spec fn with_its_tags(
    tags: Seq<TagImage>,
    category: CategoryImage,
) -> CategoryWithTagsImage {
    CategoryWithTagsImage {
        category,
        tags: selected::<Tag>(tags, TagProbe::InCategory(category.id, category.user_id)),
    }
}

/// Joins a category with the tags that stand in it.
pub fn join_tags(store: &Store, category: Category) -> (joined: CategoryWithTags)
    ensures
        joined@ == with_its_tags(store@.tags, category@),
{
    let tags = select(
        &store.tags,
        &TagQuery::InCategory(category.id.clone(), category.user_id.clone()),
    );
    CategoryWithTags {
        id: category.id,
        name: category.name,
        user_id: category.user_id,
        created_at: category.created_at,
        tags,
    }
}

/// One of the user's categories with its tags. A category whose owner is
/// not a user any more cannot be read.
pub open spec fn category_with_tags(
    s: StoreView,
    category_id: Seq<char>,
    user_id: Seq<char>,
) -> Result<
    CategoryWithTagsImage,
    EphemerideError,
> {
    match category_owned(s, category_id, user_id) {
        None => Err(EphemerideError::CategoryNotFound),
        Some(category) => if !user_known(s, user_id) {
            Err(EphemerideError::DatabaseError)
        } else {
            Ok(with_its_tags(s.tags, category))
        },
    }
}

/// One of the user's categories with its tags.
pub fn get_category_with_tags(store: &Store, category_id: &str, user_id: &str) -> (r: Result<
    CategoryWithTags,
    EphemerideError,
>)
    ensures
        outcome(r) == category_with_tags(store@, category_id@, user_id@),
{
    let category = match get_category(store, category_id, user_id) {
        Ok(category) => category,
        Err(_) => return Err(EphemerideError::CategoryNotFound),
    };
    if !user_exists(store, user_id) {
        return Err(EphemerideError::DatabaseError);
    }
    Ok(join_tags(store, category))
}

/// The categories of a user, listed by name.
pub open spec fn categories_of(s: StoreView, user_id: Seq<char>) -> Seq<CategoryImage> {
    ranked::<Category>(selected::<Category>(s.categories, CategoryProbe::User(user_id)), ())
}

/// The categories of a user, listed by name.
pub fn get_all_categories(store: &Store, user_id: &str) -> (r: Result<
    Vec<Category>,
    EphemerideError,
>)
    ensures
        outcomes(r) == if user_known(store@, user_id@) {
            Ok::<Seq<CategoryImage>, EphemerideError>(categories_of(store@, user_id@))
        } else {
            Err(EphemerideError::UserNotFound)
        },
{
    if !user_exists(store, user_id) {
        return Err(EphemerideError::UserNotFound);
    }
    let owned = select(&store.categories, &CategoryQuery::User(user_id.to_owned()));
    Ok(sort(&owned, &()))
}

/// The categories of a user, listed by name, each with its tags.
pub fn get_user_categories_with_tags(store: &Store, user_id: &str) -> (r: Result<
    Vec<CategoryWithTags>,
    EphemerideError,
>)
    ensures
        outcomes(r) == if user_known(store@, user_id@) {
            Ok::<Seq<CategoryWithTagsImage>, EphemerideError>(
                categories_of(store@, user_id@).map_values(
                    |category: CategoryImage| with_its_tags(store@.tags, category),
                ),
            )
        } else {
            Err(EphemerideError::DatabaseError)
        },
{
    let categories = match get_all_categories(store, user_id) {
        Ok(categories) => categories,
        Err(_) => return Err(EphemerideError::DatabaseError),
    };
    let mut joined: Vec<CategoryWithTags> = Vec::new();
    let mut i: usize = 0;
    while i < categories.len()
        invariant
            i <= categories.len(),
            joined.len() == i,
            forall|j: int| 0 <= j < i ==> joined[j]@ == with_its_tags(store@.tags, categories[j]@),
        decreases categories.len() - i,
    {
        joined.push(join_tags(store, categories[i].copy()));
        i += 1;
    }
    proof {
        assert(images(joined@) =~= images(categories@).map_values(
            |category: CategoryImage| with_its_tags(store@.tags, category),
        ));
    }
    Ok(joined)
}

/// A store from which one of the user's categories is gone, with its tags
/// and every link to them, and the answer: whether there was such a
/// category.
pub open spec fn category_deleted(s: StoreView, category_id: Seq<char>, user_id: Seq<char>) -> (
    StoreView,
    Result<bool, EphemerideError>,
) {
    if !user_known(s, user_id) {
        (s, Err(EphemerideError::UserNotFound))
    } else if category_owned(s, category_id, user_id) is None {
        (s, Ok(false))
    } else {
        let after = without_tags(s, TagProbe::InCategory(category_id, user_id));
        (
            StoreView {
                categories: remaining::<Category>(
                    s.categories,
                    CategoryProbe::Owned(category_id, user_id),
                ),
                ..after
            },
            Ok(true),
        )
    }
}

/// Deletes one of the user's categories: first its tags, which are detached
/// from every entry, then the category. The entries stay. Deleting a
/// category that is not there answers `false`.
pub fn delete_category(store: &mut Store, category_id: &str, user_id: &str) -> (r: Result<
    bool,
    EphemerideError,
>)
    ensures
        sound(old(store)@) ==> sound(final(store)@),
        (final(store)@, r) == category_deleted(old(store)@, category_id@, user_id@),
{
    proof {
        if sound(store@) {
            crate::store::consistency::taxonomy_deletes_keep(store@, category_id@, user_id@);
            crate::store::references::category_deleted_keeps_references(store@, category_id@, user_id@);
        }
    }
    if !user_exists(store, user_id) {
        return Err(EphemerideError::UserNotFound);
    }
    if !has_category(store, category_id, user_id) {
        return Ok(false);
    }
    let _ = remove_tags(store, &TagQuery::InCategory(category_id.to_owned(), user_id.to_owned()));
    let _ = remove(
        &mut store.categories,
        &CategoryQuery::Owned(category_id.to_owned(), user_id.to_owned()),
    );
    Ok(true)
}

/// Deleting a category takes its tags with it and leaves every entry in
/// place: afterwards the category is gone, no tag stands in it, the entries
/// are those that were there, and each entry is linked with just the tags
/// that it was linked with before and that did not stand in the category.
pub proof fn deleting_a_category_cascades(
    s: StoreView,
    category_id: Seq<char>,
    user_id: Seq<char>,
    entry_id: Seq<char>,
    tag_id: Seq<char>,
)
    ensures
        ({
            let (after, deleted) = category_deleted(s, category_id, user_id);
            let in_category = TagProbe::InCategory(category_id, user_id);
            deleted == Ok::<bool, EphemerideError>(true) ==> {
                &&& category_owned(after, category_id, user_id) is None
                &&& selected::<Tag>(after.tags, in_category).len() == 0
                &&& after.entries == s.entries
                &&& linked_tags(after.links, entry_id).contains(tag_id) <==> linked_tags(
                    s.links,
                    entry_id,
                ).contains(tag_id) && !tag_ids(selected::<Tag>(s.tags, in_category)).contains(
                    tag_id,
                )
            }
        }),
{
    let owned = CategoryProbe::Owned(category_id, user_id);
    none_left::<Category>(s.categories, owned, owned);
    removed_tags_are_detached(s, TagProbe::InCategory(category_id, user_id), entry_id, tag_id);
}

} // verus!
