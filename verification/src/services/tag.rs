//! Tags: the labels that a user puts on entries.

use crate::services::category::{category_owned, has_category};
use crate::services::entry::{EntryTag, LinkProbe, LinkQuery};
use crate::services::user::{user_exists, user_known};
use crate::store::table::{
    amended, filter_holds, first, first_hit, first_hit_place, first_hit_pushed, hitting,
    holds_text, images, missing, remaining, remove, select, selected, update, Amend, Record, Row,
};
use crate::store::{append, outcome, outcomes, sound, Store, StoreView};
use crate::services::entry::linked_tags;
use crate::util::color::{color_name, color_named, color_of, Color};
use crate::util::text::lowercase;
use crate::util::error::EphemerideError;
use crate::util::invite_code::new_id;
use crate::util::text::{has_length_within, length_within, str_eq};
use crate::util::unix_time::unix_ms;
use vstd::prelude::*;

verus! {

/// A tag, owned by one user and standing in one of that user's categories.
#[derive(Debug)]
pub struct Tag {
    pub id: String,
    pub user_id: String,
    pub created_at: i64,
    pub name: String,
    pub color: String,
    pub category_id: String,
}

/// What contracts say of a tag.
pub ghost struct TagImage {
    pub id: Seq<char>,
    pub user_id: Seq<char>,
    pub created_at: i64,
    pub name: Seq<char>,
    pub color: Seq<char>,
    pub category_id: Seq<char>,
}

impl View for Tag {
    type V = TagImage;

    open spec fn view(&self) -> TagImage {
        TagImage {
            id: self.id@,
            user_id: self.user_id@,
            created_at: self.created_at,
            name: self.name@,
            color: self.color@,
            category_id: self.category_id@,
        }
    }
}

/// What is asked for to create a tag.
#[derive(Debug)]
pub struct CreateTag {
    pub name: String,
    pub color: String,
    pub category_id: String,
    pub user_id: String,
}

/// What is asked for to change a tag's name and color.
#[derive(Debug)]
pub struct EditTag {
    pub id: String,
    pub name: String,
    pub color: String,
    pub user_id: String,
}

/// Which tags a lookup asks for.
pub enum TagQuery {
    Id(String),
    Owned(String, String),
    InCategory(String, String),
    User(String),
    AnyOf(Vec<String>, String),
}

/// What contracts say of a lookup of tags.
pub ghost enum TagProbe {
    Id(Seq<char>),
    Owned(Seq<char>, Seq<char>),
    InCategory(Seq<char>, Seq<char>),
    User(Seq<char>),
    AnyOf(Seq<Seq<char>>, Seq<char>),
}

impl View for TagQuery {
    type V = TagProbe;

    open spec fn view(&self) -> TagProbe {
        match self {
            TagQuery::Id(id) => TagProbe::Id(id@),
            TagQuery::Owned(id, user_id) => TagProbe::Owned(id@, user_id@),
            TagQuery::InCategory(category_id, user_id) => TagProbe::InCategory(
                category_id@,
                user_id@,
            ),
            TagQuery::User(user_id) => TagProbe::User(user_id@),
            TagQuery::AnyOf(ids, user_id) => TagProbe::AnyOf(ids.deep_view(), user_id@),
        }
    }
}

impl Record for Tag {
    fn copy(&self) -> (r: Tag) {
        Tag {
            id: self.id.clone(),
            user_id: self.user_id.clone(),
            created_at: self.created_at,
            name: self.name.clone(),
            color: self.color.clone(),
            category_id: self.category_id.clone(),
        }
    }
}

impl Row for Tag {
    type Query = TagQuery;

    open spec fn hit(image: TagImage, query: TagProbe) -> bool {
        match query {
            TagProbe::Id(id) => image.id == id,
            TagProbe::Owned(id, user_id) => image.id == id && image.user_id == user_id,
            TagProbe::InCategory(category_id, user_id) => image.category_id == category_id
                && image.user_id == user_id,
            TagProbe::User(user_id) => image.user_id == user_id,
            TagProbe::AnyOf(ids, user_id) => ids.contains(image.id) && image.user_id == user_id,
        }
    }

    fn hits(&self, query: &TagQuery) -> (r: bool) {
        assert(query@ is Id || query@ is Owned || query@ is InCategory || query@ is User
            || query@ is AnyOf);
        match query {
            TagQuery::Id(id) => str_eq(self.id.as_str(), id.as_str()),
            TagQuery::Owned(id, user_id) => str_eq(self.id.as_str(), id.as_str()) && str_eq(
                self.user_id.as_str(),
                user_id.as_str(),
            ),
            TagQuery::InCategory(category_id, user_id) => str_eq(
                self.category_id.as_str(),
                category_id.as_str(),
            ) && str_eq(self.user_id.as_str(), user_id.as_str()),
            TagQuery::User(user_id) => str_eq(self.user_id.as_str(), user_id.as_str()),
            TagQuery::AnyOf(ids, user_id) => holds_text(ids, self.id.as_str()) && str_eq(
                self.user_id.as_str(),
                user_id.as_str(),
            ),
        }
    }
}

/// What an update writes into a tag: its new name and color.
pub struct Restyle {
    pub name: String,
    pub color: String,
}

impl View for Restyle {
    type V = (Seq<char>, Seq<char>);

    open spec fn view(&self) -> (Seq<char>, Seq<char>) {
        (self.name@, self.color@)
    }
}

impl Amend for Tag {
    type Change = Restyle;

    open spec fn changed(image: TagImage, change: (Seq<char>, Seq<char>)) -> TagImage {
        TagImage { name: change.0, color: change.1, ..image }
    }

    fn amend(self, change: &Restyle) -> (r: Tag) {
        assert(change@ == (change.name@, change.color@));
        Tag {
            id: self.id,
            user_id: self.user_id,
            created_at: self.created_at,
            name: change.name.clone(),
            color: change.color.clone(),
            category_id: self.category_id,
        }
    }
}

/// The tag with a given id that a given user owns.
pub open spec fn tag_owned(s: StoreView, tag_id: Seq<char>, user_id: Seq<char>) -> Option<
    TagImage,
> {
    first_hit::<Tag>(s.tags, TagProbe::Owned(tag_id, user_id))
}

/// Whether the fields of a new tag are valid.
pub open spec fn valid_new_tag(
    name: Seq<char>,
    color: Seq<char>,
    category_id: Seq<char>,
    user_id: Seq<char>,
) -> bool {
    length_within(name, 1, 255) && length_within(color, 1, 16) && length_within(
        category_id,
        1,
        255,
    ) && length_within(user_id, 1, 255)
}

/// A store in which a tag was created, and the answer: the new tag. The name
/// and the color text are those asked for, `color` is the color that the
/// text was read as, `id` the new tag's id and `now` the time.
pub open spec fn tag_created(
    s: StoreView,
    name: Seq<char>,
    color_text: Seq<char>,
    category_id: Seq<char>,
    user_id: Seq<char>,
    color: Color,
    id: Seq<char>,
    now: i64,
) -> (StoreView, Result<TagImage, EphemerideError>) {
    if !valid_new_tag(name, color_text, category_id, user_id) {
        (s, Err(EphemerideError::BadRequest))
    } else if !user_known(s, user_id) {
        (s, Err(EphemerideError::UserNotFound))
    } else if category_owned(s, category_id, user_id) is None {
        (s, Err(EphemerideError::CategoryNotFound))
    } else if first_hit::<Tag>(s.tags, TagProbe::Id(id)) is Some {
        (s, Err(EphemerideError::DatabaseError))
    } else {
        let tag = TagImage {
            id,
            user_id,
            created_at: now,
            name,
            color: color_name(color),
            category_id,
        };
        (StoreView { tags: s.tags.push(tag), ..s }, Ok(tag))
    }
}

/// Creates a tag with a given color, id and time of creation.
pub fn create_tag_with(store: &mut Store, tag: CreateTag, color: Color, id: String, now: i64) -> (r:
    Result<Tag, EphemerideError>)
    ensures
        sound(old(store)@) ==> sound(final(store)@),
        (final(store)@, outcome(r)) == tag_created(
            old(store)@,
            tag.name@,
            tag.color@,
            tag.category_id@,
            tag.user_id@,
            color,
            id@,
            now,
        ),
{
    proof {
        if sound(store@) {
            crate::store::consistency::tags_keep(
                store@,
                tag.name@,
                tag.color@,
                tag.category_id@,
                tag.user_id@,
                color,
                id@,
                now,
            );
            crate::store::references::tags_keep_references(
                store@,
                tag.name@,
                tag.color@,
                tag.category_id@,
                tag.user_id@,
                color,
                id@,
                now,
            );
        }
    }
    if !(has_length_within(tag.name.as_str(), 1, 255) && has_length_within(
        tag.color.as_str(),
        1,
        16,
    ) && has_length_within(tag.category_id.as_str(), 1, 255) && has_length_within(
        tag.user_id.as_str(),
        1,
        255,
    )) {
        return Err(EphemerideError::BadRequest);
    }
    if !user_exists(store, tag.user_id.as_str()) {
        return Err(EphemerideError::UserNotFound);
    }
    if !has_category(store, tag.category_id.as_str(), tag.user_id.as_str()) {
        return Err(EphemerideError::CategoryNotFound);
    }
    if first(&store.tags, &TagQuery::Id(id.clone())).is_some() {
        return Err(EphemerideError::DatabaseError);
    }
    let row = Tag {
        id,
        user_id: tag.user_id,
        created_at: now,
        name: tag.name,
        color: color.to_string(),
        category_id: tag.category_id,
    };
    let copy = row.copy();
    append(&mut store.tags, row);
    Ok(copy)
}

/// Creates a tag in one of the user's categories. A color text that names no
/// color gives the default color, never an error.
pub fn create_tag(store: &mut Store, tag: CreateTag) -> (r: Result<Tag, EphemerideError>)
    ensures
        sound(old(store)@) ==> sound(final(store)@),
        exists|id: Seq<char>, now: i64|
            (final(store)@, outcome(r)) == #[trigger] tag_created(
                old(store)@,
                tag.name@,
                tag.color@,
                tag.category_id@,
                tag.user_id@,
                color_of(tag.color@),
                id,
                now,
            ),
{
    let color = Color::from(tag.color.as_str());
    create_tag_with(store, tag, color, new_id(), unix_ms())
}

/// The tag with a given id, if the user owns it.
pub open spec fn tag_found(s: StoreView, tag_id: Seq<char>, user_id: Seq<char>) -> Result<
    TagImage,
    EphemerideError,
> {
    if !user_known(s, user_id) {
        Err(EphemerideError::UserNotFound)
    } else {
        match tag_owned(s, tag_id, user_id) {
            Some(tag) => Ok(tag),
            None => Err(EphemerideError::TagNotFound),
        }
    }
}

/// The tag with a given id, if the user owns it.
pub fn get_tag(store: &Store, tag_id: &str, user_id: &str) -> (r: Result<Tag, EphemerideError>)
    ensures
        outcome(r) == tag_found(store@, tag_id@, user_id@),
{
    if !user_exists(store, user_id) {
        return Err(EphemerideError::UserNotFound);
    }
    match first(&store.tags, &TagQuery::Owned(tag_id.to_owned(), user_id.to_owned())) {
        Some(tag) => Ok(tag),
        None => Err(EphemerideError::TagNotFound),
    }
}

/// Whether a user owns a tag with a given id.
pub fn has_tag(store: &Store, tag_id: &str, user_id: &str) -> (known: bool)
    ensures
        known == tag_owned(store@, tag_id@, user_id@) is Some,
{
    first(&store.tags, &TagQuery::Owned(tag_id.to_owned(), user_id.to_owned())).is_some()
}

/// Whether the fields of a change to a tag are valid.
pub open spec fn valid_tag_edit(
    id: Seq<char>,
    name: Seq<char>,
    color: Seq<char>,
    user_id: Seq<char>,
) -> bool {
    length_within(id, 1, 255) && length_within(name, 1, 255) && length_within(color, 1, 16)
        && length_within(user_id, 1, 255)
}

/// A store in which a tag got a new name and color, and the answer: the tag
/// as it now stands.
pub open spec fn tag_edited(
    s: StoreView,
    id: Seq<char>,
    name: Seq<char>,
    color_text: Seq<char>,
    user_id: Seq<char>,
    color: Color,
) -> (StoreView, Result<TagImage, EphemerideError>) {
    if !valid_tag_edit(id, name, color_text, user_id) {
        (s, Err(EphemerideError::BadRequest))
    } else if !user_known(s, user_id) {
        (s, Err(EphemerideError::UserNotFound))
    } else {
        let after = StoreView {
            tags: amended::<Tag>(s.tags, TagProbe::Owned(id, user_id), (name, color_name(color))),
            ..s
        };
        (
            after,
            match tag_owned(after, id, user_id) {
                Some(tag) => Ok(tag),
                None => Err(EphemerideError::TagNotFound),
            },
        )
    }
}

/// Gives a tag a new name and a given color.
pub fn edit_tag_with(store: &mut Store, tag: EditTag, color: Color) -> (r: Result<
    Tag,
    EphemerideError,
>)
    ensures
        sound(old(store)@) ==> sound(final(store)@),
        (final(store)@, outcome(r)) == tag_edited(
            old(store)@,
            tag.id@,
            tag.name@,
            tag.color@,
            tag.user_id@,
            color,
        ),
{
    proof {
        if sound(store@) {
            crate::store::consistency::tags_keep(
                store@,
                tag.name@,
                tag.color@,
                Seq::empty(),
                tag.user_id@,
                color,
                tag.id@,
                0,
            );
            crate::store::references::tags_keep_references(
                store@,
                tag.name@,
                tag.color@,
                Seq::empty(),
                tag.user_id@,
                color,
                tag.id@,
                0,
            );
        }
    }
    if !(has_length_within(tag.id.as_str(), 1, 255) && has_length_within(tag.name.as_str(), 1, 255)
        && has_length_within(tag.color.as_str(), 1, 16) && has_length_within(
        tag.user_id.as_str(),
        1,
        255,
    )) {
        return Err(EphemerideError::BadRequest);
    }
    if !user_exists(store, tag.user_id.as_str()) {
        return Err(EphemerideError::UserNotFound);
    }
    let query = TagQuery::Owned(tag.id, tag.user_id);
    let change = Restyle { name: tag.name, color: color.to_string() };
    let _ = update(&mut store.tags, &query, &change);
    match first(&store.tags, &query) {
        Some(tag) => Ok(tag),
        None => Err(EphemerideError::TagNotFound),
    }
}

/// Gives a tag a new name and color. A color text that names no color gives
/// the default color, never an error.
pub fn edit_tag(store: &mut Store, tag: EditTag) -> (r: Result<Tag, EphemerideError>)
    ensures
        sound(old(store)@) ==> sound(final(store)@),
        (final(store)@, outcome(r)) == tag_edited(
            old(store)@,
            tag.id@,
            tag.name@,
            tag.color@,
            tag.user_id@,
            color_of(tag.color@),
        ),
{
    let color = Color::from(tag.color.as_str());
    edit_tag_with(store, tag, color)
}

/// Copies of texts that are borrowed.
pub fn owned_texts(texts: &Vec<&str>) -> (owned: Vec<String>)
    ensures
        owned.deep_view() == texts.deep_view(),
{
    let mut owned: Vec<String> = Vec::new();
    let mut i: usize = 0;
    while i < texts.len()
        invariant
            i <= texts.len(),
            owned.len() == i,
            forall|j: int| 0 <= j < i ==> owned[j]@ == texts[j]@,
        decreases texts.len() - i,
    {
        owned.push(texts[i].to_owned());
        i += 1;
    }
    proof {
        assert(owned.deep_view() =~= texts.deep_view());
    }
    owned
}

/// The tags among the given ids that a user owns, in the order in which they
/// are stored.
pub fn get_tags(store: &Store, tag_ids: Vec<&str>, user_id: &str) -> (r: Result<
    Vec<Tag>,
    EphemerideError,
>)
    ensures
        outcomes(r) == if user_known(store@, user_id@) {
            Ok::<Seq<TagImage>, EphemerideError>(
                selected::<Tag>(store@.tags, TagProbe::AnyOf(tag_ids.deep_view(), user_id@)),
            )
        } else {
            Err(EphemerideError::UserNotFound)
        },
{
    if !user_exists(store, user_id) {
        return Err(EphemerideError::UserNotFound);
    }
    Ok(select(&store.tags, &TagQuery::AnyOf(owned_texts(&tag_ids), user_id.to_owned())))
}

/// The tags of one of the user's categories.
pub open spec fn category_tags(s: StoreView, category_id: Seq<char>, user_id: Seq<char>) -> Result<
    Seq<TagImage>,
    EphemerideError,
> {
    if !user_known(s, user_id) {
        Err(EphemerideError::UserNotFound)
    } else if category_owned(s, category_id, user_id) is None {
        Err(EphemerideError::CategoryNotFound)
    } else {
        Ok(selected::<Tag>(s.tags, TagProbe::InCategory(category_id, user_id)))
    }
}

/// The tags of one of the user's categories, in the order in which they are
/// stored.
pub fn get_category_tags(store: &Store, category_id: &str, user_id: &str) -> (r: Result<
    Vec<Tag>,
    EphemerideError,
>)
    ensures
        outcomes(r) == category_tags(store@, category_id@, user_id@),
{
    if !user_exists(store, user_id) {
        return Err(EphemerideError::UserNotFound);
    }
    if !has_category(store, category_id, user_id) {
        return Err(EphemerideError::CategoryNotFound);
    }
    Ok(select(&store.tags, &TagQuery::InCategory(category_id.to_owned(), user_id.to_owned())))
}

/// The ids of some tags.
pub open spec fn tag_ids(tags: Seq<TagImage>) -> Seq<Seq<char>> {
    tags.map_values(|tag: TagImage| tag.id)
}

/// The ids of some tags.
pub fn ids_of(tags: &Vec<Tag>) -> (ids: Vec<String>)
    ensures
        ids.deep_view() == tag_ids(images(tags@)),
{
    let mut ids: Vec<String> = Vec::new();
    let mut i: usize = 0;
    while i < tags.len()
        invariant
            i <= tags.len(),
            ids.len() == i,
            forall|j: int| 0 <= j < i ==> ids[j]@ == tags[j].id@,
        decreases tags.len() - i,
    {
        ids.push(tags[i].id.clone());
        i += 1;
    }
    proof {
        assert(ids.deep_view() =~= tag_ids(images(tags@)));
    }
    ids
}

/// A store from which the tags that a query hits are gone, and with them
/// every link from an entry to one of them.
pub open spec fn without_tags(s: StoreView, query: TagProbe) -> StoreView {
    StoreView {
        tags: remaining::<Tag>(s.tags, query),
        links: remaining::<EntryTag>(
            s.links,
            LinkProbe::TagIn(tag_ids(selected::<Tag>(s.tags, query))),
        ),
        ..s
    }
}

/// Removes the tags that a query hits, and every link from an entry to one
/// of them. The entries stay.
pub fn remove_tags(store: &mut Store, query: &TagQuery) -> (removed: usize)
    ensures
        sound(old(store)@) ==> sound(final(store)@),
        final(store)@ == without_tags(old(store)@, query@),
        removed == selected::<Tag>(old(store)@.tags, query@).len(),
{
    proof {
        if sound(store@) {
            crate::store::consistency::without_tags_keeps(store@, query@);
            crate::store::references::without_tags_keeps_references(store@, query@);
        }
    }
    let doomed = select(&store.tags, query);
    let ids = ids_of(&doomed);
    let _ = remove(&mut store.entry_tags, &LinkQuery::TagIn(ids));
    remove(&mut store.tags, query)
}

/// A store from which a user's tag is gone, with every link to it, and the
/// answer: whether there was such a tag.
pub open spec fn tag_deleted(s: StoreView, tag_id: Seq<char>, user_id: Seq<char>) -> (
    StoreView,
    Result<bool, EphemerideError>,
) {
    if !user_known(s, user_id) {
        (s, Err(EphemerideError::UserNotFound))
    } else {
        (
            without_tags(s, TagProbe::Owned(tag_id, user_id)),
            Ok(tag_owned(s, tag_id, user_id) is Some),
        )
    }
}

/// Deletes one of the user's tags and detaches it from every entry. Deleting
/// a tag that is not there answers `false`.
pub fn delete_tag(store: &mut Store, tag_id: &str, user_id: &str) -> (r: Result<
    bool,
    EphemerideError,
>)
    ensures
        sound(old(store)@) ==> sound(final(store)@),
        (final(store)@, r) == tag_deleted(old(store)@, tag_id@, user_id@),
{
    if !user_exists(store, user_id) {
        return Err(EphemerideError::UserNotFound);
    }
    let removed = remove_tags(store, &TagQuery::Owned(tag_id.to_owned(), user_id.to_owned()));
    Ok(removed > 0)
}

/// A store from which the tags of one of the user's categories are gone,
/// with every link to them.
pub open spec fn category_tags_deleted(
    s: StoreView,
    category_id: Seq<char>,
    user_id: Seq<char>,
) -> (
    StoreView,
    Result<bool, EphemerideError>,
) {
    if !user_known(s, user_id) {
        (s, Err(EphemerideError::UserNotFound))
    } else if category_owned(s, category_id, user_id) is None {
        (s, Err(EphemerideError::CategoryNotFound))
    } else {
        (without_tags(s, TagProbe::InCategory(category_id, user_id)), Ok(true))
    }
}

/// Deletes every tag of one of the user's categories and detaches them from
/// every entry.
pub fn delete_all_category_tags(store: &mut Store, category_id: &str, user_id: &str) -> (r: Result<
    bool,
    EphemerideError,
>)
    ensures
        sound(old(store)@) ==> sound(final(store)@),
        (final(store)@, r) == category_tags_deleted(old(store)@, category_id@, user_id@),
{
    if !user_exists(store, user_id) {
        return Err(EphemerideError::UserNotFound);
    }
    if !has_category(store, category_id, user_id) {
        return Err(EphemerideError::CategoryNotFound);
    }
    let _ = remove_tags(store, &TagQuery::InCategory(category_id.to_owned(), user_id.to_owned()));
    Ok(true)
}

/// Whether a text names a color, whatever its case.
pub open spec fn names_a_color(text: Seq<char>) -> bool {
    exists|color: Color| lowercase(text) == #[trigger] color_name(color)
}

/// A tag that is created with a color text that names no color gets the
/// default color, `base`, and reads back with it. Whether the tag is
/// created does not depend on which color the text names.
pub proof fn unknown_color_gives_default(
    s: StoreView,
    name: Seq<char>,
    color_text: Seq<char>,
    category_id: Seq<char>,
    user_id: Seq<char>,
    id: Seq<char>,
    now: i64,
    other: Color,
)
    requires
        !names_a_color(color_text),
    ensures
        ({
            let (after, created) = tag_created(
                s,
                name,
                color_text,
                category_id,
                user_id,
                color_of(color_text),
                id,
                now,
            );
            &&& created is Ok ==> created->Ok_0.color == "base"@ && tag_found(after, id, user_id)
                == created
            &&& created is Ok <==> tag_created(
                s,
                name,
                color_text,
                category_id,
                user_id,
                other,
                id,
                now,
            ).1 is Ok
        }),
{
    let low = lowercase(color_text);
    assert(low != color_name(Color::Blue) && low != color_name(Color::Green) && low != color_name(
        Color::Lime,
    ) && low != color_name(Color::Yellow) && low != color_name(Color::Orange) && low != color_name(
        Color::Red,
    ) && low != color_name(Color::Purple) && low != color_name(Color::Pink));
    assert(color_named(low) == Color::Base);
    let (after, created) = tag_created(
        s,
        name,
        color_text,
        category_id,
        user_id,
        Color::Base,
        id,
        now,
    );
    if created is Ok {
        let at = first_hit_place::<Tag>(s.tags, TagProbe::Id(id));
        let at_owned = first_hit_place::<Tag>(s.tags, TagProbe::Owned(id, user_id));
        if at_owned < s.tags.len() {
            assert(Tag::hit(s.tags[at_owned], TagProbe::Id(id)));
        }
        first_hit_pushed::<Tag>(s.tags, created->Ok_0, TagProbe::Owned(id, user_id));
    }
}

/// Once tags are removed, no query that hits only removed tags finds one, no
/// entry is linked with one of them, and every entry is linked with just the
/// other tags that it was linked with before.
pub proof fn removed_tags_are_detached(
    s: StoreView,
    query: TagProbe,
    entry_id: Seq<char>,
    tag_id: Seq<char>,
)
    ensures
        ({
            let after = without_tags(s, query);
            let gone = tag_ids(selected::<Tag>(s.tags, query));
            &&& selected::<Tag>(after.tags, query).len() == 0
            &&& after.entries == s.entries
            &&& linked_tags(after.links, entry_id).contains(tag_id) <==> linked_tags(
                s.links,
                entry_id,
            ).contains(tag_id) && !gone.contains(tag_id)
        }),
{
    let after = without_tags(s, query);
    let gone = tag_ids(selected::<Tag>(s.tags, query));
    crate::store::table::none_left::<Tag>(s.tags, query, query);
    let of_entry = hitting::<EntryTag>(LinkProbe::Entry(entry_id));
    let kept = missing::<EntryTag>(LinkProbe::TagIn(gone));
    let before_links = s.links.filter(of_entry);
    let after_links = after.links.filter(of_entry);
    if linked_tags(after.links, entry_id).contains(tag_id) {
        let i = choose|i: int|
            0 <= i < linked_tags(after.links, entry_id).len() && linked_tags(
                after.links,
                entry_id,
            )[i] == tag_id;
        let link = after_links[i];
        assert(after_links.contains(link));
        filter_holds(after.links, of_entry, link);
        filter_holds(s.links, kept, link);
        filter_holds(s.links, of_entry, link);
        let j = choose|j: int| 0 <= j < before_links.len() && before_links[j] == link;
        assert(linked_tags(s.links, entry_id)[j] == tag_id);
    }
    if linked_tags(s.links, entry_id).contains(tag_id) && !gone.contains(tag_id) {
        let j = choose|j: int|
            0 <= j < linked_tags(s.links, entry_id).len() && linked_tags(s.links, entry_id)[j]
                == tag_id;
        let link = before_links[j];
        assert(before_links.contains(link));
        filter_holds(s.links, of_entry, link);
        filter_holds(s.links, kept, link);
        filter_holds(after.links, of_entry, link);
        let i = choose|i: int| 0 <= i < after_links.len() && after_links[i] == link;
        assert(linked_tags(after.links, entry_id)[i] == tag_id);
    }
}

} // verus!
