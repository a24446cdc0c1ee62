//! The entry engine: dated mood entries, their tags, and the filtered,
//! ordered and paginated query over them.

use crate::services::pagination::{window, PageImage, Paginated, PaginationObject};
use crate::services::tag::{get_tag, tag_found};
use crate::services::user::{report, reported, user_exists, user_known};
use crate::store::order::{
    in_order, is_total, ranked, ranked_holds, ranked_in_order, ranked_rows, sort, Ranked,
};
use crate::store::table::{
    amended, filter_holds, filter_step, first, first_hit, first_hit_amended, first_hit_place,
    first_hit_pushed, hitting, holds_text, images, remaining, remove, select, selected, update,
    Amend, Record, Row,
};
use crate::store::{append, outcome, outcomes, sound, Store, StoreView};
use crate::util::date::{date_le, date_of, has_date_shape, is_date_shape, parse_date, Date};
use crate::util::error::EphemerideError;
use crate::util::invite_code::new_id;
use crate::util::text::{copy_optional, has_length_within, length_within, str_eq};
use crate::util::unix_time::unix_ms;
use vstd::prelude::*;

verus! {

/// One day's entry of one user.
#[derive(Debug)]
pub struct Entry {
    pub id: String,
    pub user_id: String,
    pub created_at: i64,
    pub mood: i32,
    pub entry: Option<String>,
    pub date: Date,
}

/// What contracts say of an entry.
pub ghost struct EntryImage {
    pub id: Seq<char>,
    pub user_id: Seq<char>,
    pub created_at: i64,
    pub mood: i32,
    pub entry: Option<Seq<char>>,
    pub date: Date,
}

impl View for Entry {
    type V = EntryImage;

    open spec fn view(&self) -> EntryImage {
        EntryImage {
            id: self.id@,
            user_id: self.user_id@,
            created_at: self.created_at,
            mood: self.mood,
            entry: self.entry.deep_view(),
            date: self.date,
        }
    }
}

/// What is asked for to create an entry.
#[derive(Debug)]
pub struct CreateEntry {
    pub date: String,
    pub mood: i32,
    pub entry: Option<String>,
    pub selected_tags: Vec<String>,
    pub user_id: String,
}

/// What is asked for to change an entry.
#[derive(Debug)]
pub struct EditEntry {
    pub id: String,
    pub date: String,
    pub mood: i32,
    pub entry: Option<String>,
    pub selected_tags: Vec<String>,
    pub user_id: String,
}

/// An entry together with the ids of its tags.
#[derive(Debug)]
pub struct EntryWithTags {
    pub id: String,
    pub user_id: String,
    pub date: Date,
    pub created_at: i64,
    pub mood: i32,
    pub entry: Option<String>,
    pub selected_tags: Vec<String>,
}

/// What contracts say of an entry with its tags.
pub ghost struct EntryWithTagsImage {
    pub entry: EntryImage,
    pub selected_tags: Seq<Seq<char>>,
}

impl View for EntryWithTags {
    type V = EntryWithTagsImage;

    open spec fn view(&self) -> EntryWithTagsImage {
        EntryWithTagsImage {
            entry: EntryImage {
                id: self.id@,
                user_id: self.user_id@,
                created_at: self.created_at,
                mood: self.mood,
                entry: self.entry.deep_view(),
                date: self.date,
            },
            selected_tags: self.selected_tags.deep_view(),
        }
    }
}

/// The link between an entry and one of its tags.
#[derive(Debug)]
pub struct EntryTag {
    pub id: String,
    pub entry_id: String,
    pub tag_id: String,
}

/// What contracts say of a link: the entry and the tag that it joins. The
/// link's own id plays no part in any of them.
pub ghost struct LinkImage {
    pub entry_id: Seq<char>,
    pub tag_id: Seq<char>,
}

impl View for EntryTag {
    type V = LinkImage;

    open spec fn view(&self) -> LinkImage {
        LinkImage { entry_id: self.entry_id@, tag_id: self.tag_id@ }
    }
}

/// The orders in which entries can be asked for. The two orders by mood
/// break ties by date, in the same direction.
#[derive(Debug, Clone, Copy, PartialEq, Eq, Structural)]
pub enum EntryOptionsOrder {
    DateAsc,
    DateDesc,
    MoodAsc,
    MoodDesc,
}

/// The filters, order and window of a query for entries.
#[derive(Debug)]
pub struct GetEntriesOptions {
    pub from_date: Option<String>,
    pub to_date: Option<String>,
    pub tags: Option<Vec<String>>,
    pub from_mood: Option<i32>,
    pub to_mood: Option<i32>,
    pub order: Option<EntryOptionsOrder>,
    pub limit: Option<i64>,
    pub offset: Option<i64>,
}

impl Default for GetEntriesOptions {
    /// No filter, the newest entries first, a page of 31 from the start.
    fn default() -> (options: GetEntriesOptions)
        ensures
            options.from_date is None,
            options.to_date is None,
            options.tags is None,
            options.from_mood is None,
            options.to_mood is None,
            options.order == Some(EntryOptionsOrder::DateDesc),
            options.limit == Some(31i64),
            options.offset == Some(0i64),
    {
        GetEntriesOptions {
            from_date: None,
            to_date: None,
            tags: None,
            from_mood: None,
            to_mood: None,
            order: Some(EntryOptionsOrder::DateDesc),
            limit: Some(31),
            offset: Some(0),
        }
    }
}

/// Which entries a lookup asks for.
pub enum EntryQuery {
    Id(String),
    Owned(String, String),
    Dated(Date, String),
    User(String),
    Between(Date, Date, String),
}

/// What contracts say of a lookup of entries.
pub ghost enum EntryProbe {
    Id(Seq<char>),
    Owned(Seq<char>, Seq<char>),
    Dated(Date, Seq<char>),
    User(Seq<char>),
    Between(Date, Date, Seq<char>),
}

impl View for EntryQuery {
    type V = EntryProbe;

    open spec fn view(&self) -> EntryProbe {
        match self {
            EntryQuery::Id(id) => EntryProbe::Id(id@),
            EntryQuery::Owned(id, user_id) => EntryProbe::Owned(id@, user_id@),
            EntryQuery::Dated(date, user_id) => EntryProbe::Dated(*date, user_id@),
            EntryQuery::User(user_id) => EntryProbe::User(user_id@),
            EntryQuery::Between(from, to, user_id) => EntryProbe::Between(*from, *to, user_id@),
        }
    }
}

impl Record for Entry {
    fn copy(&self) -> (r: Entry) {
        Entry {
            id: self.id.clone(),
            user_id: self.user_id.clone(),
            created_at: self.created_at,
            mood: self.mood,
            entry: copy_optional(&self.entry),
            date: self.date,
        }
    }
}

impl Row for Entry {
    type Query = EntryQuery;

    open spec fn hit(image: EntryImage, query: EntryProbe) -> bool {
        match query {
            EntryProbe::Id(id) => image.id == id,
            EntryProbe::Owned(id, user_id) => image.id == id && image.user_id == user_id,
            EntryProbe::Dated(date, user_id) => image.date == date && image.user_id == user_id,
            EntryProbe::User(user_id) => image.user_id == user_id,
            EntryProbe::Between(from, to, user_id) => date_le(from, image.date) && date_le(
                image.date,
                to,
            ) && image.user_id == user_id,
        }
    }

    fn hits(&self, query: &EntryQuery) -> (r: bool) {
        assert(query@ is Id || query@ is Owned || query@ is Dated || query@ is User
            || query@ is Between);
        match query {
            EntryQuery::Id(id) => str_eq(self.id.as_str(), id.as_str()),
            EntryQuery::Owned(id, user_id) => str_eq(self.id.as_str(), id.as_str()) && str_eq(
                self.user_id.as_str(),
                user_id.as_str(),
            ),
            EntryQuery::Dated(date, user_id) => self.date.same(date) && str_eq(
                self.user_id.as_str(),
                user_id.as_str(),
            ),
            EntryQuery::User(user_id) => str_eq(self.user_id.as_str(), user_id.as_str()),
            EntryQuery::Between(from, to, user_id) => from.le(&self.date) && self.date.le(to)
                && str_eq(self.user_id.as_str(), user_id.as_str()),
        }
    }
}

/// What an update writes into an entry: its new date, mood and text.
pub struct Rewrite {
    pub date: Date,
    pub mood: i32,
    pub entry: Option<String>,
}

impl View for Rewrite {
    type V = (Date, i32, Option<Seq<char>>);

    open spec fn view(&self) -> (Date, i32, Option<Seq<char>>) {
        (self.date, self.mood, self.entry.deep_view())
    }
}

impl Amend for Entry {
    type Change = Rewrite;

    open spec fn changed(image: EntryImage, change: (Date, i32, Option<Seq<char>>)) -> EntryImage {
        EntryImage { date: change.0, mood: change.1, entry: change.2, ..image }
    }

    fn amend(self, change: &Rewrite) -> (r: Entry) {
        assert(change@ == (change.date, change.mood, change.entry.deep_view()));
        Entry {
            id: self.id,
            user_id: self.user_id,
            created_at: self.created_at,
            mood: change.mood,
            entry: copy_optional(&change.entry),
            date: change.date,
        }
    }
}

/// Which links a lookup asks for.
pub enum LinkQuery {
    Entry(String),
    Tag(String),
    EntryIn(Vec<String>),
    TagIn(Vec<String>),
}

/// What contracts say of a lookup of links.
pub ghost enum LinkProbe {
    Entry(Seq<char>),
    Tag(Seq<char>),
    EntryIn(Seq<Seq<char>>),
    TagIn(Seq<Seq<char>>),
}

impl View for LinkQuery {
    type V = LinkProbe;

    open spec fn view(&self) -> LinkProbe {
        match self {
            LinkQuery::Entry(id) => LinkProbe::Entry(id@),
            LinkQuery::Tag(id) => LinkProbe::Tag(id@),
            LinkQuery::EntryIn(ids) => LinkProbe::EntryIn(ids.deep_view()),
            LinkQuery::TagIn(ids) => LinkProbe::TagIn(ids.deep_view()),
        }
    }
}

impl Record for EntryTag {
    fn copy(&self) -> (r: EntryTag) {
        EntryTag {
            id: self.id.clone(),
            entry_id: self.entry_id.clone(),
            tag_id: self.tag_id.clone(),
        }
    }
}

impl Row for EntryTag {
    type Query = LinkQuery;

    open spec fn hit(image: LinkImage, query: LinkProbe) -> bool {
        match query {
            LinkProbe::Entry(id) => image.entry_id == id,
            LinkProbe::Tag(id) => image.tag_id == id,
            LinkProbe::EntryIn(ids) => ids.contains(image.entry_id),
            LinkProbe::TagIn(ids) => ids.contains(image.tag_id),
        }
    }

    fn hits(&self, query: &LinkQuery) -> (r: bool) {
        assert(query@ is Entry || query@ is Tag || query@ is EntryIn || query@ is TagIn);
        match query {
            LinkQuery::Entry(id) => str_eq(self.entry_id.as_str(), id.as_str()),
            LinkQuery::Tag(id) => str_eq(self.tag_id.as_str(), id.as_str()),
            LinkQuery::EntryIn(ids) => holds_text(ids, self.entry_id.as_str()),
            LinkQuery::TagIn(ids) => holds_text(ids, self.tag_id.as_str()),
        }
    }
}

impl Record for EntryWithTags {
    fn copy(&self) -> (r: EntryWithTags) {
        EntryWithTags {
            id: self.id.clone(),
            user_id: self.user_id.clone(),
            date: self.date,
            created_at: self.created_at,
            mood: self.mood,
            entry: copy_optional(&self.entry),
            selected_tags: copy_texts(&self.selected_tags),
        }
    }
}

impl Ranked for EntryWithTags {
    type Order = EntryOptionsOrder;

    open spec fn before(
        a: EntryWithTagsImage,
        b: EntryWithTagsImage,
        order: EntryOptionsOrder,
    ) -> bool {
        match order {
            EntryOptionsOrder::DateAsc => date_le(a.entry.date, b.entry.date),
            EntryOptionsOrder::DateDesc => date_le(b.entry.date, a.entry.date),
            EntryOptionsOrder::MoodAsc => a.entry.mood < b.entry.mood || (a.entry.mood
                == b.entry.mood && date_le(a.entry.date, b.entry.date)),
            EntryOptionsOrder::MoodDesc => a.entry.mood > b.entry.mood || (a.entry.mood
                == b.entry.mood && date_le(b.entry.date, a.entry.date)),
        }
    }

    fn comes_before(&self, other: &EntryWithTags, order: &EntryOptionsOrder) -> (r: bool) {
        match order {
            EntryOptionsOrder::DateAsc => self.date.le(&other.date),
            EntryOptionsOrder::DateDesc => other.date.le(&self.date),
            EntryOptionsOrder::MoodAsc => self.mood < other.mood || (self.mood == other.mood
                && self.date.le(&other.date)),
            EntryOptionsOrder::MoodDesc => self.mood > other.mood || (self.mood == other.mood
                && other.date.le(&self.date)),
        }
    }
}

/// A copy of a list of texts.
pub fn copy_texts(texts: &Vec<String>) -> (copy: Vec<String>)
    ensures
        copy.deep_view() == texts.deep_view(),
{
    let mut copy: Vec<String> = Vec::new();
    let mut i: usize = 0;
    while i < texts.len()
        invariant
            i <= texts.len(),
            copy.len() == i,
            forall|j: int| 0 <= j < i ==> copy[j]@ == texts[j]@,
        decreases texts.len() - i,
    {
        copy.push(texts[i].clone());
        i += 1;
    }
    proof {
        assert(copy.deep_view() =~= texts.deep_view());
    }
    copy
}

/// The entry with a given id that a given user owns.
pub open spec fn entry_owned(s: StoreView, entry_id: Seq<char>, user_id: Seq<char>) -> Option<
    EntryImage,
> {
    first_hit::<Entry>(s.entries, EntryProbe::Owned(entry_id, user_id))
}

/// The entry that a user has for a given day.
pub open spec fn entry_on(s: StoreView, date: Date, user_id: Seq<char>) -> Option<EntryImage> {
    first_hit::<Entry>(s.entries, EntryProbe::Dated(date, user_id))
}

/// The ids of the tags that an entry is linked with, in the order of the
/// links.
pub open spec fn linked_tags(links: Seq<LinkImage>, entry_id: Seq<char>) -> Seq<Seq<char>> {
    selected::<EntryTag>(links, LinkProbe::Entry(entry_id)).map_values(
        |link: LinkImage| link.tag_id,
    )
}

/// An entry together with the ids of its tags.
pub open spec fn with_tags(links: Seq<LinkImage>, entry: EntryImage) -> EntryWithTagsImage {
    EntryWithTagsImage { entry, selected_tags: linked_tags(links, entry.id) }
}

/// Joins an entry with the ids of its tags.
pub fn attach_tags(store: &Store, entry: Entry) -> (joined: EntryWithTags)
    ensures
        joined@ == with_tags(store@.links, entry@),
{
    let links = select(&store.entry_tags, &LinkQuery::Entry(entry.id.clone()));
    let mut tags: Vec<String> = Vec::new();
    let mut i: usize = 0;
    while i < links.len()
        invariant
            i <= links.len(),
            tags.len() == i,
            forall|j: int| 0 <= j < i ==> tags[j]@ == links[j].tag_id@,
        decreases links.len() - i,
    {
        tags.push(links[i].tag_id.clone());
        i += 1;
    }
    proof {
        assert(tags.deep_view() =~= images(links@).map_values(|link: LinkImage| link.tag_id));
    }
    EntryWithTags {
        id: entry.id,
        user_id: entry.user_id,
        date: entry.date,
        created_at: entry.created_at,
        mood: entry.mood,
        entry: entry.entry,
        selected_tags: tags,
    }
}

/// Whether a tag id resolves: whether the user owns a tag with that id.
pub open spec fn resolves(s: StoreView, user_id: Seq<char>) -> spec_fn(Seq<char>) -> bool {
    |tag_id: Seq<char>| tag_found(s, tag_id, user_id) is Ok
}

/// The tag ids among those asked for that resolve. The others are dropped.
pub open spec fn resolved_tags(s: StoreView, tag_ids: Seq<Seq<char>>, user_id: Seq<char>) -> Seq<
    Seq<char>,
> {
    tag_ids.filter(resolves(s, user_id))
}

/// Drops the tag ids that do not resolve.
pub fn resolve_tags(store: &Store, tag_ids: &Vec<String>, user_id: &str) -> (resolved: Vec<String>)
    ensures
        resolved.deep_view() == resolved_tags(store@, tag_ids.deep_view(), user_id@),
{
    let mut resolved: Vec<String> = Vec::new();
    let mut i: usize = 0;
    let ghost keep = resolves(store@, user_id@);
    proof {
        assert(tag_ids.deep_view().take(0) =~= Seq::<Seq<char>>::empty());
        assert(resolved.deep_view() =~= Seq::<Seq<char>>::empty());
        reveal(Seq::filter);
    }
    while i < tag_ids.len()
        invariant
            i <= tag_ids.len(),
            keep == resolves(store@, user_id@),
            resolved.deep_view() == tag_ids.deep_view().take(i as int).filter(keep),
        decreases tag_ids.len() - i,
    {
        proof {
            filter_step(tag_ids.deep_view().take(i as int), tag_ids[i as int]@, keep);
            assert(tag_ids.deep_view().take(i as int).push(tag_ids[i as int]@)
                =~= tag_ids.deep_view().take(i + 1));
        }
        if get_tag(store, tag_ids[i].as_str(), user_id).is_ok() {
            let ghost before = resolved.deep_view();
            resolved.push(tag_ids[i].clone());
            proof {
                assert(resolved.deep_view() =~= before.push(tag_ids[i as int]@));
            }
        }
        i += 1;
    }
    proof {
        assert(tag_ids.deep_view().take(tag_ids.len() as int) =~= tag_ids.deep_view());
    }
    resolved
}

/// The links that join an entry with each of some tags.
pub open spec fn links_for(entry_id: Seq<char>, tag_ids: Seq<Seq<char>>) -> Seq<LinkImage> {
    tag_ids.map_values(|tag_id: Seq<char>| LinkImage { entry_id, tag_id })
}

/// A store with links from an entry to each of some tags added.
pub open spec fn with_links(
    s: StoreView,
    entry_id: Seq<char>,
    tag_ids: Seq<Seq<char>>,
) -> StoreView {
    StoreView { links: s.links + links_for(entry_id, tag_ids), ..s }
}

/// Links an entry with each of some tags.
fn link_tags(store: &mut Store, entry_id: &str, tag_ids: &Vec<String>)
    ensures
        final(store)@ == with_links(old(store)@, entry_id@, tag_ids.deep_view()),
{
    let mut i: usize = 0;
    proof {
        assert(links_for(entry_id@, tag_ids.deep_view().take(0)) =~= Seq::<LinkImage>::empty());
        assert(store@.links + Seq::<LinkImage>::empty() =~= store@.links);
    }
    while i < tag_ids.len()
        invariant
            i <= tag_ids.len(),
            store@ == with_links(old(store)@, entry_id@, tag_ids.deep_view().take(i as int)),
        decreases tag_ids.len() - i,
    {
        let link = EntryTag {
            id: new_id(),
            entry_id: entry_id.to_owned(),
            tag_id: tag_ids[i].clone(),
        };
        proof {
            let done = tag_ids.deep_view().take(i as int);
            let next = tag_ids.deep_view().take(i + 1);
            assert(links_for(entry_id@, next) =~= links_for(entry_id@, done).push(link@));
            assert((old(store)@.links + links_for(entry_id@, done)).push(link@) =~= old(
                store,
            )@.links + links_for(entry_id@, next));
        }
        append(&mut store.entry_tags, link);
        i += 1;
    }
    proof {
        assert(tag_ids.deep_view().take(tag_ids.len() as int) =~= tag_ids.deep_view());
    }
}

/// Whether a mood and a text are valid in an entry.
pub open spec fn valid_mood_and_text(mood: i32, entry: Option<Seq<char>>) -> bool {
    1 <= mood <= 5 && (entry is Some ==> length_within(entry->0, 0, 1000))
}

/// Whether a mood and a text are valid in an entry.
fn mood_and_text_ok(mood: i32, entry: &Option<String>) -> (r: bool)
    ensures
        r == valid_mood_and_text(mood, entry.deep_view()),
{
    let text_ok = match entry {
        Some(text) => has_length_within(text.as_str(), 0, 1000),
        None => true,
    };
    1 <= mood && mood <= 5 && text_ok
}

/// Whether the fields of a new entry are valid.
pub open spec fn valid_new_entry(
    date: Seq<char>,
    mood: i32,
    entry: Option<Seq<char>>,
    user_id: Seq<char>,
) -> bool {
    is_date_shape(date) && valid_mood_and_text(mood, entry) && length_within(user_id, 1, 255)
}

/// A store in which an entry was created, and the answer: the new entry with
/// the tag ids that were asked for. `date` is what the date text was read
/// as, `id` the new entry's id and `now` the time. Tag ids that do not
/// resolve are dropped, not refused.
pub open spec fn entry_created(
    s: StoreView,
    date_text: Seq<char>,
    mood: i32,
    entry: Option<Seq<char>>,
    selected_tags: Seq<Seq<char>>,
    user_id: Seq<char>,
    date: Option<Date>,
    id: Seq<char>,
    now: i64,
) -> (StoreView, Result<EntryWithTagsImage, EphemerideError>) {
    if !valid_new_entry(date_text, mood, entry, user_id) || date is None {
        (s, Err(EphemerideError::BadRequest))
    } else if entry_on(s, date->0, user_id) is Some {
        (s, Err(EphemerideError::EntryAlreadyExistsForDate))
    } else if !user_known(s, user_id) {
        (s, Err(EphemerideError::UserNotFound))
    } else if first_hit::<Entry>(s.entries, EntryProbe::Id(id)) is Some {
        (s, Err(EphemerideError::DatabaseError))
    } else {
        let row = EntryImage { id, user_id, created_at: now, mood, entry, date: date->0 };
        (
            with_links(
                StoreView { entries: s.entries.push(row), ..s },
                id,
                resolved_tags(s, selected_tags, user_id),
            ),
            Ok(EntryWithTagsImage { entry: row, selected_tags }),
        )
    }
}

/// Creates an entry, given what its date text was read as, its id and the
/// time of creation.
pub fn create_entry_with(
    store: &mut Store,
    entry: CreateEntry,
    date: Option<Date>,
    id: String,
    now: i64,
) -> (r: Result<EntryWithTags, EphemerideError>)
    ensures
        sound(old(store)@) ==> sound(final(store)@),
        (final(store)@, outcome(r)) == entry_created(
            old(store)@,
            entry.date@,
            entry.mood,
            entry.entry.deep_view(),
            entry.selected_tags.deep_view(),
            entry.user_id@,
            date,
            id@,
            now,
        ),
{
    proof {
        if sound(store@) {
            crate::store::consistency::entry_created_keeps(
                store@,
                entry.date@,
                entry.mood,
                entry.entry.deep_view(),
                entry.selected_tags.deep_view(),
                entry.user_id@,
                date,
                id@,
                now,
            );
            crate::store::references::entry_created_keeps_references(
                store@,
                entry.date@,
                entry.mood,
                entry.entry.deep_view(),
                entry.selected_tags.deep_view(),
                entry.user_id@,
                date,
                id@,
                now,
            );
        }
    }
    if !(has_date_shape(entry.date.as_str()) && mood_and_text_ok(entry.mood, &entry.entry)
        && has_length_within(entry.user_id.as_str(), 1, 255)) {
        return Err(EphemerideError::BadRequest);
    }
    let date = match date {
        Some(date) => date,
        None => return Err(EphemerideError::BadRequest),
    };
    if first(&store.entries, &EntryQuery::Dated(date, entry.user_id.clone())).is_some() {
        return Err(EphemerideError::EntryAlreadyExistsForDate);
    }
    let tags = resolve_tags(store, &entry.selected_tags, entry.user_id.as_str());
    if !user_exists(store, entry.user_id.as_str()) {
        return Err(EphemerideError::UserNotFound);
    }
    if first(&store.entries, &EntryQuery::Id(id.clone())).is_some() {
        return Err(EphemerideError::DatabaseError);
    }
    let row = Entry {
        id: id.clone(),
        user_id: entry.user_id.clone(),
        created_at: now,
        mood: entry.mood,
        entry: copy_optional(&entry.entry),
        date,
    };
    append(&mut store.entries, row);
    link_tags(store, id.as_str(), &tags);
    Ok(
        EntryWithTags {
            id,
            user_id: entry.user_id,
            date,
            created_at: now,
            mood: entry.mood,
            entry: entry.entry,
            selected_tags: entry.selected_tags,
        },
    )
}

/// Creates an entry for a day on which the user has none yet.
pub fn create_entry(store: &mut Store, entry: CreateEntry) -> (r: Result<
    EntryWithTags,
    EphemerideError,
>)
    ensures
        sound(old(store)@) ==> sound(final(store)@),
        exists|id: Seq<char>, now: i64|
            (final(store)@, outcome(r)) == #[trigger] entry_created(
                old(store)@,
                entry.date@,
                entry.mood,
                entry.entry.deep_view(),
                entry.selected_tags.deep_view(),
                entry.user_id@,
                date_of(entry.date@),
                id,
                now,
            ),
{
    let date = parse_date(entry.date.as_str());
    create_entry_with(store, entry, date, new_id(), unix_ms())
}

/// One of the user's entries with its tags.
pub open spec fn entry_with_tags(s: StoreView, entry_id: Seq<char>, user_id: Seq<char>) -> Result<
    EntryWithTagsImage,
    EphemerideError,
> {
    match entry_owned(s, entry_id, user_id) {
        Some(entry) => Ok(with_tags(s.links, entry)),
        None => Err(EphemerideError::EntryNotFound),
    }
}

/// One of the user's entries with the ids of its tags.
pub fn get_entry_with_tags(store: &Store, entry_id: &str, user_id: &str) -> (r: Result<
    EntryWithTags,
    EphemerideError,
>)
    ensures
        outcome(r) == entry_with_tags(store@, entry_id@, user_id@),
{
    match first(&store.entries, &EntryQuery::Owned(entry_id.to_owned(), user_id.to_owned())) {
        Some(entry) => Ok(attach_tags(store, entry)),
        None => Err(EphemerideError::EntryNotFound),
    }
}

/// The entry that a user has for a given day.
pub fn get_entry_by_date(store: &Store, date: Date, user_id: &str) -> (r: Result<
    Entry,
    EphemerideError,
>)
    ensures
        outcome(r) == match entry_on(store@, date, user_id@) {
            Some(entry) => Ok::<EntryImage, EphemerideError>(entry),
            None => Err(EphemerideError::EntryNotFound),
        },
{
    match first(&store.entries, &EntryQuery::Dated(date, user_id.to_owned())) {
        Some(entry) => Ok(entry),
        None => Err(EphemerideError::EntryNotFound),
    }
}

/// Whether the fields of a change to an entry are valid.
pub open spec fn valid_entry_edit(
    id: Seq<char>,
    date: Seq<char>,
    mood: i32,
    entry: Option<Seq<char>>,
    user_id: Seq<char>,
) -> bool {
    length_within(id, 1, 255) && is_date_shape(date) && valid_mood_and_text(mood, entry)
        && length_within(user_id, 1, 255)
}

/// A store in which one of the user's entries was changed, and the answer:
/// the entry as it now stands. `date` is what the date text was read as. The
/// entry may keep its day; it may not move to a day on which the user has
/// another entry. Its tags are replaced by those asked for that resolve.
pub open spec fn entry_edited(
    s: StoreView,
    id: Seq<char>,
    date_text: Seq<char>,
    mood: i32,
    entry: Option<Seq<char>>,
    selected_tags: Seq<Seq<char>>,
    user_id: Seq<char>,
    date: Option<Date>,
) -> (StoreView, Result<EntryWithTagsImage, EphemerideError>) {
    if !valid_entry_edit(id, date_text, mood, entry, user_id) || date is None {
        (s, Err(EphemerideError::BadRequest))
    } else if entry_on(s, date->0, user_id) is Some && entry_on(s, date->0, user_id)->0.id != id {
        (s, Err(EphemerideError::EntryAlreadyExistsForDate))
    } else if entry_owned(s, id, user_id) is None {
        (s, Err(EphemerideError::EntryNotFound))
    } else {
        let after = with_links(
            StoreView {
                entries: amended::<Entry>(
                    s.entries,
                    EntryProbe::Owned(id, user_id),
                    (date->0, mood, entry),
                ),
                links: remaining::<EntryTag>(s.links, LinkProbe::Entry(id)),
                ..s
            },
            id,
            resolved_tags(s, selected_tags, user_id),
        );
        (after, entry_with_tags(after, id, user_id))
    }
}

/// Changes one of the user's entries, given what its date text was read as.
pub fn edit_entry_with(store: &mut Store, entry: EditEntry, date: Option<Date>) -> (r: Result<
    EntryWithTags,
    EphemerideError,
>)
    ensures
        sound(old(store)@) ==> sound(final(store)@),
        (final(store)@, outcome(r)) == entry_edited(
            old(store)@,
            entry.id@,
            entry.date@,
            entry.mood,
            entry.entry.deep_view(),
            entry.selected_tags.deep_view(),
            entry.user_id@,
            date,
        ),
{
    proof {
        if sound(store@) {
            crate::store::consistency::entry_edited_keeps(
                store@,
                entry.id@,
                entry.date@,
                entry.mood,
                entry.entry.deep_view(),
                entry.selected_tags.deep_view(),
                entry.user_id@,
                date,
            );
            crate::store::references::entry_edited_keeps_references(
                store@,
                entry.id@,
                entry.date@,
                entry.mood,
                entry.entry.deep_view(),
                entry.selected_tags.deep_view(),
                entry.user_id@,
                date,
            );
        }
    }
    if !(has_length_within(entry.id.as_str(), 1, 255) && has_date_shape(entry.date.as_str())
        && mood_and_text_ok(entry.mood, &entry.entry) && has_length_within(
        entry.user_id.as_str(),
        1,
        255,
    )) {
        return Err(EphemerideError::BadRequest);
    }
    let date = match date {
        Some(date) => date,
        None => return Err(EphemerideError::BadRequest),
    };
    match first(&store.entries, &EntryQuery::Dated(date, entry.user_id.clone())) {
        Some(other) => {
            if !str_eq(other.id.as_str(), entry.id.as_str()) {
                return Err(EphemerideError::EntryAlreadyExistsForDate);
            }
        },
        None => {},
    }
    let query = EntryQuery::Owned(entry.id.clone(), entry.user_id.clone());
    if first(&store.entries, &query).is_none() {
        return Err(EphemerideError::EntryNotFound);
    }
    let tags = resolve_tags(store, &entry.selected_tags, entry.user_id.as_str());
    let change = Rewrite { date, mood: entry.mood, entry: entry.entry };
    let _ = update(&mut store.entries, &query, &change);
    let _ = remove(&mut store.entry_tags, &LinkQuery::Entry(entry.id.clone()));
    link_tags(store, entry.id.as_str(), &tags);
    get_entry_with_tags(store, entry.id.as_str(), entry.user_id.as_str())
}

/// Changes the day, mood, text and tags of one of the user's entries.
pub fn edit_entry(
    store: &mut Store,
    entry: EditEntry,
) -> (r: Result<EntryWithTags, EphemerideError>)
    ensures
        sound(old(store)@) ==> sound(final(store)@),
        (final(store)@, outcome(r)) == entry_edited(
            old(store)@,
            entry.id@,
            entry.date@,
            entry.mood,
            entry.entry.deep_view(),
            entry.selected_tags.deep_view(),
            entry.user_id@,
            date_of(entry.date@),
        ),
{
    let date = parse_date(entry.date.as_str());
    edit_entry_with(store, entry, date)
}

/// The ids of some entries.
pub open spec fn entry_ids(entries: Seq<EntryImage>) -> Seq<Seq<char>> {
    entries.map_values(|entry: EntryImage| entry.id)
}

/// A store from which the entries that a query hits are gone, and with them
/// every link from one of them to a tag.
pub open spec fn without_entries(s: StoreView, query: EntryProbe) -> StoreView {
    StoreView {
        entries: remaining::<Entry>(s.entries, query),
        links: remaining::<EntryTag>(
            s.links,
            LinkProbe::EntryIn(entry_ids(selected::<Entry>(s.entries, query))),
        ),
        ..s
    }
}

/// Removes the entries that a query hits, and every link from one of them to
/// a tag.
pub fn remove_entries(store: &mut Store, query: &EntryQuery) -> (removed: usize)
    ensures
        sound(old(store)@) ==> sound(final(store)@),
        final(store)@ == without_entries(old(store)@, query@),
        removed == selected::<Entry>(old(store)@.entries, query@).len(),
{
    proof {
        if sound(store@) {
            crate::store::consistency::without_entries_keeps(store@, query@);
            crate::store::references::without_entries_keeps_references(store@, query@);
        }
    }
    let doomed = select(&store.entries, query);
    let mut ids: Vec<String> = Vec::new();
    let mut i: usize = 0;
    while i < doomed.len()
        invariant
            i <= doomed.len(),
            ids.len() == i,
            forall|j: int| 0 <= j < i ==> ids[j]@ == doomed[j].id@,
        decreases doomed.len() - i,
    {
        ids.push(doomed[i].id.clone());
        i += 1;
    }
    proof {
        assert(ids.deep_view() =~= entry_ids(images(doomed@)));
    }
    let _ = remove(&mut store.entry_tags, &LinkQuery::EntryIn(ids));
    remove(&mut store.entries, query)
}

/// A store from which one of the user's entries is gone, with its links, and
/// the answer: whether there was such an entry.
pub open spec fn entry_deleted(s: StoreView, entry_id: Seq<char>, user_id: Seq<char>) -> (
    StoreView,
    Result<bool, EphemerideError>,
) {
    if !user_known(s, user_id) {
        (s, Err(EphemerideError::UserNotFound))
    } else {
        (
            without_entries(s, EntryProbe::Owned(entry_id, user_id)),
            Ok(entry_owned(s, entry_id, user_id) is Some),
        )
    }
}

/// Deletes one of the user's entries: first its links to tags, then the
/// entry. Deleting an entry that is not there answers `false`.
pub fn delete_entry(store: &mut Store, entry_id: &str, user_id: &str) -> (r: Result<
    bool,
    EphemerideError,
>)
    ensures
        sound(old(store)@) ==> sound(final(store)@),
        (final(store)@, r) == entry_deleted(old(store)@, entry_id@, user_id@),
{
    if !user_exists(store, user_id) {
        return Err(EphemerideError::UserNotFound);
    }
    let query = EntryQuery::Owned(entry_id.to_owned(), user_id.to_owned());
    let removed = remove_entries(store, &query);
    Ok(removed > 0)
}

/// A query for entries with its dates read: the filters, the order and the
/// window.
#[derive(Debug)]
pub struct EntryFilter {
    pub from_date: Option<Date>,
    pub to_date: Option<Date>,
    pub tags: Vec<String>,
    pub from_mood: Option<i32>,
    pub to_mood: Option<i32>,
    pub order: EntryOptionsOrder,
    pub limit: i64,
    pub offset: i64,
}

/// What contracts say of a query for entries.
pub ghost struct EntryFilterImage {
    pub from_date: Option<Date>,
    pub to_date: Option<Date>,
    pub tags: Seq<Seq<char>>,
    pub from_mood: Option<i32>,
    pub to_mood: Option<i32>,
    pub order: EntryOptionsOrder,
    pub limit: i64,
    pub offset: i64,
}

impl View for EntryFilter {
    type V = EntryFilterImage;

    open spec fn view(&self) -> EntryFilterImage {
        EntryFilterImage {
            from_date: self.from_date,
            to_date: self.to_date,
            tags: self.tags.deep_view(),
            from_mood: self.from_mood,
            to_mood: self.to_mood,
            order: self.order,
            limit: self.limit,
            offset: self.offset,
        }
    }
}

/// The query that is made where none is given: no filter, the newest
/// entries first, a page of 31 from the start.
pub open spec fn default_filter() -> EntryFilterImage {
    EntryFilterImage {
        from_date: None,
        to_date: None,
        tags: Seq::empty(),
        from_mood: None,
        to_mood: None,
        order: EntryOptionsOrder::DateDesc,
        limit: 31,
        offset: 0,
    }
}

/// Whether an entry passes the filters of a query: its day lies within the
/// dates, its mood within the moods, both bounds included, and its tags
/// hold every tag asked for.
pub open spec fn passes(row: EntryWithTagsImage, query: EntryFilterImage) -> bool {
    &&& query.from_date is Some ==> date_le(query.from_date->0, row.entry.date)
    &&& query.to_date is Some ==> date_le(row.entry.date, query.to_date->0)
    &&& query.from_mood is Some ==> row.entry.mood >= query.from_mood->0
    &&& query.to_mood is Some ==> row.entry.mood <= query.to_mood->0
    &&& forall|i: int|
        0 <= i < query.tags.len() ==> row.selected_tags.contains(#[trigger] query.tags[i])
}

/// Whether an entry passes the filters of a query.
pub fn entry_passes(row: &EntryWithTags, query: &EntryFilter) -> (r: bool)
    ensures
        r == passes(row@, query@),
{
    let from_ok = match &query.from_date {
        Some(from) => from.le(&row.date),
        None => true,
    };
    let to_ok = match &query.to_date {
        Some(to) => row.date.le(to),
        None => true,
    };
    let low_ok = match query.from_mood {
        Some(low) => row.mood >= low,
        None => true,
    };
    let high_ok = match query.to_mood {
        Some(high) => row.mood <= high,
        None => true,
    };
    if !(from_ok && to_ok && low_ok && high_ok) {
        return false;
    }
    let mut i: usize = 0;
    while i < query.tags.len()
        invariant
            i <= query.tags.len(),
            forall|j: int| 0 <= j < i ==> row@.selected_tags.contains(#[trigger] query@.tags[j]),
        decreases query.tags.len() - i,
    {
        if !holds_text(&row.selected_tags, query.tags[i].as_str()) {
            assert(query@.tags[i as int] == query.tags[i as int]@);
            return false;
        }
        assert(query@.tags[i as int] == query.tags[i as int]@);
        i += 1;
    }
    true
}

/// The entries of a user, each with its tags, in the order in which they are
/// stored.
pub open spec fn joined(s: StoreView, user_id: Seq<char>) -> Seq<EntryWithTagsImage> {
    selected::<Entry>(s.entries, EntryProbe::User(user_id)).map_values(
        |entry: EntryImage| with_tags(s.links, entry),
    )
}

/// The entries that pass the filters of a query.
pub open spec fn passing(query: EntryFilterImage) -> spec_fn(EntryWithTagsImage) -> bool {
    |row: EntryWithTagsImage| passes(row, query)
}

/// The entries of a user that pass the filters of a query.
pub open spec fn matching(s: StoreView, user_id: Seq<char>, query: EntryFilterImage) -> Seq<
    EntryWithTagsImage,
> {
    joined(s, user_id).filter(passing(query))
}

/// The entries of a user that pass the filters of a query, each with its
/// tags, in the order in which they are stored.
pub fn matching_entries(store: &Store, user_id: &str, query: &EntryFilter) -> (rows: Vec<
    EntryWithTags,
>)
    ensures
        images(rows@) == matching(store@, user_id@, query@),
{
    let owned = select(&store.entries, &EntryQuery::User(user_id.to_owned()));
    let mut rows: Vec<EntryWithTags> = Vec::new();
    let mut i: usize = 0;
    let ghost all = joined(store@, user_id@);
    let ghost keep = passing(query@);
    proof {
        assert(all.take(0) =~= Seq::<EntryWithTagsImage>::empty());
        assert(images(rows@) =~= Seq::<EntryWithTagsImage>::empty());
        reveal(Seq::filter);
    }
    while i < owned.len()
        invariant
            i <= owned.len(),
            keep == passing(query@),
            all == images(owned@).map_values(|entry: EntryImage| with_tags(store@.links, entry)),
            images(rows@) == all.take(i as int).filter(keep),
        decreases owned.len() - i,
    {
        let row = attach_tags(store, owned[i].copy());
        proof {
            filter_step(all.take(i as int), row@, keep);
            assert(all.take(i as int).push(row@) =~= all.take(i + 1));
        }
        if entry_passes(&row, query) {
            proof {
                assert(images(rows@.push(row)) =~= images(rows@).push(row@));
            }
            rows.push(row);
        }
        i += 1;
    }
    proof {
        assert(all.take(owned.len() as int) =~= all);
    }
    rows
}

/// The rows of a window of a table, copied out.
pub fn cut_window<T: Record>(rows: &Vec<T>, limit: i64, offset: i64) -> (page: Vec<T>)
    ensures
        images(page@) == window(images(rows@), limit, offset),
{
    let len: usize = rows.len();
    let start: usize = if offset < 0 {
        0
    } else if offset as u64 <= len as u64 {
        offset as usize
    } else {
        len
    };
    let end: usize = if limit > 0 && limit as u64 <= (len - start) as u64 {
        start + limit as usize
    } else {
        len
    };
    let mut page: Vec<T> = Vec::new();
    let mut k: usize = start;
    proof {
        assert(images(page@) =~= images(rows@).subrange(start as int, start as int));
    }
    while k < end
        invariant
            start <= k <= end <= rows.len(),
            images(page@) == images(rows@).subrange(start as int, k as int),
        decreases end - k,
    {
        let row = rows[k].copy();
        proof {
            let before = images(rows@).subrange(start as int, k as int);
            assert(images(page@.push(row)) =~= images(page@).push(row@));
            assert(before.push(rows[k as int]@) =~= images(rows@).subrange(start as int, k + 1));
        }
        page.push(row);
        k += 1;
    }
    page
}

/// The page that a query for a user's entries asks for: the entries that
/// pass its filters, put in its order and cut to its window, with the number
/// of entries that pass the filters, whatever the window. A negative offset
/// is refused.
pub open spec fn entries_page(s: StoreView, user_id: Seq<char>, query: EntryFilterImage) -> Result<
    PageImage<EntryWithTagsImage>,
    EphemerideError,
> {
    if query.offset < 0 {
        Err(EphemerideError::DatabaseError)
    } else {
        let rows = matching(s, user_id, query);
        Ok(
            PageImage {
                data: window(ranked::<EntryWithTags>(rows, query.order), query.limit, query.offset),
                pagination: PaginationObject {
                    limit: query.limit,
                    offset: query.offset,
                    total_count: reported(rows.len()),
                },
            },
        )
    }
}

/// Answers a query for a user's entries whose dates have been read.
pub fn query_entries(store: &Store, user_id: &str, query: &EntryFilter) -> (r: Result<
    Paginated<EntryWithTags>,
    EphemerideError,
>)
    ensures
        outcome(r) == entries_page(store@, user_id@, query@),
{
    if query.offset < 0 {
        return Err(EphemerideError::DatabaseError);
    }
    let rows = matching_entries(store, user_id, query);
    let sorted = sort(&rows, &query.order);
    let page = cut_window(&sorted, query.limit, query.offset);
    Ok(
        Paginated {
            data: page,
            pagination: PaginationObject {
                limit: query.limit,
                offset: query.offset,
                total_count: report(rows.len()),
            },
        },
    )
}

/// What a date bound of a query is read as: no bound where none is given.
pub open spec fn bound_read(text: Option<String>) -> Option<Date> {
    match text {
        Some(text) => date_of(text@),
        None => None,
    }
}

/// The query that options ask for, with its dates read. A date that cannot
/// be read is refused.
pub open spec fn options_read(options: Option<GetEntriesOptions>) -> Result<
    EntryFilterImage,
    EphemerideError,
> {
    match options {
        None => Ok(default_filter()),
        Some(options) => if (options.from_date is Some && bound_read(options.from_date) is None)
            || (options.to_date is Some && bound_read(options.to_date) is None) {
            Err(EphemerideError::BadRequest)
        } else {
            Ok(
                EntryFilterImage {
                    from_date: bound_read(options.from_date),
                    to_date: bound_read(options.to_date),
                    tags: match options.tags {
                        Some(tags) => tags.deep_view(),
                        None => Seq::empty(),
                    },
                    from_mood: options.from_mood,
                    to_mood: options.to_mood,
                    order: match options.order {
                        Some(order) => order,
                        None => EntryOptionsOrder::DateDesc,
                    },
                    limit: match options.limit {
                        Some(limit) => limit,
                        None => 31,
                    },
                    offset: match options.offset {
                        Some(offset) => offset,
                        None => 0,
                    },
                },
            )
        },
    }
}

/// Reads the dates of the options of a query and fills in what they leave
/// open.
pub fn read_options(options: Option<GetEntriesOptions>) -> (r: Result<EntryFilter, EphemerideError>)
    ensures
        outcome(r) == options_read(options),
{
    let options = match options {
        Some(options) => options,
        None => {
            let query = EntryFilter {
                from_date: None,
                to_date: None,
                tags: Vec::new(),
                from_mood: None,
                to_mood: None,
                order: EntryOptionsOrder::DateDesc,
                limit: 31,
                offset: 0,
            };
            proof {
                assert(query@.tags =~= Seq::empty());
            }
            return Ok(query);
        },
    };
    let from_date = match &options.from_date {
        Some(text) => match parse_date(text.as_str()) {
            Some(date) => Some(date),
            None => return Err(EphemerideError::BadRequest),
        },
        None => None,
    };
    let to_date = match &options.to_date {
        Some(text) => match parse_date(text.as_str()) {
            Some(date) => Some(date),
            None => return Err(EphemerideError::BadRequest),
        },
        None => None,
    };
    let tags = match options.tags {
        Some(tags) => tags,
        None => {
            let tags: Vec<String> = Vec::new();
            proof {
                assert(tags.deep_view() =~= Seq::empty());
            }
            tags
        },
    };
    Ok(
        EntryFilter {
            from_date,
            to_date,
            tags,
            from_mood: options.from_mood,
            to_mood: options.to_mood,
            order: match options.order {
                Some(order) => order,
                None => EntryOptionsOrder::DateDesc,
            },
            limit: match options.limit {
                Some(limit) => limit,
                None => 31,
            },
            offset: match options.offset {
                Some(offset) => offset,
                None => 0,
            },
        },
    )
}

/// One page of a user's entries: those that pass the filters, in the order
/// asked for, cut to the window asked for, with the number of entries that
/// pass the filters.
pub fn get_entries(store: &Store, user_id: &str, options: Option<GetEntriesOptions>) -> (r: Result<
    Paginated<EntryWithTags>,
    EphemerideError,
>)
    ensures
        outcome(r) == match options_read(options) {
            Ok(query) => entries_page(store@, user_id@, query),
            Err(error) => Err(error),
        },
{
    match read_options(options) {
        Ok(query) => query_entries(store, user_id, &query),
        Err(error) => Err(error),
    }
}

/// The query for every entry from one day to another, both included, the
/// oldest first.
pub open spec fn span(from: Date, to: Date) -> EntryFilterImage {
    EntryFilterImage {
        from_date: Some(from),
        to_date: Some(to),
        tags: Seq::empty(),
        from_mood: None,
        to_mood: None,
        order: EntryOptionsOrder::DateAsc,
        limit: 0,
        offset: 0,
    }
}

/// Every entry of a user from one day to another, both included, the oldest
/// first, given the two days.
pub fn entries_between(store: &Store, from: Date, to: Date, user_id: &str) -> (rows: Vec<
    EntryWithTags,
>)
    ensures
        images(rows@) == ranked::<EntryWithTags>(
            matching(store@, user_id@, span(from, to)),
            EntryOptionsOrder::DateAsc,
        ),
{
    let query = EntryFilter {
        from_date: Some(from),
        to_date: Some(to),
        tags: Vec::new(),
        from_mood: None,
        to_mood: None,
        order: EntryOptionsOrder::DateAsc,
        limit: 0,
        offset: 0,
    };
    proof {
        assert(query@.tags =~= Seq::empty());
    }
    let rows = matching_entries(store, user_id, &query);
    sort(&rows, &query.order)
}

/// Every entry of a user from one day to another, both included, the oldest
/// first. A day that cannot be read is refused.
pub fn get_entries_in_range(store: &Store, from_date: &str, to_date: &str, user_id: &str) -> (r:
    Result<Vec<EntryWithTags>, EphemerideError>)
    ensures
        outcomes(r) == match (date_of(from_date@), date_of(to_date@)) {
            (Some(from), Some(to)) => Ok::<Seq<EntryWithTagsImage>, EphemerideError>(
                ranked::<EntryWithTags>(
                    matching(store@, user_id@, span(from, to)),
                    EntryOptionsOrder::DateAsc,
                ),
            ),
            _ => Err(EphemerideError::BadRequest),
        },
{
    let from = match parse_date(from_date) {
        Some(date) => date,
        None => return Err(EphemerideError::BadRequest),
    };
    let to = match parse_date(to_date) {
        Some(date) => date,
        None => return Err(EphemerideError::BadRequest),
    };
    Ok(entries_between(store, from, to, user_id))
}

/// Whether every user has at most one entry for each day.
pub open spec fn one_entry_a_day(s: StoreView) -> bool {
    forall|i: int, j: int|
        0 <= i < s.entries.len() && 0 <= j < s.entries.len() && (#[trigger] s.entries[i]).user_id
            == (#[trigger] s.entries[j]).user_id && s.entries[i].date == s.entries[j].date ==> i
            == j
}

/// A user has one entry a day: once an entry has been created, creating
/// another for the same user and the same day fails with
/// `EntryAlreadyExistsForDate` and changes nothing.
pub proof fn second_entry_for_a_day_is_refused(
    s: StoreView,
    date_text: Seq<char>,
    mood: i32,
    entry: Option<Seq<char>>,
    selected_tags: Seq<Seq<char>>,
    user_id: Seq<char>,
    date: Date,
    id: Seq<char>,
    now: i64,
    second_text: Seq<char>,
    second_mood: i32,
    second_entry: Option<Seq<char>>,
    second_tags: Seq<Seq<char>>,
    second_id: Seq<char>,
    later: i64,
)
    requires
        valid_new_entry(second_text, second_mood, second_entry, user_id),
    ensures
        ({
            let (after, first) = entry_created(
                s,
                date_text,
                mood,
                entry,
                selected_tags,
                user_id,
                Some(date),
                id,
                now,
            );
            first is Ok ==> entry_created(
                after,
                second_text,
                second_mood,
                second_entry,
                second_tags,
                user_id,
                Some(date),
                second_id,
                later,
            ) == (after, Err::<EntryWithTagsImage, EphemerideError>(
                EphemerideError::EntryAlreadyExistsForDate,
            ))
        }),
{
    let (after, first) = entry_created(
        s,
        date_text,
        mood,
        entry,
        selected_tags,
        user_id,
        Some(date),
        id,
        now,
    );
    if first is Ok {
        first_hit_pushed::<Entry>(s.entries, first->Ok_0.entry, EntryProbe::Dated(date, user_id));
    }
}

/// An entry cannot move to a day on which the user has another entry: the
/// edit fails with `EntryAlreadyExistsForDate` and changes nothing.
pub proof fn edit_to_a_used_day_is_refused(
    s: StoreView,
    id: Seq<char>,
    date_text: Seq<char>,
    mood: i32,
    entry: Option<Seq<char>>,
    selected_tags: Seq<Seq<char>>,
    user_id: Seq<char>,
    date: Date,
    other: int,
)
    requires
        one_entry_a_day(s),
        valid_entry_edit(id, date_text, mood, entry, user_id),
        0 <= other < s.entries.len(),
        s.entries[other].user_id == user_id,
        s.entries[other].date == date,
        s.entries[other].id != id,
    ensures
        entry_edited(s, id, date_text, mood, entry, selected_tags, user_id, Some(date)) == (
            s,
            Err::<EntryWithTagsImage, EphemerideError>(EphemerideError::EntryAlreadyExistsForDate),
        ),
{
    let at = first_hit_place::<Entry>(s.entries, EntryProbe::Dated(date, user_id));
    if at > other {
        assert(!Entry::hit(s.entries[other], EntryProbe::Dated(date, user_id)));
    }
    assert(s.entries[at].user_id == s.entries[other].user_id);
}

/// An entry may keep its day when it is edited: the edit succeeds, and the
/// entry then has the mood and the text that were asked for.
pub proof fn edit_may_keep_the_day(
    s: StoreView,
    id: Seq<char>,
    date_text: Seq<char>,
    mood: i32,
    entry: Option<Seq<char>>,
    selected_tags: Seq<Seq<char>>,
    user_id: Seq<char>,
    date: Date,
    own: int,
)
    requires
        one_entry_a_day(s),
        valid_entry_edit(id, date_text, mood, entry, user_id),
        0 <= own < s.entries.len(),
        s.entries[own].user_id == user_id,
        s.entries[own].date == date,
        s.entries[own].id == id,
    ensures
        ({
            let edited = entry_edited(
                s,
                id,
                date_text,
                mood,
                entry,
                selected_tags,
                user_id,
                Some(date),
            ).1;
            &&& edited is Ok
            &&& edited->Ok_0.entry.id == id
            &&& edited->Ok_0.entry.date == date
            &&& edited->Ok_0.entry.mood == mood
            &&& edited->Ok_0.entry.entry == entry
        }),
{
    let dated = EntryProbe::Dated(date, user_id);
    let owned = EntryProbe::Owned(id, user_id);
    let at = first_hit_place::<Entry>(s.entries, dated);
    if at > own {
        assert(!Entry::hit(s.entries[own], dated));
    }
    assert(s.entries[at].user_id == s.entries[own].user_id);
    let mine = first_hit_place::<Entry>(s.entries, owned);
    if mine > own {
        assert(!Entry::hit(s.entries[own], owned));
    }
    first_hit_amended::<Entry>(s.entries, owned, (date, mood, entry), owned);
}

/// Each of the four orders of entries compares every two entries and is
/// transitive.
pub proof fn entries_order_is_total(order: EntryOptionsOrder)
    ensures
        is_total::<EntryWithTags>(order),
{
}

/// A page holds only entries of the user that pass the filters of the
/// query: within the dates, within the moods, and tagged with every tag
/// asked for.
pub proof fn page_holds_matches_only(
    s: StoreView,
    user_id: Seq<char>,
    query: EntryFilterImage,
    k: int,
)
    requires
        query.offset >= 0,
        0 <= k < entries_page(s, user_id, query)->Ok_0.data.len(),
    ensures
        passes(entries_page(s, user_id, query)->Ok_0.data[k], query),
        entries_page(s, user_id, query)->Ok_0.data[k].entry.user_id == user_id,
{
    let rows = matching(s, user_id, query);
    let all = ranked::<EntryWithTags>(rows, query.order);
    let row = entries_page(s, user_id, query)->Ok_0.data[k];
    assert(all.contains(row));
    ranked_holds::<EntryWithTags>(rows, query.order, row);
    filter_holds(joined(s, user_id), passing(query), row);
    let owned = selected::<Entry>(s.entries, EntryProbe::User(user_id));
    let i = choose|i: int| 0 <= i < joined(s, user_id).len() && joined(s, user_id)[i] == row;
    assert(owned.contains(owned[i]));
    filter_holds(s.entries, hitting::<Entry>(EntryProbe::User(user_id)), owned[i]);
}

/// A query without a limit, from the start, answers every entry that passes
/// its filters.
pub proof fn whole_page_holds_every_match(
    s: StoreView,
    user_id: Seq<char>,
    query: EntryFilterImage,
    row: EntryWithTagsImage,
)
    requires
        query.offset == 0,
        query.limit <= 0,
        matching(s, user_id, query).contains(row),
    ensures
        entries_page(s, user_id, query)->Ok_0.data.contains(row),
        entries_page(s, user_id, query)->Ok_0.data.len() == matching(s, user_id, query).len(),
{
    let rows = matching(s, user_id, query);
    let all = ranked::<EntryWithTags>(rows, query.order);
    ranked_holds::<EntryWithTags>(rows, query.order, row);
    ranked_rows::<EntryWithTags>(rows, query.order);
    assert(window(all, query.limit, query.offset) =~= all);
}

/// How many rows a window holds: none where the offset lies behind the last
/// row, else as many as the limit asks for, or all that are left where the
/// limit is zero or less or asks for more.
pub open spec fn window_len(rows: nat, limit: i64, offset: i64) -> int {
    if offset >= rows {
        0
    } else if limit > 0 && offset + limit <= rows {
        limit as int
    } else {
        rows - offset
    }
}

/// A page is a window of the matching entries in the order asked for: the
/// entries in order are the entries that match, each as often as it
/// matches; they are in the
/// order asked for; the page holds those from the offset on, as many as the
/// limit asks for, or all of them where the limit is zero; and the count
/// that it reports is the number of entries that match, whatever the window.
pub proof fn page_is_a_window(s: StoreView, user_id: Seq<char>, query: EntryFilterImage)
    requires
        query.offset >= 0,
    ensures
        ({
            let rows = matching(s, user_id, query);
            let all = ranked::<EntryWithTags>(rows, query.order);
            let page = entries_page(s, user_id, query)->Ok_0;
            &&& entries_page(s, user_id, query) is Ok
            &&& all.to_multiset() == rows.to_multiset()
            &&& in_order::<EntryWithTags>(all, query.order)
            &&& page.pagination.limit == query.limit
            &&& page.pagination.offset == query.offset
            &&& page.pagination.total_count == reported(rows.len())
            &&& page.data.len() == window_len(rows.len(), query.limit, query.offset)
            &&& forall|k: int| 0 <= k < page.data.len() ==> page.data[k] == all[query.offset + k]
        }),
{
    let rows = matching(s, user_id, query);
    ranked_rows::<EntryWithTags>(rows, query.order);
    entries_order_is_total(query.order);
    ranked_in_order::<EntryWithTags>(rows, query.order);
}

} // verus!
