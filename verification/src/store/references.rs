//! Where the references of a store lead: every tag stands in a category of
//! its user, and every link joins an entry and a tag of one user. Every
//! operation on the taxonomy and on entries keeps this, so that no cascade
//! leaves a reference behind that leads nowhere.

use crate::services::category::{
    category_created, category_deleted, category_edited, category_owned, Category, CategoryProbe,
};
use crate::services::entry::{
    entry_created, entry_deleted, entry_edited, entry_ids, entry_owned, links_for, resolved_tags,
    resolves, without_entries, Entry, EntryProbe, EntryTag, LinkImage, LinkProbe,
};
use crate::services::log::{
    and_category, and_tag, default_data_created, defaults_added, without_journal, DefaultIdsImage,
};
use crate::services::tag::{
    tag_created, tag_deleted, tag_edited, tag_ids, tag_owned, without_tags, Tag, TagProbe,
};
use crate::services::user::{user_created, user_deleted, UserImage};
use crate::store::table::{
    filter_empty, filter_holds, first_hit, first_hit_amended, first_hit_place, first_hit_pushed,
    hitting, missing, remaining, selected, Row,
};
use crate::store::StoreView;
use crate::util::color::Color;
use crate::util::date::Date;
use vstd::prelude::*;

verus! {

/// Whether a tag stands in a category of its user.
pub open spec fn tag_has_category(s: StoreView, tag: crate::services::tag::TagImage) -> bool {
    category_owned(s, tag.category_id, tag.user_id) is Some
}

/// Whether a link joins an entry and a tag of one user.
pub open spec fn link_is_whole(s: StoreView, link: LinkImage) -> bool {
    exists|user: Seq<char>|
        #[trigger] entry_owned(s, link.entry_id, user) is Some && tag_owned(
            s,
            link.tag_id,
            user,
        ) is Some
}

/// Whether every reference of a store leads somewhere.
pub open spec fn referenced(s: StoreView) -> bool {
    &&& forall|i: int| 0 <= i < s.tags.len() ==> tag_has_category(s, #[trigger] s.tags[i])
    &&& forall|i: int| 0 <= i < s.links.len() ==> link_is_whole(s, #[trigger] s.links[i])
}

/// In the empty store every reference leads somewhere: it has none.
pub proof fn empty_is_referenced()
    ensures
        referenced(crate::store::empty_store()),
{
}

/// A row that a query hits and that is not removed is still found.
pub proof fn some_left<T: Row>(
    table: Seq<T::V>,
    gone: <T::Query as View>::V,
    query: <T::Query as View>::V,
    at: int,
)
    requires
        0 <= at < table.len(),
        T::hit(table[at], query),
        !T::hit(table[at], gone),
    ensures
        first_hit::<T>(remaining::<T>(table, gone), query) is Some,
{
    let left = remaining::<T>(table, gone);
    assert(table.contains(table[at]));
    filter_holds(table, missing::<T>(gone), table[at]);
    let i = choose|i: int| 0 <= i < left.len() && left[i] == table[at];
    if selected::<T>(left, query).len() == 0 {
        filter_empty(left, hitting::<T>(query));
        assert(!T::hit(left[i], query));
    }
}

/// Removing tags with the links to them leaves every reference whole.
pub proof fn without_tags_keeps_references(s: StoreView, gone: TagProbe)
    requires
        referenced(s),
    ensures
        referenced(without_tags(s, gone)),
{
    let after = without_tags(s, gone);
    let ids = tag_ids(selected::<Tag>(s.tags, gone));
    assert forall|i: int| 0 <= i < after.tags.len() implies tag_has_category(
        after,
        #[trigger] after.tags[i],
    ) by {
        assert(after.tags.contains(after.tags[i]));
        filter_holds(s.tags, missing::<Tag>(gone), after.tags[i]);
        let k = choose|k: int| 0 <= k < s.tags.len() && s.tags[k] == after.tags[i];
        assert(tag_has_category(s, s.tags[k]));
    }
    assert forall|i: int| 0 <= i < after.links.len() implies link_is_whole(
        after,
        #[trigger] after.links[i],
    ) by {
        let link = after.links[i];
        assert(after.links.contains(link));
        filter_holds(s.links, missing::<EntryTag>(LinkProbe::TagIn(ids)), link);
        let k = choose|k: int| 0 <= k < s.links.len() && s.links[k] == link;
        assert(link_is_whole(s, s.links[k]));
        let user = choose|user: Seq<char>|
            #[trigger] entry_owned(s, link.entry_id, user) is Some && tag_owned(
                s,
                link.tag_id,
                user,
            ) is Some;
        let owned = TagProbe::Owned(link.tag_id, user);
        let at = first_hit_place::<Tag>(s.tags, owned);
        if Tag::hit(s.tags[at], gone) {
            assert(s.tags.contains(s.tags[at]));
            filter_holds(s.tags, hitting::<Tag>(gone), s.tags[at]);
            let j = choose|j: int|
                0 <= j < selected::<Tag>(s.tags, gone).len() && selected::<Tag>(s.tags, gone)[j]
                    == s.tags[at];
            assert(ids[j] == link.tag_id);
            assert(ids.contains(link.tag_id));
        }
        some_left::<Tag>(s.tags, gone, owned, at);
        assert(entry_owned(after, link.entry_id, user) is Some);
    }
}

/// Removing entries with their links leaves every reference whole.
pub proof fn without_entries_keeps_references(s: StoreView, gone: EntryProbe)
    requires
        referenced(s),
    ensures
        referenced(without_entries(s, gone)),
{
    let after = without_entries(s, gone);
    let ids = entry_ids(selected::<Entry>(s.entries, gone));
    assert forall|i: int| 0 <= i < after.tags.len() implies tag_has_category(
        after,
        #[trigger] after.tags[i],
    ) by {
        assert(tag_has_category(s, s.tags[i]));
    }
    assert forall|i: int| 0 <= i < after.links.len() implies link_is_whole(
        after,
        #[trigger] after.links[i],
    ) by {
        let link = after.links[i];
        assert(after.links.contains(link));
        filter_holds(s.links, missing::<EntryTag>(LinkProbe::EntryIn(ids)), link);
        let k = choose|k: int| 0 <= k < s.links.len() && s.links[k] == link;
        assert(link_is_whole(s, s.links[k]));
        let user = choose|user: Seq<char>|
            #[trigger] entry_owned(s, link.entry_id, user) is Some && tag_owned(
                s,
                link.tag_id,
                user,
            ) is Some;
        let owned = EntryProbe::Owned(link.entry_id, user);
        let at = first_hit_place::<Entry>(s.entries, owned);
        if Entry::hit(s.entries[at], gone) {
            assert(s.entries.contains(s.entries[at]));
            filter_holds(s.entries, hitting::<Entry>(gone), s.entries[at]);
            let j = choose|j: int|
                0 <= j < selected::<Entry>(s.entries, gone).len() && selected::<Entry>(
                    s.entries,
                    gone,
                )[j] == s.entries[at];
            assert(ids[j] == link.entry_id);
            assert(ids.contains(link.entry_id));
        }
        some_left::<Entry>(s.entries, gone, owned, at);
        assert(tag_owned(after, link.tag_id, user) is Some);
        assert(entry_owned(after, link.entry_id, user) is Some);
    }
}

/// Deleting a tag or an entry leaves every reference whole.
pub proof fn deletes_keep_references(s: StoreView, id: Seq<char>, user: Seq<char>)
    requires
        referenced(s),
    ensures
        referenced(tag_deleted(s, id, user).0),
        referenced(entry_deleted(s, id, user).0),
{
    without_tags_keeps_references(s, TagProbe::Owned(id, user));
    without_entries_keeps_references(s, EntryProbe::Owned(id, user));
}

/// Removing categories of which no tag is left leaves every reference
/// whole.
pub proof fn without_categories_keeps_references(s: StoreView, gone: CategoryProbe)
    requires
        referenced(s),
        forall|i: int, k: int|
            0 <= i < s.tags.len() && 0 <= k < s.categories.len() && Category::hit(
                #[trigger] s.categories[k],
                CategoryProbe::Owned((#[trigger] s.tags[i]).category_id, s.tags[i].user_id),
            ) ==> !Category::hit(s.categories[k], gone),
    ensures
        referenced(StoreView { categories: remaining::<Category>(s.categories, gone), ..s }),
{
    let after = StoreView { categories: remaining::<Category>(s.categories, gone), ..s };
    assert forall|i: int| 0 <= i < after.tags.len() implies tag_has_category(
        after,
        #[trigger] after.tags[i],
    ) by {
        let tag = s.tags[i];
        assert(tag_has_category(s, tag));
        let owned = CategoryProbe::Owned(tag.category_id, tag.user_id);
        let at = first_hit_place::<Category>(s.categories, owned);
        some_left::<Category>(s.categories, gone, owned, at);
    }
    assert forall|i: int| 0 <= i < after.links.len() implies link_is_whole(
        after,
        #[trigger] after.links[i],
    ) by {
        assert(link_is_whole(s, s.links[i]));
        let user = choose|user: Seq<char>|
            #[trigger] entry_owned(s, s.links[i].entry_id, user) is Some && tag_owned(
                s,
                s.links[i].tag_id,
                user,
            ) is Some;
        assert(entry_owned(after, s.links[i].entry_id, user) is Some);
    }
}

/// Deleting a category, with its tags and the links to them, leaves every
/// reference whole.
pub proof fn category_deleted_keeps_references(s: StoreView, id: Seq<char>, user: Seq<char>)
    requires
        referenced(s),
    ensures
        referenced(category_deleted(s, id, user).0),
{
    let (after, deleted) = category_deleted(s, id, user);
    if deleted == Ok::<bool, crate::util::error::EphemerideError>(true) {
        let in_category = TagProbe::InCategory(id, user);
        let tags_gone = without_tags(s, in_category);
        without_tags_keeps_references(s, in_category);
        assert forall|i: int, k: int|
            0 <= i < tags_gone.tags.len() && 0 <= k < tags_gone.categories.len() && Category::hit(
                #[trigger] tags_gone.categories[k],
                CategoryProbe::Owned(
                    (#[trigger] tags_gone.tags[i]).category_id,
                    tags_gone.tags[i].user_id,
                ),
            ) implies !Category::hit(tags_gone.categories[k], CategoryProbe::Owned(id, user)) by {
            s.tags.lemma_filter_pred(missing::<Tag>(in_category), i);
        }
        without_categories_keeps_references(tags_gone, CategoryProbe::Owned(id, user));
    }
}

/// Removing a user's journal leaves every reference whole.
pub proof fn without_journal_keeps_references(s: StoreView, user: Seq<char>)
    requires
        referenced(s),
    ensures
        referenced(without_journal(s, user)),
{
    let entries_gone = without_entries(s, EntryProbe::User(user));
    without_entries_keeps_references(s, EntryProbe::User(user));
    let tags_gone = without_tags(entries_gone, TagProbe::User(user));
    without_tags_keeps_references(entries_gone, TagProbe::User(user));
    assert forall|i: int, k: int|
        0 <= i < tags_gone.tags.len() && 0 <= k < tags_gone.categories.len() && Category::hit(
            #[trigger] tags_gone.categories[k],
            CategoryProbe::Owned(
                (#[trigger] tags_gone.tags[i]).category_id,
                tags_gone.tags[i].user_id,
            ),
        ) implies !Category::hit(tags_gone.categories[k], CategoryProbe::User(user)) by {
        entries_gone.tags.lemma_filter_pred(missing::<Tag>(TagProbe::User(user)), i);
    }
    without_categories_keeps_references(tags_gone, CategoryProbe::User(user));
}

/// Deleting a user, with the sessions and the journal, leaves every
/// reference whole.
pub proof fn user_deleted_keeps_references(s: StoreView, id: Seq<char>)
    requires
        referenced(s),
    ensures
        referenced(user_deleted(s, id).0),
{
    let signed_out = crate::services::auth::without_sessions(
        s,
        crate::services::auth::SessionProbe::User(id),
    );
    assert(referenced(signed_out)) by {
        assert forall|i: int| 0 <= i < signed_out.tags.len() implies tag_has_category(
            signed_out,
            #[trigger] signed_out.tags[i],
        ) by {
            assert(tag_has_category(s, s.tags[i]));
        }
        assert forall|i: int| 0 <= i < signed_out.links.len() implies link_is_whole(
            signed_out,
            #[trigger] signed_out.links[i],
        ) by {
            assert(link_is_whole(s, s.links[i]));
            let user = choose|user: Seq<char>|
                #[trigger] entry_owned(s, s.links[i].entry_id, user) is Some && tag_owned(
                    s,
                    s.links[i].tag_id,
                    user,
                ) is Some;
            assert(entry_owned(signed_out, s.links[i].entry_id, user) is Some);
        }
    }
    without_journal_keeps_references(signed_out, id);
    let journal_gone = without_journal(signed_out, id);
    let after = user_deleted(s, id).0;
    if after != signed_out {
        assert forall|i: int| 0 <= i < after.tags.len() implies tag_has_category(
            after,
            #[trigger] after.tags[i],
        ) by {
            assert(tag_has_category(journal_gone, journal_gone.tags[i]));
        }
        assert forall|i: int| 0 <= i < after.links.len() implies link_is_whole(
            after,
            #[trigger] after.links[i],
        ) by {
            assert(link_is_whole(journal_gone, journal_gone.links[i]));
            let user = choose|user: Seq<char>|
                #[trigger] entry_owned(journal_gone, journal_gone.links[i].entry_id, user)
                    is Some && tag_owned(journal_gone, journal_gone.links[i].tag_id, user)
                    is Some;
            assert(entry_owned(after, after.links[i].entry_id, user) is Some);
        }
    }
}

/// Creating and renaming categories leave every reference whole.
pub proof fn categories_keep_references(
    s: StoreView,
    name: Seq<char>,
    user: Seq<char>,
    id: Seq<char>,
    now: i64,
)
    requires
        referenced(s),
    ensures
        referenced(category_created(s, name, user, id, now).0),
        referenced(category_edited(s, id, name, user).0),
{
    let created = category_created(s, name, user, id, now).0;
    let edited = category_edited(s, id, name, user).0;
    assert forall|i: int| 0 <= i < s.tags.len() implies tag_has_category(created, s.tags[i])
        && tag_has_category(edited, #[trigger] s.tags[i]) by {
        let tag = s.tags[i];
        assert(tag_has_category(s, tag));
        let owned = CategoryProbe::Owned(tag.category_id, tag.user_id);
        if created != s {
            first_hit_pushed::<Category>(s.categories, created.categories.last(), owned);
        }
        first_hit_amended::<Category>(s.categories, CategoryProbe::Owned(id, user), name, owned);
    }
    assert forall|i: int| 0 <= i < s.links.len() implies link_is_whole(created, s.links[i])
        && link_is_whole(edited, #[trigger] s.links[i]) by {
        assert(link_is_whole(s, s.links[i]));
        let owner = choose|owner: Seq<char>|
            #[trigger] entry_owned(s, s.links[i].entry_id, owner) is Some && tag_owned(
                s,
                s.links[i].tag_id,
                owner,
            ) is Some;
        assert(entry_owned(created, s.links[i].entry_id, owner) is Some);
        assert(entry_owned(edited, s.links[i].entry_id, owner) is Some);
    }
}

/// Creating and changing tags leave every reference whole.
pub proof fn tags_keep_references(
    s: StoreView,
    name: Seq<char>,
    color_text: Seq<char>,
    category: Seq<char>,
    user: Seq<char>,
    color: Color,
    id: Seq<char>,
    now: i64,
)
    requires
        referenced(s),
    ensures
        referenced(tag_created(s, name, color_text, category, user, color, id, now).0),
        referenced(tag_edited(s, id, name, color_text, user, color).0),
{
    let created = tag_created(s, name, color_text, category, user, color, id, now).0;
    let edited = tag_edited(s, id, name, color_text, user, color).0;
    let change = (name, crate::util::color::color_name(color));
    assert forall|i: int| 0 <= i < created.tags.len() implies tag_has_category(
        created,
        #[trigger] created.tags[i],
    ) by {
        if i < s.tags.len() {
            assert(tag_has_category(s, s.tags[i]));
        }
    }
    assert forall|i: int| 0 <= i < edited.tags.len() implies tag_has_category(
        edited,
        #[trigger] edited.tags[i],
    ) by {
        assert(tag_has_category(s, s.tags[i]));
    }
    assert forall|i: int| 0 <= i < s.links.len() implies link_is_whole(created, s.links[i])
        && link_is_whole(edited, #[trigger] s.links[i]) by {
        assert(link_is_whole(s, s.links[i]));
        let owner = choose|owner: Seq<char>|
            #[trigger] entry_owned(s, s.links[i].entry_id, owner) is Some && tag_owned(
                s,
                s.links[i].tag_id,
                owner,
            ) is Some;
        let owned = TagProbe::Owned(s.links[i].tag_id, owner);
        if created != s {
            first_hit_pushed::<Tag>(s.tags, created.tags.last(), owned);
        }
        first_hit_amended::<Tag>(s.tags, TagProbe::Owned(id, user), change, owned);
        assert(entry_owned(created, s.links[i].entry_id, owner) is Some);
        assert(entry_owned(edited, s.links[i].entry_id, owner) is Some);
    }
}

/// The links from an entry of a user to tags that resolve for that user are
/// whole, once the entry is there.
pub proof fn new_links_are_whole(
    s: StoreView,
    after: StoreView,
    id: Seq<char>,
    user: Seq<char>,
    selected_tags: Seq<Seq<char>>,
    j: int,
)
    requires
        after.tags == s.tags,
        entry_owned(after, id, user) is Some,
        0 <= j < resolved_tags(s, selected_tags, user).len(),
    ensures
        link_is_whole(after, links_for(id, resolved_tags(s, selected_tags, user))[j]),
{
    selected_tags.lemma_filter_pred(resolves(s, user), j);
    let tag = resolved_tags(s, selected_tags, user)[j];
    assert(tag_owned(s, tag, user) is Some);
    assert(tag_owned(after, tag, user) is Some);
}

/// Creating an entry leaves every reference whole: the entry is linked only
/// with tags of its user.
pub proof fn entry_created_keeps_references(
    s: StoreView,
    date_text: Seq<char>,
    mood: i32,
    entry: Option<Seq<char>>,
    selected_tags: Seq<Seq<char>>,
    user: Seq<char>,
    date: Option<Date>,
    id: Seq<char>,
    now: i64,
)
    requires
        referenced(s),
    ensures
        referenced(entry_created(s, date_text, mood, entry, selected_tags, user, date, id, now).0),
{
    let (after, created) = entry_created(
        s,
        date_text,
        mood,
        entry,
        selected_tags,
        user,
        date,
        id,
        now,
    );
    if created is Ok {
        let row = created->Ok_0.entry;
        assert forall|i: int| 0 <= i < after.tags.len() implies tag_has_category(
            after,
            #[trigger] after.tags[i],
        ) by {
            assert(tag_has_category(s, s.tags[i]));
        }
        first_hit_pushed::<Entry>(s.entries, row, EntryProbe::Owned(id, user));
        assert forall|i: int| 0 <= i < after.links.len() implies link_is_whole(
            after,
            #[trigger] after.links[i],
        ) by {
            if i < s.links.len() {
                assert(link_is_whole(s, s.links[i]));
                let owner = choose|owner: Seq<char>|
                    #[trigger] entry_owned(s, s.links[i].entry_id, owner) is Some && tag_owned(
                        s,
                        s.links[i].tag_id,
                        owner,
                    ) is Some;
                first_hit_pushed::<Entry>(
                    s.entries,
                    row,
                    EntryProbe::Owned(s.links[i].entry_id, owner),
                );
                assert(entry_owned(after, s.links[i].entry_id, owner) is Some);
            } else {
                new_links_are_whole(s, after, id, user, selected_tags, i - s.links.len());
            }
        }
    }
}

/// Changing an entry leaves every reference whole: its links are replaced
/// by links with tags of its user.
pub proof fn entry_edited_keeps_references(
    s: StoreView,
    id: Seq<char>,
    date_text: Seq<char>,
    mood: i32,
    entry: Option<Seq<char>>,
    selected_tags: Seq<Seq<char>>,
    user: Seq<char>,
    date: Option<Date>,
)
    requires
        referenced(s),
    ensures
        referenced(entry_edited(s, id, date_text, mood, entry, selected_tags, user, date).0),
{
    let after = entry_edited(s, id, date_text, mood, entry, selected_tags, user, date).0;
    if after != s {
        let target = EntryProbe::Owned(id, user);
        let change = (date->0, mood, entry);
        let kept = remaining::<EntryTag>(s.links, LinkProbe::Entry(id));
        assert forall|i: int| 0 <= i < after.tags.len() implies tag_has_category(
            after,
            #[trigger] after.tags[i],
        ) by {
            assert(tag_has_category(s, s.tags[i]));
        }
        first_hit_amended::<Entry>(s.entries, target, change, target);
        assert forall|i: int| 0 <= i < after.links.len() implies link_is_whole(
            after,
            #[trigger] after.links[i],
        ) by {
            if i < kept.len() {
                let link = kept[i];
                assert(kept.contains(link));
                filter_holds(s.links, missing::<EntryTag>(LinkProbe::Entry(id)), link);
                let k = choose|k: int| 0 <= k < s.links.len() && s.links[k] == link;
                assert(link_is_whole(s, s.links[k]));
                let owner = choose|owner: Seq<char>|
                    #[trigger] entry_owned(s, link.entry_id, owner) is Some && tag_owned(
                        s,
                        link.tag_id,
                        owner,
                    ) is Some;
                first_hit_amended::<Entry>(
                    s.entries,
                    target,
                    change,
                    EntryProbe::Owned(link.entry_id, owner),
                );
                assert(entry_owned(after, link.entry_id, owner) is Some);
                assert(tag_owned(after, link.tag_id, owner) is Some);
            } else {
                new_links_are_whole(s, after, id, user, selected_tags, i - kept.len());
            }
        }
    }
}

/// Whether every reference leads somewhere depends on the categories,
/// tags, entries and links alone.
pub proof fn references_of_the_journal(s: StoreView, other: StoreView)
    requires
        referenced(s),
        other.categories == s.categories,
        other.tags == s.tags,
        other.entries == s.entries,
        other.links == s.links,
    ensures
        referenced(other),
{
    assert forall|i: int| 0 <= i < other.tags.len() implies tag_has_category(
        other,
        #[trigger] other.tags[i],
    ) by {
        assert(tag_has_category(s, s.tags[i]));
    }
    assert forall|i: int| 0 <= i < other.links.len() implies link_is_whole(
        other,
        #[trigger] other.links[i],
    ) by {
        assert(link_is_whole(s, s.links[i]));
        let owner = choose|owner: Seq<char>|
            #[trigger] entry_owned(s, s.links[i].entry_id, owner) is Some && tag_owned(
                s,
                s.links[i].tag_id,
                owner,
            ) is Some;
        assert(entry_owned(other, s.links[i].entry_id, owner) is Some);
    }
}

/// Each step of creating a user's defaults leaves every reference whole.
pub proof fn default_steps_keep_references(
    state: (StoreView, bool),
    user: Seq<char>,
    category: Seq<char>,
    name: Seq<char>,
    color: Color,
    id: Seq<char>,
    now: i64,
)
    requires
        referenced(state.0),
    ensures
        referenced(and_category(state, user, name, id, now).0),
        referenced(and_tag(state, user, category, name, color, id, now).0),
{
    categories_keep_references(state.0, name, user, id, now);
    tags_keep_references(
        state.0,
        name,
        crate::util::color::color_name(color),
        category,
        user,
        color,
        id,
        now,
    );
}

/// Creating a user's defaults leaves every reference whole.
pub proof fn default_data_keeps_references(
    s: StoreView,
    user: Seq<char>,
    ids: DefaultIdsImage,
    now: i64,
)
    requires
        referenced(s),
    ensures
        referenced(defaults_added(s, user, ids, now).0),
        referenced(default_data_created(s, user, ids, now).0),
{
    let none = Seq::<char>::empty();
    let a = (s, true);
    default_steps_keep_references(a, user, none, "Activities"@, Color::Base, ids.activities, now);
    let a = and_category(a, user, "Activities"@, ids.activities, now);
    default_steps_keep_references(a, user, ids.activities, "Work"@, Color::Base, ids.work, now);
    let a = and_tag(a, user, ids.activities, "Work"@, Color::Base, ids.work, now);
    default_steps_keep_references(a, user, ids.activities, "Movie"@, Color::Base, ids.movie, now);
    let a = and_tag(a, user, ids.activities, "Movie"@, Color::Base, ids.movie, now);
    default_steps_keep_references(
        a,
        user,
        ids.activities,
        "Exercise"@,
        Color::Base,
        ids.exercise,
        now,
    );
    let a = and_tag(a, user, ids.activities, "Exercise"@, Color::Base, ids.exercise, now);
    default_steps_keep_references(a, user, ids.activities, "Read"@, Color::Base, ids.read, now);
    let a = and_tag(a, user, ids.activities, "Read"@, Color::Base, ids.read, now);
    default_steps_keep_references(
        a,
        user,
        ids.activities,
        "Shopping"@,
        Color::Base,
        ids.shopping,
        now,
    );
    let a = and_tag(a, user, ids.activities, "Shopping"@, Color::Base, ids.shopping, now);
    default_steps_keep_references(a, user, ids.activities, "Gaming"@, Color::Base, ids.gaming, now);
    let a = and_tag(a, user, ids.activities, "Gaming"@, Color::Base, ids.gaming, now);
    default_steps_keep_references(a, user, none, "Tags"@, Color::Base, ids.tags, now);
    let t = and_category(a, user, "Tags"@, ids.tags, now);
    default_steps_keep_references(t, user, ids.tags, "Travel"@, Color::Base, ids.travel, now);
    let t = and_tag(t, user, ids.tags, "Travel"@, Color::Base, ids.travel, now);
    default_steps_keep_references(t, user, ids.tags, "Important"@, Color::Blue, ids.important, now);
    let t = and_tag(t, user, ids.tags, "Important"@, Color::Blue, ids.important, now);
    default_steps_keep_references(t, user, ids.tags, "Sick"@, Color::Red, ids.sick, now);
}

/// Signing a user up leaves every reference whole.
pub proof fn user_created_keeps_references(
    s: StoreView,
    name: Seq<char>,
    email: Seq<char>,
    password: Seq<char>,
    invite: Option<Seq<char>>,
    email_ok: bool,
    hash: Option<Seq<char>>,
    id: Seq<char>,
    ids: DefaultIdsImage,
    now: i64,
)
    requires
        referenced(s),
    ensures
        referenced(
            user_created(s, name, email, password, invite, email_ok, hash, id, ids, now).0,
        ),
{
    let after = user_created(s, name, email, password, invite, email_ok, hash, id, ids, now).0;
    if after != s {
        let user = UserImage { id, created_at: now, name, email, password: hash->0, invite };
        let with_user = StoreView { users: s.users.push(user), ..s };
        references_of_the_journal(s, with_user);
        default_data_keeps_references(with_user, id, ids, now);
    }
}

} // verus!
