//! What holds of a store that the service has written: no id is given out
//! twice, no email and no invite code is used twice, and no user has two
//! entries for one day. Every operation that changes a store keeps this.

use crate::services::auth::{
    session_created, touched, without_sessions, Session, SessionImage, SessionProbe,
};
use crate::services::category::{
    category_created, category_deleted, category_edited, Category, CategoryImage, CategoryProbe,
};
use crate::services::entry::{
    entry_created, entry_deleted, entry_edited, one_entry_a_day, without_entries, Entry,
    EntryImage, EntryProbe,
};
use crate::services::invite::{invite_generated, invite_used, Invite, InviteImage, InviteProbe};
use crate::services::log::{
    and_category, and_tag, default_data_created, defaults_added, user_data_deleted,
    without_journal, DefaultIdsImage,
};
use crate::services::tag::{
    category_tags_deleted, tag_created, tag_deleted, tag_edited, without_tags, Tag, TagImage,
    TagProbe,
};
use crate::services::user::{
    password_updated, user_created, user_deleted, user_updated, User, UserImage, UserProbe,
};
use crate::store::table::{amended, first_hit_place, missing, remaining, Amend, Row};
use crate::store::{empty_store, StoreView};
use crate::util::color::Color;
use crate::util::date::Date;
use vstd::prelude::*;

verus! {

/// Whether no two rows of a table have the same key.
pub open spec fn distinct<A, K>(rows: Seq<A>, key: spec_fn(A) -> K) -> bool {
    forall|i: int, j: int|
        0 <= i < rows.len() && 0 <= j < rows.len() && #[trigger] key(rows[i]) == #[trigger] key(
            rows[j],
        ) ==> i == j
}

/// The id of a user.
pub open spec fn user_id() -> spec_fn(UserImage) -> Seq<char> {
    |row: UserImage| row.id
}

/// The email of a user.
pub open spec fn user_email() -> spec_fn(UserImage) -> Seq<char> {
    |row: UserImage| row.email
}

/// The id of a session.
pub open spec fn session_id() -> spec_fn(SessionImage) -> Seq<char> {
    |row: SessionImage| row.id
}

/// The id of an invite.
pub open spec fn invite_id() -> spec_fn(InviteImage) -> Seq<char> {
    |row: InviteImage| row.id
}

/// The code of an invite.
pub open spec fn invite_code() -> spec_fn(InviteImage) -> Seq<char> {
    |row: InviteImage| row.code
}

/// The id of a category.
pub open spec fn category_id() -> spec_fn(CategoryImage) -> Seq<char> {
    |row: CategoryImage| row.id
}

/// The id of a tag.
pub open spec fn tag_id() -> spec_fn(TagImage) -> Seq<char> {
    |row: TagImage| row.id
}

/// The id of an entry.
pub open spec fn entry_id() -> spec_fn(EntryImage) -> Seq<char> {
    |row: EntryImage| row.id
}

/// The user and the day of an entry.
pub open spec fn entry_day() -> spec_fn(EntryImage) -> (Seq<char>, Date) {
    |row: EntryImage| (row.user_id, row.date)
}

/// Whether a store is consistent: ids are distinct within each table, users
/// have distinct emails, invites have distinct codes, and a user has at most
/// one entry for a day.
pub open spec fn consistent(s: StoreView) -> bool {
    &&& distinct(s.users, user_id())
    &&& distinct(s.users, user_email())
    &&& distinct(s.sessions, session_id())
    &&& distinct(s.invites, invite_id())
    &&& distinct(s.invites, invite_code())
    &&& distinct(s.categories, category_id())
    &&& distinct(s.tags, tag_id())
    &&& distinct(s.entries, entry_id())
    &&& distinct(s.entries, entry_day())
}

/// In a consistent store every user has at most one entry for each day.
pub proof fn consistent_has_one_entry_a_day(s: StoreView)
    requires
        consistent(s),
    ensures
        one_entry_a_day(s),
{
    assert forall|i: int, j: int|
        0 <= i < s.entries.len() && 0 <= j < s.entries.len() && (#[trigger] s.entries[i]).user_id
            == (#[trigger] s.entries[j]).user_id && s.entries[i].date
            == s.entries[j].date implies i == j by {
        assert(entry_day()(s.entries[i]) == entry_day()(s.entries[j]));
    }
}

/// The empty store is consistent.
pub proof fn empty_is_consistent()
    ensures
        consistent(empty_store()),
{
}

/// A row whose key no row has may be appended.
pub proof fn distinct_pushed<A, K>(rows: Seq<A>, key: spec_fn(A) -> K, row: A)
    requires
        distinct(rows, key),
        forall|i: int| 0 <= i < rows.len() ==> #[trigger] key(rows[i]) != key(row),
    ensures
        distinct(rows.push(row), key),
{
    let longer = rows.push(row);
    assert forall|i: int, j: int|
        0 <= i < longer.len() && 0 <= j < longer.len() && #[trigger] key(longer[i])
            == #[trigger] key(longer[j]) implies i == j by {
        if i < rows.len() {
            assert(longer[i] == rows[i]);
        }
        if j < rows.len() {
            assert(longer[j] == rows[j]);
        }
    }
}

/// Where the rows that a filter leaves stand in the table: each at a place
/// of its own, in the order of the table.
pub proof fn filter_places<A>(rows: Seq<A>, keep: spec_fn(A) -> bool) -> (places: Seq<int>)
    ensures
        places.len() == rows.filter(keep).len(),
        forall|i: int|
            0 <= i < places.len() ==> 0 <= #[trigger] places[i] < rows.len() && rows[places[i]]
                == rows.filter(keep)[i],
        forall|i: int, j: int|
            0 <= i < j < places.len() ==> #[trigger] places[i] < #[trigger] places[j],
    decreases rows.len(),
{
    reveal(Seq::filter);
    if rows.len() == 0 {
        Seq::empty()
    } else {
        let rest = filter_places(rows.drop_last(), keep);
        if keep(rows.last()) {
            rest.push(rows.len() - 1)
        } else {
            rest
        }
    }
}

/// Removing rows leaves the keys distinct.
pub proof fn distinct_filtered<A, K>(rows: Seq<A>, key: spec_fn(A) -> K, keep: spec_fn(A) -> bool)
    requires
        distinct(rows, key),
    ensures
        distinct(rows.filter(keep), key),
{
    let left = rows.filter(keep);
    let places = filter_places(rows, keep);
    assert forall|i: int, j: int|
        0 <= i < left.len() && 0 <= j < left.len() && #[trigger] key(left[i]) == #[trigger] key(
            left[j],
        ) implies i == j by {
        assert(key(rows[places[i]]) == key(rows[places[j]]));
        if i < j {
            assert(places[i] < places[j]);
        }
        if j < i {
            assert(places[j] < places[i]);
        }
    }
}

/// Changing rows in a way that leaves their keys alone leaves the keys
/// distinct.
pub proof fn distinct_amended<T: Amend, K>(
    table: Seq<T::V>,
    key: spec_fn(T::V) -> K,
    target: <T::Query as View>::V,
    change: <T::Change as View>::V,
)
    requires
        distinct(table, key),
        forall|row: T::V| key(#[trigger] T::changed(row, change)) == key(row),
    ensures
        distinct(amended::<T>(table, target, change), key),
{
    let after = amended::<T>(table, target, change);
    assert forall|i: int, j: int|
        0 <= i < after.len() && 0 <= j < after.len() && #[trigger] key(after[i])
            == #[trigger] key(after[j]) implies i == j by {
        assert(key(after[i]) == key(table[i]));
        assert(key(after[j]) == key(table[j]));
    }
}

/// Removing the rows that a query hits leaves the keys distinct.
pub proof fn distinct_remaining<T: Row, K>(
    table: Seq<T::V>,
    key: spec_fn(T::V) -> K,
    gone: <T::Query as View>::V,
)
    requires
        distinct(table, key),
    ensures
        distinct(remaining::<T>(table, gone), key),
{
    distinct_filtered(table, key, missing::<T>(gone));
}

/// Opening a session keeps a store consistent.
pub proof fn session_created_keeps(
    s: StoreView,
    email: Seq<char>,
    verdict: Option<bool>,
    ip_address: Seq<char>,
    user_agent: Seq<char>,
    id: Seq<char>,
    now: i64,
)
    requires
        consistent(s),
    ensures
        consistent(session_created(s, email, verdict, ip_address, user_agent, id, now).0),
{
    let (after, opened) = session_created(s, email, verdict, ip_address, user_agent, id, now);
    if opened is Ok {
        let at = first_hit_place::<Session>(s.sessions, SessionProbe::Id(id));
        distinct_pushed(s.sessions, session_id(), opened->Ok_0);
    }
}

/// Marking a session as used and revoking sessions keep a store consistent.
pub proof fn sessions_keep(s: StoreView, token: Seq<char>, now: i64, gone: SessionProbe)
    requires
        consistent(s),
    ensures
        consistent(touched(s, token, now)),
        consistent(without_sessions(s, gone)),
{
    distinct_amended::<Session, Seq<char>>(s.sessions, session_id(), SessionProbe::Id(token), now);
    distinct_remaining::<Session, Seq<char>>(s.sessions, session_id(), gone);
}

/// Issuing and redeeming invites keep a store consistent.
pub proof fn invites_keep(
    s: StoreView,
    desired: Option<Seq<char>>,
    fresh: Seq<char>,
    id: Seq<char>,
    now: i64,
    code: Seq<char>,
)
    requires
        consistent(s),
    ensures
        consistent(invite_generated(s, desired, fresh, id, now).0),
        consistent(invite_used(s, code).0),
{
    let (after, issued) = invite_generated(s, desired, fresh, id, now);
    if issued is Ok {
        let by_id = first_hit_place::<Invite>(s.invites, InviteProbe::Id(id));
        let by_code = first_hit_place::<Invite>(
            s.invites,
            InviteProbe::Code(issued->Ok_0.code),
        );
        distinct_pushed(s.invites, invite_id(), issued->Ok_0);
        distinct_pushed(s.invites, invite_code(), issued->Ok_0);
    }
    distinct_amended::<Invite, Seq<char>>(s.invites, invite_id(), InviteProbe::Code(code), ());
    distinct_amended::<Invite, Seq<char>>(s.invites, invite_code(), InviteProbe::Code(code), ());
}

/// Creating and renaming categories keep a store consistent.
pub proof fn categories_keep(
    s: StoreView,
    name: Seq<char>,
    user: Seq<char>,
    id: Seq<char>,
    now: i64,
)
    requires
        consistent(s),
    ensures
        consistent(category_created(s, name, user, id, now).0),
        consistent(category_edited(s, id, name, user).0),
{
    let (after, created) = category_created(s, name, user, id, now);
    if created is Ok {
        let at = first_hit_place::<Category>(s.categories, CategoryProbe::Id(id));
        distinct_pushed(s.categories, category_id(), created->Ok_0);
    }
    distinct_amended::<Category, Seq<char>>(
        s.categories,
        category_id(),
        CategoryProbe::Owned(id, user),
        name,
    );
}

/// Creating and changing tags keep a store consistent.
pub proof fn tags_keep(
    s: StoreView,
    name: Seq<char>,
    color_text: Seq<char>,
    category: Seq<char>,
    user: Seq<char>,
    color: Color,
    id: Seq<char>,
    now: i64,
)
    requires
        consistent(s),
    ensures
        consistent(tag_created(s, name, color_text, category, user, color, id, now).0),
        consistent(tag_edited(s, id, name, color_text, user, color).0),
{
    let (after, created) = tag_created(s, name, color_text, category, user, color, id, now);
    if created is Ok {
        let at = first_hit_place::<Tag>(s.tags, TagProbe::Id(id));
        distinct_pushed(s.tags, tag_id(), created->Ok_0);
    }
    distinct_amended::<Tag, Seq<char>>(
        s.tags,
        tag_id(),
        TagProbe::Owned(id, user),
        (name, crate::util::color::color_name(color)),
    );
}

/// Removing tags, with the links to them, keeps a store consistent.
pub proof fn without_tags_keeps(s: StoreView, gone: TagProbe)
    requires
        consistent(s),
    ensures
        consistent(without_tags(s, gone)),
{
    distinct_remaining::<Tag, Seq<char>>(s.tags, tag_id(), gone);
}

/// Removing entries, with their links, keeps a store consistent.
pub proof fn without_entries_keeps(s: StoreView, gone: EntryProbe)
    requires
        consistent(s),
    ensures
        consistent(without_entries(s, gone)),
{
    distinct_remaining::<Entry, Seq<char>>(s.entries, entry_id(), gone);
    distinct_remaining::<Entry, (Seq<char>, Date)>(s.entries, entry_day(), gone);
}

/// Deleting tags and categories keeps a store consistent.
pub proof fn taxonomy_deletes_keep(s: StoreView, id: Seq<char>, user: Seq<char>)
    requires
        consistent(s),
    ensures
        consistent(tag_deleted(s, id, user).0),
        consistent(category_tags_deleted(s, id, user).0),
        consistent(category_deleted(s, id, user).0),
{
    without_tags_keeps(s, TagProbe::Owned(id, user));
    without_tags_keeps(s, TagProbe::InCategory(id, user));
    distinct_remaining::<Category, Seq<char>>(
        s.categories,
        category_id(),
        CategoryProbe::Owned(id, user),
    );
}

/// Creating an entry keeps a store consistent.
pub proof fn entry_created_keeps(
    s: StoreView,
    date_text: Seq<char>,
    mood: i32,
    entry: Option<Seq<char>>,
    selected_tags: Seq<Seq<char>>,
    user: Seq<char>,
    date: Option<Date>,
    id: Seq<char>,
    now: i64,
)
    requires
        consistent(s),
    ensures
        consistent(entry_created(s, date_text, mood, entry, selected_tags, user, date, id, now).0),
{
    let (after, created) = entry_created(
        s,
        date_text,
        mood,
        entry,
        selected_tags,
        user,
        date,
        id,
        now,
    );
    if created is Ok {
        let by_id = first_hit_place::<Entry>(s.entries, EntryProbe::Id(id));
        let by_day = first_hit_place::<Entry>(s.entries, EntryProbe::Dated(date->0, user));
        distinct_pushed(s.entries, entry_id(), created->Ok_0.entry);
        distinct_pushed(s.entries, entry_day(), created->Ok_0.entry);
    }
}

/// Changing an entry keeps a store consistent: the entry moves only to a
/// day on which the user has no other entry.
pub proof fn entry_edited_keeps(
    s: StoreView,
    id: Seq<char>,
    date_text: Seq<char>,
    mood: i32,
    entry: Option<Seq<char>>,
    selected_tags: Seq<Seq<char>>,
    user: Seq<char>,
    date: Option<Date>,
)
    requires
        consistent(s),
    ensures
        consistent(entry_edited(s, id, date_text, mood, entry, selected_tags, user, date).0),
{
    let (after, edited) = entry_edited(s, id, date_text, mood, entry, selected_tags, user, date);
    if edited is Ok || after != s {
        let target = EntryProbe::Owned(id, user);
        let change = (date->0, mood, entry);
        distinct_amended::<Entry, Seq<char>>(s.entries, entry_id(), target, change);
        let by_day = first_hit_place::<Entry>(s.entries, EntryProbe::Dated(date->0, user));
        let rows = after.entries;
        assert forall|i: int, j: int|
            0 <= i < rows.len() && 0 <= j < rows.len() && #[trigger] entry_day()(rows[i])
                == #[trigger] entry_day()(rows[j]) implies i == j by {
            let a = s.entries[i];
            let b = s.entries[j];
            if Entry::hit(a, target) && Entry::hit(b, target) {
                assert(entry_id()(a) == entry_id()(b));
            } else if Entry::hit(a, target) {
                assert(Entry::hit(b, EntryProbe::Dated(date->0, user)));
                assert(entry_day()(s.entries[by_day]) == entry_day()(b));
            } else if Entry::hit(b, target) {
                assert(Entry::hit(a, EntryProbe::Dated(date->0, user)));
                assert(entry_day()(s.entries[by_day]) == entry_day()(a));
            } else {
                assert(entry_day()(a) == entry_day()(b));
            }
        }
    }
}

/// Deleting an entry keeps a store consistent.
pub proof fn entry_deleted_keeps(s: StoreView, id: Seq<char>, user: Seq<char>)
    requires
        consistent(s),
    ensures
        consistent(entry_deleted(s, id, user).0),
{
    without_entries_keeps(s, EntryProbe::Owned(id, user));
}

/// Removing a user's journal keeps a store consistent.
pub proof fn without_journal_keeps(s: StoreView, user: Seq<char>)
    requires
        consistent(s),
    ensures
        consistent(without_journal(s, user)),
        consistent(user_data_deleted(s, user).0),
{
    let entries_gone = without_entries(s, EntryProbe::User(user));
    without_entries_keeps(s, EntryProbe::User(user));
    without_tags_keeps(entries_gone, TagProbe::User(user));
    distinct_remaining::<Category, Seq<char>>(
        s.categories,
        category_id(),
        CategoryProbe::User(user),
    );
}

/// Each step of creating a user's defaults keeps a store consistent.
pub proof fn default_steps_keep(
    state: (StoreView, bool),
    user: Seq<char>,
    category: Seq<char>,
    name: Seq<char>,
    color: Color,
    id: Seq<char>,
    now: i64,
)
    requires
        consistent(state.0),
    ensures
        consistent(and_category(state, user, name, id, now).0),
        consistent(and_tag(state, user, category, name, color, id, now).0),
{
    categories_keep(state.0, name, user, id, now);
    tags_keep(
        state.0,
        name,
        crate::util::color::color_name(color),
        category,
        user,
        color,
        id,
        now,
    );
}

/// Creating a user's defaults keeps a store consistent.
pub proof fn default_data_keeps(s: StoreView, user: Seq<char>, ids: DefaultIdsImage, now: i64)
    requires
        consistent(s),
    ensures
        consistent(defaults_added(s, user, ids, now).0),
        consistent(default_data_created(s, user, ids, now).0),
{
    let none = Seq::<char>::empty();
    let a = (s, true);
    default_steps_keep(a, user, none, "Activities"@, Color::Base, ids.activities, now);
    let a = and_category(a, user, "Activities"@, ids.activities, now);
    default_steps_keep(a, user, ids.activities, "Work"@, Color::Base, ids.work, now);
    let a = and_tag(a, user, ids.activities, "Work"@, Color::Base, ids.work, now);
    default_steps_keep(a, user, ids.activities, "Movie"@, Color::Base, ids.movie, now);
    let a = and_tag(a, user, ids.activities, "Movie"@, Color::Base, ids.movie, now);
    default_steps_keep(a, user, ids.activities, "Exercise"@, Color::Base, ids.exercise, now);
    let a = and_tag(a, user, ids.activities, "Exercise"@, Color::Base, ids.exercise, now);
    default_steps_keep(a, user, ids.activities, "Read"@, Color::Base, ids.read, now);
    let a = and_tag(a, user, ids.activities, "Read"@, Color::Base, ids.read, now);
    default_steps_keep(a, user, ids.activities, "Shopping"@, Color::Base, ids.shopping, now);
    let a = and_tag(a, user, ids.activities, "Shopping"@, Color::Base, ids.shopping, now);
    default_steps_keep(a, user, ids.activities, "Gaming"@, Color::Base, ids.gaming, now);
    let a = and_tag(a, user, ids.activities, "Gaming"@, Color::Base, ids.gaming, now);
    default_steps_keep(a, user, none, "Tags"@, Color::Base, ids.tags, now);
    let t = and_category(a, user, "Tags"@, ids.tags, now);
    default_steps_keep(t, user, ids.tags, "Travel"@, Color::Base, ids.travel, now);
    let t = and_tag(t, user, ids.tags, "Travel"@, Color::Base, ids.travel, now);
    default_steps_keep(t, user, ids.tags, "Important"@, Color::Blue, ids.important, now);
    let t = and_tag(t, user, ids.tags, "Important"@, Color::Blue, ids.important, now);
    default_steps_keep(t, user, ids.tags, "Sick"@, Color::Red, ids.sick, now);
}

/// Signing a user up keeps a store consistent.
pub proof fn user_created_keeps(
    s: StoreView,
    name: Seq<char>,
    email: Seq<char>,
    password: Seq<char>,
    invite: Option<Seq<char>>,
    email_ok: bool,
    hash: Option<Seq<char>>,
    id: Seq<char>,
    ids: DefaultIdsImage,
    now: i64,
)
    requires
        consistent(s),
    ensures
        consistent(
            user_created(s, name, email, password, invite, email_ok, hash, id, ids, now).0,
        ),
{
    let (after, created) = user_created(
        s,
        name,
        email,
        password,
        invite,
        email_ok,
        hash,
        id,
        ids,
        now,
    );
    if after != s {
        let user = UserImage { id, created_at: now, name, email, password: hash->0, invite };
        let by_id = first_hit_place::<User>(s.users, UserProbe::Id(id));
        let by_email = first_hit_place::<User>(s.users, UserProbe::Email(email));
        distinct_pushed(s.users, user_id(), user);
        distinct_pushed(s.users, user_email(), user);
        default_data_keeps(StoreView { users: s.users.push(user), ..s }, id, ids, now);
    }
}

/// Changing a user's profile or password keeps a store consistent: the
/// email that a user changes to is one that no user has.
pub proof fn user_updates_keep(
    s: StoreView,
    id: Seq<char>,
    name: Seq<char>,
    email: Seq<char>,
    email_ok: bool,
    hash: Seq<char>,
)
    requires
        consistent(s),
    ensures
        consistent(user_updated(s, id, name, email, email_ok).0),
        consistent(password_updated(s, id, hash)),
{
    let target = UserProbe::Id(id);
    distinct_amended::<User, Seq<char>>(
        s.users,
        user_id(),
        target,
        crate::services::user::UserEdit::Password(hash),
    );
    distinct_amended::<User, Seq<char>>(
        s.users,
        user_email(),
        target,
        crate::services::user::UserEdit::Password(hash),
    );
    let (after, updated) = user_updated(s, id, name, email, email_ok);
    if updated is Ok {
        distinct_amended::<User, Seq<char>>(
            s.users,
            user_id(),
            target,
            crate::services::user::UserEdit::Profile(name, email),
        );
        let by_email = first_hit_place::<User>(s.users, UserProbe::Email(email));
        let rows = after.users;
        assert forall|i: int, j: int|
            0 <= i < rows.len() && 0 <= j < rows.len() && #[trigger] user_email()(rows[i])
                == #[trigger] user_email()(rows[j]) implies i == j by {
            let a = s.users[i];
            let b = s.users[j];
            if User::hit(a, target) && User::hit(b, target) {
                assert(user_id()(a) == user_id()(b));
            } else if User::hit(a, target) {
                assert(!User::hit(b, UserProbe::Email(email)));
            } else if User::hit(b, target) {
                assert(!User::hit(a, UserProbe::Email(email)));
            } else {
                assert(user_email()(a) == user_email()(b));
            }
        }
    }
}

/// Deleting a user keeps a store consistent.
pub proof fn user_deleted_keeps(s: StoreView, id: Seq<char>)
    requires
        consistent(s),
    ensures
        consistent(user_deleted(s, id).0),
{
    let signed_out = without_sessions(s, SessionProbe::User(id));
    sessions_keep(s, id, 0, SessionProbe::User(id));
    without_journal_keeps(signed_out, id);
    distinct_remaining::<User, Seq<char>>(s.users, user_id(), UserProbe::Id(id));
    distinct_remaining::<User, Seq<char>>(s.users, user_email(), UserProbe::Id(id));
}

} // verus!
