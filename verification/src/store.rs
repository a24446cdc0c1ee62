//! The relational model that every operation works on.

pub mod consistency;
pub mod order;
pub mod references;
pub mod table;

use crate::services::auth::{Session, SessionImage};
use crate::services::category::{Category, CategoryImage};
use crate::services::entry::{Entry, EntryImage, EntryTag, LinkImage};
use crate::services::invite::{Invite, InviteImage};
use crate::services::tag::{Tag, TagImage};
use crate::services::user::{User, UserImage};
use crate::store::table::images;
use vstd::prelude::*;

verus! {

/// Everything the service remembers: one table for each kind of row. Rows
/// stand in the order in which they were written.
pub struct Store {
    pub users: Vec<User>,
    pub sessions: Vec<Session>,
    pub invites: Vec<Invite>,
    pub categories: Vec<Category>,
    pub tags: Vec<Tag>,
    pub entries: Vec<Entry>,
    pub entry_tags: Vec<EntryTag>,
}

/// What contracts say of a store: the images of its rows, table by table.
pub ghost struct StoreView {
    pub users: Seq<UserImage>,
    pub sessions: Seq<SessionImage>,
    pub invites: Seq<InviteImage>,
    pub categories: Seq<CategoryImage>,
    pub tags: Seq<TagImage>,
    pub entries: Seq<EntryImage>,
    pub links: Seq<LinkImage>,
}

impl View for Store {
    type V = StoreView;

    open spec fn view(&self) -> StoreView {
        StoreView {
            users: images(self.users@),
            sessions: images(self.sessions@),
            invites: images(self.invites@),
            categories: images(self.categories@),
            tags: images(self.tags@),
            entries: images(self.entries@),
            links: images(self.entry_tags@),
        }
    }
}

/// The store that holds nothing.
pub open spec fn empty_store() -> StoreView {
    StoreView {
        users: Seq::empty(),
        sessions: Seq::empty(),
        invites: Seq::empty(),
        categories: Seq::empty(),
        tags: Seq::empty(),
        entries: Seq::empty(),
        links: Seq::empty(),
    }
}

/// Whether a store is sound: it is consistent, and every reference in it
/// leads somewhere. The empty store is sound, and every operation of the
/// service leaves a sound store sound.
pub open spec fn sound(s: StoreView) -> bool {
    crate::store::consistency::consistent(s) && crate::store::references::referenced(s)
}

/// What an operation answers, with the image of the value in place of the
/// value.
pub open spec fn outcome<T: View>(result: Result<T, crate::util::error::EphemerideError>) -> Result<
    T::V,
    crate::util::error::EphemerideError,
> {
    match result {
        Ok(value) => Ok(value@),
        Err(error) => Err(error),
    }
}

/// What an operation that reads several rows answers, with their images in
/// place of the rows.
pub open spec fn outcomes<T: View>(
    result: Result<Vec<T>, crate::util::error::EphemerideError>,
) -> Result<Seq<T::V>, crate::util::error::EphemerideError> {
    match result {
        Ok(rows) => Ok(images(rows@)),
        Err(error) => Err(error),
    }
}

impl Store {
    /// A store that holds nothing.
    pub fn new() -> (store: Store)
        ensures
            store@ == empty_store(),
            sound(store@),
    {
        let store = Store {
            users: Vec::new(),
            sessions: Vec::new(),
            invites: Vec::new(),
            categories: Vec::new(),
            tags: Vec::new(),
            entries: Vec::new(),
            entry_tags: Vec::new(),
        };
        proof {
            assert(store@.users =~= Seq::empty());
            assert(store@.sessions =~= Seq::empty());
            assert(store@.invites =~= Seq::empty());
            assert(store@.categories =~= Seq::empty());
            assert(store@.tags =~= Seq::empty());
            assert(store@.entries =~= Seq::empty());
            assert(store@.links =~= Seq::empty());
            crate::store::consistency::empty_is_consistent();
            crate::store::references::empty_is_referenced();
        }
        store
    }
}

/// Appends a row to a table.
pub fn append<T: View>(rows: &mut Vec<T>, row: T)
    ensures
        images(final(rows)@) == images(old(rows)@).push(row@),
{
    proof {
        assert(images(rows@.push(row)) =~= images(rows@).push(row@));
    }
    rows.push(row);
}

} // verus!
