//! Invites: issuing them and redeeming each at most once.

use crate::store::table::{
    amended, first, first_hit, first_hit_amended, update, Amend, Record, Row,
};
use crate::store::{append, outcome, sound, Store, StoreView};
use crate::util::error::EphemerideError;
use crate::util::invite_code::{generate_invite_code, new_id};
use crate::util::text::str_eq;
use crate::util::unix_time::unix_ms;
use vstd::prelude::*;

verus! {

/// An invite to sign up. It is redeemed at most once.
#[derive(Debug)]
pub struct Invite {
    pub id: String,
    pub created_at: i64,
    pub code: String,
    pub used: bool,
}

/// What contracts say of an invite.
pub ghost struct InviteImage {
    pub id: Seq<char>,
    pub created_at: i64,
    pub code: Seq<char>,
    pub used: bool,
}

impl View for Invite {
    type V = InviteImage;

    open spec fn view(&self) -> InviteImage {
        InviteImage { id: self.id@, created_at: self.created_at, code: self.code@, used: self.used }
    }
}

/// Which invites a lookup asks for.
pub enum InviteQuery {
    Id(String),
    Code(String),
    Unused(String),
}

/// What contracts say of a lookup of invites.
pub ghost enum InviteProbe {
    Id(Seq<char>),
    Code(Seq<char>),
    Unused(Seq<char>),
}

impl View for InviteQuery {
    type V = InviteProbe;

    open spec fn view(&self) -> InviteProbe {
        match self {
            InviteQuery::Id(id) => InviteProbe::Id(id@),
            InviteQuery::Code(code) => InviteProbe::Code(code@),
            InviteQuery::Unused(code) => InviteProbe::Unused(code@),
        }
    }
}

impl Record for Invite {
    fn copy(&self) -> (r: Invite) {
        Invite {
            id: self.id.clone(),
            created_at: self.created_at,
            code: self.code.clone(),
            used: self.used,
        }
    }
}

impl Row for Invite {
    type Query = InviteQuery;

    open spec fn hit(image: InviteImage, query: InviteProbe) -> bool {
        match query {
            InviteProbe::Id(id) => image.id == id,
            InviteProbe::Code(code) => image.code == code,
            InviteProbe::Unused(code) => image.code == code && !image.used,
        }
    }

    fn hits(&self, query: &InviteQuery) -> (r: bool) {
        assert(query@ is Id || query@ is Code || query@ is Unused);
        match query {
            InviteQuery::Id(id) => str_eq(self.id.as_str(), id.as_str()),
            InviteQuery::Code(code) => str_eq(self.code.as_str(), code.as_str()),
            InviteQuery::Unused(code) => str_eq(self.code.as_str(), code.as_str()) && !self.used,
        }
    }
}

/// What an update writes into an invite: that it has been used.
pub struct Redeem {}

impl View for Redeem {
    type V = ();

    open spec fn view(&self) -> () {
        ()
    }
}

impl Amend for Invite {
    type Change = Redeem;

    open spec fn changed(image: InviteImage, change: ()) -> InviteImage {
        InviteImage { used: true, ..image }
    }

    fn amend(self, change: &Redeem) -> (r: Invite) {
        assert(change@ == ());
        Invite { id: self.id, created_at: self.created_at, code: self.code, used: true }
    }
}

/// The invite with a given code.
pub open spec fn invite_by_code(s: StoreView, code: Seq<char>) -> Option<InviteImage> {
    first_hit::<Invite>(s.invites, InviteProbe::Code(code))
}

/// The invite with a given code.
pub fn get_invite(store: &Store, code: &str) -> (r: Result<Invite, EphemerideError>)
    ensures
        outcome(r) == match invite_by_code(store@, code@) {
            Some(invite) => Ok::<InviteImage, EphemerideError>(invite),
            None => Err(EphemerideError::InviteNotFound),
        },
{
    match first(&store.invites, &InviteQuery::Code(code.to_owned())) {
        Some(invite) => Ok(invite),
        None => Err(EphemerideError::InviteNotFound),
    }
}

/// A store in which an invite was redeemed, and the answer: the invite as
/// it now stands. An invite that has been used is refused, and nothing
/// changes.
pub open spec fn invite_used(s: StoreView, code: Seq<char>) -> (
    StoreView,
    Result<InviteImage, EphemerideError>,
) {
    match invite_by_code(s, code) {
        None => (s, Err(EphemerideError::InviteNotFound)),
        Some(invite) => if invite.used {
            (s, Err(EphemerideError::InviteUsed))
        } else {
            (
                StoreView {
                    invites: amended::<Invite>(s.invites, InviteProbe::Code(code), ()),
                    ..s
                },
                Ok(InviteImage { used: true, ..invite }),
            )
        },
    }
}

/// Redeems an invite. It can be redeemed once.
pub fn use_invite(store: &mut Store, code: &str) -> (r: Result<Invite, EphemerideError>)
    ensures
        sound(old(store)@) ==> sound(final(store)@),
        (final(store)@, outcome(r)) == invite_used(old(store)@, code@),
{
    proof {
        if sound(store@) {
            crate::store::consistency::invites_keep(store@, None, Seq::empty(), Seq::empty(), 0, code@);
            crate::store::references::references_of_the_journal(store@, invite_used(store@, code@).0);
        }
    }
    let query = InviteQuery::Code(code.to_owned());
    let invite = match first(&store.invites, &query) {
        Some(invite) => invite,
        None => return Err(EphemerideError::InviteNotFound),
    };
    if invite.used {
        return Err(EphemerideError::InviteUsed);
    }
    let _ = update(&mut store.invites, &query, &Redeem {  });
    Ok(invite.amend(&Redeem {  }))
}

/// The code that a new invite gets: the one asked for, unless none is asked
/// for or an invite has it already; then the fresh one.
pub open spec fn code_chosen(s: StoreView, desired: Option<Seq<char>>, fresh: Seq<char>) -> Seq<
    char,
> {
    match desired {
        Some(code) => if invite_by_code(s, code) is Some {
            fresh
        } else {
            code
        },
        None => fresh,
    }
}

/// A store in which an invite was issued, and the answer: the new invite.
/// `fresh` is the code to fall back on, `id` the new invite's id and `now`
/// the time. Neither an id nor a code is given out twice.
pub open spec fn invite_generated(
    s: StoreView,
    desired: Option<Seq<char>>,
    fresh: Seq<char>,
    id: Seq<char>,
    now: i64,
) -> (StoreView, Result<InviteImage, EphemerideError>) {
    let code = code_chosen(s, desired, fresh);
    if first_hit::<Invite>(s.invites, InviteProbe::Id(id)) is Some || invite_by_code(s, code)
        is Some {
        (s, Err(EphemerideError::DatabaseError))
    } else {
        let invite = InviteImage { id, created_at: now, code, used: false };
        (StoreView { invites: s.invites.push(invite), ..s }, Ok(invite))
    }
}

/// Issues an invite, given the code to fall back on, the new invite's id and
/// the time.
pub fn generate_invite_with(
    store: &mut Store,
    code: Option<&str>,
    fresh: String,
    id: String,
    now: i64,
) -> (r: Result<Invite, EphemerideError>)
    ensures
        sound(old(store)@) ==> sound(final(store)@),
        (final(store)@, outcome(r)) == invite_generated(
            old(store)@,
            code.deep_view(),
            fresh@,
            id@,
            now,
        ),
{
    proof {
        if sound(store@) {
            crate::store::consistency::invites_keep(store@, code.deep_view(), fresh@, id@, now, Seq::empty());
            crate::store::references::references_of_the_journal(
                store@,
                invite_generated(store@, code.deep_view(), fresh@, id@, now).0,
            );
        }
    }
    let code = match code {
        Some(desired) => {
            if first(&store.invites, &InviteQuery::Code(desired.to_owned())).is_some() {
                fresh
            } else {
                desired.to_owned()
            }
        },
        None => fresh,
    };
    if first(&store.invites, &InviteQuery::Id(id.clone())).is_some() {
        return Err(EphemerideError::DatabaseError);
    }
    if first(&store.invites, &InviteQuery::Code(code.clone())).is_some() {
        return Err(EphemerideError::DatabaseError);
    }
    let invite = Invite { id, created_at: now, code, used: false };
    let copy = invite.copy();
    append(&mut store.invites, invite);
    Ok(copy)
}

/// Issues an invite with the code asked for, or with a fresh code where none
/// is asked for or an invite has it already.
pub fn generate_invite(
    store: &mut Store,
    code: Option<&str>,
) -> (r: Result<Invite, EphemerideError>)
    ensures
        sound(old(store)@) ==> sound(final(store)@),
        exists|fresh: Seq<char>, id: Seq<char>, now: i64|
            (final(store)@, outcome(r)) == #[trigger] invite_generated(
                old(store)@,
                code.deep_view(),
                fresh,
                id,
                now,
            ),
{
    generate_invite_with(store, code, generate_invite_code(), new_id(), unix_ms())
}

/// An invite is redeemed at most once: once redeeming a code has succeeded,
/// redeeming it again fails with `InviteUsed` and changes nothing.
pub proof fn invite_redeems_once(s: StoreView, code: Seq<char>)
    ensures
        ({
            let (after, first) = invite_used(s, code);
            first is Ok ==> invite_used(after, code) == (
                after,
                Err::<InviteImage, EphemerideError>(EphemerideError::InviteUsed),
            )
        }),
{
    first_hit_amended::<Invite>(s.invites, InviteProbe::Code(code), (), InviteProbe::Code(code));
}

} // verus!
