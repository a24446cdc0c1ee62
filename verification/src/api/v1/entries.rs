//! Requests for pages of entries.

use crate::api::v1::gated;
use crate::services::auth::authorize;
use crate::services::entry::{
    entries_page, matching, options_read, span, EntryOptionsOrder, EntryWithTags,
    EntryWithTagsImage, GetEntriesOptions,
};
use crate::services::pagination::{PageImage, Paginated};
use crate::store::order::ranked;
use crate::store::{outcome, outcomes, sound, Store, StoreView};
use crate::util::date::date_of;
use crate::util::error::EphemerideError;
use crate::util::text::{copy_optional, split_commas, split_on_commas, str_eq};
use crate::util::unix_time::unix_ms;
use vstd::prelude::*;

verus! {

/// The parameters of a request for entries, as they stand in its query
/// string: the tags as one text with commas between the ids, the order by
/// its name.
#[derive(Debug)]
pub struct EntryParams {
    pub from_date: Option<String>,
    pub to_date: Option<String>,
    pub tags: Option<String>,
    pub from_mood: Option<i32>,
    pub to_mood: Option<i32>,
    pub order: Option<String>,
}

/// The order that a name stands for, if it is the name of one.
pub open spec fn order_named(name: Seq<char>) -> Option<EntryOptionsOrder> {
    if name == "date_asc"@ {
        Some(EntryOptionsOrder::DateAsc)
    } else if name == "date_desc"@ {
        Some(EntryOptionsOrder::DateDesc)
    } else if name == "mood_asc"@ {
        Some(EntryOptionsOrder::MoodAsc)
    } else if name == "mood_desc"@ {
        Some(EntryOptionsOrder::MoodDesc)
    } else {
        None
    }
}

/// The order that a name stands for, if it is the name of one.
pub fn read_order(name: &str) -> (order: Option<EntryOptionsOrder>)
    ensures
        order == order_named(name@),
{
    if str_eq(name, "date_asc") {
        Some(EntryOptionsOrder::DateAsc)
    } else if str_eq(name, "date_desc") {
        Some(EntryOptionsOrder::DateDesc)
    } else if str_eq(name, "mood_asc") {
        Some(EntryOptionsOrder::MoodAsc)
    } else if str_eq(name, "mood_desc") {
        Some(EntryOptionsOrder::MoodDesc)
    } else {
        None
    }
}

/// The options that the parameters of a request ask for: the tags split at
/// the commas, the order read from its name, and the first page of 31.
pub fn entry_options(params: EntryParams) -> (options: GetEntriesOptions)
    ensures
        options.from_date.deep_view() == params.from_date.deep_view(),
        options.to_date.deep_view() == params.to_date.deep_view(),
        options.tags.deep_view() == match params.tags {
            Some(tags) => Some(split_commas(tags@)),
            None => None,
        },
        options.from_mood == params.from_mood,
        options.to_mood == params.to_mood,
        options.order == match params.order {
            Some(name) => order_named(name@),
            None => None,
        },
        options.limit == Some(31i64),
        options.offset == Some(0i64),
{
    GetEntriesOptions {
        from_date: copy_optional(&params.from_date),
        to_date: copy_optional(&params.to_date),
        tags: match &params.tags {
            Some(tags) => Some(split_on_commas(tags.as_str())),
            None => None,
        },
        from_mood: params.from_mood,
        to_mood: params.to_mood,
        order: match &params.order {
            Some(name) => read_order(name.as_str()),
            None => None,
        },
        limit: Some(31),
        offset: Some(0),
    }
}

/// What a request for entries does and answers.
pub open spec fn entries_requested(
    s: StoreView,
    header: Option<Seq<char>>,
    options: GetEntriesOptions,
    now: i64,
) -> (StoreView, Result<PageImage<EntryWithTagsImage>, EphemerideError>) {
    gated(
        s,
        header,
        now,
        |marked: StoreView, user_id: Seq<char>|
            (
                marked,
                match options_read(Some(options)) {
                    Ok(query) => entries_page(marked, user_id, query),
                    Err(error) => Err(error),
                },
            ),
    )
}

/// One page of the entries of the user of the request's session.
pub fn get_entries(
    store: &mut Store,
    authorization: Option<&str>,
    options: GetEntriesOptions,
) -> (r: Result<
    Paginated<EntryWithTags>,
    EphemerideError,
>)
    ensures
        sound(old(store)@) ==> sound(final(store)@),
        exists|now: i64|
            (final(store)@, outcome(r)) == #[trigger] entries_requested(
                old(store)@,
                authorization.deep_view(),
                options,
                now,
            ),
{
    let now = unix_ms();
    let session = match authorize(store, authorization, now) {
        Ok(session) => session,
        Err(error) => {
            proof {
                assert((store@, Err::<PageImage<EntryWithTagsImage>, EphemerideError>(error)) == entries_requested(
                    old(store)@,
                    authorization.deep_view(),
                    options,
                    now,
                ));
            }
            return Err(error);
        },
    };
    let r = crate::services::entry::get_entries(store, session.user_id.as_str(), Some(options));
    proof {
        assert((store@, outcome(r)) == entries_requested(
            old(store)@,
            authorization.deep_view(),
            options,
            now,
        ));
    }
    r
}

/// What a request for the entries of a span of days does and answers.
pub open spec fn span_requested(
    s: StoreView,
    header: Option<Seq<char>>,
    from_date: Seq<char>,
    to_date: Seq<char>,
    now: i64,
) -> (StoreView, Result<Seq<EntryWithTagsImage>, EphemerideError>) {
    gated(
        s,
        header,
        now,
        |marked: StoreView, user_id: Seq<char>|
            (
                marked,
                match (date_of(from_date), date_of(to_date)) {
                    (Some(from), Some(to)) => Ok(
                        ranked::<EntryWithTags>(
                            matching(marked, user_id, span(from, to)),
                            EntryOptionsOrder::DateAsc,
                        ),
                    ),
                    _ => Err(EphemerideError::BadRequest),
                },
            ),
    )
}

/// Every entry of the user of the request's session from one day to
/// another, both included, the oldest first.
pub fn get_entries_in_range(
    store: &mut Store,
    authorization: Option<&str>,
    from_date: &str,
    to_date: &str,
) -> (r: Result<Vec<EntryWithTags>, EphemerideError>)
    ensures
        sound(old(store)@) ==> sound(final(store)@),
        exists|now: i64|
            (final(store)@, outcomes(r)) == #[trigger] span_requested(
                old(store)@,
                authorization.deep_view(),
                from_date@,
                to_date@,
                now,
            ),
{
    let now = unix_ms();
    let session = match authorize(store, authorization, now) {
        Ok(session) => session,
        Err(error) => {
            proof {
                assert((store@, Err::<Seq<EntryWithTagsImage>, EphemerideError>(error))
                    == span_requested(
                    old(store)@,
                    authorization.deep_view(),
                    from_date@,
                    to_date@,
                    now,
                ));
            }
            return Err(error);
        },
    };
    let r = crate::services::entry::get_entries_in_range(
        store,
        from_date,
        to_date,
        session.user_id.as_str(),
    );
    proof {
        assert((store@, outcomes(r)) == span_requested(
            old(store)@,
            authorization.deep_view(),
            from_date@,
            to_date@,
            now,
        ));
    }
    r
}

} // verus!
