//! How many users the service has, and how many of them are active.

use crate::services::user::{active_user_count, is_active, reported, user_count};
use crate::store::{Store, StoreView};
use crate::util::error::EphemerideError;
use crate::util::unix_time::unix_ms;
use vstd::prelude::*;

verus! {

/// The number of users, and the numbers of users with a session that was
/// used within the last hour, day, week and thirty days.
#[derive(Debug, Clone, Copy, PartialEq, Eq, Structural)]
pub struct MetricsResponse {
    pub total_users: i64,
    pub active_1h: i64,
    pub active_24h: i64,
    pub active_7d: i64,
    pub active_30d: i64,
}

/// One hour, in milliseconds.
pub const HOUR_MS: i64 = 3_600_000;

/// The time that lies `span` milliseconds before `now`; the earliest time
/// there is where that would lie before it.
pub open spec fn ago(now: i64, span: i64) -> i64 {
    if now - span >= i64::MIN && now - span <= i64::MAX {
        (now - span) as i64
    } else if span >= 0 {
        i64::MIN
    } else {
        i64::MAX
    }
}

/// The time that lies `span` milliseconds before `now`.
pub fn time_ago(now: i64, span: i64) -> (then: i64)
    ensures
        then == ago(now, span),
{
    match now.checked_sub(span) {
        Some(then) => then,
        None => if span >= 0 {
            i64::MIN
        } else {
            i64::MAX
        },
    }
}

/// How many users have a session that was used at `since` or later.
pub open spec fn active_users(s: StoreView, since: i64) -> i64 {
    reported(s.users.filter(is_active(s.sessions, since)).len())
}

/// The metrics of a store at a given time.
pub open spec fn metrics_of(s: StoreView, now: i64) -> MetricsResponse {
    MetricsResponse {
        total_users: reported(s.users.len()),
        active_1h: active_users(s, ago(now, 3_600_000)),
        active_24h: active_users(s, ago(now, 86_400_000)),
        active_7d: active_users(s, ago(now, 604_800_000)),
        active_30d: active_users(s, ago(now, 2_592_000_000)),
    }
}

/// The metrics of the service at a given time.
pub fn metrics_at(store: &Store, now: i64) -> (r: Result<MetricsResponse, EphemerideError>)
    ensures
        r == Ok::<MetricsResponse, EphemerideError>(metrics_of(store@, now)),
{
    let total_users = match user_count(store) {
        Ok(count) => count,
        Err(_) => return Err(EphemerideError::InternalServerError),
    };
    let active_1h = match active_user_count(store, time_ago(now, HOUR_MS)) {
        Ok(count) => count,
        Err(_) => return Err(EphemerideError::InternalServerError),
    };
    let active_24h = match active_user_count(store, time_ago(now, 24 * HOUR_MS)) {
        Ok(count) => count,
        Err(_) => return Err(EphemerideError::InternalServerError),
    };
    let active_7d = match active_user_count(store, time_ago(now, 7 * 24 * HOUR_MS)) {
        Ok(count) => count,
        Err(_) => return Err(EphemerideError::InternalServerError),
    };
    let active_30d = match active_user_count(store, time_ago(now, 30 * 24 * HOUR_MS)) {
        Ok(count) => count,
        Err(_) => return Err(EphemerideError::InternalServerError),
    };
    Ok(MetricsResponse { total_users, active_1h, active_24h, active_7d, active_30d })
}

/// The metrics of the service now.
pub fn metrics(store: &Store) -> (r: Result<MetricsResponse, EphemerideError>)
    ensures
        exists|now: i64|
            r == Ok::<MetricsResponse, EphemerideError>(#[trigger] metrics_of(store@, now)),
{
    metrics_at(store, unix_ms())
}

} // verus!
