//! The query engine: turn a requested time window, either bound optional,
//! into the stored readings inside it plus their summary statistics.
use vstd::prelude::*;

use crate::Reading;
use crate::clock::{system_now, time_to_unix};
use crate::stats::{stats_match, window_stats, WindowStats};
use crate::store::{selection_of, stored_readings, Store, StoreError};

verus! {

/// The default window reaches this many seconds back from its end.
pub const DEFAULT_WINDOW_SECONDS: i64 = 3600;

/// The end of the window: the caller's value if given, else `now`.
pub open spec fn resolved_end(end_param: Option<i64>, now: i64) -> i64 {
    match end_param {
        Some(e) => e,
        None => now,
    }
}

/// The start of the window: the caller's value if given, else one default
/// window before the end.
pub open spec fn resolved_start(start_param: Option<i64>, end: i64) -> int {
    match start_param {
        Some(s) => s as int,
        None => end - DEFAULT_WINDOW_SECONDS,
    }
}

/// A defaulted start must not leave `i64`: only an explicit `end` near
/// `i64::MIN` with no explicit `start` could make it do so.
pub open spec fn window_request_ok(start_param: Option<i64>, end_param: Option<i64>) -> bool {
    (start_param is None && end_param is Some) ==> end_param->0 - DEFAULT_WINDOW_SECONDS
        >= i64::MIN
}

/// The answer to one query: the resolved window, the readings inside it in
/// ascending time order, and their statistics.
pub struct QueryOutcome {
    pub start: i64,
    pub end: i64,
    pub samples: Vec<Reading>,
    pub stats: WindowStats,
}

/// Apply the defaulting rules: a missing `end` means `now`, a missing
/// `start` means one default window before the end. No check that
/// `start <= end` is made; an inverted window later yields an empty result.
pub fn resolve_window(start_param: Option<i64>, end_param: Option<i64>, now: i64) -> (w: (
    i64,
    i64,
))
    requires
        start_param is None ==> resolved_end(end_param, now) - DEFAULT_WINDOW_SECONDS
            >= i64::MIN,
    ensures
        w.1 == resolved_end(end_param, now),
        w.0 as int == resolved_start(start_param, w.1),
{
    let end = match end_param {
        Some(e) => e,
        None => now,
    };
    let start = match start_param {
        Some(s) => s,
        None => end - DEFAULT_WINDOW_SECONDS,
    };
    (start, end)
}

/// Answer a query over the explicit window `[start, end]`: fetch the
/// readings in the window, ascending by time, and compute their
/// statistics. A failing range select fails only this request.
pub fn query_window(store: &Store, start: i64, end: i64) -> (r: Result<QueryOutcome, StoreError>)
    ensures
        r matches Ok(q) ==> {
            &&& q.start == start
            &&& q.end == end
            &&& selection_of(q.samples@, stored_readings(*store), start, end)
            &&& stats_match(q.stats, q.samples@)
        },
        r matches Err(e) ==> e == StoreError::StorageFailure,
{
    let samples = match store.select_range(start, end) {
        Ok(v) => v,
        Err(e) => return Err(e),
    };
    let stats = window_stats(&samples);
    Ok(QueryOutcome { start, end, samples, stats })
}

/// Answer a query with optional bounds: defaults are taken from the system
/// clock by the rules of `resolve_window`, and the window is then answered
/// by `query_window`.
pub fn query(store: &Store, start_param: Option<i64>, end_param: Option<i64>) -> (r: Result<
    QueryOutcome,
    StoreError,
>)
    requires
        window_request_ok(start_param, end_param),
    ensures
        r matches Ok(q) ==> {
            &&& q.end == resolved_end(end_param, q.end)
            &&& end_param is None ==> q.end >= 0
            &&& q.start as int == resolved_start(start_param, q.end)
            &&& selection_of(q.samples@, stored_readings(*store), q.start, q.end)
            &&& stats_match(q.stats, q.samples@)
        },
        r matches Err(e) ==> e == StoreError::StorageFailure,
{
    let now: i64 = time_to_unix(system_now());
    let (start, end) = resolve_window(start_param, end_param, now);
    query_window(store, start, end)
}

} // verus!
