//! Structured event records: one record per observable step of a worker,
//! written as one JSON line each by the event logger.

pub mod workers;

use vstd::prelude::*;

verus! {

/// One entry of the event log.
pub struct Event {
    pub timestamp: String,
    pub worker: String,
    pub event: String,
    pub user_id: String,
    pub path: Option<String>,
    pub asset_id: Option<String>,
    pub detail: Option<String>,
}

/// The characters of an optional string slice.
pub open spec fn opt_str_view(o: Option<&str>) -> Option<Seq<char>> {
    match o {
        Some(s) => Some(s@),
        None => None,
    }
}

fn opt_to_owned(o: Option<&str>) -> (r: Option<String>)
    ensures
        r.deep_view() == opt_str_view(o),
{
    match o {
        Some(s) => Some(String::from_str(s)),
        None => None,
    }
}

impl Event {
    /// An event with the given timestamp and fields; optional fields stay
    /// absent when `None` is given.
    pub fn new(
        timestamp: &str,
        worker: &str,
        event: &str,
        user_id: &str,
        path: Option<&str>,
        asset_id: Option<&str>,
        detail: Option<&str>,
    ) -> (e: Event)
        ensures
            e.timestamp@ == timestamp@,
            e.worker@ == worker@,
            e.event@ == event@,
            e.user_id@ == user_id@,
            e.path.deep_view() == opt_str_view(path),
            e.asset_id.deep_view() == opt_str_view(asset_id),
            e.detail.deep_view() == opt_str_view(detail),
    {
        Event {
            timestamp: String::from_str(timestamp),
            worker: String::from_str(worker),
            event: String::from_str(event),
            user_id: String::from_str(user_id),
            path: opt_to_owned(path),
            asset_id: opt_to_owned(asset_id),
            detail: opt_to_owned(detail),
        }
    }
}

/// What a worker asks to be recorded: every field of an [`Event`] but the
/// timestamp and the user, which the caller adds. `S` is `String` for
/// executable values and `Seq<char>` for their specification.
pub struct Notice<S> {
    pub worker: S,
    pub event: S,
    pub path: Option<S>,
    pub asset_id: Option<S>,
    pub detail: Option<S>,
}

impl View for Notice<String> {
    type V = Notice<Seq<char>>;

    open spec fn view(&self) -> Notice<Seq<char>> {
        Notice {
            worker: self.worker@,
            event: self.event@,
            path: self.path.deep_view(),
            asset_id: self.asset_id.deep_view(),
            detail: self.detail.deep_view(),
        }
    }
}

/// The specification of a notice with the given fields.
pub open spec fn notice_of(
    worker: Seq<char>,
    event: Seq<char>,
    path: Option<Seq<char>>,
    asset_id: Option<Seq<char>>,
    detail: Option<Seq<char>>,
) -> Notice<Seq<char>> {
    Notice { worker, event, path, asset_id, detail }
}

/// Builds a notice for `worker` and `event` with the given optional fields.
pub fn make_notice(
    worker: &str,
    event: &str,
    path: Option<String>,
    asset_id: Option<String>,
    detail: Option<String>,
) -> (n: Notice<String>)
    ensures
        n@ == notice_of(worker@, event@, path.deep_view(), asset_id.deep_view(), detail.deep_view()),
{
    Notice { worker: String::from_str(worker), event: String::from_str(event), path, asset_id, detail }
}

impl Notice<String> {
    /// The event that records this notice for `user_id` at `timestamp`.
    pub fn to_event(&self, timestamp: &str, user_id: &str) -> (e: Event)
        ensures
            e.timestamp@ == timestamp@,
            e.worker@ == self.worker@,
            e.event@ == self.event@,
            e.user_id@ == user_id@,
            e.path.deep_view() == self.path.deep_view(),
            e.asset_id.deep_view() == self.asset_id.deep_view(),
            e.detail.deep_view() == self.detail.deep_view(),
    {
        let path = match &self.path {
            Some(p) => Some(p.as_str()),
            None => None,
        };
        let asset_id = match &self.asset_id {
            Some(a) => Some(a.as_str()),
            None => None,
        };
        let detail = match &self.detail {
            Some(d) => Some(d.as_str()),
            None => None,
        };
        Event::new(timestamp, self.worker.as_str(), self.event.as_str(), user_id, path, asset_id, detail)
    }
}

} // verus!
