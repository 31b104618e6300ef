//! The time window that an event listing is filtered by.

use vstd::prelude::*;

verus! {

/// One end of a window: a closed bound at an instant, or none at all.
#[derive(Debug, Clone, Copy, PartialEq, Eq, Structural)]
pub enum Limit {
    Included(i64),
    Unbounded,
}

/// A window with at least one side given, as the store takes it.
#[derive(Debug, Clone, Copy, PartialEq, Eq, Structural)]
pub struct Window {
    pub start: Limit,
    pub end: Limit,
}

/// The filter of an event listing. Either bound may be absent, which leaves
/// that side open; both bounds are inclusive.
#[derive(Debug, Clone, Copy, PartialEq, Eq, Structural)]
pub struct EventsQuery {
    pub start: Option<i64>,
    pub end: Option<i64>,
}

impl Default for EventsQuery {
    /// The query without bounds, which lists every event.
    fn default() -> (query: Self)
        ensures
            query == (EventsQuery { start: None, end: None }),
    {
        EventsQuery { start: None, end: None }
    }
}

impl Limit {
    /// The bound that an optional instant stands for.
    pub open spec fn of(instant: Option<i64>) -> Limit {
        match instant {
            Some(t) => Limit::Included(t),
            None => Limit::Unbounded,
        }
    }
}

impl Window {
    /// Whether the closed interval from `start` to `end` shares an instant
    /// with this window: it neither ends before the window starts nor
    /// starts after the window ends.
    pub open spec fn meets(self, start: i64, end: i64) -> bool {
        &&& match self.start {
            Limit::Included(from) => end >= from,
            Limit::Unbounded => true,
        }
        &&& match self.end {
            Limit::Included(to) => start <= to,
            Limit::Unbounded => true,
        }
    }
}

impl EventsQuery {
    /// Whether an event that lasts from `start` to `end`, both inclusive,
    /// overlaps the requested window.
    pub open spec fn admits(self, start: i64, end: i64) -> bool {
        !((self.start is Some && end < self.start->0) || (self.end is Some && start
            > self.end->0))
    }

    /// The window handed to the store: none when neither bound is given.
    pub open spec fn window(self) -> Option<Window> {
        if self.start is None && self.end is None {
            None
        } else {
            Some(Window { start: Limit::of(self.start), end: Limit::of(self.end) })
        }
    }

    /// Decides whether an event that lasts from `start` to `end` is listed.
    pub fn overlaps(&self, start: i64, end: i64) -> (listed: bool)
        ensures
            listed == self.admits(start, end),
    {
        let before = match self.start {
            Some(from) => end < from,
            None => false,
        };
        let after = match self.end {
            Some(to) => start > to,
            None => false,
        };
        !(before || after)
    }

    /// Builds the range parameter of the listing statement. With no bound
    /// at all the statement gets no range and lists every event.
    pub fn range(&self) -> (window: Option<Window>)
        ensures
            window == self.window(),
            window is None <==> (self.start is None && self.end is None),
    {
        match (self.start, self.end) {
            (None, None) => None,
            (start, end) => {
                let from = match start {
                    Some(t) => Limit::Included(t),
                    None => Limit::Unbounded,
                };
                let to = match end {
                    Some(t) => Limit::Included(t),
                    None => Limit::Unbounded,
                };
                Some(Window { start: from, end: to })
            },
        }
    }
}

/// A listing statement that is given no range, or a range that meets the
/// event's period, selects exactly the events that the query admits.
pub proof fn window_selects_what_query_admits(query: EventsQuery, start: i64, end: i64)
    ensures
        query.admits(start, end) <==> (match query.window() {
            None => true,
            Some(w) => w.meets(start, end),
        }),
{
}

/// With no bound given, every event is admitted.
pub proof fn unbounded_query_admits_all(start: i64, end: i64)
    ensures
        (EventsQuery { start: None, end: None }).admits(start, end),
{
}

/// Whether an instant lies both in the period from `start` to `end` and
/// in the window of the query.
pub open spec fn shared_instant(query: EventsQuery, start: i64, end: i64, t: int) -> bool {
    &&& start <= t <= end
    &&& query.start is Some ==> query.start->0 <= t
    &&& query.end is Some ==> t <= query.end->0
}

/// For an event whose period is not inverted and a window that is not
/// inverted either, the query admits the event exactly when the two share
/// an instant.
pub proof fn admitted_events_share_an_instant(query: EventsQuery, start: i64, end: i64)
    requires
        start <= end,
        query.start is Some && query.end is Some ==> query.start->0 <= query.end->0,
    ensures
        query.admits(start, end) <==> exists|t: int| #[trigger]
            shared_instant(query, start, end, t),
{
    if query.admits(start, end) {
        let t: int = if query.start is Some && query.start->0 > start {
            query.start->0 as int
        } else {
            start as int
        };
        assert(shared_instant(query, start, end, t));
    }
}

} // verus!
