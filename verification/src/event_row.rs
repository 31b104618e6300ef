//! The scalar row of an event, as the events table keeps it.

use vstd::prelude::*;
use crate::event::{CreateEvent, CreateEventView, UpdateEvent, UpdateEventView};

verus! {

/// The mathematical value of an [`EventRow`].
pub struct EventRowView {
    pub id: i64,
    pub title: Seq<char>,
    pub details: Seq<char>,
    pub start: i64,
    pub end: i64,
    pub team_id: Option<i64>,
}

/// An event without its participants: the team is named by its id.
#[derive(Debug)]
pub struct EventRow {
    pub id: i64,
    pub title: String,
    pub details: String,
    pub start: i64,
    pub end: i64,
    pub team_id: Option<i64>,
}

impl View for EventRow {
    type V = EventRowView;

    open spec fn view(&self) -> EventRowView {
        EventRowView {
            id: self.id,
            title: self.title@,
            details: self.details@,
            start: self.start,
            end: self.end,
            team_id: self.team_id,
        }
    }
}

impl Clone for EventRow {
    fn clone(&self) -> (copy: Self)
        ensures
            copy@ == self@,
    {
        EventRow {
            id: self.id,
            title: self.title.clone(),
            details: self.details.clone(),
            start: self.start,
            end: self.end,
            team_id: self.team_id,
        }
    }
}

impl EventRowView {
    /// The row that creating an event with these fields under `id` stores.
    pub open spec fn created(id: i64, fields: CreateEventView) -> EventRowView {
        EventRowView {
            id,
            title: fields.title,
            details: fields.details,
            start: fields.start,
            end: fields.end,
            team_id: fields.team_id,
        }
    }

    /// The row that an update writes.
    pub open spec fn updated(update: UpdateEventView) -> EventRowView {
        Self::created(update.id, update.fields())
    }
}

impl EventRow {
    /// The row of a new event that was given `id`.
    pub fn from_create(id: i64, event: &CreateEvent) -> (row: EventRow)
        ensures
            row@ == EventRowView::created(id, event@),
    {
        EventRow {
            id,
            title: event.title.clone(),
            details: event.details.clone(),
            start: event.start,
            end: event.end,
            team_id: event.team_id,
        }
    }

    /// The row that an update writes.
    pub fn from_update(event: &UpdateEvent) -> (row: EventRow)
        ensures
            row@ == EventRowView::updated(event@),
    {
        EventRow {
            id: event.id,
            title: event.title.clone(),
            details: event.details.clone(),
            start: event.start,
            end: event.end,
            team_id: event.team_id,
        }
    }
}

/// The values of the rows of an events table, one for one.
pub open spec fn event_row_views(rows: Seq<EventRow>) -> Seq<EventRowView> {
    rows.map_values(|r: EventRow| r@)
}

/// Whether some row of the table has this id.
pub open spec fn has_event(rows: Seq<EventRowView>, id: i64) -> bool {
    exists|i: int| 0 <= i < rows.len() && (#[trigger] rows[i]).id == id
}

/// The table after every row with the id of `row` took its other fields.
pub open spec fn replace_event(rows: Seq<EventRowView>, row: EventRowView) -> Seq<EventRowView> {
    rows.map_values(
        |r: EventRowView|
            if r.id == row.id {
                row
            } else {
                r
            },
    )
}

/// The table without the rows that have this id.
pub open spec fn without_event_row(rows: Seq<EventRowView>, id: i64) -> Seq<EventRowView> {
    rows.filter(|r: EventRowView| r.id != id)
}

/// No two rows share an id.
pub open spec fn distinct_event_ids(rows: Seq<EventRowView>) -> bool {
    forall|i: int, j: int|
        0 <= i < rows.len() && 0 <= j < rows.len() && i != j ==> (#[trigger] rows[i]).id != (
        #[trigger] rows[j]).id
}

/// Whether the table has a row with this id.
pub fn contains_event(rows: &Vec<EventRow>, id: i64) -> (found: bool)
    ensures
        found == has_event(event_row_views(rows@), id),
{
    let mut i: usize = 0;
    while i < rows.len()
        invariant
            i <= rows.len(),
            forall|k: int| 0 <= k < i ==> rows@[k].id != id,
        decreases rows.len() - i,
    {
        if rows[i].id == id {
            proof {
                assert(event_row_views(rows@)[i as int].id == id);
            }
            return true;
        }
        i += 1;
    }
    proof {
        let all = event_row_views(rows@);
        if has_event(all, id) {
            let k = choose|k: int| 0 <= k < all.len() && (#[trigger] all[k]).id == id;
            assert(rows@[k].id == id);
        }
    }
    false
}

/// Writes the fields of `row` into every row that has its id.
pub fn overwrite_event(rows: &mut Vec<EventRow>, row: &EventRow)
    ensures
        event_row_views(final(rows)@) == replace_event(event_row_views(old(rows)@), row@),
{
    let ghost before = event_row_views(rows@);
    let mut i: usize = 0;
    while i < rows.len()
        invariant
            i <= rows.len(),
            rows@.len() == before.len(),
            forall|k: int| 0 <= k < i ==> (#[trigger] rows@[k])@ == replace_event(before, row@)[k],
            forall|k: int| i <= k < rows.len() ==> (#[trigger] rows@[k])@ == before[k],
        decreases rows.len() - i,
    {
        if rows[i].id == row.id {
            rows.set(i, row.clone());
        }
        i += 1;
    }
    proof {
        assert(event_row_views(rows@) =~= replace_event(before, row@));
    }
}

/// Copies the table without the rows that have this id.
pub fn remove_event(rows: &Vec<EventRow>, id: i64) -> (kept: Vec<EventRow>)
    ensures
        event_row_views(kept@) == without_event_row(event_row_views(rows@), id),
{
    let ghost all = event_row_views(rows@);
    let ghost keep = |r: EventRowView| r.id != id;
    let mut kept: Vec<EventRow> = Vec::new();
    let mut i: usize = 0;
    proof {
        assert(all.take(0).filter(keep) =~= Seq::<EventRowView>::empty()) by {
            reveal(Seq::filter);
        }
        assert(event_row_views(kept@) =~= Seq::<EventRowView>::empty());
    }
    while i < rows.len()
        invariant
            i <= rows.len(),
            all == event_row_views(rows@),
            keep == |r: EventRowView| r.id != id,
            event_row_views(kept@) == all.take(i as int).filter(keep),
        decreases rows.len() - i,
    {
        proof {
            all.lemma_take_succ_push(i as int);
            all.take(i as int).lemma_filter_push(all[i as int], keep);
        }
        if rows[i].id != id {
            let ghost prior = event_row_views(kept@);
            kept.push(rows[i].clone());
            proof {
                assert(event_row_views(kept@) =~= prior.push(all[i as int]));
            }
        }
        i += 1;
    }
    proof {
        assert(all.take(rows.len() as int) =~= all);
    }
    kept
}

} // verus!
