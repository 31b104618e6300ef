//! What the store hands back for a statement, and what the service makes
//! of it: listed events are put together from their rows, and a write
//! that matched no row is told from one that did.

use vstd::prelude::*;
use crate::employee::{employee_views, Employee, EmployeeView};
use crate::error::PostgresError;
use crate::event::{clone_employees, event_views, Event, EventView};
use crate::event_row::EventRow;
use crate::team::{Team, TeamView};

verus! {

/// A nested payload of a row: the value it was parsed into, or the note
/// that it did not have the expected shape.
#[derive(Debug)]
pub enum Payload<T> {
    Parsed(T),
    Malformed,
}

/// One row of an event listing as the store returns it: the event's own
/// fields, the payload of its team (absent when it has none), and the
/// payload of its participants.
#[derive(Debug)]
pub struct EventRecord {
    pub row: EventRow,
    pub team: Option<Payload<Team>>,
    pub employees: Payload<Vec<Employee>>,
}

/// The mathematical value of an [`EventRecord`]: the event it stands for,
/// or none where a payload is malformed.
pub open spec fn record_event(record: EventRecord) -> Option<EventView> {
    let team: Option<Option<TeamView>> = match record.team {
        None => Some(None),
        Some(Payload::Parsed(t)) => Some(Some(t@)),
        Some(Payload::Malformed) => None,
    };
    let employees: Option<Seq<EmployeeView>> = match record.employees {
        Payload::Parsed(list) => Some(employee_views(list@)),
        Payload::Malformed => None,
    };
    if team is Some && employees is Some {
        Some(
            EventView {
                id: record.row.id,
                title: record.row.title@,
                details: record.row.details@,
                start: record.row.start,
                end: record.row.end,
                team: team->0,
                employees: employees->0,
            },
        )
    } else {
        None
    }
}

/// Whether every record of a listing stands for an event.
pub open spec fn all_well_formed(records: Seq<EventRecord>) -> bool {
    forall|i: int| 0 <= i < records.len() ==> record_event(#[trigger] records[i]) is Some
}

/// The events that the records of a listing stand for, one for one.
pub open spec fn recorded_events(records: Seq<EventRecord>) -> Seq<EventView> {
    records.map_values(|r: EventRecord| record_event(r)->0)
}

/// Puts one listed event together, if its payloads are well formed.
pub fn assemble_event(record: &EventRecord) -> (event: Option<Event>)
    ensures
        match event {
            Some(e) => record_event(*record) == Some(e@),
            None => record_event(*record) is None,
        },
{
    let team = match &record.team {
        None => None,
        Some(Payload::Parsed(t)) => Some(t.clone()),
        Some(Payload::Malformed) => {
            return None;
        },
    };
    let employees = match &record.employees {
        Payload::Parsed(list) => clone_employees(list),
        Payload::Malformed => {
            return None;
        },
    };
    Some(
        Event {
            id: record.row.id,
            title: record.row.title.clone(),
            details: record.row.details.clone(),
            start: record.row.start,
            end: record.row.end,
            team,
            employees,
        },
    )
}

/// Puts the listed events together. One malformed payload fails the whole
/// listing: no partial list is returned, and nothing is defaulted.
pub fn assemble_events(records: &Vec<EventRecord>) -> (outcome: Result<Vec<Event>, PostgresError>)
    ensures
        outcome is Ok <==> all_well_formed(records@),
        outcome is Ok ==> event_views(outcome->Ok_0@) == recorded_events(records@),
        outcome is Err ==> outcome->Err_0 == PostgresError::DataConversion,
{
    let mut events: Vec<Event> = Vec::new();
    let mut i: usize = 0;
    while i < records.len()
        invariant
            i <= records.len(),
            events@.len() == i,
            forall|k: int| 0 <= k < i ==> record_event(#[trigger] records@[k]) == Some(events@[k]@),
        decreases records.len() - i,
    {
        match assemble_event(&records[i]) {
            Some(event) => {
                events.push(event);
            },
            None => {
                proof {
                    assert(record_event(records@[i as int]) is None);
                }
                return Err(PostgresError::DataConversion);
            },
        }
        i += 1;
    }
    proof {
        assert(event_views(events@) =~= recorded_events(records@));
    }
    Ok(events)
}

/// Judges a write that is meant for one row by the number of rows it
/// reached: exactly one is a success, anything else means that the id
/// matched no row, or more than one.
pub fn written(affected: u64) -> (outcome: Result<(), PostgresError>)
    ensures
        outcome == (if affected == 1 {
            Ok::<(), PostgresError>(())
        } else {
            Err::<(), PostgresError>(PostgresError::NotFoundOrConflict)
        }),
{
    if affected == 1 {
        Ok(())
    } else {
        Err(PostgresError::NotFoundOrConflict)
    }
}

} // verus!
