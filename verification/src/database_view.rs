//! The mathematical value of the relational store: employees, teams,
//! events, the association between events and employees, and the
//! credential; and what each operation makes of it.

use vstd::prelude::*;
use crate::credential::Credential;
use crate::employee::{active_employees, disable_employee, distinct_employee_ids, has_employee,
    replace_employee, CreateEmployeeView, EmployeeView};
use crate::error::PostgresError;
use crate::event::{CreateEventView, EventView, UpdateEventView};
use crate::event_row::{distinct_event_ids, has_event, replace_event, without_event_row,
    EventRowView};
use crate::participation::{attachable, links_for, participants, without_event, Participation};
use crate::query::EventsQuery;
use crate::team::{active_teams, disable_team, distinct_team_ids, has_team, lookup_team,
    replace_team, CreateTeamView, TeamView};

verus! {

/// The mathematical value of the store: its five tables and the next id
/// that each id sequence hands out.
pub struct DatabaseView {
    pub employees: Seq<EmployeeView>,
    pub teams: Seq<TeamView>,
    pub events: Seq<EventRowView>,
    pub participations: Seq<Participation>,
    pub credential: Seq<char>,
    pub next_employee_id: i64,
    pub next_team_id: i64,
    pub next_event_id: i64,
}

impl DatabaseView {
    /// The store right after its schema was set up: empty tables, id
    /// sequences at 1, and the default credential.
    pub open spec fn initial() -> DatabaseView {
        DatabaseView {
            employees: Seq::empty(),
            teams: Seq::empty(),
            events: Seq::empty(),
            participations: Seq::empty(),
            credential: Credential::initial_hash(),
            next_employee_id: 1,
            next_team_id: 1,
            next_event_id: 1,
        }
    }

    /// The integrity rules of the schema: ids are unique per table and
    /// were handed out by the table's sequence; an event's team exists;
    /// an association row joins an existing event to an existing
    /// employee and comes once.
    pub open spec fn wf(self) -> bool {
        &&& self.next_employee_id >= 1
        &&& self.next_team_id >= 1
        &&& self.next_event_id >= 1
        &&& distinct_employee_ids(self.employees)
        &&& distinct_team_ids(self.teams)
        &&& distinct_event_ids(self.events)
        &&& forall|i: int|
            0 <= i < self.employees.len() ==> 1 <= (#[trigger] self.employees[i]).id
                < self.next_employee_id
        &&& forall|i: int|
            0 <= i < self.teams.len() ==> 1 <= (#[trigger] self.teams[i]).id < self.next_team_id
        &&& forall|i: int|
            0 <= i < self.events.len() ==> 1 <= (#[trigger] self.events[i]).id
                < self.next_event_id
        &&& forall|i: int|
            0 <= i < self.events.len() ==> self.team_known((#[trigger] self.events[i]).team_id)
        &&& forall|i: int|
            0 <= i < self.participations.len() ==> has_event(
                self.events,
                (#[trigger] self.participations[i]).event_id,
            ) && has_employee(self.employees, self.participations[i].employee_id)
        &&& self.participations.no_duplicates()
    }

    /// The employees that are not disabled.
    pub open spec fn active_employees(self) -> Seq<EmployeeView> {
        active_employees(self.employees)
    }

    /// The teams that are not disabled.
    pub open spec fn active_teams(self) -> Seq<TeamView> {
        active_teams(self.teams)
    }

    /// Whether the employee sequence can hand out another id.
    pub open spec fn can_create_employee(self) -> bool {
        self.next_employee_id < i64::MAX
    }

    /// The store after an employee was created from `fields`.
    pub open spec fn create_employee(self, fields: CreateEmployeeView) -> DatabaseView {
        DatabaseView {
            employees: self.employees.push(EmployeeView::created(self.next_employee_id, fields)),
            next_employee_id: (self.next_employee_id + 1) as i64,
            ..self
        }
    }

    /// The store after the employee with the id of `row` took its fields.
    pub open spec fn update_employee(self, row: EmployeeView) -> DatabaseView {
        DatabaseView { employees: replace_employee(self.employees, row), ..self }
    }

    /// The store after the employee with this id was disabled.
    pub open spec fn delete_employee(self, id: i64) -> DatabaseView {
        DatabaseView { employees: disable_employee(self.employees, id), ..self }
    }

    /// Whether the team sequence can hand out another id.
    pub open spec fn can_create_team(self) -> bool {
        self.next_team_id < i64::MAX
    }

    /// The store after a team was created from `fields`.
    pub open spec fn create_team(self, fields: CreateTeamView) -> DatabaseView {
        DatabaseView {
            teams: self.teams.push(TeamView::created(self.next_team_id, fields)),
            next_team_id: (self.next_team_id + 1) as i64,
            ..self
        }
    }

    /// The store after the team with the id of `row` took its fields.
    pub open spec fn update_team(self, row: TeamView) -> DatabaseView {
        DatabaseView { teams: replace_team(self.teams, row), ..self }
    }

    /// The store after the team with this id was disabled.
    pub open spec fn delete_team(self, id: i64) -> DatabaseView {
        DatabaseView { teams: disable_team(self.teams, id), ..self }
    }

    /// Whether an event may name this team: it names none, or one that
    /// exists.
    pub open spec fn team_known(self, team_id: Option<i64>) -> bool {
        match team_id {
            Some(id) => has_team(self.teams, id),
            None => true,
        }
    }

    /// The team that a listing attaches to an event row: none when the
    /// row names none or names one that does not exist.
    pub open spec fn team_of(self, team_id: Option<i64>) -> Option<TeamView> {
        match team_id {
            Some(id) => lookup_team(self.teams, id),
            None => None,
        }
    }

    /// The event that a listing makes of one event row: the row's own
    /// fields, its team, and all its participants in one list.
    pub open spec fn joined(self, row: EventRowView) -> EventView {
        EventView {
            id: row.id,
            title: row.title,
            details: row.details,
            start: row.start,
            end: row.end,
            team: self.team_of(row.team_id),
            employees: participants(self.participations, self.employees, row.id),
        }
    }

    /// The listing for a query: one event for each event row whose period
    /// overlaps the window, in table order.
    pub open spec fn get_events(self, query: EventsQuery) -> Seq<EventView> {
        self.events.filter(|r: EventRowView| query.admits(r.start, r.end)).map_values(
            |r: EventRowView| self.joined(r),
        )
    }

    /// What creating an event from `fields` returns: the new id, or the
    /// failure of the statement that refused. The insert of the scalar row
    /// is refused when the id sequence is used up or the team is unknown;
    /// the insert of the association rows when they are not attachable.
    pub open spec fn create_event_outcome(self, fields: CreateEventView) -> Result<
        i64,
        PostgresError,
    > {
        if self.next_event_id < i64::MAX && self.team_known(fields.team_id) && attachable(
            self.participations,
            self.employees,
            self.next_event_id,
            fields.employee_ids,
        ) {
            Ok(self.next_event_id)
        } else {
            Err(PostgresError::Query)
        }
    }

    /// The store after a request to create an event from `fields`: with the
    /// new row and its association rows, or unchanged where it was refused.
    pub open spec fn create_event(self, fields: CreateEventView) -> DatabaseView {
        if self.create_event_outcome(fields) is Ok {
            DatabaseView {
                events: self.events.push(EventRowView::created(self.next_event_id, fields)),
                participations: self.participations + links_for(
                    self.next_event_id,
                    fields.employee_ids,
                ),
                next_event_id: (self.next_event_id + 1) as i64,
                ..self
            }
        } else {
            self
        }
    }

    /// What updating an event returns. An id that matches no row is
    /// reported as such; an unknown team or association rows that are not
    /// attachable once the event's old ones are gone fail the statement.
    pub open spec fn update_event_outcome(self, update: UpdateEventView) -> Result<
        (),
        PostgresError,
    > {
        if !has_event(self.events, update.id) {
            Err(PostgresError::NotFoundOrConflict)
        } else if self.team_known(update.team_id) && attachable(
            without_event(self.participations, update.id),
            self.employees,
            update.id,
            update.employee_ids,
        ) {
            Ok(())
        } else {
            Err(PostgresError::Query)
        }
    }

    /// The store after a request to update an event: the row rewritten and
    /// its association rows replaced by the new ones, or unchanged where
    /// the request was refused.
    pub open spec fn update_event(self, update: UpdateEventView) -> DatabaseView {
        if self.update_event_outcome(update) is Ok {
            DatabaseView {
                events: replace_event(self.events, EventRowView::updated(update)),
                participations: without_event(self.participations, update.id) + links_for(
                    update.id,
                    update.employee_ids,
                ),
                ..self
            }
        } else {
            self
        }
    }

    /// What deleting an event returns.
    pub open spec fn delete_event_outcome(self, id: i64) -> Result<(), PostgresError> {
        if has_event(self.events, id) {
            Ok(())
        } else {
            Err(PostgresError::NotFoundOrConflict)
        }
    }

    /// The store after a request to delete an event: without the row and
    /// without its association rows.
    pub open spec fn delete_event(self, id: i64) -> DatabaseView {
        DatabaseView {
            events: without_event_row(self.events, id),
            participations: without_event(self.participations, id),
            ..self
        }
    }

    /// The store after a request to change the password.
    pub open spec fn change_password(
        self,
        old_password: Seq<char>,
        new_password: Seq<char>,
    ) -> DatabaseView {
        DatabaseView {
            credential: Credential::after_change(self.credential, old_password, new_password),
            ..self
        }
    }
}

} // verus!
