//! The relational store, held in memory. Every operation says what it
//! returns and what it does to the store over [`DatabaseView`].

use vstd::prelude::*;
use crate::credential::Credential;
use crate::database_view::DatabaseView;
use crate::employee::{active_rows as active_employee_rows, all_rows as all_employee_rows,
    disable_employee_rows, employee_views, has_employee, overwrite_employee, CreateEmployee,
    Employee};
use crate::error::PostgresError;
use crate::integrity::{change_password_keeps_integrity, create_employee_keeps_integrity,
    create_event_keeps_integrity, create_team_keeps_integrity, delete_employee_keeps_integrity,
    delete_event_keeps_integrity, delete_team_keeps_integrity, update_employee_keeps_integrity,
    update_event_keeps_integrity, update_team_keeps_integrity};
use crate::event::{event_views, CreateEvent, Event, UpdateEvent};
use crate::event_row::{contains_event, event_row_views, overwrite_event, remove_event, EventRow,
    EventRowView};
use crate::participation::{attach, collect_participants, copy_links, detach_event,
    Participation};
use crate::query::EventsQuery;
use crate::team::{active_rows as active_team_rows, all_rows as all_team_rows, disable_team_rows,
    find_team, has_team, lookup_team_finds, overwrite_team, team_views, CreateTeam, Team};

verus! {

/// The store. Its tables are reachable only through the operations below.
#[derive(Debug)]
pub struct Database {
    employees: Vec<Employee>,
    teams: Vec<Team>,
    events: Vec<EventRow>,
    participations: Vec<Participation>,
    credential: Credential,
    next_employee_id: i64,
    next_team_id: i64,
    next_event_id: i64,
}

impl View for Database {
    type V = DatabaseView;

    closed spec fn view(&self) -> DatabaseView {
        DatabaseView {
            employees: employee_views(self.employees@),
            teams: team_views(self.teams@),
            events: event_row_views(self.events@),
            participations: self.participations@,
            credential: self.credential@,
            next_employee_id: self.next_employee_id,
            next_team_id: self.next_team_id,
            next_event_id: self.next_event_id,
        }
    }
}

impl Database {
    /// Sets up an empty store that holds the default credential.
    pub fn new() -> (db: Database)
        ensures
            db@ == DatabaseView::initial(),
            db@.wf(),
    {
        let db = Database {
            employees: Vec::new(),
            teams: Vec::new(),
            events: Vec::new(),
            participations: Vec::new(),
            credential: Credential::initial(),
            next_employee_id: 1,
            next_team_id: 1,
            next_event_id: 1,
        };
        proof {
            assert(db@.employees =~= Seq::empty());
            assert(db@.teams =~= Seq::empty());
            assert(db@.events =~= Seq::empty());
            assert(db@.participations =~= Seq::empty());
        }
        db
    }

    /// Lists every employee, disabled ones included, in table order.
    pub fn get_employees(&self) -> (rows: Vec<Employee>)
        ensures
            employee_views(rows@) == self@.employees,
    {
        all_employee_rows(&self.employees)
    }

    /// Lists the employees that are not disabled, in table order.
    pub fn active_employees(&self) -> (rows: Vec<Employee>)
        ensures
            employee_views(rows@) == self@.active_employees(),
    {
        active_employee_rows(&self.employees)
    }

    /// Stores a new employee, not disabled, and returns the id it was
    /// given. The write fails only when the id sequence is used up.
    pub fn create_employee(&mut self, employee: CreateEmployee) -> (outcome: Result<
        i64,
        PostgresError,
    >)
        ensures
            old(self)@.can_create_employee() ==> outcome == Ok::<i64, PostgresError>(
                old(self)@.next_employee_id,
            ) && final(self)@ == old(self)@.create_employee(employee@),
            !old(self)@.can_create_employee() ==> outcome == Err::<i64, PostgresError>(
                PostgresError::Query,
            ) && final(self)@ == old(self)@,
            old(self)@.wf() ==> final(self)@.wf(),
    {
        proof {
            if self@.wf() {
                if self@.can_create_employee() {
                    create_employee_keeps_integrity(self@, employee@);
                }
            }
        }
        if self.next_employee_id == i64::MAX {
            return Err(PostgresError::Query);
        }
        let id = self.next_employee_id;
        let row = Employee { id, name: employee.name, color: employee.color, disabled: false };
        let ghost before = employee_views(self.employees@);
        self.employees.push(row);
        self.next_employee_id = id + 1;
        proof {
            assert(employee_views(self.employees@) =~= before.push(row@));
        }
        Ok(id)
    }

    /// Writes every field but the id of the employee with the given id,
    /// the disabled flag included. An id that matches no row is a failure
    /// and changes nothing.
    pub fn update_employee(&mut self, employee: Employee) -> (outcome: Result<(), PostgresError>)
        ensures
            outcome == (if has_employee(old(self)@.employees, employee.id) {
                Ok::<(), PostgresError>(())
            } else {
                Err::<(), PostgresError>(PostgresError::NotFoundOrConflict)
            }),
            final(self)@ == old(self)@.update_employee(employee@),
            old(self)@.wf() ==> final(self)@.wf(),
    {
        proof {
            if self@.wf() {
                update_employee_keeps_integrity(self@, employee@);
            }
        }
        if overwrite_employee(&mut self.employees, &employee) {
            Ok(())
        } else {
            Err(PostgresError::NotFoundOrConflict)
        }
    }

    /// Disables the employee with the given id. The row stays, and so does
    /// every reference to it. An id that matches no row is a failure and
    /// changes nothing.
    pub fn delete_employee(&mut self, id: i64) -> (outcome: Result<(), PostgresError>)
        ensures
            outcome == (if has_employee(old(self)@.employees, id) {
                Ok::<(), PostgresError>(())
            } else {
                Err::<(), PostgresError>(PostgresError::NotFoundOrConflict)
            }),
            final(self)@ == old(self)@.delete_employee(id),
            old(self)@.wf() ==> final(self)@.wf(),
    {
        proof {
            if self@.wf() {
                delete_employee_keeps_integrity(self@, id);
            }
        }
        if disable_employee_rows(&mut self.employees, id) {
            Ok(())
        } else {
            Err(PostgresError::NotFoundOrConflict)
        }
    }

    /// Lists every team, disabled ones included, in table order.
    pub fn get_teams(&self) -> (rows: Vec<Team>)
        ensures
            team_views(rows@) == self@.teams,
    {
        all_team_rows(&self.teams)
    }

    /// Lists the teams that are not disabled, in table order.
    pub fn active_teams(&self) -> (rows: Vec<Team>)
        ensures
            team_views(rows@) == self@.active_teams(),
    {
        active_team_rows(&self.teams)
    }

    /// Stores a new team, not disabled, and returns the id it was given.
    /// The write fails only when the id sequence is used up.
    pub fn create_team(&mut self, team: CreateTeam) -> (outcome: Result<i64, PostgresError>)
        ensures
            old(self)@.can_create_team() ==> outcome == Ok::<i64, PostgresError>(
                old(self)@.next_team_id,
            ) && final(self)@ == old(self)@.create_team(team@),
            !old(self)@.can_create_team() ==> outcome == Err::<i64, PostgresError>(
                PostgresError::Query,
            ) && final(self)@ == old(self)@,
            old(self)@.wf() ==> final(self)@.wf(),
    {
        proof {
            if self@.wf() {
                if self@.can_create_team() {
                    create_team_keeps_integrity(self@, team@);
                }
            }
        }
        if self.next_team_id == i64::MAX {
            return Err(PostgresError::Query);
        }
        let id = self.next_team_id;
        let row = Team {
            id,
            name: team.name,
            primary_color: team.primary_color,
            secondary_color: team.secondary_color,
            disabled: false,
        };
        let ghost before = team_views(self.teams@);
        self.teams.push(row);
        self.next_team_id = id + 1;
        proof {
            assert(team_views(self.teams@) =~= before.push(row@));
        }
        Ok(id)
    }

    /// Writes every field but the id of the team with the given id, the
    /// disabled flag included. An id that matches no row is a failure and
    /// changes nothing.
    pub fn update_team(&mut self, team: Team) -> (outcome: Result<(), PostgresError>)
        ensures
            outcome == (if has_team(old(self)@.teams, team.id) {
                Ok::<(), PostgresError>(())
            } else {
                Err::<(), PostgresError>(PostgresError::NotFoundOrConflict)
            }),
            final(self)@ == old(self)@.update_team(team@),
            old(self)@.wf() ==> final(self)@.wf(),
    {
        proof {
            if self@.wf() {
                update_team_keeps_integrity(self@, team@);
            }
        }
        if overwrite_team(&mut self.teams, &team) {
            Ok(())
        } else {
            Err(PostgresError::NotFoundOrConflict)
        }
    }

    /// Disables the team with the given id. The row stays, and so does
    /// every reference to it. An id that matches no row is a failure and
    /// changes nothing.
    pub fn delete_team(&mut self, id: i64) -> (outcome: Result<(), PostgresError>)
        ensures
            outcome == (if has_team(old(self)@.teams, id) {
                Ok::<(), PostgresError>(())
            } else {
                Err::<(), PostgresError>(PostgresError::NotFoundOrConflict)
            }),
            final(self)@ == old(self)@.delete_team(id),
            old(self)@.wf() ==> final(self)@.wf(),
    {
        proof {
            if self@.wf() {
                delete_team_keeps_integrity(self@, id);
            }
        }
        if disable_team_rows(&mut self.teams, id) {
            Ok(())
        } else {
            Err(PostgresError::NotFoundOrConflict)
        }
    }

    /// Lists the events whose period overlaps the window of the query,
    /// each with its team and all its participants. An event comes once,
    /// however many employees take part in it.
    pub fn get_events(&self, query: EventsQuery) -> (events: Vec<Event>)
        ensures
            event_views(events@) == self@.get_events(query),
    {
        let ghost rows = event_row_views(self.events@);
        let ghost keep = |r: EventRowView| query.admits(r.start, r.end);
        let ghost join = |r: EventRowView| self@.joined(r);
        let mut events: Vec<Event> = Vec::new();
        let mut i: usize = 0;
        proof {
            assert(rows.take(0).filter(keep) =~= Seq::<EventRowView>::empty()) by {
                reveal(Seq::filter);
            }
            assert(event_views(events@) =~= rows.take(0).filter(keep).map_values(join));
        }
        while i < self.events.len()
            invariant
                i <= self.events.len(),
                rows == event_row_views(self.events@),
                keep == |r: EventRowView| query.admits(r.start, r.end),
                join == |r: EventRowView| self@.joined(r),
                event_views(events@) == rows.take(i as int).filter(keep).map_values(join),
            decreases self.events.len() - i,
        {
            let row = &self.events[i];
            proof {
                rows.lemma_take_succ_push(i as int);
                rows.take(i as int).lemma_filter_push(rows[i as int], keep);
            }
            if query.overlaps(row.start, row.end) {
                let team = match row.team_id {
                    Some(team_id) => find_team(&self.teams, team_id),
                    None => None,
                };
                let employees = collect_participants(
                    &self.participations,
                    &self.employees,
                    row.id,
                );
                let event = Event {
                    id: row.id,
                    title: row.title.clone(),
                    details: row.details.clone(),
                    start: row.start,
                    end: row.end,
                    team,
                    employees,
                };
                let ghost prior = event_views(events@);
                proof {
                    assert(event@ == join(rows[i as int]));
                }
                events.push(event);
                proof {
                    assert(event_views(events@) =~= prior.push(join(rows[i as int])));
                    assert(rows.take(i as int).filter(keep).push(rows[i as int]).map_values(join)
                        =~= prior.push(join(rows[i as int])));
                }
            }
            i += 1;
        }
        proof {
            assert(rows.take(self.events.len() as int) =~= rows);
        }
        events
    }

    /// Whether an event may name this team.
    fn team_known(&self, team_id: Option<i64>) -> (known: bool)
        ensures
            known == self@.team_known(team_id),
    {
        match team_id {
            Some(id) => {
                proof {
                    lookup_team_finds(team_views(self.teams@), id);
                }
                find_team(&self.teams, id).is_some()
            },
            None => true,
        }
    }

    /// Creates an event in one transaction: the scalar row first, then one
    /// association row for each employee id. Either all of it is stored
    /// and the new id returned, or the store stays as it was.
    pub fn create_event(&mut self, event: CreateEvent) -> (outcome: Result<i64, PostgresError>)
        ensures
            outcome == old(self)@.create_event_outcome(event@),
            final(self)@ == old(self)@.create_event(event@),
            old(self)@.wf() ==> final(self)@.wf(),
    {
        proof {
            if self@.wf() {
                create_event_keeps_integrity(self@, event@);
            }
        }
        if self.next_event_id == i64::MAX || !self.team_known(event.team_id) {
            return Err(PostgresError::Query);
        }
        let id = self.next_event_id;
        let row = EventRow::from_create(id, &event);
        let mut staged = copy_links(&self.participations);
        match attach(&mut staged, &self.employees, id, &event.employee_ids) {
            Ok(()) => {
                let ghost before = event_row_views(self.events@);
                self.events.push(row);
                self.participations = staged;
                self.next_event_id = id + 1;
                proof {
                    assert(event_row_views(self.events@) =~= before.push(row@));
                }
                Ok(id)
            },
            Err(e) => Err(e),
        }
    }

    /// Replaces an event in one transaction: the scalar row is rewritten,
    /// the event's association rows are deleted, and one is inserted for
    /// each employee id. Either all of it is stored, or the store stays as
    /// it was.
    pub fn update_event(&mut self, event: UpdateEvent) -> (outcome: Result<(), PostgresError>)
        ensures
            outcome == old(self)@.update_event_outcome(event@),
            final(self)@ == old(self)@.update_event(event@),
            old(self)@.wf() ==> final(self)@.wf(),
    {
        proof {
            if self@.wf() {
                update_event_keeps_integrity(self@, event@);
            }
        }
        if !contains_event(&self.events, event.id) {
            return Err(PostgresError::NotFoundOrConflict);
        }
        if !self.team_known(event.team_id) {
            return Err(PostgresError::Query);
        }
        let row = EventRow::from_update(&event);
        let mut staged = detach_event(&self.participations, event.id);
        match attach(&mut staged, &self.employees, event.id, &event.employee_ids) {
            Ok(()) => {
                overwrite_event(&mut self.events, &row);
                self.participations = staged;
                Ok(())
            },
            Err(e) => Err(e),
        }
    }

    /// Deletes an event together with its association rows. An id that
    /// matches no row is a failure and changes nothing.
    pub fn delete_event(&mut self, id: i64) -> (outcome: Result<(), PostgresError>)
        ensures
            outcome == old(self)@.delete_event_outcome(id),
            outcome is Ok ==> final(self)@ == old(self)@.delete_event(id),
            outcome is Err ==> final(self)@ == old(self)@,
            old(self)@.wf() ==> final(self)@.wf(),
    {
        proof {
            if self@.wf() {
                delete_event_keeps_integrity(self@, id);
            }
        }
        if !contains_event(&self.events, id) {
            return Err(PostgresError::NotFoundOrConflict);
        }
        let events = remove_event(&self.events, id);
        let participations = detach_event(&self.participations, id);
        self.events = events;
        self.participations = participations;
        Ok(())
    }

    /// Whether `password` is the current password.
    pub fn authenticate(&self, password: &str) -> (accepted: bool)
        ensures
            accepted == Credential::admits(self@.credential, password@),
    {
        self.credential.authenticate(password)
    }

    /// Sets the password to `new_password` if `old_password` is the current
    /// one, and says whether it did. A wrong old password changes nothing.
    pub fn change_password(&mut self, old_password: &str, new_password: &str) -> (changed: bool)
        ensures
            changed == Credential::admits(old(self)@.credential, old_password@),
            final(self)@ == old(self)@.change_password(old_password@, new_password@),
            old(self)@.wf() ==> final(self)@.wf(),
    {
        proof {
            if self@.wf() {
                change_password_keeps_integrity(self@, old_password@, new_password@);
            }
        }
        self.credential.change_password(old_password, new_password)
    }
}

} // verus!
