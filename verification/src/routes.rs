//! The handlers behind the service's operations. Each takes the store
//! (and, where it needs it, the client's session), does its work, and
//! answers with a body or with the one failure a client gets to see.

use vstd::prelude::*;
use crate::credential::{ChangePassword, Credential, Login};
use crate::database::Database;
use crate::employee::{employee_views, has_employee, CreateEmployee, Employee};
use crate::error::ApiError;
use crate::event::{event_views, CreateEvent, Event, UpdateEvent};
use crate::query::EventsQuery;
use crate::response::Response;
use crate::session::Session;
use crate::team::{has_team, team_views, CreateTeam, Team};

verus! {

/// Lists every employee, disabled ones included.
pub fn get_employees(db: &Database) -> (answer: Result<Response<Vec<Employee>>, ApiError>)
    ensures
        answer is Ok,
        answer->Ok_0.success,
        answer->Ok_0.result is Some,
        employee_views(answer->Ok_0.result->0@) == db@.employees,
{
    Ok(Response::new(db.get_employees()))
}

/// Creates an employee and answers with the new id.
pub fn create_employee(db: &mut Database, employee: CreateEmployee) -> (answer: Result<
    Response<i64>,
    ApiError,
>)
    ensures
        old(db)@.can_create_employee() ==> answer is Ok && answer->Ok_0.carries(
            old(db)@.next_employee_id,
        ) && final(db)@ == old(db)@.create_employee(employee@),
        !old(db)@.can_create_employee() ==> answer is Err && final(db)@ == old(db)@,
        old(db)@.wf() ==> final(db)@.wf(),
{
    match db.create_employee(employee) {
        Ok(id) => Ok(Response::new(id)),
        Err(cause) => Err(ApiError::from_store(cause)),
    }
}

/// Updates an employee.
pub fn update_employee(db: &mut Database, employee: Employee) -> (answer: Result<
    Response<()>,
    ApiError,
>)
    ensures
        answer is Ok <==> has_employee(old(db)@.employees, employee.id),
        answer is Ok ==> answer->Ok_0.carries(()),
        final(db)@ == old(db)@.update_employee(employee@),
        old(db)@.wf() ==> final(db)@.wf(),
{
    match db.update_employee(employee) {
        Ok(()) => Ok(Response::new(())),
        Err(cause) => Err(ApiError::from_store(cause)),
    }
}

/// Disables an employee.
pub fn delete_employee(db: &mut Database, id: i64) -> (answer: Result<Response<()>, ApiError>)
    ensures
        answer is Ok <==> has_employee(old(db)@.employees, id),
        answer is Ok ==> answer->Ok_0.carries(()),
        final(db)@ == old(db)@.delete_employee(id),
        old(db)@.wf() ==> final(db)@.wf(),
{
    match db.delete_employee(id) {
        Ok(()) => Ok(Response::new(())),
        Err(cause) => Err(ApiError::from_store(cause)),
    }
}

/// Lists every team, disabled ones included.
pub fn get_teams(db: &Database) -> (answer: Result<Response<Vec<Team>>, ApiError>)
    ensures
        answer is Ok,
        answer->Ok_0.success,
        answer->Ok_0.result is Some,
        team_views(answer->Ok_0.result->0@) == db@.teams,
{
    Ok(Response::new(db.get_teams()))
}

/// Creates a team and answers with the new id.
pub fn create_team(db: &mut Database, team: CreateTeam) -> (answer: Result<Response<i64>, ApiError>)
    ensures
        old(db)@.can_create_team() ==> answer is Ok && answer->Ok_0.carries(
            old(db)@.next_team_id,
        ) && final(db)@ == old(db)@.create_team(team@),
        !old(db)@.can_create_team() ==> answer is Err && final(db)@ == old(db)@,
        old(db)@.wf() ==> final(db)@.wf(),
{
    match db.create_team(team) {
        Ok(id) => Ok(Response::new(id)),
        Err(cause) => Err(ApiError::from_store(cause)),
    }
}

/// Updates a team.
pub fn update_team(db: &mut Database, team: Team) -> (answer: Result<Response<()>, ApiError>)
    ensures
        answer is Ok <==> has_team(old(db)@.teams, team.id),
        answer is Ok ==> answer->Ok_0.carries(()),
        final(db)@ == old(db)@.update_team(team@),
        old(db)@.wf() ==> final(db)@.wf(),
{
    match db.update_team(team) {
        Ok(()) => Ok(Response::new(())),
        Err(cause) => Err(ApiError::from_store(cause)),
    }
}

/// Disables a team.
pub fn delete_team(db: &mut Database, id: i64) -> (answer: Result<Response<()>, ApiError>)
    ensures
        answer is Ok <==> has_team(old(db)@.teams, id),
        answer is Ok ==> answer->Ok_0.carries(()),
        final(db)@ == old(db)@.delete_team(id),
        old(db)@.wf() ==> final(db)@.wf(),
{
    match db.delete_team(id) {
        Ok(()) => Ok(Response::new(())),
        Err(cause) => Err(ApiError::from_store(cause)),
    }
}

/// Lists the events that overlap the window of the query.
pub fn get_events(db: &Database, query: EventsQuery) -> (answer: Result<
    Response<Vec<Event>>,
    ApiError,
>)
    ensures
        answer is Ok,
        answer->Ok_0.success,
        answer->Ok_0.result is Some,
        event_views(answer->Ok_0.result->0@) == db@.get_events(query),
{
    Ok(Response::new(db.get_events(query)))
}

/// Creates an event and answers with the new id.
pub fn create_event(db: &mut Database, event: CreateEvent) -> (answer: Result<
    Response<i64>,
    ApiError,
>)
    ensures
        answer is Ok <==> old(db)@.create_event_outcome(event@) is Ok,
        answer is Ok ==> answer->Ok_0.carries(old(db)@.next_event_id),
        final(db)@ == old(db)@.create_event(event@),
        old(db)@.wf() ==> final(db)@.wf(),
{
    match db.create_event(event) {
        Ok(id) => Ok(Response::new(id)),
        Err(cause) => Err(ApiError::from_store(cause)),
    }
}

/// Updates an event.
pub fn update_event(db: &mut Database, event: UpdateEvent) -> (answer: Result<
    Response<()>,
    ApiError,
>)
    ensures
        answer is Ok <==> old(db)@.update_event_outcome(event@) is Ok,
        answer is Ok ==> answer->Ok_0.carries(()),
        final(db)@ == old(db)@.update_event(event@),
        old(db)@.wf() ==> final(db)@.wf(),
{
    match db.update_event(event) {
        Ok(()) => Ok(Response::new(())),
        Err(cause) => Err(ApiError::from_store(cause)),
    }
}

/// Deletes an event.
pub fn delete_event(db: &mut Database, id: i64) -> (answer: Result<Response<()>, ApiError>)
    ensures
        answer is Ok <==> old(db)@.delete_event_outcome(id) is Ok,
        answer is Ok ==> answer->Ok_0.carries(()) && final(db)@ == old(db)@.delete_event(id),
        answer is Err ==> final(db)@ == old(db)@,
        old(db)@.wf() ==> final(db)@.wf(),
{
    match db.delete_event(id) {
        Ok(()) => Ok(Response::new(())),
        Err(cause) => Err(ApiError::from_store(cause)),
    }
}

/// Checks the password and, where it is accepted, marks the session as
/// logged in. A wrong password is answered with `false`, not a failure,
/// and leaves the session as it was.
pub fn login(session: &mut Session, db: &Database, body: Login) -> (answer: Result<
    Response<bool>,
    ApiError,
>)
    ensures
        answer is Ok,
        answer->Ok_0.carries(Credential::admits(db@.credential, body.password@)),
        Credential::admits(db@.credential, body.password@) ==> final(session).is_authenticated(),
        !Credential::admits(db@.credential, body.password@) ==> *final(session) == *old(
            session,
        ),
{
    let accepted = db.authenticate(body.password.as_str());
    session.login(accepted);
    Ok(Response::new(accepted))
}

/// Ends the session's login.
pub fn logout(session: &mut Session) -> (answer: Result<Response<()>, ApiError>)
    ensures
        answer is Ok,
        answer->Ok_0.carries(()),
        !final(session).is_authenticated(),
{
    session.logout();
    Ok(Response::new(()))
}

/// Says whether the session is logged in.
pub fn logged_in(session: &Session) -> (answer: Result<Response<bool>, ApiError>)
    ensures
        answer is Ok,
        answer->Ok_0.carries(session.is_authenticated()),
{
    Ok(Response::new(session.logged_in()))
}

/// Changes the password where the old one is right, and answers whether
/// it did.
pub fn change_password(db: &mut Database, body: ChangePassword) -> (answer: Result<
    Response<bool>,
    ApiError,
>)
    ensures
        answer is Ok,
        answer->Ok_0.carries(Credential::admits(old(db)@.credential, body.old_password@)),
        final(db)@ == old(db)@.change_password(body.old_password@, body.new_password@),
        old(db)@.wf() ==> final(db)@.wf(),
{
    let changed = db.change_password(body.old_password.as_str(), body.new_password.as_str());
    Ok(Response::new(changed))
}

} // verus!
