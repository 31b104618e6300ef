//! The service as a whole: every request passes the guard first, and only
//! then reaches its handler.

use vstd::prelude::*;
use crate::credential::{ChangePassword, Credential, Login};
use crate::database::Database;
use crate::database_view::DatabaseView;
use crate::employee::{employee_views, has_employee, CreateEmployee, Employee};
use crate::error::ApiError;
use crate::event::{event_views, CreateEvent, Event, UpdateEvent};
use crate::query::EventsQuery;
use crate::routes;
use crate::session::{Access, Session};
use crate::team::{has_team, team_views, CreateTeam, Team};

verus! {

/// A request to the service.
#[derive(Debug)]
pub enum Request {
    GetEmployees,
    CreateEmployee(CreateEmployee),
    UpdateEmployee(Employee),
    DeleteEmployee(i64),
    GetTeams,
    CreateTeam(CreateTeam),
    UpdateTeam(Team),
    DeleteTeam(i64),
    GetEvents(EventsQuery),
    CreateEvent(CreateEvent),
    UpdateEvent(UpdateEvent),
    DeleteEvent(i64),
    Login(Login),
    Logout,
    LoggedIn,
    ChangePassword(ChangePassword),
}

/// The answer of the service.
#[derive(Debug)]
pub enum Reply {
    /// The client has not logged in; the request reached no handler.
    Unauthorized,
    /// The operation failed.
    Failure(ApiError),
    /// A list of employees.
    Employees(Vec<Employee>),
    /// A list of teams.
    Teams(Vec<Team>),
    /// A list of events.
    Events(Vec<Event>),
    /// The id of what was created.
    Id(i64),
    /// A yes or no.
    Flag(bool),
    /// Done, with nothing to say.
    Empty,
}

impl Request {
    /// Whether the request is served only to a client that has logged in:
    /// every listing and every mutation, but not logging in, logging out
    /// or asking whether one is logged in.
    pub open spec fn needs_login_spec(self) -> bool {
        !(self is Login || self is Logout || self is LoggedIn)
    }

    /// Whether the request is served only to a client that has logged in.
    pub fn needs_login(&self) -> (needed: bool)
        ensures
            needed == self.needs_login_spec(),
    {
        match self {
            Request::Login(_) | Request::Logout | Request::LoggedIn => false,
            _ => true,
        }
    }
}

/// What a handler makes of a request that passed the guard: the reply it
/// gives and what becomes of the store and of the session.
pub open spec fn served(
    request: Request,
    before: DatabaseView,
    session: Session,
    reply: Reply,
    after: DatabaseView,
    session_after: Session,
) -> bool {
    match request {
        Request::GetEmployees => {
            &&& reply is Employees
            &&& employee_views(reply->Employees_0@) == before.employees
            &&& after == before
            &&& session_after == session
        },
        Request::CreateEmployee(fields) => {
            &&& session_after == session
            &&& if before.can_create_employee() {
                reply == Reply::Id(before.next_employee_id) && after == before.create_employee(
                    fields@,
                )
            } else {
                reply is Failure && after == before
            }
        },
        Request::UpdateEmployee(row) => {
            &&& session_after == session
            &&& after == before.update_employee(row@)
            &&& if has_employee(before.employees, row.id) {
                reply is Empty
            } else {
                reply is Failure
            }
        },
        Request::DeleteEmployee(id) => {
            &&& session_after == session
            &&& after == before.delete_employee(id)
            &&& if has_employee(before.employees, id) {
                reply is Empty
            } else {
                reply is Failure
            }
        },
        Request::GetTeams => {
            &&& reply is Teams
            &&& team_views(reply->Teams_0@) == before.teams
            &&& after == before
            &&& session_after == session
        },
        Request::CreateTeam(fields) => {
            &&& session_after == session
            &&& if before.can_create_team() {
                reply == Reply::Id(before.next_team_id) && after == before.create_team(fields@)
            } else {
                reply is Failure && after == before
            }
        },
        Request::UpdateTeam(row) => {
            &&& session_after == session
            &&& after == before.update_team(row@)
            &&& if has_team(before.teams, row.id) {
                reply is Empty
            } else {
                reply is Failure
            }
        },
        Request::DeleteTeam(id) => {
            &&& session_after == session
            &&& after == before.delete_team(id)
            &&& if has_team(before.teams, id) {
                reply is Empty
            } else {
                reply is Failure
            }
        },
        Request::GetEvents(query) => {
            &&& reply is Events
            &&& event_views(reply->Events_0@) == before.get_events(query)
            &&& after == before
            &&& session_after == session
        },
        Request::CreateEvent(fields) => {
            &&& session_after == session
            &&& after == before.create_event(fields@)
            &&& if before.create_event_outcome(fields@) is Ok {
                reply == Reply::Id(before.next_event_id)
            } else {
                reply is Failure
            }
        },
        Request::UpdateEvent(update) => {
            &&& session_after == session
            &&& after == before.update_event(update@)
            &&& if before.update_event_outcome(update@) is Ok {
                reply is Empty
            } else {
                reply is Failure
            }
        },
        Request::DeleteEvent(id) => {
            &&& session_after == session
            &&& if before.delete_event_outcome(id) is Ok {
                reply is Empty && after == before.delete_event(id)
            } else {
                reply is Failure && after == before
            }
        },
        Request::Login(body) => {
            &&& after == before
            &&& reply == Reply::Flag(Credential::admits(before.credential, body.password@))
            &&& if Credential::admits(before.credential, body.password@) {
                session_after.is_authenticated()
            } else {
                session_after == session
            }
        },
        Request::Logout => {
            &&& after == before
            &&& reply is Empty
            &&& !session_after.is_authenticated()
        },
        Request::LoggedIn => {
            &&& after == before
            &&& reply == Reply::Flag(session.is_authenticated())
            &&& session_after == session
        },
        Request::ChangePassword(body) => {
            &&& session_after == session
            &&& reply == Reply::Flag(Credential::admits(before.credential, body.old_password@))
            &&& after == before.change_password(body.old_password@, body.new_password@)
        },
    }
}

/// Serves a request. One that needs a login, from a client whose flag is
/// absent or false, is answered as unauthorized and touches neither the
/// store nor the session; every other request is handed to its handler.
pub fn handle(db: &mut Database, session: &mut Session, request: Request) -> (reply: Reply)
    ensures
        request.needs_login_spec() && !old(session).is_authenticated() ==> reply is Unauthorized
            && final(db)@ == old(db)@ && *final(session) == *old(session),
        !(request.needs_login_spec() && !old(session).is_authenticated()) ==> served(
            request,
            old(db)@,
            *old(session),
            reply,
            final(db)@,
            *final(session),
        ),
        old(db)@.wf() ==> final(db)@.wf(),
{
    if request.needs_login() {
        match session.access() {
            Access::Granted => {},
            Access::Unauthorized => {
                return Reply::Unauthorized;
            },
            Access::Failed => {
                return Reply::Failure(ApiError::InternalServerError);
            },
        }
    }
    match request {
        Request::GetEmployees => match routes::get_employees(db) {
            Ok(answer) => match answer.result {
                Some(rows) => Reply::Employees(rows),
                None => Reply::Failure(ApiError::InternalServerError),
            },
            Err(error) => Reply::Failure(error),
        },
        Request::CreateEmployee(fields) => match routes::create_employee(db, fields) {
            Ok(answer) => match answer.result {
                Some(id) => Reply::Id(id),
                None => Reply::Failure(ApiError::InternalServerError),
            },
            Err(error) => Reply::Failure(error),
        },
        Request::UpdateEmployee(row) => match routes::update_employee(db, row) {
            Ok(_) => Reply::Empty,
            Err(error) => Reply::Failure(error),
        },
        Request::DeleteEmployee(id) => match routes::delete_employee(db, id) {
            Ok(_) => Reply::Empty,
            Err(error) => Reply::Failure(error),
        },
        Request::GetTeams => match routes::get_teams(db) {
            Ok(answer) => match answer.result {
                Some(rows) => Reply::Teams(rows),
                None => Reply::Failure(ApiError::InternalServerError),
            },
            Err(error) => Reply::Failure(error),
        },
        Request::CreateTeam(fields) => match routes::create_team(db, fields) {
            Ok(answer) => match answer.result {
                Some(id) => Reply::Id(id),
                None => Reply::Failure(ApiError::InternalServerError),
            },
            Err(error) => Reply::Failure(error),
        },
        Request::UpdateTeam(row) => match routes::update_team(db, row) {
            Ok(_) => Reply::Empty,
            Err(error) => Reply::Failure(error),
        },
        Request::DeleteTeam(id) => match routes::delete_team(db, id) {
            Ok(_) => Reply::Empty,
            Err(error) => Reply::Failure(error),
        },
        Request::GetEvents(query) => match routes::get_events(db, query) {
            Ok(answer) => match answer.result {
                Some(events) => Reply::Events(events),
                None => Reply::Failure(ApiError::InternalServerError),
            },
            Err(error) => Reply::Failure(error),
        },
        Request::CreateEvent(fields) => match routes::create_event(db, fields) {
            Ok(answer) => match answer.result {
                Some(id) => Reply::Id(id),
                None => Reply::Failure(ApiError::InternalServerError),
            },
            Err(error) => Reply::Failure(error),
        },
        Request::UpdateEvent(update) => match routes::update_event(db, update) {
            Ok(_) => Reply::Empty,
            Err(error) => Reply::Failure(error),
        },
        Request::DeleteEvent(id) => match routes::delete_event(db, id) {
            Ok(_) => Reply::Empty,
            Err(error) => Reply::Failure(error),
        },
        Request::Login(body) => match routes::login(session, db, body) {
            Ok(answer) => match answer.result {
                Some(accepted) => Reply::Flag(accepted),
                None => Reply::Failure(ApiError::InternalServerError),
            },
            Err(error) => Reply::Failure(error),
        },
        Request::Logout => match routes::logout(session) {
            Ok(_) => Reply::Empty,
            Err(error) => Reply::Failure(error),
        },
        Request::LoggedIn => match routes::logged_in(session) {
            Ok(answer) => match answer.result {
                Some(yes) => Reply::Flag(yes),
                None => Reply::Failure(ApiError::InternalServerError),
            },
            Err(error) => Reply::Failure(error),
        },
        Request::ChangePassword(body) => match routes::change_password(db, body) {
            Ok(answer) => match answer.result {
                Some(changed) => Reply::Flag(changed),
                None => Reply::Failure(ApiError::InternalServerError),
            },
            Err(error) => Reply::Failure(error),
        },
    }
}

} // verus!
