//! A calendar service core: employees, teams and events kept in a relational
//! store model, a shared-password credential check, and the decisions that a
//! session-authenticated front end takes around them.

pub mod credential;
pub mod database;
pub mod database_view;
pub mod employee;
pub mod error;
pub mod event;
pub mod event_row;
pub mod integrity;
pub mod laws;
pub mod participants_facts;
pub mod participation;
pub mod plan_facts;
pub mod query;
pub mod response;
pub mod routes;
pub mod rows;
pub mod seq_facts;
pub mod service;
pub mod session;
pub mod settings;
pub mod team;
pub mod transaction;

pub use credential::{ChangePassword, Credential, Login};
pub use database::Database;
pub use employee::{CreateEmployee, Employee};
pub use error::{ApiError, ErrorResponse, PostgresError};
pub use event::{CreateEvent, Event, UpdateEvent};
pub use query::EventsQuery;
pub use response::Response;
pub use service::{handle, Reply, Request};
pub use session::{Access, Session, SessionRead};
pub use settings::{ApiSettings, Environment, LogLevel, PsqlSettings, Settings};
pub use team::{CreateTeam, Team};
