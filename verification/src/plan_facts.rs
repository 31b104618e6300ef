//! The statement plan of a transaction and the store's own operations
//! come to the same result.

use vstd::prelude::*;
use crate::database_view::DatabaseView;
use crate::event::{CreateEventView, UpdateEventView};
use crate::event_row::has_event;
use crate::participation::{attachable, without_event};
use crate::transaction::{Action, Mutation, Outcome, Progress, Statement, Transaction};

verus! {

/// What each statement of an update reports when it is run against a
/// store on which the statements before it went through.
pub open spec fn update_reports(
    db: DatabaseView,
    update: UpdateEventView,
    statement: Statement,
) -> Outcome {
    match statement {
        Statement::Begin => Outcome::Done(0),
        Statement::WriteEvent => if !has_event(db.events, update.id) {
            Outcome::Done(0)
        } else if db.team_known(update.team_id) {
            Outcome::Done(1)
        } else {
            Outcome::Failed
        },
        Statement::ClearParticipants => Outcome::Done(0),
        Statement::WriteParticipants => if attachable(
            without_event(db.participations, update.id),
            db.employees,
            update.id,
            update.employee_ids,
        ) {
            Outcome::Done(0)
        } else {
            Outcome::Failed
        },
        Statement::Commit => Outcome::Done(0),
    }
}

/// What each statement of a creation reports when it is run against a
/// store on which the statements before it went through.
pub open spec fn create_reports(
    db: DatabaseView,
    fields: CreateEventView,
    statement: Statement,
) -> Outcome {
    match statement {
        Statement::Begin => Outcome::Done(0),
        Statement::WriteEvent => if db.next_event_id < i64::MAX && db.team_known(fields.team_id) {
            Outcome::Done(1)
        } else {
            Outcome::Failed
        },
        Statement::ClearParticipants => Outcome::Done(0),
        Statement::WriteParticipants => if attachable(
            db.participations,
            db.employees,
            db.next_event_id,
            fields.employee_ids,
        ) {
            Outcome::Done(0)
        } else {
            Outcome::Failed
        },
        Statement::Commit => Outcome::Done(0),
    }
}

/// Where an update's plan ends when each statement it asks for is run
/// against the store and each rollback is carried out.
pub open spec fn run_update(
    db: DatabaseView,
    update: UpdateEventView,
    transaction: Transaction,
) -> Transaction
    decreases transaction.remaining(),
{
    match transaction.action_spec() {
        Action::Run(statement) => run_update(
            db,
            update,
            transaction.advanced(update_reports(db, update, statement)),
        ),
        Action::Rollback => run_update(db, update, transaction.advanced(Outcome::Done(0))),
        Action::Finish(_) => transaction,
    }
}

/// Where a creation's plan ends when each statement it asks for is run
/// against the store and each rollback is carried out.
pub open spec fn run_create(
    db: DatabaseView,
    fields: CreateEventView,
    transaction: Transaction,
) -> Transaction
    decreases transaction.remaining(),
{
    match transaction.action_spec() {
        Action::Run(statement) => run_create(
            db,
            fields,
            transaction.advanced(create_reports(db, fields, statement)),
        ),
        Action::Rollback => run_create(db, fields, transaction.advanced(Outcome::Done(0))),
        Action::Finish(_) => transaction,
    }
}

/// Run statement by statement, an update commits exactly when the store's
/// own update succeeds, and fails with the same failure when it does not.
pub proof fn update_plan_agrees_with_store(db: DatabaseView, update: UpdateEventView)
    ensures
        run_update(
            db,
            update,
            Transaction { mutation: Mutation::Update, progress: Progress::Pending(Statement::Begin) },
        ).action_spec() == Action::Finish(db.update_event_outcome(update)),
{
    reveal_with_fuel(run_update, 8);
}

/// Run statement by statement, a creation commits exactly when the
/// store's own creation succeeds, and fails as a failed query when it
/// does not.
pub proof fn create_plan_agrees_with_store(db: DatabaseView, fields: CreateEventView)
    ensures
        run_create(
            db,
            fields,
            Transaction { mutation: Mutation::Create, progress: Progress::Pending(Statement::Begin) },
        ).action_spec() == (match db.create_event_outcome(fields) {
            Ok(_) => Action::Finish(Ok(())),
            Err(error) => Action::Finish(Err(error)),
        }),
{
    reveal_with_fuel(run_create, 8);
}

} // verus!
