//! The order of the statements that create or update an event, and what
//! follows from the outcome of each. Whoever talks to the store runs the
//! statement that [`Transaction::action`] names and hands its outcome to
//! [`Transaction::advance`], until the action is to finish.

use vstd::prelude::*;
use crate::error::PostgresError;

verus! {

/// Which mutation the transaction carries out.
#[derive(Debug, Clone, Copy, PartialEq, Eq, Structural)]
pub enum Mutation {
    Create,
    Update,
}

/// One statement of the transaction.
#[derive(Debug, Clone, Copy, PartialEq, Eq, Structural)]
pub enum Statement {
    /// Start the transaction.
    Begin,
    /// Insert or update the event's scalar row.
    WriteEvent,
    /// Delete the association rows of the event.
    ClearParticipants,
    /// Insert one association row for each employee id.
    WriteParticipants,
    /// Commit.
    Commit,
}

/// What came of running a statement.
#[derive(Debug, Clone, Copy, PartialEq, Eq, Structural)]
pub enum Outcome {
    /// The statement went through and reached this many rows.
    Done(u64),
    /// The statement failed.
    Failed,
}

/// Where a transaction stands.
#[derive(Debug, Clone, Copy, PartialEq, Eq, Structural)]
pub enum Progress {
    /// This statement is the next to run.
    Pending(Statement),
    /// A statement failed; the transaction is to be rolled back.
    Failing(PostgresError),
    /// Everything was committed.
    Committed,
    /// Nothing was stored.
    Aborted(PostgresError),
}

/// What to do next.
#[derive(Debug, Clone, Copy, PartialEq, Eq)]
pub enum Action {
    /// Run this statement.
    Run(Statement),
    /// Roll the transaction back.
    Rollback,
    /// The transaction is over, with this result.
    Finish(Result<(), PostgresError>),
}

/// A transaction that creates or updates an event.
#[derive(Debug, Clone, Copy, PartialEq, Eq, Structural)]
pub struct Transaction {
    pub mutation: Mutation,
    pub progress: Progress,
}

impl Transaction {
    /// The statement that follows `statement` when it went through, or
    /// none after the commit. Only an update deletes association rows.
    pub open spec fn following(mutation: Mutation, statement: Statement) -> Option<Statement> {
        match statement {
            Statement::Begin => Some(Statement::WriteEvent),
            Statement::WriteEvent => match mutation {
                Mutation::Create => Some(Statement::WriteParticipants),
                Mutation::Update => Some(Statement::ClearParticipants),
            },
            Statement::ClearParticipants => Some(Statement::WriteParticipants),
            Statement::WriteParticipants => Some(Statement::Commit),
            Statement::Commit => None,
        }
    }

    /// The failure that a statement is reported with: starting and
    /// committing fail the transaction, the others are failed queries.
    pub open spec fn failure_of(statement: Statement) -> PostgresError {
        match statement {
            Statement::Begin | Statement::Commit => PostgresError::Transaction,
            _ => PostgresError::Query,
        }
    }

    /// Where the transaction stands after the outcome of what it was told
    /// to do.
    pub open spec fn advanced(self, outcome: Outcome) -> Transaction {
        let progress = match self.progress {
            Progress::Pending(statement) => match outcome {
                Outcome::Failed => match statement {
                    Statement::Begin | Statement::Commit => Progress::Aborted(
                        Self::failure_of(statement),
                    ),
                    _ => Progress::Failing(Self::failure_of(statement)),
                },
                Outcome::Done(affected) => if self.mutation == Mutation::Update && statement
                    == Statement::WriteEvent && affected == 0 {
                    Progress::Failing(PostgresError::NotFoundOrConflict)
                } else {
                    match Self::following(self.mutation, statement) {
                        Some(next) => Progress::Pending(next),
                        None => Progress::Committed,
                    }
                },
            },
            Progress::Failing(error) => Progress::Aborted(error),
            Progress::Committed => Progress::Committed,
            Progress::Aborted(error) => Progress::Aborted(error),
        };
        Transaction { mutation: self.mutation, progress }
    }

    /// What the transaction asks for where it stands.
    pub open spec fn action_spec(self) -> Action {
        match self.progress {
            Progress::Pending(statement) => Action::Run(statement),
            Progress::Failing(_) => Action::Rollback,
            Progress::Committed => Action::Finish(Ok(())),
            Progress::Aborted(error) => Action::Finish(Err(error)),
        }
    }

    /// How many actions are left at most before the transaction finishes.
    pub open spec fn remaining(self) -> nat {
        match self.progress {
            Progress::Pending(Statement::Begin) => 5,
            Progress::Pending(Statement::WriteEvent) => 4,
            Progress::Pending(Statement::ClearParticipants) => 3,
            Progress::Pending(Statement::WriteParticipants) => 2,
            Progress::Pending(Statement::Commit) => 1,
            Progress::Failing(_) => 1,
            Progress::Committed => 0,
            Progress::Aborted(_) => 0,
        }
    }

    /// Where the transaction stands after a run of outcomes.
    pub open spec fn after(self, outcomes: Seq<Outcome>) -> Transaction
        decreases outcomes.len(),
    {
        if outcomes.len() == 0 {
            self
        } else {
            self.advanced(outcomes[0]).after(outcomes.drop_first())
        }
    }

    /// A transaction that is about to start.
    pub fn start(mutation: Mutation) -> (transaction: Transaction)
        ensures
            transaction.mutation == mutation,
            transaction.progress == Progress::Pending(Statement::Begin),
    {
        Transaction { mutation, progress: Progress::Pending(Statement::Begin) }
    }

    /// Says what to do next.
    pub fn action(&self) -> (action: Action)
        ensures
            action == self.action_spec(),
    {
        match self.progress {
            Progress::Pending(statement) => Action::Run(statement),
            Progress::Failing(_) => Action::Rollback,
            Progress::Committed => Action::Finish(Ok(())),
            Progress::Aborted(error) => Action::Finish(Err(error)),
        }
    }

    /// Takes the outcome of the action that was asked for and moves on.
    /// Each step brings the transaction closer to its end.
    pub fn advance(&mut self, outcome: Outcome)
        ensures
            *final(self) == old(self).advanced(outcome),
            old(self).remaining() > 0 ==> final(self).remaining() < old(self).remaining(),
    {
        let progress = match self.progress {
            Progress::Pending(statement) => match outcome {
                Outcome::Failed => match statement {
                    Statement::Begin | Statement::Commit => Progress::Aborted(
                        PostgresError::Transaction,
                    ),
                    _ => Progress::Failing(PostgresError::Query),
                },
                Outcome::Done(affected) => {
                    let missed = match (self.mutation, statement) {
                        (Mutation::Update, Statement::WriteEvent) => affected == 0,
                        _ => false,
                    };
                    if missed {
                        Progress::Failing(PostgresError::NotFoundOrConflict)
                    } else {
                        match statement {
                            Statement::Begin => Progress::Pending(Statement::WriteEvent),
                            Statement::WriteEvent => match self.mutation {
                                Mutation::Create => Progress::Pending(
                                    Statement::WriteParticipants,
                                ),
                                Mutation::Update => Progress::Pending(
                                    Statement::ClearParticipants,
                                ),
                            },
                            Statement::ClearParticipants => Progress::Pending(
                                Statement::WriteParticipants,
                            ),
                            Statement::WriteParticipants => Progress::Pending(Statement::Commit),
                            Statement::Commit => Progress::Committed,
                        }
                    }
                },
            },
            Progress::Failing(error) => Progress::Aborted(error),
            Progress::Committed => Progress::Committed,
            Progress::Aborted(error) => Progress::Aborted(error),
        };
        self.progress = progress;
    }
}

/// Once a statement has failed, no statement is run any more: whatever
/// comes back, the transaction only rolls back and finishes with the
/// failure. In particular it never commits.
pub proof fn failure_is_final(transaction: Transaction, outcomes: Seq<Outcome>)
    requires
        transaction.progress is Failing || transaction.progress is Aborted,
    ensures
        !(transaction.after(outcomes).action_spec() is Run),
        transaction.after(outcomes).progress != Progress::Committed,
    decreases outcomes.len(),
{
    if outcomes.len() > 0 {
        failure_is_final(transaction.advanced(outcomes[0]), outcomes.drop_first());
    }
}

/// A transaction finishes after at most five outcomes: once it was
/// handed as many outcomes as it had actions left, it asks for no more.
pub proof fn transaction_finishes(transaction: Transaction, outcomes: Seq<Outcome>)
    requires
        outcomes.len() >= transaction.remaining(),
    ensures
        transaction.remaining() <= 5,
        transaction.after(outcomes).action_spec() is Finish,
    decreases outcomes.len(),
{
    if transaction.remaining() == 0 {
        stays_finished(transaction, outcomes);
    } else {
        transaction_finishes(transaction.advanced(outcomes[0]), outcomes.drop_first());
    }
}

/// A finished transaction stays as it is.
pub proof fn stays_finished(transaction: Transaction, outcomes: Seq<Outcome>)
    requires
        transaction.action_spec() is Finish,
    ensures
        transaction.after(outcomes) == transaction,
    decreases outcomes.len(),
{
    if outcomes.len() > 0 {
        stays_finished(transaction.advanced(outcomes[0]), outcomes.drop_first());
    }
}

/// A transaction commits exactly when every statement went through, in
/// order, and an update's scalar row reached a row.
pub proof fn commits_only_when_all_went_through(mutation: Mutation, outcomes: Seq<Outcome>)
    requires
        outcomes.len() == (if mutation == Mutation::Update {
            5int
        } else {
            4int
        }),
    ensures
        (Transaction { mutation, progress: Progress::Pending(Statement::Begin) }).after(
            outcomes,
        ).progress == Progress::Committed <==> ((forall|i: int|
            0 <= i < outcomes.len() ==> #[trigger] outcomes[i] is Done) && (mutation
            == Mutation::Update ==> outcomes[1] != Outcome::Done(0))),
{
    let t0 = Transaction { mutation, progress: Progress::Pending(Statement::Begin) };
    let t1 = t0.advanced(outcomes[0]);
    let r1 = outcomes.drop_first();
    let t2 = t1.advanced(outcomes[1]);
    let r2 = r1.drop_first();
    let t3 = t2.advanced(outcomes[2]);
    let r3 = r2.drop_first();
    let t4 = t3.advanced(outcomes[3]);
    let r4 = r3.drop_first();
    assert(r1[0] == outcomes[1] && r2[0] == outcomes[2] && r3[0] == outcomes[3]);
    assert(t0.after(outcomes) == t1.after(r1));
    assert(t1.after(r1) == t2.after(r2));
    assert(t2.after(r2) == t3.after(r3));
    assert(t3.after(r3) == t4.after(r4));
    if mutation == Mutation::Update {
        let t5 = t4.advanced(outcomes[4]);
        let r5 = r4.drop_first();
        assert(r4[0] == outcomes[4]);
        assert(t4.after(r4) == t5.after(r5));
        assert(r5.len() == 0);
        assert(t5.after(r5) == t5);
    } else {
        assert(r4.len() == 0);
        assert(t4.after(r4) == t4);
    }
}

} // verus!
