//! Running an operation against the in-memory store: the store performs
//! each action that the operation asks for, until the operation finishes.

use vstd::prelude::*;
use crate::categories::protocol::{
    advance, exhausted, lemma_advance_decreases, weight, Action, Event, Move, Operation, Outcome, Progress,
    Reply, Step, Verdict,
};
use crate::categories::store::MemoryStore;
use crate::categories::table::{apply, lookup, page_of, select, Table};
use crate::error::FaultView;

verus! {

/// What an action does to the table, and the store's reply to it.
pub open spec fn perform(table: Table, action: Action) -> (Table, Reply) {
    match action {
        Action::Begin => match table.saved {
            None => (Table { saved: Some(table.rows), ..table }, Reply::Done),
            Some(_) => (table, Reply::Failed(FaultView::TransactionOpen)),
        },
        Action::Commit => match table.saved {
            Some(_) => (Table { saved: None, ..table }, Reply::Done),
            None => (table, Reply::Failed(FaultView::NoTransaction)),
        },
        Action::Rollback => match table.saved {
            Some(before) => (Table { rows: before, saved: None, ..table }, Reply::Done),
            None => (table, Reply::Failed(FaultView::NoTransaction)),
        },
        Action::Execute(statement) => {
            let applied = apply(table.rows, table.now, statement);
            (
                Table { rows: applied.rows, ..table },
                match applied.result {
                    Ok(n) => Reply::Affected(n),
                    Err(f) => Reply::Failed(f),
                },
            )
        },
        Action::FetchOptional(key) => (table, Reply::Row(lookup(table.rows, key@))),
        Action::FetchAll(selection) => (table, Reply::Rows(select(table.rows, selection@))),
        Action::FetchPage(selection, offset, limit) => (
            table,
            Reply::Rows(page_of(select(table.rows, selection@), offset, limit)),
        ),
        Action::FetchCount(selection) => (
            table,
            Reply::Count(select(table.rows, selection@).len() as i32),
        ),
    }
}

/// Where an operation that stands at `op` and receives `reply` ends when a
/// store in state `table` performs every action it asks for: the store's
/// state at the end, and the operation's outcome.
///
/// Every step that asks for an action brings the operation nearer to its
/// end ([`lemma_advance_decreases`]); the branch for a step that does not
/// is there for the definition to be well-founded and is never taken.
pub open spec fn run_from(op: Progress, reply: Reply, table: Table) -> (Table, Verdict)
    decreases weight(op),
{
    let (next, step) = advance(op, reply);
    match step {
        Move::Finish(verdict) => (table, verdict),
        Move::Perform(action) => {
            if weight(next) < weight(op) {
                let (after, answer) = perform(table, action);
                run_from(next, answer, after)
            } else {
                (table, Verdict::Failed(exhausted()))
            }
        },
    }
}

/// Where a fresh operation ends on a store in state `table`.
pub open spec fn run_on(op: Progress, table: Table) -> (Table, Verdict) {
    run_from(op, Reply::Started, table)
}

impl MemoryStore {
    /// Performs one action and gives the reply.
    pub fn perform(&mut self, action: Action) -> (event: Event)
        requires
            old(self).wf(),
        ensures
            final(self).wf(),
            (final(self)@, event@) == perform(old(self)@, action),
    {
        match action {
            Action::Begin => match self.begin() {
                Ok(_) => Event::Done,
                Err(f) => Event::Failed(f),
            },
            Action::Commit => match self.commit() {
                Ok(_) => Event::Done,
                Err(f) => Event::Failed(f),
            },
            Action::Rollback => match self.rollback() {
                Ok(_) => Event::Done,
                Err(f) => Event::Failed(f),
            },
            Action::Execute(statement) => match self.execute(&statement) {
                Ok(n) => Event::Affected(n),
                Err(f) => Event::Failed(f),
            },
            Action::FetchOptional(key) => Event::Row(self.fetch_optional(&key)),
            Action::FetchAll(selection) => Event::Rows(self.fetch_all(&selection)),
            Action::FetchPage(selection, offset, limit) => Event::Rows(
                self.fetch_page(&selection, offset, limit),
            ),
            Action::FetchCount(selection) => Event::Count(self.fetch_count(&selection)),
        }
    }

    /// Runs an operation to its end: steps it, performs each action it asks
    /// for, and hands back its outcome.
    pub fn run(&mut self, op: Operation) -> (outcome: Outcome)
        requires
            old(self).wf(),
        ensures
            final(self).wf(),
            (final(self)@, outcome@) == run_from(op@, Reply::Started, old(self)@),
    {
        let ghost goal = run_from(op@, Reply::Started, self@);
        let mut current = op;
        let mut event = Event::Started;
        loop
            invariant
                self.wf(),
                run_from(current@, event@, self@) == goal,
                goal == run_from(op@, Reply::Started, old(self)@),
            decreases weight(current@),
        {
            let ghost before = current@;
            let ghost reply = event@;
            let ghost table = self@;
            proof {
                lemma_advance_decreases(before, reply);
            }
            let (next, step) = current.step(event);
            assert(advance(before, reply) == (next@, step@));
            match step {
                Step::Finish(outcome) => {
                    assert(run_from(before, reply, table) == (table, outcome@));
                    return outcome;
                },
                Step::Perform(action) => {
                    event = self.perform(action);
                    current = next;
                    assert(run_from(before, reply, table) == run_from(current@, event@, self@));
                },
            }
        }
    }
}

} // verus!
