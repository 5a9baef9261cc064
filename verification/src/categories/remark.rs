//! What is worth a line in the log about the store's reply to an action.
//! Nothing is decided by it: it tells the one who performs the actions what
//! to note.

use vstd::prelude::*;
use crate::categories::insert::{classify_upsert, UpsertKind};
use crate::categories::protocol::{Action, Event, Reply};
use crate::categories::statement::Statement;

verus! {

/// What to note about a reply.
#[derive(Clone, Copy, Debug, PartialEq, Eq, Structural)]
pub enum Remark {
    /// Nothing out of the ordinary.
    Nothing,
    /// An insert affected another number of rows than one.
    OddCount(u64),
    /// An insert-or-overwrite inserted, overwrote, or neither, by its count.
    Upserted(UpsertKind),
    /// An update or a delete by key affected no row.
    Missing,
    /// The store failed the action.
    Refused,
}

/// What to note about the reply to an action.
pub open spec fn remark_of(action: Action, reply: Reply) -> Remark {
    match (action, reply) {
        (_, Reply::Failed(_)) => Remark::Refused,
        (Action::Execute(Statement::Insert(_)), Reply::Affected(n)) => if n == 1 {
            Remark::Nothing
        } else {
            Remark::OddCount(n)
        },
        (Action::Execute(Statement::Upsert(_)), Reply::Affected(n)) => Remark::Upserted(
            if n == 1 {
                UpsertKind::Inserted
            } else if n == 2 {
                UpsertKind::Updated
            } else {
                UpsertKind::Unknown
            },
        ),
        (Action::Execute(Statement::Update(_)), Reply::Affected(n)) => if n == 0 {
            Remark::Missing
        } else {
            Remark::Nothing
        },
        (Action::Execute(Statement::SetActive(_, _)), Reply::Affected(n)) => if n == 0 {
            Remark::Missing
        } else {
            Remark::Nothing
        },
        (Action::Execute(Statement::Delete(_)), Reply::Affected(n)) => if n == 0 {
            Remark::Missing
        } else {
            Remark::Nothing
        },
        _ => Remark::Nothing,
    }
}

/// What to note about the reply to an action.
pub fn remark(action: &Action, event: &Event) -> (note: Remark)
    ensures
        note == remark_of(*action, event@),
{
    match event {
        Event::Failed(_) => Remark::Refused,
        Event::Affected(n) => match action {
            Action::Execute(Statement::Insert(_)) => {
                if *n == 1 {
                    Remark::Nothing
                } else {
                    Remark::OddCount(*n)
                }
            },
            Action::Execute(Statement::Upsert(_)) => Remark::Upserted(classify_upsert(*n)),
            Action::Execute(Statement::Update(_)) | Action::Execute(Statement::SetActive(_, _))
            | Action::Execute(Statement::Delete(_)) => {
                if *n == 0 {
                    Remark::Missing
                } else {
                    Remark::Nothing
                }
            },
            _ => Remark::Nothing,
        },
        _ => Remark::Nothing,
    }
}

} // verus!
