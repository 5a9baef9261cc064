//! What a write amounts to: the statements of a script applied in order to
//! the rows, and the proof that an operation run against the store ends
//! exactly there.

use vstd::prelude::*;
use crate::categories::model::Categories;
use crate::categories::protocol::{
    advance, fresh, lemma_advance_decreases, missing_text, proceed, Intent, Move,
    Progress, Recipe, Reply, Verdict,
};
use crate::categories::run::{perform, run_from, run_on};
use crate::categories::statement::{Key, Probe, Selection};
use crate::categories::table::{apply, lookup, page_of, select, Table};
use crate::domain::Timestamp;
use crate::error::{ErrorView, FaultView};

verus! {

/// Where the statements of a script end: the rows after the last statement
/// that ran, and the rows read back with the count of the last statement,
/// or the error that stopped the script.
pub ghost struct Ending {
    pub rows: Seq<Categories>,
    pub result: Result<(Seq<Categories>, u64), ErrorView>,
}

/// Applies the statements from index `at` on, in order.
///
/// A statement that fails stops the script, unless the script is lenient:
/// then it is passed over. A statement that affects no row stops a strict
/// script as not found. After a statement that went through, a script that
/// rereads looks the statement's row up and keeps it.
pub open spec fn carry_out(
    recipe: Recipe,
    rows: Seq<Categories>,
    now: Timestamp,
    at: int,
    gathered: Seq<Categories>,
    affected: u64,
) -> Ending
    decreases recipe.items.len() - at,
{
    if at < 0 || at >= recipe.items.len() {
        Ending { rows, result: Ok((gathered, affected)) }
    } else {
        let statement = recipe.items[at];
        let applied = apply(rows, now, statement);
        match applied.result {
            Err(f) => if recipe.lenient {
                carry_out(recipe, applied.rows, now, at + 1, gathered, affected)
            } else {
                Ending { rows: applied.rows, result: Err(ErrorView::Sqlx(f)) }
            },
            Ok(n) => if recipe.strict && n == 0 {
                Ending {
                    rows: applied.rows,
                    result: Err(ErrorView::NotFound(missing_text(statement))),
                }
            } else if recipe.reread && statement.subject() is Some {
                match lookup(applied.rows, Probe::Id(statement.subject()->0)) {
                    Some(row) => carry_out(
                        recipe,
                        applied.rows,
                        now,
                        at + 1,
                        gathered.push(row),
                        n,
                    ),
                    None => if recipe.lenient {
                        carry_out(recipe, applied.rows, now, at + 1, gathered, n)
                    } else {
                        Ending {
                            rows: applied.rows,
                            result: Err(ErrorView::Sqlx(FaultView::RowNotFound)),
                        }
                    },
                }
            } else {
                carry_out(recipe, applied.rows, now, at + 1, gathered, n)
            },
        }
    }
}

/// A script reads back at most one row for each statement.
pub proof fn lemma_gathered_bound(
    recipe: Recipe,
    rows: Seq<Categories>,
    now: Timestamp,
    at: int,
    gathered: Seq<Categories>,
    affected: u64,
)
    requires
        0 <= at <= recipe.items.len(),
    ensures
        carry_out(recipe, rows, now, at, gathered, affected).result matches Ok(end)
            ==> gathered.len() <= end.0.len() <= gathered.len() + (recipe.items.len() - at),
    decreases recipe.items.len() - at,
{
    if at < recipe.items.len() {
        let statement = recipe.items[at];
        let applied = apply(rows, now, statement);
        match applied.result {
            Err(_) => {
                if recipe.lenient {
                    lemma_gathered_bound(recipe, applied.rows, now, at + 1, gathered, affected);
                }
            },
            Ok(n) => {
                if recipe.strict && n == 0 {
                } else if recipe.reread && statement.subject() is Some {
                    match lookup(applied.rows, Probe::Id(statement.subject()->0)) {
                        Some(row) => lemma_gathered_bound(
                            recipe,
                            applied.rows,
                            now,
                            at + 1,
                            gathered.push(row),
                            n,
                        ),
                        None => {
                            if recipe.lenient {
                                lemma_gathered_bound(recipe, applied.rows, now, at + 1, gathered, n);
                            }
                        },
                    }
                } else {
                    lemma_gathered_bound(recipe, applied.rows, now, at + 1, gathered, n);
                }
            },
        }
    }
}

/// A script that rereads, passes over nothing and has a row to each
/// statement reads back exactly one row for each statement, when it goes
/// through.
pub proof fn lemma_gathered_count(
    recipe: Recipe,
    rows: Seq<Categories>,
    now: Timestamp,
    at: int,
    gathered: Seq<Categories>,
    affected: u64,
)
    requires
        0 <= at <= recipe.items.len(),
        recipe.reread,
        !recipe.lenient,
        forall|i: int| 0 <= i < recipe.items.len() ==> (#[trigger] recipe.items[i]).subject() is Some,
    ensures
        carry_out(recipe, rows, now, at, gathered, affected).result matches Ok(end) ==> end.0.len()
            == gathered.len() + (recipe.items.len() - at),
    decreases recipe.items.len() - at,
{
    if at < recipe.items.len() {
        let statement = recipe.items[at];
        let applied = apply(rows, now, statement);
        match applied.result {
            Err(_) => {},
            Ok(n) => {
                if recipe.strict && n == 0 {
                } else {
                    match lookup(applied.rows, Probe::Id(statement.subject()->0)) {
                        Some(row) => lemma_gathered_count(
                            recipe,
                            applied.rows,
                            now,
                            at + 1,
                            gathered.push(row),
                            n,
                        ),
                        None => {},
                    }
                }
            },
        }
    }
}

/// What the end of a script means for the table. A script that is atomic and
/// failed leaves the rows as they were when its transaction began; any
/// other leaves them as its statements made them.
pub open spec fn settle(recipe: Recipe, table: Table, ending: Ending) -> (Table, Verdict) {
    match ending.result {
        Ok((gathered, affected)) => (
            Table {
                rows: ending.rows,
                saved: if recipe.atomic {
                    None
                } else {
                    table.saved
                },
                ..table
            },
            Verdict::Written(gathered, affected),
        ),
        Err(e) => (
            if recipe.atomic {
                Table { rows: table.saved->0, saved: None, ..table }
            } else {
                Table { rows: ending.rows, ..table }
            },
            Verdict::Failed(e),
        ),
    }
}

/// What a write amounts to on a table.
///
/// An empty script does nothing. An atomic script needs that no transaction
/// is open; it opens one, and commits it or rolls it back.
pub open spec fn outcome_of(recipe: Recipe, table: Table) -> (Table, Verdict) {
    if recipe.items.len() == 0 {
        (table, Verdict::Written(Seq::empty(), 0))
    } else if recipe.atomic {
        match table.saved {
            Some(_) => (table, Verdict::Failed(ErrorView::Sqlx(FaultView::TransactionOpen))),
            None => settle(
                recipe,
                Table { saved: Some(table.rows), ..table },
                carry_out(recipe, table.rows, table.now, 0, Seq::empty(), 0),
            ),
        }
    } else {
        settle(recipe, table, carry_out(recipe, table.rows, table.now, 0, Seq::empty(), 0))
    }
}

/// Where an operation ends that is about to go on with the statement at
/// index `at`.
pub open spec fn go_on(op: Progress, recipe: Recipe, at: int, table: Table) -> (Table, Verdict) {
    let (next, step) = proceed(op, recipe, at);
    match step {
        Move::Finish(verdict) => (table, verdict),
        Move::Perform(action) => {
            let (after, answer) = perform(table, action);
            run_from(next, answer, after)
        },
    }
}

/// An operation that goes on with the statement at index `at` ends where
/// the rest of the script ends.
pub proof fn lemma_go_on(op: Progress, recipe: Recipe, at: int, table: Table)
    requires
        op.plan == Intent::Write(recipe),
        0 <= at <= recipe.items.len(),
        recipe.atomic ==> table.saved is Some,
    ensures
        go_on(op, recipe, at, table) == settle(
            recipe,
            table,
            carry_out(recipe, table.rows, table.now, at, op.gathered, op.affected),
        ),
    decreases recipe.items.len() - at,
{
    reveal_with_fuel(run_from, 3);
    let (next, step) = proceed(op, recipe, at);
    if at == recipe.items.len() {
        if recipe.atomic {
            let (after, answer) = perform(table, step->Perform_0);
            lemma_advance_decreases(next, answer);
        }
    } else {
        let statement = recipe.items[at];
        let (after, answer) = perform(table, step->Perform_0);
        let applied = apply(table.rows, table.now, statement);
        let (then, second) = advance(next, answer);
        lemma_advance_decreases(next, answer);
        match applied.result {
            Err(f) => {
                if recipe.lenient {
                    lemma_go_on(next, recipe, at + 1, after);
                    assert(run_from(next, answer, after) == go_on(next, recipe, at + 1, after));
                } else if recipe.atomic {
                    let (last, reply) = perform(after, second->Perform_0);
                    lemma_advance_decreases(then, reply);
                }
            },
            Ok(n) => {
                if recipe.strict && n == 0 {
                    if recipe.atomic {
                        let (last, reply) = perform(after, second->Perform_0);
                        lemma_advance_decreases(then, reply);
                    }
                } else if recipe.reread && statement.subject() is Some {
                    let (seen, row) = perform(after, second->Perform_0);
                    lemma_advance_decreases(then, row);
                    let (third_op, third) = advance(then, row);
                    match lookup(applied.rows, Probe::Id(statement.subject()->0)) {
                        Some(found) => {
                            let kept = Progress { gathered: then.gathered.push(found), ..then };
                            lemma_go_on(kept, recipe, at + 1, after);
                            assert(run_from(then, row, seen) == go_on(kept, recipe, at + 1, after));
                        },
                        None => {
                            if recipe.lenient {
                                lemma_go_on(then, recipe, at + 1, after);
                                assert(run_from(then, row, seen) == go_on(
                                    then,
                                    recipe,
                                    at + 1,
                                    after,
                                ));
                            } else if recipe.atomic {
                                let (last, reply) = perform(seen, third->Perform_0);
                                lemma_advance_decreases(third_op, reply);
                            }
                        },
                    }
                } else {
                    let counted = Progress { affected: n, ..next };
                    lemma_go_on(counted, recipe, at + 1, after);
                    assert(run_from(next, answer, after) == go_on(counted, recipe, at + 1, after));
                }
            },
        }
    }
}

/// A write that is run against the store ends where its script ends.
pub proof fn lemma_run_write(recipe: Recipe, table: Table)
    ensures
        run_on(fresh(Intent::Write(recipe)), table) == outcome_of(recipe, table),
{
    reveal_with_fuel(run_from, 3);
    let op = fresh(Intent::Write(recipe));
    let (next, step) = advance(op, Reply::Started);
    lemma_advance_decreases(op, Reply::Started);
    if recipe.items.len() == 0 {
    } else if recipe.atomic {
        let (after, answer) = perform(table, step->Perform_0);
        lemma_advance_decreases(next, answer);
        if table.saved is None {
            lemma_go_on(next, recipe, 0, after);
            assert(run_from(next, answer, after) == go_on(next, recipe, 0, after));
        }
    } else {
        lemma_go_on(op, recipe, 0, table);
        assert(run_on(op, table) == go_on(op, recipe, 0, table));
    }
}

/// A lookup that is run against the store finds the first row with the key
/// and leaves the table as it was.
pub proof fn lemma_run_find(key: Key, table: Table)
    ensures
        run_on(fresh(Intent::Find(key)), table) == (
            table,
            Verdict::Found(lookup(table.rows, key@)),
        ),
{
    reveal_with_fuel(run_from, 3);
}

/// A listing that is run against the store yields the rows that the
/// selection keeps and leaves the table as it was.
pub proof fn lemma_run_list(selection: Selection, table: Table)
    ensures
        run_on(fresh(Intent::List(selection)), table) == (
            table,
            Verdict::Listed(select(table.rows, selection@)),
        ),
{
    reveal_with_fuel(run_from, 3);
}

/// A paged listing that is run against the store yields the page and the
/// size of the whole listing, and leaves the table as it was.
pub proof fn lemma_run_page(selection: Selection, offset: i32, limit: i32, table: Table)
    ensures
        run_on(fresh(Intent::Page(selection, offset, limit)), table) == (
            table,
            Verdict::Paged(
                page_of(select(table.rows, selection@), offset, limit),
                select(table.rows, selection@).len() as i32,
            ),
        ),
{
    reveal_with_fuel(run_from, 4);
}

} // verus!
