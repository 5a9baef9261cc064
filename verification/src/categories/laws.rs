//! What holds of the operations taken together.

use vstd::prelude::*;
use crate::categories::delete::{deleted, no_such_id};
use crate::categories::find::everything;
use crate::categories::insert::{insert_many_recipe, lemma_insert_many_goes_on};
use crate::categories::model::{slug_of, Categories};
use crate::categories::protocol::{
    advance, fresh, missing_text, Action, Intent, Move, Progress, Recipe, Reply, Stage, Verdict,
};
use crate::categories::script::{carry_out, outcome_of};
use crate::categories::statement::{Probe, Statement};
use crate::categories::table::{
    add_row, apply, capacity, clash, lemma_add_row, lemma_added_found, lemma_apply, lemma_lookup_at,
    lemma_position, lemma_replaced_found, lemma_sift, lemma_sift_all, lemma_slot, lookup, page_of,
    position, select, slot, taken, well_formed, Table,
};
use crate::categories::update::update_many_recipe;
use crate::domain::{later, RowID, Timestamp};
use crate::error::{Constraint, DatabaseResult, ErrorView, FaultView};

verus! {

/// A row that was inserted is found by its id, and the row found is the row
/// that was given: every field as it was given, the two timestamps
/// therefore not earlier than given.
pub proof fn law_insert_then_find(rows: Seq<Categories>, c: Categories)
    requires
        well_formed(rows),
        add_row(rows, c).result is Ok,
    ensures
        lookup(add_row(rows, c).rows, Probe::Id(c.id)) == Some(c),
        lookup(add_row(rows, c).rows, Probe::Id(c.id))->0.created_on.micros
            >= c.created_on.micros,
        lookup(add_row(rows, c).rows, Probe::Id(c.id))->0.updated_on.micros
            >= c.updated_on.micros,
{
    lemma_added_found(rows, c);
}

/// After a row went in, a second row with the same code is refused: the
/// rows stay as they were, and the first row is still found unchanged.
pub proof fn law_second_code_refused(rows: Seq<Categories>, first: Categories, second: Categories)
    requires
        well_formed(rows),
        add_row(rows, first).result is Ok,
        second.code@ == first.code@,
    ensures
        add_row(add_row(rows, first).rows, second).result matches Err(FaultView::Unique(rule))
            && rule != Constraint::UrlSlug,
        add_row(add_row(rows, first).rows, second).rows == add_row(rows, first).rows,
        lookup(add_row(add_row(rows, first).rows, second).rows, Probe::Id(first.id)) == Some(
            first,
        ),
{
    lemma_added_found(rows, first);
    let after = add_row(rows, first).rows;
    lemma_position(after, Probe::Id(first.id));
    let i = position(after, Probe::Id(first.id));
    assert(Probe::Code(second.code@).hits(after[i]));
    assert(taken(after, Probe::Code(second.code@), -1));
}

/// Deleting by id twice: whatever the first delete did, the second finds
/// no row, fails as not found, and leaves the table as the first left it.
pub proof fn law_delete_twice(
    before: Table,
    id: RowID,
    between: Table,
    first: DatabaseResult<()>,
    after: Table,
    second: DatabaseResult<()>,
)
    requires
        before.wf(),
        deleted(before, Probe::Id(id), no_such_id(id), between, first),
        deleted(between, Probe::Id(id), no_such_id(id), after, second),
    ensures
        second matches Err(e) && e@ == ErrorView::NotFound(no_such_id(id)),
        after == between,
{
    law_deleted_row_is_gone(before.rows, id);
}

/// Once the row with an id is deleted, no row has the id.
pub proof fn law_deleted_row_is_gone(rows: Seq<Categories>, id: RowID)
    requires
        well_formed(rows),
    ensures
        position(rows, Probe::Id(id)) < rows.len() ==> lookup(
            rows.remove(position(rows, Probe::Id(id))),
            Probe::Id(id),
        ) is None,
{
    let i = position(rows, Probe::Id(id));
    lemma_position(rows, Probe::Id(id));
    if i < rows.len() {
        let after = rows.remove(i);
        rows.remove_ensures(i);
        lemma_position(after, Probe::Id(id));
        let j = position(after, Probe::Id(id));
        if j < after.len() {
            let j0 = if j < i {
                j
            } else {
                j + 1
            };
            assert(after[j] == rows[j0]);
            assert(rows[j0].id == rows[i].id);
        }
    }
}

/// A row whose active flag was set is still found by its id, with the flag
/// as set, the time of update the later of the store's and its own, and
/// every other field as it was: deactivating a row does not delete it.
pub proof fn law_deactivated_row_stays(
    rows: Seq<Categories>,
    now: Timestamp,
    id: RowID,
    is_active: bool,
)
    requires
        well_formed(rows),
        position(rows, Probe::Id(id)) < rows.len(),
    ensures
        ({
            let i = position(rows, Probe::Id(id));
            let row = Categories {
                is_active,
                updated_on: later(now, rows[i].updated_on),
                ..rows[i]
            };
            &&& lookup(rows.update(i, row), Probe::Id(id)) == Some(row)
            &&& rows.update(i, row) == apply(rows, now, Statement::SetActive(id, is_active)).rows
        }),
{
    lemma_position(rows, Probe::Id(id));
    let i = position(rows, Probe::Id(id));
    lemma_replaced_found(
        rows,
        Categories { is_active, updated_on: later(now, rows[i].updated_on), ..rows[i] },
    );
}

/// A statement that overwrites rows leaves the ids of the table as they
/// were.
proof fn lemma_update_keeps_ids(rows: Seq<Categories>, now: Timestamp, c: Categories, id: RowID)
    ensures
        position(rows, Probe::Id(id)) == rows.len() <==> position(
            apply(rows, now, Statement::Update(c)).rows,
            Probe::Id(id),
        ) == apply(rows, now, Statement::Update(c)).rows.len(),
{
    let after = apply(rows, now, Statement::Update(c)).rows;
    lemma_position(rows, Probe::Id(id));
    lemma_position(after, Probe::Id(id));
    lemma_position(rows, Probe::Id(c.id));
    let i = position(rows, Probe::Id(c.id));
    if after != rows {
        if position(rows, Probe::Id(id)) < rows.len() {
            let k = position(rows, Probe::Id(id));
            assert(Probe::Id(id).hits(after[k]));
        }
        if position(after, Probe::Id(id)) < after.len() {
            let k = position(after, Probe::Id(id));
            assert(Probe::Id(id).hits(rows[k]));
        }
    }
}

/// A full update of a row whose id is not in the table affects no row.
proof fn lemma_update_of_missing(rows: Seq<Categories>, now: Timestamp, c: Categories)
    requires
        position(rows, Probe::Id(c.id)) == rows.len(),
    ensures
        apply(rows, now, Statement::Update(c)).result == Ok::<u64, FaultView>(0),
{
}

/// One step of a bulk update: it stops with an error, or goes on with the
/// next row.
proof fn lemma_update_many_step(
    cs: Seq<Categories>,
    rows: Seq<Categories>,
    now: Timestamp,
    at: int,
    gathered: Seq<Categories>,
    affected: u64,
)
    requires
        0 <= at < cs.len(),
    ensures
        ({
            let whole = carry_out(update_many_recipe(cs), rows, now, at, gathered, affected);
            let applied = apply(rows, now, Statement::Update(cs[at]));
            match applied.result {
                Ok(n) => if n == 0 {
                    whole.result is Err
                } else {
                    match lookup(applied.rows, Probe::Id(cs[at].id)) {
                        Some(row) => whole == carry_out(
                            update_many_recipe(cs),
                            applied.rows,
                            now,
                            at + 1,
                            gathered.push(row),
                            n,
                        ),
                        None => whole.result is Err,
                    }
                },
                Err(_) => whole.result is Err,
            }
        }),
{
    assert(update_many_recipe(cs).items[at] == Statement::Update(cs[at]));
}

/// A bulk update with a row whose id is not in the table stops with an
/// error at or before that row.
proof fn lemma_update_many_stops(
    cs: Seq<Categories>,
    rows: Seq<Categories>,
    now: Timestamp,
    at: int,
    missing: int,
    gathered: Seq<Categories>,
    affected: u64,
)
    requires
        0 <= at <= missing < cs.len(),
        position(rows, Probe::Id(cs[missing].id)) == rows.len(),
    ensures
        carry_out(update_many_recipe(cs), rows, now, at, gathered, affected).result is Err,
    decreases missing - at,
{
    let applied = apply(rows, now, Statement::Update(cs[at]));
    lemma_update_many_step(cs, rows, now, at, gathered, affected);
    if at == missing {
        lemma_update_of_missing(rows, now, cs[at]);
    } else {
        lemma_update_keeps_ids(rows, now, cs[at], cs[missing].id);
        match applied.result {
            Ok(n) => {
                if n != 0 {
                    match lookup(applied.rows, Probe::Id(cs[at].id)) {
                        Some(row) => lemma_update_many_stops(
                            cs,
                            applied.rows,
                            now,
                            at + 1,
                            missing,
                            gathered.push(row),
                            n,
                        ),
                        None => {},
                    }
                }
            },
            Err(_) => {},
        }
    }
}

/// A bulk update is all or nothing: where one of the rows has an id that no
/// row of the table has, the update fails and the table is left exactly as
/// it was.
pub proof fn law_update_many_atomic(cs: Seq<Categories>, table: Table, missing: int)
    requires
        table.wf(),
        0 <= missing < cs.len(),
        position(table.rows, Probe::Id(cs[missing].id)) == table.rows.len(),
    ensures
        outcome_of(update_many_recipe(cs), table).1 is Failed,
        outcome_of(update_many_recipe(cs), table).0 == table,
{
    lemma_update_many_stops(cs, table.rows, table.now, 0, missing, Seq::empty(), 0);
}

/// A bulk update that fails, for whatever reason, leaves the table exactly
/// as it was.
pub proof fn law_failed_update_many_changes_nothing(cs: Seq<Categories>, table: Table)
    requires
        table.wf(),
        outcome_of(update_many_recipe(cs), table).1 is Failed,
    ensures
        outcome_of(update_many_recipe(cs), table).0 == table,
{
}

/// A bulk insert on a store with no transaction open never fails as a
/// whole, whichever of its rows the store refuses.
pub proof fn law_insert_many_never_fails(cs: Seq<Categories>, table: Table)
    requires
        table.saved is None,
    ensures
        outcome_of(insert_many_recipe(cs), table).1 is Written,
{
    lemma_insert_many_goes_on(cs, table.rows, table.now, 0, Seq::empty(), 0);
}

/// In a bulk insert, a row that the store refuses is passed over: the
/// insert goes on with the next row, on the same rows, with the same rows
/// read back so far. A row that the store takes is read back as given.
pub proof fn law_insert_many_passes_over(
    cs: Seq<Categories>,
    rows: Seq<Categories>,
    now: Timestamp,
    at: int,
    gathered: Seq<Categories>,
    affected: u64,
)
    requires
        0 <= at < cs.len(),
    ensures
        add_row(rows, cs[at]).result is Err ==> carry_out(
            insert_many_recipe(cs),
            rows,
            now,
            at,
            gathered,
            affected,
        ) == carry_out(insert_many_recipe(cs), rows, now, at + 1, gathered, affected),
        add_row(rows, cs[at]).result is Ok ==> carry_out(
            insert_many_recipe(cs),
            rows,
            now,
            at,
            gathered,
            affected,
        ) == carry_out(
            insert_many_recipe(cs),
            add_row(rows, cs[at]).rows,
            now,
            at + 1,
            gathered.push(cs[at]),
            1,
        ),
{
    if add_row(rows, cs[at]).result is Ok {
        lemma_added_found(rows, cs[at]);
    }
}

/// Insert-or-overwrite, twice with one id: the first call, with no row of
/// that id in the table, inserts the row as given and reports one row
/// affected; the second overwrites it, keeps its id and its creation time,
/// reports two rows affected, and leaves the number of rows as it was, with
/// one row of that id.
pub proof fn law_upsert_twice(
    rows: Seq<Categories>,
    now: Timestamp,
    later: Timestamp,
    first: Categories,
    second: Categories,
)
    requires
        well_formed(rows),
        position(rows, Probe::Id(first.id)) == rows.len(),
        second.id == first.id,
        apply(rows, now, Statement::Upsert(first)).result is Ok,
        apply(
            apply(rows, now, Statement::Upsert(first)).rows,
            later,
            Statement::Upsert(second),
        ).result is Ok,
    ensures
        ({
            let one = apply(rows, now, Statement::Upsert(first));
            let two = apply(one.rows, later, Statement::Upsert(second));
            &&& one.result == Ok::<u64, FaultView>(1)
            &&& lookup(one.rows, Probe::Id(first.id)) == Some(first)
            &&& two.result == Ok::<u64, FaultView>(2)
            &&& lookup(two.rows, Probe::Id(first.id)) == Some(
                Categories { created_on: first.created_on, ..second },
            )
            &&& two.rows.len() == one.rows.len()
            &&& forall|k: int|
                0 <= k < two.rows.len() && (#[trigger] two.rows[k]).id == first.id ==> k
                    == position(two.rows, Probe::Id(first.id))
        }),
{
    let one = apply(rows, now, Statement::Upsert(first));
    let two = apply(one.rows, later, Statement::Upsert(second));
    lemma_added_found(rows, first);
    lemma_apply(rows, now, Statement::Upsert(first));
    lemma_position(one.rows, Probe::Id(first.id));
    let i = position(one.rows, Probe::Id(first.id));
    lemma_replaced_found(one.rows, Categories { created_on: one.rows[i].created_on, ..second });
    lemma_apply(one.rows, later, Statement::Upsert(second));
    lemma_position(two.rows, Probe::Id(first.id));
}

/// The first page of a listing holds as many rows as the limit allows, and
/// the size of the whole listing does not depend on the page: asked for as
/// many rows as there are, the page is the whole listing; asked for half as
/// many, it holds half as many.
pub proof fn law_page_sizes(rows: Seq<Categories>, limit: i32)
    requires
        rows.len() <= i32::MAX,
        0 <= limit,
    ensures
        select(rows, everything()) == rows,
        page_of(select(rows, everything()), 0, limit).len() == if limit <= rows.len() {
            limit as int
        } else {
            rows.len() as int
        },
        limit == rows.len() ==> page_of(select(rows, everything()), 0, limit) == rows,
{
    lemma_sift_all(rows);
}

/// In well-formed rows, two rows with one id are one row.
proof fn lemma_one_row_per_id(rows: Seq<Categories>, a: int, b: int)
    requires
        well_formed(rows),
        0 <= a < rows.len(),
        0 <= b < rows.len(),
        rows[a].id == rows[b].id,
    ensures
        a == b,
{
    if a < b {
        assert(rows[a].id != rows[b].id);
    } else if b < a {
        assert(rows[b].id != rows[a].id);
    }
}

/// The id and the creation time of a row never change: whatever a
/// statement does, a row that is found by an id before it and after it has
/// the creation time that it had.
pub proof fn law_creation_time_stays(
    rows: Seq<Categories>,
    now: Timestamp,
    statement: Statement,
    id: RowID,
)
    requires
        well_formed(rows),
        lookup(rows, Probe::Id(id)) is Some,
        lookup(apply(rows, now, statement).rows, Probe::Id(id)) is Some,
    ensures
        lookup(apply(rows, now, statement).rows, Probe::Id(id))->0.id == id,
        lookup(apply(rows, now, statement).rows, Probe::Id(id))->0.created_on == lookup(
            rows,
            Probe::Id(id),
        )->0.created_on,
{
    let after = apply(rows, now, statement).rows;
    lemma_position(rows, Probe::Id(id));
    lemma_position(after, Probe::Id(id));
    let i = position(rows, Probe::Id(id));
    let j = position(after, Probe::Id(id));
    if after != rows {
        match statement {
            Statement::Insert(c) => {
                lemma_came_from_insert(rows, c, i, j);
            },
            Statement::Upsert(c) => {
                lemma_position(rows, Probe::Id(c.id));
                let k = position(rows, Probe::Id(c.id));
                if k < rows.len() {
                    if j == k {
                        lemma_one_row_per_id(rows, i, k);
                    } else {
                        lemma_one_row_per_id(rows, i, j);
                    }
                } else {
                    lemma_came_from_insert(rows, c, i, j);
                }
            },
            Statement::Update(c) => {
                lemma_position(rows, Probe::Id(c.id));
                let k = position(rows, Probe::Id(c.id));
                if j == k {
                    lemma_one_row_per_id(rows, i, k);
                } else {
                    lemma_one_row_per_id(rows, i, j);
                }
            },
            Statement::SetActive(other, _) => {
                lemma_position(rows, Probe::Id(other));
                let k = position(rows, Probe::Id(other));
                if j == k {
                    lemma_one_row_per_id(rows, i, k);
                } else {
                    lemma_one_row_per_id(rows, i, j);
                }
            },
            Statement::Delete(key) => {
                lemma_position(rows, key@);
                let k = position(rows, key@);
                rows.remove_ensures(k);
                let j0 = if j < k {
                    j
                } else {
                    j + 1
                };
                assert(after[j] == rows[j0]);
                lemma_one_row_per_id(rows, i, j0);
            },
            Statement::Purge(selection) => {
                lemma_sift(rows, selection@, false);
                let m = choose|m: int| j <= m < rows.len() && rows[m] == after[j];
                lemma_one_row_per_id(rows, i, m);
            },
        }
    }
}

/// A row that is found by an id before and after a row was added is the
/// same row.
proof fn lemma_came_from_insert(rows: Seq<Categories>, c: Categories, i: int, j: int)
    requires
        well_formed(rows),
        add_row(rows, c).result is Ok,
        0 <= i < rows.len(),
        0 <= j < add_row(rows, c).rows.len(),
        add_row(rows, c).rows[j].id == rows[i].id,
    ensures
        add_row(rows, c).rows[j] == rows[i],
{
    let p = slot(rows, c.created_on, 0);
    lemma_slot(rows, c.created_on, 0);
    rows.insert_ensures(p, c);
    let after = rows.insert(p, c);
    if j == p {
        assert(Probe::Id(c.id).hits(rows[i]));
        assert(taken(rows, Probe::Id(c.id), -1));
    } else {
        let j0 = if j < p {
            j
        } else {
            j - 1
        };
        assert(after[j] == rows[j0]);
        lemma_one_row_per_id(rows, i, j0);
    }
}

/// The time of update never goes back, whatever the store's clock reads:
/// after a full update or an update of the active flag, a row that was
/// there is still there, and its time of update is not before what it was.
pub proof fn law_time_of_update_moves_on(
    rows: Seq<Categories>,
    now: Timestamp,
    statement: Statement,
    id: RowID,
)
    requires
        well_formed(rows),
        statement is Update || statement is SetActive,
        lookup(rows, Probe::Id(id)) is Some,
    ensures
        lookup(apply(rows, now, statement).rows, Probe::Id(id)) matches Some(row)
            && row.updated_on.micros >= lookup(rows, Probe::Id(id))->0.updated_on.micros,
{
    let after = apply(rows, now, statement).rows;
    lemma_position(rows, Probe::Id(id));
    let i = position(rows, Probe::Id(id));
    let touched = statement.subject()->0;
    lemma_position(rows, Probe::Id(touched));
    let k = position(rows, Probe::Id(touched));
    if after != rows {
        assert(after.len() == rows.len());
        if k == i {
            lemma_replaced_found(rows, after[k]);
        } else {
            assert(after[i] == rows[i]);
            assert forall|m: int| 0 <= m < i implies !Probe::Id(id).hits(#[trigger] after[m]) by {
                if m == k {
                    lemma_one_row_per_id(rows, k, k);
                    assert(after[k].id == rows[k].id);
                }
            }
            lemma_lookup_at(after, Probe::Id(id), i);
        }
    }
}

/// The creation time of the row with an id, if there is one.
pub open spec fn creation(rows: Seq<Categories>, id: RowID) -> Option<Timestamp> {
    match lookup(rows, Probe::Id(id)) {
        Some(row) => Some(row.created_on),
        None => None,
    }
}

/// The time that an update at the store's time `now` stamps the row with
/// an id with, if there is such a row: the later of `now` and the row's own
/// time of update.
pub open spec fn refreshed(rows: Seq<Categories>, now: Timestamp, id: RowID) -> Option<
    Timestamp,
> {
    match lookup(rows, Probe::Id(id)) {
        Some(row) => Some(later(now, row.updated_on)),
        None => None,
    }
}

/// What a full update makes of a row: the fields given, but the creation
/// time that the row with its id has in the table, and as the time of
/// update the later of the store's time and that row's time of update.
pub open spec fn updated(table: Table, c: Categories) -> Categories {
    Categories {
        created_on: creation(table.rows, c.id)->0,
        updated_on: refreshed(table.rows, table.now, c.id)->0,
        ..c
    }
}

/// A full update leaves the rows of every other id as they were.
proof fn lemma_update_leaves_others(
    rows: Seq<Categories>,
    now: Timestamp,
    c: Categories,
    id: RowID,
)
    requires
        well_formed(rows),
        id != c.id,
    ensures
        lookup(apply(rows, now, Statement::Update(c)).rows, Probe::Id(id)) == lookup(
            rows,
            Probe::Id(id),
        ),
{
    let after = apply(rows, now, Statement::Update(c)).rows;
    if after != rows {
        lemma_position(rows, Probe::Id(c.id));
        lemma_position(rows, Probe::Id(id));
        lemma_position(after, Probe::Id(id));
        let i = position(rows, Probe::Id(c.id));
        let j = position(rows, Probe::Id(id));
        assert(forall|k: int| 0 <= k < rows.len() ==> (#[trigger] after[k]).id == rows[k].id);
        if j < rows.len() {
            assert(after[j] == rows[j]);
            assert forall|k: int| 0 <= k < j implies !Probe::Id(id).hits(#[trigger] after[k]) by {
                assert(after[k].id == rows[k].id);
            }
            lemma_lookup_at(after, Probe::Id(id), j);
        } else {
            let m = position(after, Probe::Id(id));
            if m < after.len() {
                assert(after[m].id == rows[m].id);
                assert(Probe::Id(id).hits(rows[m]));
            }
        }
    }
}

/// A full update leaves every id with the creation time it had and with
/// the time that a later update would stamp it with, and adds and removes
/// no id.
proof fn lemma_update_keeps_creation(rows: Seq<Categories>, now: Timestamp, c: Categories)
    requires
        well_formed(rows),
    ensures
        forall|id: RowID|
            #[trigger] creation(apply(rows, now, Statement::Update(c)).rows, id) == creation(
                rows,
                id,
            ),
        forall|id: RowID|
            #[trigger] refreshed(apply(rows, now, Statement::Update(c)).rows, now, id)
                == refreshed(rows, now, id),
{
    let after = apply(rows, now, Statement::Update(c)).rows;
    assert forall|id: RowID| #[trigger] creation(after, id) == creation(rows, id) by {
        lemma_update_keeps_ids(rows, now, c, id);
        lemma_position(rows, Probe::Id(id));
        lemma_position(after, Probe::Id(id));
        if lookup(rows, Probe::Id(id)) is Some {
            law_creation_time_stays(rows, now, Statement::Update(c), id);
        }
    }
    assert forall|id: RowID| #[trigger] refreshed(after, now, id) == refreshed(rows, now, id) by {
        if id != c.id {
            lemma_update_leaves_others(rows, now, c, id);
        } else if after != rows {
            lemma_position(rows, Probe::Id(c.id));
            let i = position(rows, Probe::Id(c.id));
            lemma_replaced_found(rows, after[i]);
        }
    }
}

/// The rows that a bulk update reads back are the rows given, each with
/// the creation time of its row in the table and, as its time of update,
/// the later of the store's time and that row's time of update.
proof fn lemma_update_many_rows(
    cs: Seq<Categories>,
    table: Table,
    rows: Seq<Categories>,
    at: int,
    gathered: Seq<Categories>,
    affected: u64,
)
    requires
        well_formed(rows),
        0 <= at <= cs.len(),
        gathered.len() == at,
        forall|id: RowID| #[trigger] creation(rows, id) == creation(table.rows, id),
        forall|id: RowID|
            #[trigger] refreshed(rows, table.now, id) == refreshed(table.rows, table.now, id),
        forall|k: int| 0 <= k < at ==> #[trigger] gathered[k] == updated(table, cs[k]),
    ensures
        carry_out(update_many_recipe(cs), rows, table.now, at, gathered, affected).result matches Ok(
            end,
        ) ==> end.0.len() == cs.len() && forall|k: int|
            0 <= k < cs.len() ==> #[trigger] end.0[k] == updated(table, cs[k]),
    decreases cs.len() - at,
{
    if at < cs.len() {
        let now = table.now;
        let c = cs[at];
        let applied = apply(rows, now, Statement::Update(c));
        lemma_update_many_step(cs, rows, now, at, gathered, affected);
        match applied.result {
            Ok(n) => {
                if n != 0 {
                    lemma_position(rows, Probe::Id(c.id));
                    let i = position(rows, Probe::Id(c.id));
                    let row = Categories {
                        created_on: rows[i].created_on,
                        updated_on: later(now, rows[i].updated_on),
                        ..c
                    };
                    lemma_replaced_found(rows, row);
                    lemma_apply(rows, now, Statement::Update(c));
                    lemma_update_keeps_creation(rows, now, c);
                    assert(creation(rows, c.id) == Some(rows[i].created_on));
                    assert(refreshed(rows, now, c.id) == Some(later(now, rows[i].updated_on)));
                    assert(row == updated(table, c));
                    let more = gathered.push(row);
                    assert forall|k: int| 0 <= k < at + 1 implies #[trigger] more[k] == updated(
                        table,
                        cs[k],
                    ) by {
                        if k < at {
                            assert(more[k] == gathered[k]);
                        }
                    }
                    assert forall|id: RowID| #[trigger]
                        creation(applied.rows, id) == creation(table.rows, id) by {
                        assert(creation(applied.rows, id) == creation(rows, id));
                    }
                    assert forall|id: RowID| #[trigger]
                        refreshed(applied.rows, now, id) == refreshed(table.rows, now, id) by {
                        assert(refreshed(applied.rows, now, id) == refreshed(rows, now, id));
                    }
                    lemma_update_many_rows(cs, table, applied.rows, at + 1, more, n);
                }
            },
            Err(_) => {},
        }
    }
}

/// A bulk update that goes through hands back one row for each row given,
/// in the order given: the fields given, the creation time that the row has
/// in the table, and as the time of update the later of the store's time
/// and the time of update that the row has in the table.
pub proof fn law_update_many_returns_the_updated_rows(cs: Seq<Categories>, table: Table)
    requires
        table.wf(),
        outcome_of(update_many_recipe(cs), table).1 is Written,
    ensures
        outcome_of(update_many_recipe(cs), table).1 matches Verdict::Written(rows, _)
            && rows.len() == cs.len() && forall|k: int|
            0 <= k < cs.len() ==> #[trigger] rows[k] == updated(table, cs[k]),
{
    if cs.len() > 0 {
        lemma_update_many_rows(cs, table, table.rows, 0, Seq::empty(), 0);
    }
}

/// A row that is found by an id stays as it is when a row of another id
/// is added, and no row of that id appears.
proof fn lemma_insert_leaves_others(rows: Seq<Categories>, c: Categories, id: RowID)
    requires
        well_formed(rows),
        add_row(rows, c).result is Ok,
        id != c.id,
    ensures
        lookup(add_row(rows, c).rows, Probe::Id(id)) == lookup(rows, Probe::Id(id)),
{
    let p = slot(rows, c.created_on, 0);
    lemma_slot(rows, c.created_on, 0);
    rows.insert_ensures(p, c);
    let after = rows.insert(p, c);
    lemma_position(rows, Probe::Id(id));
    lemma_position(after, Probe::Id(id));
    let j = position(rows, Probe::Id(id));
    if j < rows.len() {
        let j1 = if j < p {
            j
        } else {
            j + 1
        };
        assert(after[j1] == rows[j]);
        assert forall|k: int| 0 <= k < j1 implies !Probe::Id(id).hits(#[trigger] after[k]) by {
            if k < p {
                assert(after[k] == rows[k]);
            } else if k > p {
                assert(after[k] == rows[k - 1]);
            }
        }
        lemma_lookup_at(after, Probe::Id(id), j1);
    } else {
        let m = position(after, Probe::Id(id));
        if m < after.len() {
            if m < p {
                assert(after[m] == rows[m]);
            } else if m > p {
                assert(after[m] == rows[m - 1]);
                assert(Probe::Id(id).hits(rows[m - 1]));
            }
        }
    }
}

/// After a row was added, a key is taken only if it was taken before or is
/// a key of the row added; and a key of the row added is taken.
proof fn lemma_taken_after_insert(rows: Seq<Categories>, c: Categories, probe: Probe)
    requires
        add_row(rows, c).result is Ok,
    ensures
        taken(add_row(rows, c).rows, probe, -1) <==> taken(rows, probe, -1) || probe.hits(c),
{
    let p = slot(rows, c.created_on, 0);
    lemma_slot(rows, c.created_on, 0);
    rows.insert_ensures(p, c);
    let after = rows.insert(p, c);
    if taken(after, probe, -1) {
        let k = choose|k: int| 0 <= k < after.len() && k != -1 && probe.hits(#[trigger] after[k]);
        if k < p {
            assert(after[k] == rows[k]);
            assert(probe.hits(rows[k]));
        } else if k > p {
            assert(after[k] == rows[k - 1]);
            assert(probe.hits(rows[k - 1]));
        }
    }
    if taken(rows, probe, -1) {
        let k = choose|k: int| 0 <= k < rows.len() && k != -1 && probe.hits(#[trigger] rows[k]);
        let k1 = if k < p {
            k
        } else {
            k + 1
        };
        assert(after[k1] == rows[k]);
        assert(probe.hits(after[k1]));
    }
    if probe.hits(c) {
        assert(probe.hits(after[p]));
    }
}

/// A bulk insert of three rows of which the second has the code of the
/// first: where the first and the third clash with no row of the table nor
/// with each other, and the table has room for two rows, the insert goes
/// through, hands back the first and the third row in that order, and the
/// table then holds those two beside the rows it had; the second row is
/// not in it.
pub proof fn law_insert_many_skips_the_duplicate(
    table: Table,
    first: Categories,
    second: Categories,
    third: Categories,
)
    requires
        table.wf(),
        table.saved is None,
        table.rows.len() + 2 <= capacity(),
        second.code@ == first.code@,
        third.code@ != first.code@,
        first.id != second.id && first.id != third.id && second.id != third.id,
        first.url_slug is Some ==> slug_of(first.url_slug) != slug_of(third.url_slug),
        clash(table.rows, first, -1) is None,
        clash(table.rows, third, -1) is None,
        !taken(table.rows, Probe::Id(second.id), -1),
    ensures
        ({
            let one = add_row(table.rows, first).rows;
            let two = add_row(one, third).rows;
            &&& outcome_of(insert_many_recipe(seq![first, second, third]), table) == (
                Table { rows: two, saved: None, now: table.now },
                Verdict::Written(seq![first, third], 1),
            )
            &&& two.len() == table.rows.len() + 2
            &&& lookup(two, Probe::Id(first.id)) == Some(first)
            &&& lookup(two, Probe::Id(third.id)) == Some(third)
            &&& lookup(two, Probe::Id(second.id)) is None
            &&& forall|id: RowID|
                id != first.id && id != third.id ==> #[trigger] lookup(two, Probe::Id(id))
                    == lookup(table.rows, Probe::Id(id))
        }),
{
    let cs = seq![first, second, third];
    let rows = table.rows;
    let now = table.now;
    let none = Seq::<Categories>::empty();
    let one = add_row(rows, first).rows;
    lemma_add_row(rows, first);
    lemma_slot(rows, first.created_on, 0);
    rows.insert_ensures(slot(rows, first.created_on, 0), first);
    lemma_added_found(rows, first);
    lemma_taken_after_insert(rows, first, Probe::Id(second.id));
    lemma_taken_after_insert(rows, first, Probe::Code(second.code@));
    assert(add_row(one, second).result is Err);
    lemma_taken_after_insert(rows, first, Probe::Id(third.id));
    lemma_taken_after_insert(rows, first, Probe::Code(third.code@));
    if third.url_slug is Some {
        lemma_taken_after_insert(rows, first, Probe::Slug(third.url_slug->0@));
    }
    assert(clash(one, third, -1) is None);
    assert(add_row(one, third).result is Ok);
    let two = add_row(one, third).rows;
    lemma_slot(one, third.created_on, 0);
    one.insert_ensures(slot(one, third.created_on, 0), third);
    lemma_added_found(one, third);
    law_insert_many_passes_over(cs, rows, now, 0, none, 0);
    law_insert_many_passes_over(cs, one, now, 1, none.push(first), 1);
    law_insert_many_passes_over(cs, one, now, 2, none.push(first), 1);
    assert(none.push(first).push(third) == seq![first, third]);
    lemma_insert_leaves_others(one, third, first.id);
    lemma_position(rows, Probe::Id(second.id));
    lemma_insert_leaves_others(rows, first, second.id);
    lemma_insert_leaves_others(one, third, second.id);
    assert forall|id: RowID| id != first.id && id != third.id implies #[trigger] lookup(
        two,
        Probe::Id(id),
    ) == lookup(rows, Probe::Id(id)) by {
        lemma_insert_leaves_others(rows, first, id);
        lemma_insert_leaves_others(one, third, id);
    }
}

/// Insert-or-overwrite of a row that clashes with no row of a table with
/// room inserts it: one row is reported as affected, the row is in the
/// table at its place by creation time, every other row is as it was, and
/// the row is found by its id as it was given.
pub proof fn law_upsert_creates(rows: Seq<Categories>, now: Timestamp, c: Categories)
    requires
        well_formed(rows),
        clash(rows, c, -1) is None,
        rows.len() < capacity(),
    ensures
        apply(rows, now, Statement::Upsert(c)).result == Ok::<u64, FaultView>(1),
        apply(rows, now, Statement::Upsert(c)).rows == rows.insert(slot(rows, c.created_on, 0), c),
        lookup(apply(rows, now, Statement::Upsert(c)).rows, Probe::Id(c.id)) == Some(c),
        forall|id: RowID|
            id != c.id ==> #[trigger] lookup(
                apply(rows, now, Statement::Upsert(c)).rows,
                Probe::Id(id),
            ) == lookup(rows, Probe::Id(id)),
{
    lemma_position(rows, Probe::Id(c.id));
    lemma_added_found(rows, c);
    assert forall|id: RowID| id != c.id implies #[trigger] lookup(
        apply(rows, now, Statement::Upsert(c)).rows,
        Probe::Id(id),
    ) == lookup(rows, Probe::Id(id)) by {
        lemma_insert_leaves_others(rows, c, id);
    }
}

/// A write of no statements finishes at its first step, with nothing
/// written and without asking anything of the store: no transaction is
/// opened for an empty batch.
pub proof fn law_empty_write_asks_nothing(recipe: Recipe, reply: Reply)
    requires
        recipe.items.len() == 0,
    ensures
        advance(fresh(Intent::Write(recipe)), reply).1 == Move::Finish(
            Verdict::Written(Seq::empty(), 0),
        ),
{
}

/// In a write that is atomic and not lenient, a statement that fails or,
/// if the write is strict, affects no row is answered by a rollback, and
/// the step after the rollback finishes with the error, whatever the store
/// said to the rollback: nothing is committed after a failure.
pub proof fn law_failure_rolls_back(op: Progress, recipe: Recipe, reply: Reply, later: Reply)
    requires
        op.plan == Intent::Write(recipe),
        op.stage == Stage::Writing,
        0 <= op.cursor < recipe.items.len(),
        recipe.atomic,
        !recipe.lenient,
        reply is Failed || (recipe.strict && reply == Reply::Affected(0)),
    ensures
        advance(op, reply).1 == Move::Perform(Action::Rollback),
        advance(advance(op, reply).0, later).1 matches Move::Finish(Verdict::Failed(error))
            && error == (match reply {
            Reply::Failed(f) => ErrorView::Sqlx(f),
            _ => ErrorView::NotFound(missing_text(recipe.items[op.cursor])),
        }),
{
}

/// In a lenient write, a statement that fails stops nothing: the next step
/// asks for the next statement, or for the commit after the last one.
pub proof fn law_lenient_write_goes_on(op: Progress, recipe: Recipe, fault: FaultView)
    requires
        op.plan == Intent::Write(recipe),
        op.stage == Stage::Writing,
        0 <= op.cursor < recipe.items.len(),
        recipe.atomic,
        recipe.lenient,
    ensures
        advance(op, Reply::Failed(fault)).1 == if op.cursor + 1 < recipe.items.len() {
            Move::Perform(Action::Execute(recipe.items[op.cursor + 1]))
        } else {
            Move::Perform(Action::Commit)
        },
        advance(op, Reply::Failed(fault)).0.gathered == op.gathered,
{
}

} // verus!
