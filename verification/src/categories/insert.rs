//! Inserting categories: one row, many rows, and insert-or-overwrite.

use vstd::prelude::*;
use crate::categories::model::Categories;
use crate::categories::protocol::{Intent, Operation, Plan, Recipe, Script, Verdict};
use crate::categories::script::{carry_out, lemma_gathered_bound, lemma_run_write, outcome_of};
use crate::categories::statement::{Probe, Statement};
use crate::categories::store::MemoryStore;
use crate::categories::table::{
    add_row, apply, lemma_added_found, lemma_position, lemma_replaced_found, lookup,
    position, Table,
};
use crate::domain::Timestamp;
use crate::error::{DatabaseError, DatabaseResult, ErrorView, FaultView};

verus! {

/// The script of a single insert: insert the row, then read it back.
pub open spec fn insert_recipe(c: Categories) -> Recipe {
    Recipe {
        items: seq![Statement::Insert(c)],
        atomic: false,
        lenient: false,
        strict: false,
        reread: true,
    }
}

/// The script of a bulk insert: in one transaction, insert each row and
/// read it back; a row that fails is passed over.
pub open spec fn insert_many_recipe(cs: Seq<Categories>) -> Recipe {
    Recipe {
        items: Seq::new(cs.len(), |i: int| Statement::Insert(cs[i])),
        atomic: true,
        lenient: true,
        strict: false,
        reread: true,
    }
}

/// The script of an insert-or-overwrite: one statement, then read the row
/// back.
pub open spec fn upsert_recipe(c: Categories) -> Recipe {
    Recipe {
        items: seq![Statement::Upsert(c)],
        atomic: false,
        lenient: false,
        strict: false,
        reread: true,
    }
}

/// How an insert-or-overwrite went, told from the number of rows that the
/// statement reported.
#[derive(Clone, Copy, Debug, PartialEq, Eq, Structural)]
pub enum UpsertKind {
    /// One row affected: a new row was inserted.
    Inserted,
    /// Two rows affected: an existing row was overwritten.
    Updated,
    /// Any other count.
    Unknown,
}

/// Tells an insert from an overwrite by the number of rows affected. This
/// serves observation only; no operation decides anything by it.
pub fn classify_upsert(affected: u64) -> (kind: UpsertKind)
    ensures
        kind == if affected == 1 {
            UpsertKind::Inserted
        } else if affected == 2 {
            UpsertKind::Updated
        } else {
            UpsertKind::Unknown
        },
{
    if affected == 1 {
        UpsertKind::Inserted
    } else if affected == 2 {
        UpsertKind::Updated
    } else {
        UpsertKind::Unknown
    }
}

impl Plan {
    /// The plan of [`Categories::insert`].
    pub fn insert(category: &Categories) -> (plan: Plan)
        ensures
            plan@ == Intent::Write(insert_recipe(*category)),
    {
        let mut items: Vec<Statement> = Vec::new();
        items.push(Statement::Insert(category.duplicate()));
        assert(items@ == seq![Statement::Insert(*category)]);
        Plan::Write(Script { items, atomic: false, lenient: false, strict: false, reread: true })
    }

    /// The plan of [`Categories::insert_many`].
    pub fn insert_many(categories: &[Categories]) -> (plan: Plan)
        ensures
            plan@ == Intent::Write(insert_many_recipe(categories@)),
    {
        let mut items: Vec<Statement> = Vec::new();
        let mut i: usize = 0;
        while i < categories.len()
            invariant
                i <= categories@.len(),
                items@.len() == i,
                forall|k: int| 0 <= k < i ==> items@[k] == Statement::Insert(categories@[k]),
            decreases categories@.len() - i,
        {
            items.push(Statement::Insert(categories[i].duplicate()));
            i = i + 1;
        }
        assert(items@ == insert_many_recipe(categories@).items);
        Plan::Write(Script { items, atomic: true, lenient: true, strict: false, reread: true })
    }

    /// The plan of [`Categories::insert_or_update`].
    pub fn insert_or_update(category: &Categories) -> (plan: Plan)
        ensures
            plan@ == Intent::Write(upsert_recipe(*category)),
    {
        let mut items: Vec<Statement> = Vec::new();
        items.push(Statement::Upsert(category.duplicate()));
        assert(items@ == seq![Statement::Upsert(*category)]);
        Plan::Write(Script { items, atomic: false, lenient: false, strict: false, reread: true })
    }
}

impl Categories {
    /// Inserts this row and hands back the row as the store holds it.
    ///
    /// The insert goes through exactly when the row breaks no uniqueness
    /// rule and the table has room; the store then holds the row, at its
    /// place by creation time, and the row handed back is this row.
    /// Otherwise the store is left as it was and the store's fault comes
    /// back.
    pub fn insert(&self, store: &mut MemoryStore) -> (result: DatabaseResult<Categories>)
        requires
            old(store).wf(),
        ensures
            final(store).wf(),
            final(store)@ == (Table { rows: add_row(old(store)@.rows, *self).rows, ..old(store)@ }),
            match add_row(old(store)@.rows, *self).result {
                Ok(_) => result == Ok::<Categories, DatabaseError>(*self),
                Err(f) => result matches Err(e) && e@ == ErrorView::Sqlx(f),
            },
    {
        proof {
            reveal_with_fuel(carry_out, 3);
            lemma_run_write(insert_recipe(*self), store@);
            if add_row(store@.rows, *self).result is Ok {
                lemma_added_found(store@.rows, *self);
            }
        }
        store.run(Operation::new(Plan::insert(self))).into_row()
    }

    /// Inserts the rows in one transaction, each read back after its
    /// insert, and hands back the rows that went in, in the order given.
    ///
    /// A row that the store refuses is passed over: the rows after it are
    /// still inserted, and the transaction is committed. An empty list
    /// yields an empty result and opens no transaction. The operation fails
    /// only when the transaction cannot be opened.
    pub fn insert_many(categories: &[Categories], store: &mut MemoryStore) -> (result:
        DatabaseResult<Vec<Categories>>)
        requires
            old(store).wf(),
        ensures
            final(store).wf(),
            final(store)@ == outcome_of(insert_many_recipe(categories@), old(store)@).0,
            match outcome_of(insert_many_recipe(categories@), old(store)@).1 {
                Verdict::Written(rows, _) => result matches Ok(v) && v@ == rows,
                Verdict::Failed(error) => result matches Err(e) && e@ == error,
                _ => false,
            },
            categories@.len() == 0 ==> final(store)@ == old(store)@,
            categories@.len() == 0 || old(store)@.saved is None ==> result is Ok,
            categories@.len() > 0 && old(store)@.saved is Some ==> final(store)@ == old(store)@ && (
            result matches Err(e) && e@ == ErrorView::Sqlx(FaultView::TransactionOpen)),
            result matches Ok(v) ==> v@.len() <= categories@.len(),
    {
        proof {
            lemma_run_write(insert_many_recipe(categories@), store@);
            lemma_insert_many_goes_on(categories@, store@.rows, store@.now, 0, Seq::empty(), 0);
            lemma_gathered_bound(
                insert_many_recipe(categories@),
                store@.rows,
                store@.now,
                0,
                Seq::empty(),
                0,
            );
        }
        store.run(Operation::new(Plan::insert_many(categories))).into_rows()
    }

    /// Inserts the row, or overwrites the row that has its id, and hands
    /// back the row as the store holds it.
    ///
    /// Where no row has the id, this is an insert. Where one has, every
    /// field but the id and the creation time is overwritten. A clash with
    /// another row's code or slug leaves the store as it was and comes back
    /// as the store's fault.
    pub fn insert_or_update(category: &Categories, store: &mut MemoryStore) -> (result:
        DatabaseResult<Categories>)
        requires
            old(store).wf(),
        ensures
            final(store).wf(),
            final(store)@ == (Table {
                rows: apply(
                    old(store)@.rows,
                    old(store)@.now,
                    Statement::Upsert(*category),
                ).rows,
                ..old(store)@
            }),
            match apply(old(store)@.rows, old(store)@.now, Statement::Upsert(*category)).result {
                Ok(_) => {
                    let i = position(old(store)@.rows, Probe::Id(category.id));
                    if i < old(store)@.rows.len() {
                        result == Ok::<Categories, DatabaseError>(
                            Categories {
                                created_on: old(store)@.rows[i].created_on,
                                ..*category
                            },
                        )
                    } else {
                        result == Ok::<Categories, DatabaseError>(*category)
                    }
                },
                Err(f) => result matches Err(e) && e@ == ErrorView::Sqlx(f),
            },
    {
        proof {
            reveal_with_fuel(carry_out, 3);
            let rows = store@.rows;
            let statement = Statement::Upsert(*category);
            lemma_run_write(upsert_recipe(*category), store@);
            lemma_position(rows, Probe::Id(category.id));
            let i = position(rows, Probe::Id(category.id));
            if apply(rows, store@.now, statement).result is Ok {
                if i < rows.len() {
                    lemma_replaced_found(
                        rows,
                        Categories { created_on: rows[i].created_on, ..*category },
                    );
                } else {
                    lemma_added_found(rows, *category);
                }
            }
        }
        store.run(Operation::new(Plan::insert_or_update(category))).into_row()
    }
}

/// The statements of a bulk insert never stop it.
pub proof fn lemma_insert_many_goes_on(
    cs: Seq<Categories>,
    rows: Seq<Categories>,
    now: Timestamp,
    at: int,
    gathered: Seq<Categories>,
    affected: u64,
)
    requires
        0 <= at <= cs.len(),
    ensures
        carry_out(insert_many_recipe(cs), rows, now, at, gathered, affected).result is Ok,
    decreases cs.len() - at,
{
    if at < cs.len() {
        let applied = add_row(rows, cs[at]);
        match applied.result {
            Err(_) => lemma_insert_many_goes_on(cs, applied.rows, now, at + 1, gathered, affected),
            Ok(n) => match lookup(applied.rows, Probe::Id(cs[at].id)) {
                Some(row) => lemma_insert_many_goes_on(
                    cs,
                    applied.rows,
                    now,
                    at + 1,
                    gathered.push(row),
                    n,
                ),
                None => lemma_insert_many_goes_on(cs, applied.rows, now, at + 1, gathered, n),
            },
        }
    }
}

} // verus!
