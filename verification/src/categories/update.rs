//! Updating categories: one row in full, many rows in full, and the
//! active flag alone.

use vstd::prelude::*;
use crate::categories::model::Categories;
use crate::categories::protocol::{
    missing_text, Intent, Operation, Plan, Recipe, Script, Verdict,
};
use crate::categories::script::{carry_out, lemma_gathered_count, lemma_run_write, outcome_of};
use crate::categories::statement::{Probe, Statement};
use crate::categories::store::MemoryStore;
use crate::categories::table::{
    apply, lemma_position, lemma_replaced_found, position, Table,
};
use crate::domain::{later, RowID};
use crate::error::{DatabaseError, DatabaseResult, ErrorView};

verus! {

/// The script of a full update: overwrite the row, fail as not found when
/// no row has the id, then read the row back.
pub open spec fn update_recipe(c: Categories) -> Recipe {
    Recipe {
        items: seq![Statement::Update(c)],
        atomic: false,
        lenient: false,
        strict: true,
        reread: true,
    }
}

/// The script of a bulk update: in one transaction, overwrite each row and
/// read it back; the first row that fails or is not found fails them all.
pub open spec fn update_many_recipe(cs: Seq<Categories>) -> Recipe {
    Recipe {
        items: Seq::new(cs.len(), |i: int| Statement::Update(cs[i])),
        atomic: true,
        lenient: false,
        strict: true,
        reread: true,
    }
}

/// The script of an update of the active flag.
pub open spec fn set_active_recipe(id: RowID, is_active: bool) -> Recipe {
    Recipe {
        items: seq![Statement::SetActive(id, is_active)],
        atomic: false,
        lenient: false,
        strict: true,
        reread: true,
    }
}

impl Plan {
    /// The plan of [`Categories::update`].
    pub fn update(category: &Categories) -> (plan: Plan)
        ensures
            plan@ == Intent::Write(update_recipe(*category)),
    {
        let mut items: Vec<Statement> = Vec::new();
        items.push(Statement::Update(category.duplicate()));
        assert(items@ == seq![Statement::Update(*category)]);
        Plan::Write(Script { items, atomic: false, lenient: false, strict: true, reread: true })
    }

    /// The plan of [`Categories::update_many`].
    pub fn update_many(categories: &[Categories]) -> (plan: Plan)
        ensures
            plan@ == Intent::Write(update_many_recipe(categories@)),
    {
        let mut items: Vec<Statement> = Vec::new();
        let mut i: usize = 0;
        while i < categories.len()
            invariant
                i <= categories@.len(),
                items@.len() == i,
                forall|k: int| 0 <= k < i ==> items@[k] == Statement::Update(categories@[k]),
            decreases categories@.len() - i,
        {
            items.push(Statement::Update(categories[i].duplicate()));
            i = i + 1;
        }
        assert(items@ == update_many_recipe(categories@).items);
        Plan::Write(Script { items, atomic: true, lenient: false, strict: true, reread: true })
    }

    /// The plan of [`Categories::update_active_status`].
    pub fn update_active_status(id: RowID, is_active: bool) -> (plan: Plan)
        ensures
            plan@ == Intent::Write(set_active_recipe(id, is_active)),
    {
        let mut items: Vec<Statement> = Vec::new();
        items.push(Statement::SetActive(id, is_active));
        assert(items@ == seq![Statement::SetActive(id, is_active)]);
        Plan::Write(Script { items, atomic: false, lenient: false, strict: true, reread: true })
    }
}

impl Categories {
    /// Overwrites the row that has this row's id with this row's fields,
    /// and hands back the row as the store holds it.
    ///
    /// The id and the creation time of the stored row stay; its time of
    /// update becomes the store's time, or stays where that would take it
    /// back. Where no row has the id, the result
    /// is `NotFound`. A clash with another row's code or slug comes back as
    /// the store's fault. In both cases the store is left as it was.
    pub fn update(&self, store: &mut MemoryStore) -> (result: DatabaseResult<Categories>)
        requires
            old(store).wf(),
        ensures
            final(store).wf(),
            final(store)@ == (Table {
                rows: apply(old(store)@.rows, old(store)@.now, Statement::Update(*self)).rows,
                ..old(store)@
            }),
            ({
                let rows = old(store)@.rows;
                let i = position(rows, Probe::Id(self.id));
                if i < rows.len() {
                    match apply(rows, old(store)@.now, Statement::Update(*self)).result {
                        Ok(_) => result == Ok::<Categories, DatabaseError>(
                            Categories {
                                created_on: rows[i].created_on,
                                updated_on: later(old(store)@.now, rows[i].updated_on),
                                ..*self
                            },
                        ),
                        Err(f) => result matches Err(e) && e@ == ErrorView::Sqlx(f),
                    }
                } else {
                    &&& result matches Err(e) && e@ == ErrorView::NotFound(
                        missing_text(Statement::Update(*self)),
                    )
                    &&& final(store)@ == old(store)@
                }
            }),
    {
        proof {
            reveal_with_fuel(carry_out, 3);
            let rows = store@.rows;
            lemma_run_write(update_recipe(*self), store@);
            lemma_position(rows, Probe::Id(self.id));
            let i = position(rows, Probe::Id(self.id));
            if i < rows.len() {
                lemma_replaced_found(
                    rows,
                    Categories {
                        created_on: rows[i].created_on,
                        updated_on: later(store@.now, rows[i].updated_on),
                        ..*self
                    },
                );
            }
        }
        store.run(Operation::new(Plan::update(self))).into_row()
    }

    /// Overwrites the rows in one transaction, in the order given, and
    /// hands back the rows as the store holds them.
    ///
    /// All rows are updated or none: where one of them is not found or is
    /// refused by the store, the transaction is rolled back, the store is
    /// left as it was, and the error comes back. An empty list yields an
    /// empty result and opens no transaction.
    pub fn update_many(categories: &[Categories], store: &mut MemoryStore) -> (result:
        DatabaseResult<Vec<Categories>>)
        requires
            old(store).wf(),
        ensures
            final(store).wf(),
            final(store)@ == outcome_of(update_many_recipe(categories@), old(store)@).0,
            match outcome_of(update_many_recipe(categories@), old(store)@).1 {
                Verdict::Written(rows, _) => result matches Ok(v) && v@ == rows,
                Verdict::Failed(error) => result matches Err(e) && e@ == error,
                _ => false,
            },
            result is Err ==> final(store)@ == old(store)@,
            categories@.len() == 0 ==> result is Ok && final(store)@ == old(store)@,
            result matches Ok(v) ==> v@.len() == categories@.len(),
    {
        proof {
            lemma_run_write(update_many_recipe(categories@), store@);
            lemma_gathered_count(
                update_many_recipe(categories@),
                store@.rows,
                store@.now,
                0,
                Seq::empty(),
                0,
            );
        }
        store.run(Operation::new(Plan::update_many(categories))).into_rows()
    }

    /// Sets the active flag of the row with this id, and hands back the
    /// row as the store holds it.
    ///
    /// Only the flag and the time of update change; the time of update
    /// becomes the store's time, or stays where that would take it back.
    /// Where no row has the id, the result is `NotFound` and the store is
    /// left as it was.
    pub fn update_active_status(id: RowID, is_active: bool, store: &mut MemoryStore) -> (result:
        DatabaseResult<Categories>)
        requires
            old(store).wf(),
        ensures
            final(store).wf(),
            ({
                let rows = old(store)@.rows;
                let i = position(rows, Probe::Id(id));
                if i < rows.len() {
                    let row = Categories {
                        is_active,
                        updated_on: later(old(store)@.now, rows[i].updated_on),
                        ..rows[i]
                    };
                    &&& result == Ok::<Categories, DatabaseError>(row)
                    &&& final(store)@ == (Table { rows: rows.update(i, row), ..old(store)@ })
                } else {
                    &&& result matches Err(e) && e@ == ErrorView::NotFound(
                        missing_text(Statement::SetActive(id, is_active)),
                    )
                    &&& final(store)@ == old(store)@
                }
            }),
    {
        proof {
            reveal_with_fuel(carry_out, 3);
            let rows = store@.rows;
            lemma_run_write(set_active_recipe(id, is_active), store@);
            lemma_position(rows, Probe::Id(id));
            let i = position(rows, Probe::Id(id));
            if i < rows.len() {
                lemma_replaced_found(
                    rows,
                    Categories {
                        is_active,
                        updated_on: later(store@.now, rows[i].updated_on),
                        ..rows[i]
                    },
                );
            }
        }
        store.run(Operation::new(Plan::update_active_status(id, is_active))).into_row()
    }
}

} // verus!
