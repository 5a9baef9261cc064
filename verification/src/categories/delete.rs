//! Deleting categories: one row by a unique key, many rows by id, and every
//! row or every inactive row.

use vstd::prelude::*;
use crate::categories::model::Categories;
use crate::categories::protocol::{
    missing_text, Intent, Operation, Plan, Recipe, Script, Verdict,
};
use crate::categories::script::{carry_out, lemma_run_write, outcome_of};
use crate::categories::statement::{Filter, Key, Probe, Selection, Statement};
use crate::categories::store::MemoryStore;
use crate::categories::table::{lemma_position, lemma_sift, lemma_sift_all, position, sift, Table};
use crate::domain::{id_text, RowID, UrlSlug};
use crate::error::{DatabaseError, DatabaseResult, ErrorView};

verus! {

/// The script of a delete by key: delete the row, fail as not found when no
/// row has the key.
pub open spec fn delete_recipe(key: Key) -> Recipe {
    Recipe {
        items: seq![Statement::Delete(key)],
        atomic: false,
        lenient: false,
        strict: true,
        reread: false,
    }
}

/// The script of a bulk delete: in one transaction, delete each row; the
/// first id that no row has fails them all.
pub open spec fn delete_many_recipe(ids: Seq<RowID>) -> Recipe {
    Recipe {
        items: Seq::new(ids.len(), |i: int| Statement::Delete(Key::Id(ids[i]))),
        atomic: true,
        lenient: false,
        strict: true,
        reread: false,
    }
}

/// The script of a purge: delete every row that the selection keeps.
pub open spec fn purge_recipe(selection: Selection) -> Recipe {
    Recipe {
        items: seq![Statement::Purge(selection)],
        atomic: false,
        lenient: false,
        strict: false,
        reread: false,
    }
}

/// The filter that keeps the inactive rows.
pub open spec fn inactive() -> Filter {
    Filter { kind: None, active: Some(false), name: None }
}

/// The message for an id that no row has.
pub open spec fn no_such_id(id: RowID) -> Seq<char> {
    "Category with id "@ + id_text(id) + " not found"@
}

/// The message for a code that no row has.
pub open spec fn no_such_code(code: Seq<char>) -> Seq<char> {
    "Category with code '"@ + code + "' not found"@
}

/// The message for a slug that no row has.
pub open spec fn no_such_slug(slug: Seq<char>) -> Seq<char> {
    "Category with URL slug '"@ + slug + "' not found"@
}

/// What deleting the row with a key amounts to: the rows without the first
/// row that has the key, or the rows as they were and `NotFound` with this
/// message.
pub open spec fn deleted(
    before: Table,
    probe: Probe,
    message: Seq<char>,
    after: Table,
    result: DatabaseResult<()>,
) -> bool {
    let i = position(before.rows, probe);
    if i < before.rows.len() {
        &&& result is Ok
        &&& after == (Table { rows: before.rows.remove(i), ..before })
    } else {
        &&& result matches Err(e) && e@ == ErrorView::NotFound(message)
        &&& after == before
    }
}

impl Plan {
    /// The plan of a delete by a unique key.
    pub fn delete(key: Key) -> (plan: Plan)
        ensures
            plan@ == Intent::Write(delete_recipe(key)),
    {
        let mut items: Vec<Statement> = Vec::new();
        items.push(Statement::Delete(key));
        assert(items@ == seq![Statement::Delete(key)]);
        Plan::Write(Script { items, atomic: false, lenient: false, strict: true, reread: false })
    }

    /// The plan of [`Categories::delete_many_by_id`].
    pub fn delete_many_by_id(ids: &[RowID]) -> (plan: Plan)
        ensures
            plan@ == Intent::Write(delete_many_recipe(ids@)),
    {
        let mut items: Vec<Statement> = Vec::new();
        let mut i: usize = 0;
        while i < ids.len()
            invariant
                i <= ids@.len(),
                items@.len() == i,
                forall|k: int| 0 <= k < i ==> items@[k] == Statement::Delete(Key::Id(ids@[k])),
            decreases ids@.len() - i,
        {
            items.push(Statement::Delete(Key::Id(ids[i])));
            i = i + 1;
        }
        assert(items@ == delete_many_recipe(ids@).items);
        Plan::Write(Script { items, atomic: true, lenient: false, strict: true, reread: false })
    }

    /// The plan of a purge of the rows that the selection keeps.
    pub fn purge(selection: Selection) -> (plan: Plan)
        ensures
            plan@ == Intent::Write(purge_recipe(selection)),
    {
        let mut items: Vec<Statement> = Vec::new();
        items.push(Statement::Purge(selection));
        assert(items@ == seq![Statement::Purge(selection)]);
        Plan::Write(Script { items, atomic: false, lenient: false, strict: false, reread: false })
    }
}

/// Deletes the row with the key.
fn delete_by_key(key: Key, store: &mut MemoryStore) -> (result: DatabaseResult<()>)
    requires
        old(store).wf(),
    ensures
        final(store).wf(),
        deleted(old(store)@, key@, missing_text(Statement::Delete(key)), final(store)@, result),
{
    proof {
        reveal_with_fuel(carry_out, 3);
        lemma_run_write(delete_recipe(key), store@);
        lemma_position(store@.rows, key@);
    }
    store.run(Operation::new(Plan::delete(key))).into_unit()
}

impl Categories {
    /// Deletes the row that has this row's id.
    ///
    /// Where no row has the id, the result is `NotFound` and the store is
    /// left as it was.
    pub fn delete(&self, store: &mut MemoryStore) -> (result: DatabaseResult<()>)
        requires
            old(store).wf(),
        ensures
            final(store).wf(),
            deleted(old(store)@, Probe::Id(self.id), no_such_id(self.id), final(store)@, result),
    {
        delete_by_key(Key::Id(self.id), store)
    }

    /// Deletes the row with this id.
    ///
    /// Where no row has the id, the result is `NotFound` and the store is
    /// left as it was.
    pub fn delete_by_id(id: RowID, store: &mut MemoryStore) -> (result: DatabaseResult<()>)
        requires
            old(store).wf(),
        ensures
            final(store).wf(),
            deleted(old(store)@, Probe::Id(id), no_such_id(id), final(store)@, result),
    {
        delete_by_key(Key::Id(id), store)
    }

    /// Deletes the rows with these ids in one transaction, in the order
    /// given.
    ///
    /// All rows are deleted or none: at the first id that no row has, the
    /// transaction is rolled back, the store is left as it was, and the
    /// result is `NotFound`. An empty list succeeds and opens no
    /// transaction.
    pub fn delete_many_by_id(ids: &[RowID], store: &mut MemoryStore) -> (result: DatabaseResult<
        (),
    >)
        requires
            old(store).wf(),
        ensures
            final(store).wf(),
            final(store)@ == outcome_of(delete_many_recipe(ids@), old(store)@).0,
            match outcome_of(delete_many_recipe(ids@), old(store)@).1 {
                Verdict::Written(_, _) => result is Ok,
                Verdict::Failed(error) => result matches Err(e) && e@ == error,
                _ => false,
            },
            result is Err ==> final(store)@ == old(store)@,
            ids@.len() == 0 ==> result is Ok && final(store)@ == old(store)@,
    {
        proof {
            lemma_run_write(delete_many_recipe(ids@), store@);
        }
        store.run(Operation::new(Plan::delete_many_by_id(ids))).into_unit()
    }

    /// Deletes every inactive row and hands back how many there were.
    pub fn delete_inactive(store: &mut MemoryStore) -> (result: DatabaseResult<u64>)
        requires
            old(store).wf(),
        ensures
            final(store).wf(),
            final(store)@ == (Table {
                rows: sift(old(store)@.rows, inactive(), false),
                ..old(store)@
            }),
            result == Ok::<u64, DatabaseError>(
                (old(store)@.rows.len() - final(store)@.rows.len()) as u64,
            ),
            final(store)@.rows.len() <= old(store)@.rows.len(),
    {
        let selection = Selection::of(None, Some(false));
        proof {
            reveal_with_fuel(carry_out, 3);
            lemma_run_write(purge_recipe(selection), store@);
            lemma_sift(store@.rows, inactive(), false);
        }
        store.run(Operation::new(Plan::purge(selection))).into_affected()
    }

    /// Deletes the row with this code.
    ///
    /// Where no row has the code, the result is `NotFound` and the store is
    /// left as it was.
    pub fn delete_by_code(code: &str, store: &mut MemoryStore) -> (result: DatabaseResult<()>)
        requires
            old(store).wf(),
        ensures
            final(store).wf(),
            deleted(old(store)@, Probe::Code(code@), no_such_code(code@), final(store)@, result),
    {
        delete_by_key(Key::Code(String::from_str(code)), store)
    }

    /// Deletes the row with this slug.
    ///
    /// Where no row has the slug, the result is `NotFound` and the store is
    /// left as it was.
    pub fn delete_by_url_slug(slug: &UrlSlug, store: &mut MemoryStore) -> (result:
        DatabaseResult<()>)
        requires
            old(store).wf(),
        ensures
            final(store).wf(),
            deleted(old(store)@, Probe::Slug(slug@), no_such_slug(slug@), final(store)@, result),
    {
        delete_by_key(Key::Slug(slug.duplicate()), store)
    }

    /// Deletes every row and hands back how many there were.
    pub fn delete_all(store: &mut MemoryStore) -> (result: DatabaseResult<u64>)
        requires
            old(store).wf(),
        ensures
            final(store).wf(),
            final(store)@ == (Table { rows: Seq::empty(), ..old(store)@ }),
            result == Ok::<u64, DatabaseError>(old(store)@.rows.len() as u64),
    {
        let selection = Selection::all();
        proof {
            reveal_with_fuel(carry_out, 3);
            lemma_run_write(purge_recipe(selection), store@);
            lemma_sift_all(store@.rows);
        }
        store.run(Operation::new(Plan::purge(selection))).into_affected()
    }
}

} // verus!
