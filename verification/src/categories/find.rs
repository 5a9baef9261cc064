//! Reading categories: one row by a unique key, listings, and pages of
//! listings. No read changes the store.

use vstd::prelude::*;
use crate::categories::model::Categories;
use crate::categories::protocol::{Intent, Operation, Plan};
use crate::categories::script::{lemma_run_find, lemma_run_list, lemma_run_page};
use crate::categories::statement::{Filter, Key, Probe, Selection};
use crate::categories::store::MemoryStore;
use crate::categories::table::{lemma_sift, lookup, newest_first, page_of, select};
use crate::domain::{CategoryTypes, RowID, UrlSlug};
use crate::error::{DatabaseError, DatabaseResult};

verus! {

/// The filter that keeps every row.
pub open spec fn everything() -> Filter {
    Filter { kind: None, active: None, name: None }
}

/// The filter that keeps the rows with this active flag.
pub open spec fn with_activity(active: bool) -> Filter {
    Filter { kind: None, active: Some(active), name: None }
}

/// The filter that keeps the rows of this type.
pub open spec fn of_type(kind: CategoryTypes) -> Filter {
    Filter { kind: Some(kind), active: None, name: None }
}

/// The filter that keeps the active rows of this type.
pub open spec fn active_of_type(kind: CategoryTypes) -> Filter {
    Filter { kind: Some(kind), active: Some(true), name: None }
}

/// The filter that keeps the rows whose name contains this text, letter
/// case ignored.
pub open spec fn with_name(name: Seq<char>) -> Filter {
    Filter { kind: None, active: None, name: Some(name) }
}

/// The filter that a pair of optional filters stands for: a row passes
/// when it has the type, if a type is given, and the active flag, if a flag
/// is given. With neither given every row passes.
pub open spec fn filter_for(kind: Option<CategoryTypes>, active: Option<bool>) -> Filter {
    Filter { kind, active, name: None }
}

/// What a paged listing yields: the page, and the size of the whole
/// listing.
pub open spec fn paged(
    rows: Seq<Categories>,
    filter: Filter,
    offset: i32,
    limit: i32,
    result: DatabaseResult<(Vec<Categories>, i32)>,
) -> bool {
    &&& result matches Ok(page)
    &&& page.0@ == page_of(select(rows, filter), offset, limit)
    &&& page.1 == select(rows, filter).len()
    &&& newest_first(page.0@)
}

impl Plan {
    /// The plan of a lookup by a unique key.
    pub fn find(key: Key) -> (plan: Plan)
        ensures
            plan@ == Intent::Find(key),
    {
        Plan::Find(key)
    }

    /// The plan of a listing.
    pub fn list(selection: Selection) -> (plan: Plan)
        ensures
            plan@ == Intent::List(selection),
    {
        Plan::List(selection)
    }

    /// The plan of a paged listing.
    pub fn page(selection: Selection, offset: i32, limit: i32) -> (plan: Plan)
        ensures
            plan@ == Intent::Page(selection, offset, limit),
    {
        Plan::Page(selection, offset, limit)
    }
}

/// The selection that a pair of optional filters stands for.
pub fn selection_for(kind: Option<CategoryTypes>, active: Option<bool>) -> (selection: Selection)
    ensures
        selection@ == filter_for(kind, active),
{
    Selection::of(kind, active)
}

fn find(key: Key, store: &mut MemoryStore) -> (result: DatabaseResult<Option<Categories>>)
    requires
        old(store).wf(),
    ensures
        final(store)@ == old(store)@,
        result == Ok::<Option<Categories>, DatabaseError>(lookup(old(store)@.rows, key@)),
{
    proof {
        lemma_run_find(key, store@);
    }
    store.run(Operation::new(Plan::find(key))).into_found()
}

fn list(selection: Selection, store: &mut MemoryStore) -> (result: DatabaseResult<
    Vec<Categories>,
>)
    requires
        old(store).wf(),
    ensures
        final(store)@ == old(store)@,
        result matches Ok(v) && v@ == select(old(store)@.rows, selection@) && newest_first(v@),
{
    proof {
        lemma_run_list(selection, store@);
        lemma_sift(store@.rows, selection@, true);
    }
    store.run(Operation::new(Plan::list(selection))).into_rows()
}

fn page(selection: Selection, offset: i32, limit: i32, store: &mut MemoryStore) -> (result:
    DatabaseResult<(Vec<Categories>, i32)>)
    requires
        old(store).wf(),
    ensures
        final(store)@ == old(store)@,
        paged(old(store)@.rows, selection@, offset, limit, result),
{
    proof {
        lemma_run_page(selection, offset, limit, store@);
        lemma_sift(store@.rows, selection@, true);
    }
    store.run(Operation::new(Plan::page(selection, offset, limit))).into_page()
}

impl Categories {
    /// The row with this id, if there is one.
    pub fn find_by_id(id: RowID, store: &mut MemoryStore) -> (result: DatabaseResult<
        Option<Categories>,
    >)
        requires
            old(store).wf(),
        ensures
            final(store)@ == old(store)@,
            result == Ok::<Option<Categories>, DatabaseError>(
                lookup(old(store)@.rows, Probe::Id(id)),
            ),
    {
        find(Key::Id(id), store)
    }

    /// The row with this code, if there is one.
    pub fn find_by_code(code: &str, store: &mut MemoryStore) -> (result: DatabaseResult<
        Option<Categories>,
    >)
        requires
            old(store).wf(),
        ensures
            final(store)@ == old(store)@,
            result == Ok::<Option<Categories>, DatabaseError>(
                lookup(old(store)@.rows, Probe::Code(code@)),
            ),
    {
        find(Key::Code(String::from_str(code)), store)
    }

    /// The row with this slug, if there is one.
    pub fn find_by_url_slug(slug: &UrlSlug, store: &mut MemoryStore) -> (result: DatabaseResult<
        Option<Categories>,
    >)
        requires
            old(store).wf(),
        ensures
            final(store)@ == old(store)@,
            result == Ok::<Option<Categories>, DatabaseError>(
                lookup(old(store)@.rows, Probe::Slug(slug@)),
            ),
    {
        find(Key::Slug(slug.duplicate()), store)
    }

    /// The rows whose name contains `name`, letter case ignored, newest
    /// first.
    pub fn find_by_name(name: &str, store: &mut MemoryStore) -> (result: DatabaseResult<
        Vec<Categories>,
    >)
        requires
            old(store).wf(),
        ensures
            final(store)@ == old(store)@,
            result matches Ok(v) && v@ == select(old(store)@.rows, with_name(name@))
                && newest_first(v@),
    {
        list(Selection::named(name), store)
    }

    /// Every row, newest first.
    pub fn find_all(store: &mut MemoryStore) -> (result: DatabaseResult<Vec<Categories>>)
        requires
            old(store).wf(),
        ensures
            final(store)@ == old(store)@,
            result matches Ok(v) && v@ == select(old(store)@.rows, everything()) && newest_first(
                v@,
            ),
    {
        list(Selection::all(), store)
    }

    /// The active rows, newest first.
    pub fn find_all_active(store: &mut MemoryStore) -> (result: DatabaseResult<Vec<Categories>>)
        requires
            old(store).wf(),
        ensures
            final(store)@ == old(store)@,
            result matches Ok(v) && v@ == select(old(store)@.rows, with_activity(true))
                && newest_first(v@),
    {
        list(Selection::of(None, Some(true)), store)
    }

    /// The inactive rows, newest first.
    pub fn find_inactive(store: &mut MemoryStore) -> (result: DatabaseResult<Vec<Categories>>)
        requires
            old(store).wf(),
        ensures
            final(store)@ == old(store)@,
            result matches Ok(v) && v@ == select(old(store)@.rows, with_activity(false))
                && newest_first(v@),
    {
        list(Selection::of(None, Some(false)), store)
    }

    /// The rows of this type, newest first.
    pub fn find_by_type(category_type: CategoryTypes, store: &mut MemoryStore) -> (result:
        DatabaseResult<Vec<Categories>>)
        requires
            old(store).wf(),
        ensures
            final(store)@ == old(store)@,
            result matches Ok(v) && v@ == select(old(store)@.rows, of_type(category_type))
                && newest_first(v@),
    {
        list(Selection::of(Some(category_type), None), store)
    }

    /// The active rows of this type, newest first.
    pub fn find_active_by_type(category_type: CategoryTypes, store: &mut MemoryStore) -> (result:
        DatabaseResult<Vec<Categories>>)
        requires
            old(store).wf(),
        ensures
            final(store)@ == old(store)@,
            result matches Ok(v) && v@ == select(
                old(store)@.rows,
                active_of_type(category_type),
            ) && newest_first(v@),
    {
        list(Selection::of(Some(category_type), Some(true)), store)
    }

    /// One page of all rows, newest first, and the number of all rows.
    ///
    /// A negative offset counts as zero; a negative limit means no limit.
    pub fn find_all_with_pagination(offset: i32, limit: i32, store: &mut MemoryStore) -> (result:
        DatabaseResult<(Vec<Categories>, i32)>)
        requires
            old(store).wf(),
        ensures
            final(store)@ == old(store)@,
            paged(old(store)@.rows, everything(), offset, limit, result),
    {
        page(Selection::all(), offset, limit, store)
    }

    /// One page of the active rows, newest first, and the number of active
    /// rows.
    pub fn find_active_with_pagination(offset: i32, limit: i32, store: &mut MemoryStore) -> (result:
        DatabaseResult<(Vec<Categories>, i32)>)
        requires
            old(store).wf(),
        ensures
            final(store)@ == old(store)@,
            paged(old(store)@.rows, with_activity(true), offset, limit, result),
    {
        page(Selection::of(None, Some(true)), offset, limit, store)
    }

    /// One page of the inactive rows, newest first, and the number of
    /// inactive rows.
    pub fn find_inactive_with_pagination(
        offset: i32,
        limit: i32,
        store: &mut MemoryStore,
    ) -> (result: DatabaseResult<(Vec<Categories>, i32)>)
        requires
            old(store).wf(),
        ensures
            final(store)@ == old(store)@,
            paged(old(store)@.rows, with_activity(false), offset, limit, result),
    {
        page(Selection::of(None, Some(false)), offset, limit, store)
    }

    /// One page of the rows of this type, newest first, and the number of
    /// rows of this type.
    pub fn find_by_type_with_pagination(
        category_type: CategoryTypes,
        offset: i32,
        limit: i32,
        store: &mut MemoryStore,
    ) -> (result: DatabaseResult<(Vec<Categories>, i32)>)
        requires
            old(store).wf(),
        ensures
            final(store)@ == old(store)@,
            paged(old(store)@.rows, of_type(category_type), offset, limit, result),
    {
        page(Selection::of(Some(category_type), None), offset, limit, store)
    }

    /// One page of the active rows of this type, newest first, and the
    /// number of active rows of this type.
    pub fn find_active_by_type_with_pagination(
        category_type: CategoryTypes,
        offset: i32,
        limit: i32,
        store: &mut MemoryStore,
    ) -> (result: DatabaseResult<(Vec<Categories>, i32)>)
        requires
            old(store).wf(),
        ensures
            final(store)@ == old(store)@,
            paged(old(store)@.rows, active_of_type(category_type), offset, limit, result),
    {
        page(Selection::of(Some(category_type), Some(true)), offset, limit, store)
    }

    /// One page of the rows that pass the filters that are given, newest
    /// first, and the number of rows that pass them: the rows of the type,
    /// if a type is given, that have the active flag, if a flag is given.
    ///
    /// `sort_by` and `sort_desc` are accepted and not applied: rows always
    /// come newest first.
    pub fn find_with_filters(
        category_type_filter: Option<CategoryTypes>,
        is_active_filter: Option<bool>,
        sort_by: Option<&str>,
        sort_desc: Option<bool>,
        offset: i32,
        limit: i32,
        store: &mut MemoryStore,
    ) -> (result: DatabaseResult<(Vec<Categories>, i32)>)
        requires
            old(store).wf(),
        ensures
            final(store)@ == old(store)@,
            paged(
                old(store)@.rows,
                filter_for(category_type_filter, is_active_filter),
                offset,
                limit,
                result,
            ),
    {
        page(selection_for(category_type_filter, is_active_filter), offset, limit, store)
    }
}

} // verus!
