//! The abstract table: a sequence of rows, newest first, and what each
//! lookup, listing and statement means on it.

use vstd::prelude::*;
use crate::categories::model::{slug_of, Categories};
use crate::categories::statement::{Filter, Probe, Statement};
use crate::domain::{is_upper, later, Timestamp};
use crate::error::{Constraint, FaultView};

verus! {

/// The most rows a table holds: a count must fit the width that counts are
/// reported in.
pub open spec fn capacity() -> int {
    0x7fff_ffff
}

/// `c` with an ASCII uppercase letter turned to lowercase.
pub open spec fn fold_case(c: char) -> char {
    if is_upper(c) {
        ((c as u8 + 32) as u8) as char
    } else {
        c
    }
}

/// `needle` occurs in `hay` at offset `at`, letter case ignored.
pub open spec fn occurs_at(hay: Seq<char>, needle: Seq<char>, at: int) -> bool {
    &&& 0 <= at
    &&& at + needle.len() <= hay.len()
    &&& forall|j: int|
        0 <= j < needle.len() ==> fold_case(#[trigger] hay[at + j]) == fold_case(needle[j])
}

/// `needle` occurs somewhere in `hay`, letter case ignored.
pub open spec fn contains_folded(hay: Seq<char>, needle: Seq<char>) -> bool {
    exists|at: int| occurs_at(hay, needle, at)
}

impl Probe {
    /// The row has this key.
    pub open spec fn hits(self, row: Categories) -> bool {
        match self {
            Probe::Id(id) => row.id == id,
            Probe::Code(code) => row.code@ == code,
            Probe::Slug(slug) => slug_of(row.url_slug) == Some(slug),
        }
    }
}

impl Filter {
    /// The row passes every part of the filter that is present.
    pub open spec fn admits(self, row: Categories) -> bool {
        &&& (self.kind matches Some(k) ==> row.category_type == k)
        &&& (self.active matches Some(a) ==> row.is_active == a)
        &&& (self.name matches Some(n) ==> contains_folded(row.name@, n))
    }
}

/// The index of the first row at or after `from` that has the key; the
/// number of rows if there is none.
pub open spec fn first_hit(rows: Seq<Categories>, probe: Probe, from: int) -> int
    decreases rows.len() - from,
{
    if from < 0 || from >= rows.len() {
        rows.len() as int
    } else if probe.hits(rows[from]) {
        from
    } else {
        first_hit(rows, probe, from + 1)
    }
}

/// The index of the first row that has the key; the number of rows if there
/// is none.
pub open spec fn position(rows: Seq<Categories>, probe: Probe) -> int {
    first_hit(rows, probe, 0)
}

/// The first row that has the key.
pub open spec fn lookup(rows: Seq<Categories>, probe: Probe) -> Option<Categories> {
    let i = position(rows, probe);
    if i < rows.len() {
        Some(rows[i])
    } else {
        None
    }
}

/// A row other than the one at index `skip` has the key.
pub open spec fn taken(rows: Seq<Categories>, probe: Probe, skip: int) -> bool {
    exists|k: int| 0 <= k < rows.len() && k != skip && probe.hits(#[trigger] rows[k])
}

/// The rows for which the filter's answer is `want`, in their order.
pub open spec fn sift(rows: Seq<Categories>, filter: Filter, want: bool) -> Seq<Categories>
    decreases rows.len(),
{
    if rows.len() == 0 {
        Seq::empty()
    } else {
        let before = sift(rows.drop_last(), filter, want);
        if filter.admits(rows.last()) == want {
            before.push(rows.last())
        } else {
            before
        }
    }
}

/// The rows that the filter keeps, in their order.
pub open spec fn select(rows: Seq<Categories>, filter: Filter) -> Seq<Categories> {
    sift(rows, filter, true)
}

/// Where a page starts among `len` rows: a negative offset counts as zero,
/// one past the end as the end.
pub open spec fn page_start(len: int, offset: i32) -> int {
    if offset < 0 {
        0
    } else if offset > len {
        len
    } else {
        offset as int
    }
}

/// Where a page ends among `len` rows: a negative limit means no limit.
pub open spec fn page_end(len: int, offset: i32, limit: i32) -> int {
    let start = page_start(len, offset);
    if limit < 0 || start + limit > len {
        len
    } else {
        start + limit
    }
}

/// The rows of one page.
pub open spec fn page_of(rows: Seq<Categories>, offset: i32, limit: i32) -> Seq<Categories> {
    rows.subrange(
        page_start(rows.len() as int, offset),
        page_end(rows.len() as int, offset, limit),
    )
}

/// Rows come newest first.
pub open spec fn newest_first(rows: Seq<Categories>) -> bool {
    forall|i: int, j: int|
        0 <= i < j < rows.len() ==> (#[trigger] rows[i]).created_on.micros >= (
        #[trigger] rows[j]).created_on.micros
}

/// No two rows share an id, a code or a slug.
pub open spec fn distinct(rows: Seq<Categories>) -> bool {
    forall|i: int, j: int|
        0 <= i < j < rows.len() ==> {
            &&& (#[trigger] rows[i]).id != (#[trigger] rows[j]).id
            &&& rows[i].code@ != rows[j].code@
            &&& (rows[i].url_slug is Some ==> slug_of(rows[i].url_slug) != slug_of(
                rows[j].url_slug,
            ))
        }
}

/// What the store keeps true of its rows.
pub open spec fn well_formed(rows: Seq<Categories>) -> bool {
    &&& distinct(rows)
    &&& newest_first(rows)
    &&& rows.len() <= capacity()
}

/// The index at which a row created at `t` goes: after every row that is not
/// older than it.
pub open spec fn slot(rows: Seq<Categories>, t: Timestamp, from: int) -> int
    decreases rows.len() - from,
{
    if from < 0 || from >= rows.len() {
        rows.len() as int
    } else if rows[from].created_on.micros < t.micros {
        from
    } else {
        slot(rows, t, from + 1)
    }
}

/// The uniqueness rule that `c` would break beside the rows other than the
/// one at index `skip`, if any: the id first, then the code, then the slug.
pub open spec fn clash(rows: Seq<Categories>, c: Categories, skip: int) -> Option<Constraint> {
    if taken(rows, Probe::Id(c.id), skip) {
        Some(Constraint::Id)
    } else if taken(rows, Probe::Code(c.code@), skip) {
        Some(Constraint::Code)
    } else if c.url_slug is Some && taken(rows, Probe::Slug(c.url_slug->0@), skip) {
        Some(Constraint::UrlSlug)
    } else {
        None
    }
}

/// What a statement did: the rows after it, and the number of rows it
/// affected or the fault it ended with. A statement that ends with a fault
/// leaves the rows as they were.
pub ghost struct Applied {
    pub rows: Seq<Categories>,
    pub result: Result<u64, FaultView>,
}

/// Adds `c` as a new row.
pub open spec fn add_row(rows: Seq<Categories>, c: Categories) -> Applied {
    match clash(rows, c, -1) {
        Some(rule) => Applied { rows, result: Err(FaultView::Unique(rule)) },
        None => if rows.len() >= capacity() {
            Applied { rows, result: Err(FaultView::Full) }
        } else {
            Applied { rows: rows.insert(slot(rows, c.created_on, 0), c), result: Ok(1) }
        },
    }
}

/// Puts `row` in place of the row at index `i`, unless it would break a
/// uniqueness rule beside the other rows.
pub open spec fn replace_row(rows: Seq<Categories>, i: int, row: Categories, affected: u64) -> Applied {
    match clash(rows, row, i) {
        Some(rule) => Applied { rows, result: Err(FaultView::Unique(rule)) },
        None => Applied { rows: rows.update(i, row), result: Ok(affected) },
    }
}

/// What a statement means on the rows, at the store's time `now`.
///
/// A full update and an update of the active flag stamp the row with the
/// later of the store's time and the row's own time of update, so that a
/// row's time of update never goes back, whatever the clock reads.
pub open spec fn apply(rows: Seq<Categories>, now: Timestamp, statement: Statement) -> Applied {
    match statement {
        Statement::Insert(c) => add_row(rows, c),
        Statement::Upsert(c) => {
            let i = position(rows, Probe::Id(c.id));
            if i < rows.len() {
                replace_row(rows, i, Categories { created_on: rows[i].created_on, ..c }, 2)
            } else {
                add_row(rows, c)
            }
        },
        Statement::Update(c) => {
            let i = position(rows, Probe::Id(c.id));
            if i < rows.len() {
                replace_row(
                    rows,
                    i,
                    Categories {
                        created_on: rows[i].created_on,
                        updated_on: later(now, rows[i].updated_on),
                        ..c
                    },
                    1,
                )
            } else {
                Applied { rows, result: Ok(0) }
            }
        },
        Statement::SetActive(id, flag) => {
            let i = position(rows, Probe::Id(id));
            if i < rows.len() {
                Applied {
                    rows: rows.update(
                        i,
                        Categories {
                            is_active: flag,
                            updated_on: later(now, rows[i].updated_on),
                            ..rows[i]
                        },
                    ),
                    result: Ok(1),
                }
            } else {
                Applied { rows, result: Ok(0) }
            }
        },
        Statement::Delete(key) => {
            let i = position(rows, key@);
            if i < rows.len() {
                Applied { rows: rows.remove(i), result: Ok(1) }
            } else {
                Applied { rows, result: Ok(0) }
            }
        },
        Statement::Purge(selection) => {
            let kept = sift(rows, selection@, false);
            Applied { rows: kept, result: Ok((rows.len() - kept.len()) as u64) }
        },
    }
}

/// `first_hit` lands on the first row at or after `from` that has the key.
pub proof fn lemma_first_hit(rows: Seq<Categories>, probe: Probe, from: int)
    requires
        0 <= from <= rows.len(),
    ensures
        from <= first_hit(rows, probe, from) <= rows.len(),
        first_hit(rows, probe, from) < rows.len() ==> probe.hits(
            rows[first_hit(rows, probe, from)],
        ),
        forall|k: int| from <= k < first_hit(rows, probe, from) ==> !probe.hits(#[trigger] rows[k]),
    decreases rows.len() - from,
{
    if from < rows.len() && !probe.hits(rows[from]) {
        lemma_first_hit(rows, probe, from + 1);
    }
}

/// A key has a position in the rows exactly when some row has it.
pub proof fn lemma_position(rows: Seq<Categories>, probe: Probe)
    ensures
        0 <= position(rows, probe) <= rows.len(),
        position(rows, probe) < rows.len() <==> taken(rows, probe, -1),
        position(rows, probe) < rows.len() ==> probe.hits(rows[position(rows, probe)]),
        forall|k: int| 0 <= k < position(rows, probe) ==> !probe.hits(#[trigger] rows[k]),
{
    lemma_first_hit(rows, probe, 0);
    let i = position(rows, probe);
    if i < rows.len() {
        assert(probe.hits(rows[i]));
    }
}

/// `slot` lands after the rows that are not older than `t` and before the
/// first that is.
pub proof fn lemma_slot(rows: Seq<Categories>, t: Timestamp, from: int)
    requires
        0 <= from <= rows.len(),
    ensures
        from <= slot(rows, t, from) <= rows.len(),
        slot(rows, t, from) < rows.len() ==> rows[slot(rows, t, from)].created_on.micros
            < t.micros,
        forall|k: int|
            from <= k < slot(rows, t, from) ==> (#[trigger] rows[k]).created_on.micros
                >= t.micros,
    decreases rows.len() - from,
{
    if from < rows.len() && rows[from].created_on.micros >= t.micros {
        lemma_slot(rows, t, from + 1);
    }
}

/// Every row that `sift` keeps is a row of the input with the wanted answer,
/// and the kept rows stand in the input's order.
pub proof fn lemma_sift(rows: Seq<Categories>, filter: Filter, want: bool)
    ensures
        sift(rows, filter, want).len() <= rows.len(),
        forall|k: int|
            0 <= k < sift(rows, filter, want).len() ==> filter.admits(
                #[trigger] sift(rows, filter, want)[k],
            ) == want,
        forall|k: int|
            0 <= k < sift(rows, filter, want).len() ==> exists|m: int|
                k <= m < rows.len() && rows[m] == #[trigger] sift(rows, filter, want)[k],
        well_formed(rows) ==> well_formed(sift(rows, filter, want)),
    decreases rows.len(),
{
    if rows.len() > 0 {
        let front = rows.drop_last();
        let before = sift(front, filter, want);
        let out = sift(rows, filter, want);
        lemma_sift(front, filter, want);
        assert forall|k: int| 0 <= k < out.len() implies exists|m: int|
            k <= m < rows.len() && rows[m] == #[trigger] out[k] by {
            if k < before.len() {
                let m = choose|m: int| k <= m < front.len() && front[m] == before[k];
                assert(rows[m] == out[k]);
            } else {
                assert(rows[rows.len() - 1] == out[k]);
            }
        }
        if well_formed(rows) {
            assert(well_formed(front)) by {
                assert(forall|i: int| 0 <= i < front.len() ==> front[i] == rows[i]);
            }
            assert(well_formed(out)) by {
                assert forall|i: int, j: int| 0 <= i < j < out.len() implies {
                    &&& (#[trigger] out[i]).id != (#[trigger] out[j]).id
                    &&& out[i].code@ != out[j].code@
                    &&& (out[i].url_slug is Some ==> slug_of(out[i].url_slug) != slug_of(
                        out[j].url_slug,
                    ))
                    &&& out[i].created_on.micros >= out[j].created_on.micros
                } by {
                    if j < before.len() {
                        assert(before[i] == out[i] && before[j] == out[j]);
                    } else {
                        let m = choose|m: int| i <= m < front.len() && front[m] == before[i];
                        assert(rows[m] == out[i]);
                        assert(rows[rows.len() - 1] == out[j]);
                    }
                }
            }
        }
    }
}

/// A statement leaves well-formed rows well-formed, and leaves the rows as
/// they were when it ends with a fault.
pub proof fn lemma_apply(rows: Seq<Categories>, now: Timestamp, statement: Statement)
    requires
        well_formed(rows),
    ensures
        well_formed(apply(rows, now, statement).rows),
        apply(rows, now, statement).result is Err ==> apply(rows, now, statement).rows == rows,
{
    match statement {
        Statement::Insert(c) => lemma_add_row(rows, c),
        Statement::Upsert(c) => {
            lemma_position(rows, Probe::Id(c.id));
            let i = position(rows, Probe::Id(c.id));
            if i < rows.len() {
                lemma_replace_row(rows, i, Categories { created_on: rows[i].created_on, ..c }, 2);
            } else {
                lemma_add_row(rows, c);
            }
        },
        Statement::Update(c) => {
            lemma_position(rows, Probe::Id(c.id));
            let i = position(rows, Probe::Id(c.id));
            if i < rows.len() {
                lemma_replace_row(
                    rows,
                    i,
                    Categories {
                        created_on: rows[i].created_on,
                        updated_on: later(now, rows[i].updated_on),
                        ..c
                    },
                    1,
                );
            }
        },
        Statement::SetActive(id, flag) => {
            lemma_position(rows, Probe::Id(id));
            let i = position(rows, Probe::Id(id));
            if i < rows.len() {
                let after = rows.update(
                    i,
                    Categories {
                        is_active: flag,
                        updated_on: later(now, rows[i].updated_on),
                        ..rows[i]
                    },
                );
                assert(well_formed(after));
            }
        },
        Statement::Delete(key) => {
            lemma_position(rows, key@);
            let i = position(rows, key@);
            if i < rows.len() {
                rows.remove_ensures(i);
                let after = rows.remove(i);
                assert forall|a: int, b: int| 0 <= a < b < after.len() implies {
                    &&& (#[trigger] after[a]).id != (#[trigger] after[b]).id
                    &&& after[a].code@ != after[b].code@
                    &&& (after[a].url_slug is Some ==> slug_of(after[a].url_slug) != slug_of(
                        after[b].url_slug,
                    ))
                    &&& after[a].created_on.micros >= after[b].created_on.micros
                } by {
                    let a0 = if a < i { a } else { a + 1 };
                    let b0 = if b < i { b } else { b + 1 };
                    assert(after[a] == rows[a0] && after[b] == rows[b0]);
                }
            }
        },
        Statement::Purge(selection) => {
            lemma_sift(rows, selection@, false);
        },
    }
}

/// Adding a row keeps the rows well-formed.
pub proof fn lemma_add_row(rows: Seq<Categories>, c: Categories)
    requires
        well_formed(rows),
    ensures
        well_formed(add_row(rows, c).rows),
{
    if clash(rows, c, -1) is None && rows.len() < capacity() {
        let p = slot(rows, c.created_on, 0);
        lemma_slot(rows, c.created_on, 0);
        rows.insert_ensures(p, c);
        let after = rows.insert(p, c);
        assert forall|k: int| 0 <= k < rows.len() implies {
            &&& (#[trigger] rows[k]).id != c.id
            &&& rows[k].code@ != c.code@
            &&& (c.url_slug is Some ==> slug_of(rows[k].url_slug) != slug_of(c.url_slug))
        } by {
            assert(!Probe::Id(c.id).hits(rows[k]));
            assert(!Probe::Code(c.code@).hits(rows[k]));
            if c.url_slug is Some {
                assert(!Probe::Slug(c.url_slug->0@).hits(rows[k]));
            }
        }
        assert forall|a: int, b: int| 0 <= a < b < after.len() implies {
            &&& (#[trigger] after[a]).id != (#[trigger] after[b]).id
            &&& after[a].code@ != after[b].code@
            &&& (after[a].url_slug is Some ==> slug_of(after[a].url_slug) != slug_of(
                after[b].url_slug,
            ))
            &&& after[a].created_on.micros >= after[b].created_on.micros
        } by {
            let a0 = if a < p { a } else { a - 1 };
            let b0 = if b < p { b } else { b - 1 };
            if a != p {
                assert(after[a] == rows[a0]);
            }
            if b != p {
                assert(after[b] == rows[b0]);
            }
            if a == p {
                assert(rows[p].created_on.micros >= rows[b0].created_on.micros || p == b0);
            }
        }
    }
}

/// Replacing a row by one with the same id and creation time keeps the rows
/// well-formed.
pub proof fn lemma_replace_row(rows: Seq<Categories>, i: int, row: Categories, affected: u64)
    requires
        well_formed(rows),
        0 <= i < rows.len(),
        row.created_on == rows[i].created_on,
    ensures
        well_formed(replace_row(rows, i, row, affected).rows),
{
    if clash(rows, row, i) is None {
        let after = rows.update(i, row);
        assert forall|k: int| 0 <= k < rows.len() && k != i implies {
            &&& (#[trigger] rows[k]).id != row.id
            &&& rows[k].code@ != row.code@
            &&& (row.url_slug is Some ==> slug_of(rows[k].url_slug) != slug_of(row.url_slug))
        } by {
            assert(!Probe::Id(row.id).hits(rows[k]));
            assert(!Probe::Code(row.code@).hits(rows[k]));
            if row.url_slug is Some {
                assert(!Probe::Slug(row.url_slug->0@).hits(rows[k]));
            }
        }
        assert forall|a: int, b: int| 0 <= a < b < after.len() implies {
            &&& (#[trigger] after[a]).id != (#[trigger] after[b]).id
            &&& after[a].code@ != after[b].code@
            &&& (after[a].url_slug is Some ==> slug_of(after[a].url_slug) != slug_of(
                after[b].url_slug,
            ))
            &&& after[a].created_on.micros >= after[b].created_on.micros
        } by {
            assert(rows[a].created_on.micros >= rows[b].created_on.micros);
            if a != i {
                assert(after[a] == rows[a]);
            }
            if b != i {
                assert(after[b] == rows[b]);
            }
        }
    }
}

/// A row that has the key, with no row before it that has it, is the row
/// that a lookup finds.
pub proof fn lemma_lookup_at(rows: Seq<Categories>, probe: Probe, i: int)
    requires
        0 <= i < rows.len(),
        probe.hits(rows[i]),
        forall|k: int| 0 <= k < i ==> !probe.hits(#[trigger] rows[k]),
    ensures
        position(rows, probe) == i,
        lookup(rows, probe) == Some(rows[i]),
{
    lemma_first_hit(rows, probe, 0);
}

/// A row that was added is the row that a lookup by its id finds.
pub proof fn lemma_added_found(rows: Seq<Categories>, c: Categories)
    requires
        add_row(rows, c).result is Ok,
    ensures
        lookup(add_row(rows, c).rows, Probe::Id(c.id)) == Some(c),
{
    let p = slot(rows, c.created_on, 0);
    lemma_slot(rows, c.created_on, 0);
    rows.insert_ensures(p, c);
    let after = rows.insert(p, c);
    assert forall|k: int| 0 <= k < p implies !Probe::Id(c.id).hits(#[trigger] after[k]) by {
        assert(after[k] == rows[k]);
        assert(!Probe::Id(c.id).hits(rows[k]));
    }
    lemma_lookup_at(after, Probe::Id(c.id), p);
}

/// A row that was put in the place of the first row with its id is the row
/// that a lookup by that id finds.
pub proof fn lemma_replaced_found(rows: Seq<Categories>, row: Categories)
    requires
        position(rows, Probe::Id(row.id)) < rows.len(),
    ensures
        lookup(rows.update(position(rows, Probe::Id(row.id)), row), Probe::Id(row.id)) == Some(
            row,
        ),
{
    let i = position(rows, Probe::Id(row.id));
    lemma_position(rows, Probe::Id(row.id));
    let after = rows.update(i, row);
    assert forall|k: int| 0 <= k < i implies !Probe::Id(row.id).hits(#[trigger] after[k]) by {
        assert(after[k] == rows[k]);
    }
    lemma_lookup_at(after, Probe::Id(row.id), i);
}

/// No row is left when every row that passes the empty filter is removed.
pub proof fn lemma_sift_all(rows: Seq<Categories>)
    ensures
        sift(rows, Filter { kind: None, active: None, name: None }, false) == Seq::<
            Categories,
        >::empty(),
        sift(rows, Filter { kind: None, active: None, name: None }, true) == rows,
    decreases rows.len(),
{
    if rows.len() > 0 {
        lemma_sift_all(rows.drop_last());
        assert(rows.drop_last().push(rows.last()) == rows);
    }
}

/// The state of a store: its rows, the rows as they were when the open
/// transaction began, and its clock.
pub ghost struct Table {
    pub rows: Seq<Categories>,
    pub saved: Option<Seq<Categories>>,
    pub now: Timestamp,
}

impl Table {
    /// What the store keeps true of its state.
    pub open spec fn wf(self) -> bool {
        &&& well_formed(self.rows)
        &&& (self.saved matches Some(s) ==> well_formed(s))
    }
}

} // verus!
