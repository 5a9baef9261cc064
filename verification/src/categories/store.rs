//! An in-memory store of categories: the table held in a vector, with the
//! same meaning for every statement, lookup and listing as the abstract
//! table gives it.

use vstd::prelude::*;
use crate::categories::matching::{key_hits, selection_admits};
use crate::categories::model::{copy_rows, Categories};
use crate::categories::statement::{Key, Selection, Statement};
use crate::categories::table::{
    add_row, apply, lemma_add_row, lemma_replace_row, clash, first_hit, lemma_apply, lemma_sift, lookup, page_of, position, replace_row, select,
    sift, slot, taken, Table,
};
use crate::domain::Timestamp;
use crate::error::{Constraint, FaultView, StoreFault};

verus! {

/// The index that a search leaves out, as an integer: `-1` for none.
pub open spec fn skip_index(skip: Option<usize>) -> int {
    match skip {
        Some(i) => i as int,
        None => -1,
    }
}

/// The rows of a vector that is absent or present.
pub open spec fn saved_rows(saved: Option<Vec<Categories>>) -> Option<Seq<Categories>> {
    match saved {
        Some(v) => Some(v@),
        None => None,
    }
}

/// What a statement's result says, as plain values.
pub open spec fn reported(result: Result<u64, StoreFault>) -> Result<u64, FaultView> {
    match result {
        Ok(n) => Ok(n),
        Err(f) => Err(f@),
    }
}

/// A store of categories that lives in memory.
pub struct MemoryStore {
    rows: Vec<Categories>,
    saved: Option<Vec<Categories>>,
    now: Timestamp,
}

impl View for MemoryStore {
    type V = Table;

    closed spec fn view(&self) -> Table {
        Table { rows: self.rows@, saved: saved_rows(self.saved), now: self.now }
    }
}

impl MemoryStore {
    /// What the store keeps true of its state.
    pub open spec fn wf(&self) -> bool {
        self@.wf()
    }

    /// An empty store whose clock reads `now`.
    pub fn new(now: Timestamp) -> (store: MemoryStore)
        ensures
            store.wf(),
            store@ == (Table { rows: Seq::empty(), saved: None, now }),
    {
        MemoryStore { rows: Vec::new(), saved: None, now }
    }

    /// What the store's clock reads.
    pub fn now(&self) -> (now: Timestamp)
        ensures
            now == self@.now,
    {
        self.now
    }

    /// Sets the store's clock.
    pub fn set_now(&mut self, now: Timestamp)
        ensures
            final(self)@ == (Table { now, ..old(self)@ }),
    {
        self.now = now;
    }

    /// The number of rows.
    pub fn len(&self) -> (n: usize)
        ensures
            n == self@.rows.len(),
    {
        self.rows.len()
    }

    /// Whether a transaction is open.
    pub fn in_transaction(&self) -> (open: bool)
        ensures
            open == self@.saved is Some,
    {
        self.saved.is_some()
    }

    /// The index of the first row that has the key; the number of rows if
    /// there is none.
    fn find(&self, key: &Key) -> (i: usize)
        ensures
            i == position(self@.rows, key@),
            i <= self@.rows.len(),
    {
        let mut i: usize = 0;
        while i < self.rows.len()
            invariant
                i <= self.rows@.len(),
                first_hit(self.rows@, key@, 0) == first_hit(self.rows@, key@, i as int),
            decreases self.rows@.len() - i,
        {
            if key_hits(key, &self.rows[i]) {
                return i;
            }
            i = i + 1;
        }
        i
    }

    /// Whether a row other than the one at `skip` has the key.
    fn key_taken(&self, key: &Key, skip: Option<usize>) -> (found: bool)
        ensures
            found == taken(self@.rows, key@, skip_index(skip)),
    {
        let mut i: usize = 0;
        while i < self.rows.len()
            invariant
                i <= self.rows@.len(),
                forall|k: int|
                    0 <= k < i && k != skip_index(skip) ==> !key@.hits(#[trigger] self.rows@[k]),
            decreases self.rows@.len() - i,
        {
            let skipped = match skip {
                Some(s) => s == i,
                None => false,
            };
            if !skipped && key_hits(key, &self.rows[i]) {
                return true;
            }
            i = i + 1;
        }
        false
    }

    /// The uniqueness rule that `c` would break beside the rows other than
    /// the one at `skip`.
    fn find_clash(&self, c: &Categories, skip: Option<usize>) -> (rule: Option<Constraint>)
        ensures
            rule == clash(self@.rows, *c, skip_index(skip)),
    {
        if self.key_taken(&Key::Id(c.id), skip) {
            return Some(Constraint::Id);
        }
        let code = Key::Code(c.code.clone());
        if self.key_taken(&code, skip) {
            return Some(Constraint::Code);
        }
        match &c.url_slug {
            Some(s) => {
                let slug = Key::Slug(s.duplicate());
                if self.key_taken(&slug, skip) {
                    return Some(Constraint::UrlSlug);
                }
            },
            None => {},
        }
        None
    }

    /// The index at which a row created at `t` goes.
    fn find_slot(&self, t: Timestamp) -> (i: usize)
        ensures
            i == slot(self@.rows, t, 0),
            i <= self@.rows.len(),
    {
        let mut i: usize = 0;
        while i < self.rows.len()
            invariant
                i <= self.rows@.len(),
                slot(self.rows@, t, 0) == slot(self.rows@, t, i as int),
            decreases self.rows@.len() - i,
        {
            if self.rows[i].created_on.micros < t.micros {
                return i;
            }
            i = i + 1;
        }
        i
    }

    /// Adds `c` as a new row.
    fn add(&mut self, c: &Categories) -> (result: Result<u64, StoreFault>)
        requires
            old(self).wf(),
        ensures
            final(self).wf(),
            final(self)@ == (Table { rows: add_row(old(self)@.rows, *c).rows, ..old(self)@ }),
            reported(result) == add_row(old(self)@.rows, *c).result,
    {
        proof {
            lemma_add_row(self@.rows, *c);
        }
        match self.find_clash(c, None) {
            Some(rule) => Err(StoreFault::Unique(rule)),
            None => {
                if self.rows.len() >= 0x7fff_ffff {
                    Err(StoreFault::Full)
                } else {
                    let at = self.find_slot(c.created_on);
                    self.rows.insert(at, c.duplicate());
                    Ok(1)
                }
            },
        }
    }

    /// Puts `row` in place of the row at index `i`.
    fn replace(&mut self, i: usize, row: Categories, affected: u64) -> (result: Result<
        u64,
        StoreFault,
    >)
        requires
            old(self).wf(),
            i < old(self)@.rows.len(),
            row.created_on == old(self)@.rows[i as int].created_on,
        ensures
            final(self).wf(),
            final(self)@ == (Table {
                rows: replace_row(old(self)@.rows, i as int, row, affected).rows,
                ..old(self)@
            }),
            reported(result) == replace_row(
                old(self)@.rows,
                i as int,
                row,
                affected,
            ).result,
    {
        proof {
            lemma_replace_row(self@.rows, i as int, row, affected);
        }
        match self.find_clash(&row, Some(i)) {
            Some(rule) => Err(StoreFault::Unique(rule)),
            None => {
                self.rows.set(i, row);
                Ok(affected)
            },
        }
    }

    /// Keeps the rows for which the selection's answer is `want`.
    fn sifted(&self, selection: &Selection, want: bool) -> (kept: Vec<Categories>)
        ensures
            kept@ == sift(self@.rows, selection@, want),
    {
        let mut kept: Vec<Categories> = Vec::new();
        let mut i: usize = 0;
        while i < self.rows.len()
            invariant
                i <= self.rows@.len(),
                kept@ == sift(self.rows@.take(i as int), selection@, want),
            decreases self.rows@.len() - i,
        {
            proof {
                let next = self.rows@.take(i + 1);
                assert(next.drop_last() == self.rows@.take(i as int));
                assert(next.last() == self.rows@[i as int]);
            }
            if selection_admits(selection, &self.rows[i]) == want {
                kept.push(self.rows[i].duplicate());
            }
            i = i + 1;
        }
        assert(self.rows@.take(self.rows@.len() as int) == self.rows@);
        kept
    }

    /// Runs a statement: changes the rows as the statement says and
    /// reports how many rows it affected, or reports a fault and leaves the
    /// rows as they were.
    pub fn execute(&mut self, statement: &Statement) -> (result: Result<u64, StoreFault>)
        requires
            old(self).wf(),
        ensures
            final(self).wf(),
            final(self)@ == (Table {
                rows: apply(old(self)@.rows, old(self)@.now, *statement).rows,
                ..old(self)@
            }),
            reported(result) == apply(old(self)@.rows, old(self)@.now, *statement).result,
    {
        match statement {
            Statement::Insert(c) => self.add(c),
            Statement::Upsert(c) => {
                let i = self.find(&Key::Id(c.id));
                if i < self.rows.len() {
                    let mut row = c.duplicate();
                    row.created_on = self.rows[i].created_on;
                    self.replace(i, row, 2)
                } else {
                    self.add(c)
                }
            },
            Statement::Update(c) => {
                let i = self.find(&Key::Id(c.id));
                if i < self.rows.len() {
                    let mut row = c.duplicate();
                    row.created_on = self.rows[i].created_on;
                    row.updated_on = self.now.or_later(&self.rows[i].updated_on);
                    self.replace(i, row, 1)
                } else {
                    Ok(0)
                }
            },
            Statement::SetActive(id, flag) => {
                proof {
                    lemma_apply(self@.rows, self@.now, *statement);
                }
                let i = self.find(&Key::Id(*id));
                if i < self.rows.len() {
                    let mut row = self.rows[i].duplicate();
                    row.is_active = *flag;
                    row.updated_on = self.now.or_later(&self.rows[i].updated_on);
                    self.rows.set(i, row);
                    Ok(1)
                } else {
                    Ok(0)
                }
            },
            Statement::Delete(key) => {
                proof {
                    lemma_apply(self@.rows, self@.now, *statement);
                }
                let i = self.find(key);
                if i < self.rows.len() {
                    let _ = self.rows.remove(i);
                    Ok(1)
                } else {
                    Ok(0)
                }
            },
            Statement::Purge(selection) => {
                proof {
                    lemma_apply(self@.rows, self@.now, *statement);
                    lemma_sift(self@.rows, selection@, false);
                }
                let kept = self.sifted(selection, false);
                let removed: usize = self.rows.len() - kept.len();
                self.rows = kept;
                Ok(removed as u64)
            },
        }
    }

    /// The first row that has the key.
    pub fn fetch_optional(&self, key: &Key) -> (row: Option<Categories>)
        ensures
            row == lookup(self@.rows, key@),
    {
        let i = self.find(key);
        if i < self.rows.len() {
            Some(self.rows[i].duplicate())
        } else {
            None
        }
    }

    /// The rows that the selection keeps, newest first.
    pub fn fetch_all(&self, selection: &Selection) -> (rows: Vec<Categories>)
        ensures
            rows@ == select(self@.rows, selection@),
    {
        self.sifted(selection, true)
    }

    /// One page of the rows that the selection keeps, newest first.
    pub fn fetch_page(&self, selection: &Selection, offset: i32, limit: i32) -> (rows: Vec<
        Categories,
    >)
        ensures
            rows@ == page_of(select(self@.rows, selection@), offset, limit),
    {
        let all = self.sifted(selection, true);
        let len: usize = all.len();
        let start: usize = if offset < 0 {
            0
        } else if offset as usize > len {
            len
        } else {
            offset as usize
        };
        let end: usize = if limit < 0 || limit as usize > len - start {
            len
        } else {
            start + limit as usize
        };
        let mut page: Vec<Categories> = Vec::new();
        let mut i: usize = start;
        while i < end
            invariant
                start <= i <= end <= all@.len(),
                page@ == all@.subrange(start as int, i as int),
            decreases end - i,
        {
            page.push(all[i].duplicate());
            assert(all@.subrange(start as int, i + 1) == all@.subrange(start as int, i as int).push(
                all@[i as int],
            ));
            i = i + 1;
        }
        page
    }

    /// The number of rows that the selection keeps.
    pub fn fetch_count(&self, selection: &Selection) -> (count: i32)
        requires
            self.wf(),
        ensures
            count == select(self@.rows, selection@).len(),
    {
        proof {
            lemma_sift(self@.rows, selection@, true);
        }
        let all = self.sifted(selection, true);
        all.len() as i32
    }

    /// Opens a transaction: remembers the rows as they are.
    pub fn begin(&mut self) -> (result: Result<(), StoreFault>)
        requires
            old(self).wf(),
        ensures
            final(self).wf(),
            old(self)@.saved is None ==> result is Ok && final(self)@ == (Table {
                saved: Some(old(self)@.rows),
                ..old(self)@
            }),
            old(self)@.saved is Some ==> result == Err::<(), StoreFault>(
                StoreFault::TransactionOpen,
            ) && final(self)@ == old(self)@,
    {
        if self.saved.is_some() {
            return Err(StoreFault::TransactionOpen);
        }
        self.saved = Some(copy_rows(&self.rows));
        Ok(())
    }

    /// Closes the open transaction and keeps what it did.
    pub fn commit(&mut self) -> (result: Result<(), StoreFault>)
        requires
            old(self).wf(),
        ensures
            final(self).wf(),
            old(self)@.saved is Some ==> result is Ok && final(self)@ == (Table {
                saved: None,
                ..old(self)@
            }),
            old(self)@.saved is None ==> result == Err::<(), StoreFault>(
                StoreFault::NoTransaction,
            ) && final(self)@ == old(self)@,
    {
        if self.saved.is_none() {
            return Err(StoreFault::NoTransaction);
        }
        self.saved = None;
        Ok(())
    }

    /// Closes the open transaction and undoes what it did.
    pub fn rollback(&mut self) -> (result: Result<(), StoreFault>)
        requires
            old(self).wf(),
        ensures
            final(self).wf(),
            old(self)@.saved matches Some(before) ==> result is Ok && final(self)@ == (Table {
                rows: before,
                saved: None,
                ..old(self)@
            }),
            old(self)@.saved is None ==> result == Err::<(), StoreFault>(
                StoreFault::NoTransaction,
            ) && final(self)@ == old(self)@,
    {
        match self.saved.take() {
            Some(before) => {
                self.rows = before;
                Ok(())
            },
            None => Err(StoreFault::NoTransaction),
        }
    }
}

} // verus!
