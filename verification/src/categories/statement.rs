//! What can be asked of the store: lookups by a unique key, filtered
//! listings, and the statements that change rows.

use vstd::prelude::*;
use crate::categories::model::{copy_text, Categories};
use crate::domain::{CategoryTypes, RowID, UrlSlug};

verus! {

/// A unique key of the table, as plain characters.
pub ghost enum Probe {
    Id(RowID),
    Code(Seq<char>),
    Slug(Seq<char>),
}

/// A unique key of the table.
#[derive(Debug, PartialEq, Eq)]
pub enum Key {
    Id(RowID),
    Code(String),
    Slug(UrlSlug),
}

impl View for Key {
    type V = Probe;

    open spec fn view(&self) -> Probe {
        match self {
            Key::Id(id) => Probe::Id(*id),
            Key::Code(code) => Probe::Code(code@),
            Key::Slug(slug) => Probe::Slug(slug@),
        }
    }
}

impl Key {
    /// A copy of this key.
    pub fn duplicate(&self) -> (copy: Key)
        ensures
            copy == *self,
    {
        match self {
            Key::Id(id) => Key::Id(*id),
            Key::Code(code) => Key::Code(code.clone()),
            Key::Slug(slug) => Key::Slug(slug.duplicate()),
        }
    }
}

/// Which rows a listing keeps, as plain values. A row is kept when it passes
/// every part that is present.
pub ghost struct Filter {
    pub kind: Option<CategoryTypes>,
    pub active: Option<bool>,
    pub name: Option<Seq<char>>,
}

/// Which rows a listing keeps.
#[derive(Debug, PartialEq, Eq)]
pub struct Selection {
    /// Keep rows of this type only.
    pub kind: Option<CategoryTypes>,
    /// Keep rows with this active flag only.
    pub active: Option<bool>,
    /// Keep rows whose name contains this text, letter case ignored.
    pub name: Option<String>,
}

impl View for Selection {
    type V = Filter;

    open spec fn view(&self) -> Filter {
        Filter {
            kind: self.kind,
            active: self.active,
            name: match self.name {
                Some(n) => Some(n@),
                None => None,
            },
        }
    }
}

impl Selection {
    /// The selection that keeps every row.
    pub fn all() -> (s: Selection)
        ensures
            s@ == (Filter { kind: None, active: None, name: None }),
    {
        Selection { kind: None, active: None, name: None }
    }

    /// The selection by an optional type and an optional active flag.
    pub fn of(kind: Option<CategoryTypes>, active: Option<bool>) -> (s: Selection)
        ensures
            s@ == (Filter { kind, active, name: None }),
    {
        Selection { kind, active, name: None }
    }

    /// The selection of the rows whose name contains `name`.
    pub fn named(name: &str) -> (s: Selection)
        ensures
            s@ == (Filter { kind: None, active: None, name: Some(name@) }),
    {
        Selection { kind: None, active: None, name: Some(String::from_str(name)) }
    }

    /// A copy of this selection.
    pub fn duplicate(&self) -> (copy: Selection)
        ensures
            copy == *self,
    {
        Selection { kind: self.kind, active: self.active, name: copy_text(&self.name) }
    }
}

/// A statement that changes rows and reports how many it affected.
#[derive(Debug, PartialEq, Eq)]
pub enum Statement {
    /// Add the row.
    Insert(Categories),
    /// Add the row, or overwrite the row that has its id.
    Upsert(Categories),
    /// Overwrite the row that has this row's id.
    Update(Categories),
    /// Set the active flag of the row with this id.
    SetActive(RowID, bool),
    /// Remove the row with this key.
    Delete(Key),
    /// Remove every row that the selection keeps.
    Purge(Selection),
}

impl Statement {
    /// The id of the row that the statement is about; none for a purge or a
    /// delete by another key.
    pub open spec fn subject(&self) -> Option<RowID> {
        match self {
            Statement::Insert(c) => Some(c.id),
            Statement::Upsert(c) => Some(c.id),
            Statement::Update(c) => Some(c.id),
            Statement::SetActive(id, _) => Some(*id),
            Statement::Delete(Key::Id(id)) => Some(*id),
            Statement::Delete(_) => None,
            Statement::Purge(_) => None,
        }
    }

    /// The id of the row that the statement is about.
    pub fn subject_id(&self) -> (id: Option<RowID>)
        ensures
            id == self.subject(),
    {
        match self {
            Statement::Insert(c) => Some(c.id),
            Statement::Upsert(c) => Some(c.id),
            Statement::Update(c) => Some(c.id),
            Statement::SetActive(id, _) => Some(*id),
            Statement::Delete(Key::Id(id)) => Some(*id),
            Statement::Delete(_) => None,
            Statement::Purge(_) => None,
        }
    }

    /// A copy of this statement.
    pub fn duplicate(&self) -> (copy: Statement)
        ensures
            copy == *self,
    {
        match self {
            Statement::Insert(c) => Statement::Insert(c.duplicate()),
            Statement::Upsert(c) => Statement::Upsert(c.duplicate()),
            Statement::Update(c) => Statement::Update(c.duplicate()),
            Statement::SetActive(id, flag) => Statement::SetActive(*id, *flag),
            Statement::Delete(key) => Statement::Delete(key.duplicate()),
            Statement::Purge(selection) => Statement::Purge(selection.duplicate()),
        }
    }
}

impl Clone for Key {
    fn clone(&self) -> (copy: Key)
        ensures
            copy == *self,
    {
        self.duplicate()
    }
}

impl Clone for Selection {
    fn clone(&self) -> (copy: Selection)
        ensures
            copy == *self,
    {
        self.duplicate()
    }
}

impl Clone for Statement {
    fn clone(&self) -> (copy: Statement)
        ensures
            copy == *self,
    {
        self.duplicate()
    }
}

} // verus!
