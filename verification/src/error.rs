//! Errors of the persistence layer.

use vstd::prelude::*;
use vstd::std_specs::cmp::PartialEqSpecImpl;
use vstd::std_specs::convert::FromSpecImpl;

verus! {

/// A uniqueness rule of the categories table.
#[derive(Clone, Copy, Debug, PartialEq, Eq, Structural)]
pub enum Constraint {
    Id,
    Code,
    UrlSlug,
}

/// A column whose stored text must have a certain shape.
#[derive(Clone, Copy, Debug, PartialEq, Eq, Structural)]
pub enum Column {
    Id,
    CategoryType,
    UrlSlug,
    Color,
}

/// Why the store refused or could not complete an action.
#[derive(Debug)]
pub enum StoreFault {
    /// A query that must yield a row yielded none.
    RowNotFound,
    /// A write would have broken a uniqueness rule.
    Unique(Constraint),
    /// Commit or rollback without an open transaction.
    NoTransaction,
    /// Begin while a transaction is open.
    TransactionOpen,
    /// The table cannot take another row.
    Full,
    /// A stored value does not have the shape of its column.
    Decode(Column),
    /// Any other fault, with the engine's own words.
    Engine(String),
}

/// The mathematical content of a [`StoreFault`].
pub ghost enum FaultView {
    RowNotFound,
    Unique(Constraint),
    NoTransaction,
    TransactionOpen,
    Full,
    Decode(Column),
    Engine(Seq<char>),
}

impl View for StoreFault {
    type V = FaultView;

    open spec fn view(&self) -> FaultView {
        match self {
            StoreFault::RowNotFound => FaultView::RowNotFound,
            StoreFault::Unique(c) => FaultView::Unique(*c),
            StoreFault::NoTransaction => FaultView::NoTransaction,
            StoreFault::TransactionOpen => FaultView::TransactionOpen,
            StoreFault::Full => FaultView::Full,
            StoreFault::Decode(c) => FaultView::Decode(*c),
            StoreFault::Engine(s) => FaultView::Engine(s@),
        }
    }
}

/// The words that describe a fault.
pub open spec fn fault_text(f: FaultView) -> Seq<char> {
    match f {
        FaultView::RowNotFound => "no rows returned by a query that expected to return at least one row"@,
        FaultView::Unique(Constraint::Id) => "UNIQUE constraint failed: categories.id"@,
        FaultView::Unique(Constraint::Code) => "UNIQUE constraint failed: categories.code"@,
        FaultView::Unique(Constraint::UrlSlug) => "UNIQUE constraint failed: categories.url_slug"@,
        FaultView::NoTransaction => "no transaction is open"@,
        FaultView::TransactionOpen => "a transaction is already open"@,
        FaultView::Full => "the table is full"@,
        FaultView::Decode(Column::Id) => "error occurred while decoding column id"@,
        FaultView::Decode(Column::CategoryType) => "error occurred while decoding column category_type"@,
        FaultView::Decode(Column::UrlSlug) => "error occurred while decoding column url_slug"@,
        FaultView::Decode(Column::Color) => "error occurred while decoding column color"@,
        FaultView::Engine(s) => s,
    }
}

impl StoreFault {
    /// A copy of this fault.
    pub fn duplicate(&self) -> (copy: StoreFault)
        ensures
            copy == *self,
    {
        match self {
            StoreFault::RowNotFound => StoreFault::RowNotFound,
            StoreFault::Unique(c) => StoreFault::Unique(*c),
            StoreFault::NoTransaction => StoreFault::NoTransaction,
            StoreFault::TransactionOpen => StoreFault::TransactionOpen,
            StoreFault::Full => StoreFault::Full,
            StoreFault::Decode(c) => StoreFault::Decode(*c),
            StoreFault::Engine(s) => StoreFault::Engine(s.clone()),
        }
    }

    /// The words that describe this fault.
    pub fn to_string(&self) -> (text: String)
        ensures
            text@ == fault_text(self@),
    {
        match self {
            StoreFault::RowNotFound => String::from_str(
                "no rows returned by a query that expected to return at least one row",
            ),
            StoreFault::Unique(Constraint::Id) => String::from_str(
                "UNIQUE constraint failed: categories.id",
            ),
            StoreFault::Unique(Constraint::Code) => String::from_str(
                "UNIQUE constraint failed: categories.code",
            ),
            StoreFault::Unique(Constraint::UrlSlug) => String::from_str(
                "UNIQUE constraint failed: categories.url_slug",
            ),
            StoreFault::NoTransaction => String::from_str("no transaction is open"),
            StoreFault::TransactionOpen => String::from_str("a transaction is already open"),
            StoreFault::Full => String::from_str("the table is full"),
            StoreFault::Decode(Column::Id) => String::from_str(
                "error occurred while decoding column id",
            ),
            StoreFault::Decode(Column::CategoryType) => String::from_str(
                "error occurred while decoding column category_type",
            ),
            StoreFault::Decode(Column::UrlSlug) => String::from_str(
                "error occurred while decoding column url_slug",
            ),
            StoreFault::Decode(Column::Color) => String::from_str(
                "error occurred while decoding column color",
            ),
            StoreFault::Engine(s) => s.clone(),
        }
    }
}

impl PartialEq for StoreFault {
    fn eq(&self, other: &StoreFault) -> (same: bool) {
        match (self, other) {
            (StoreFault::RowNotFound, StoreFault::RowNotFound) => true,
            (StoreFault::Unique(a), StoreFault::Unique(b)) => *a == *b,
            (StoreFault::NoTransaction, StoreFault::NoTransaction) => true,
            (StoreFault::TransactionOpen, StoreFault::TransactionOpen) => true,
            (StoreFault::Full, StoreFault::Full) => true,
            (StoreFault::Decode(a), StoreFault::Decode(b)) => *a == *b,
            (StoreFault::Engine(a), StoreFault::Engine(b)) => *a == *b,
            _ => false,
        }
    }
}

impl PartialEqSpecImpl for StoreFault {
    open spec fn obeys_eq_spec() -> bool {
        true
    }

    open spec fn eq_spec(&self, other: &StoreFault) -> bool {
        self@ == other@
    }
}

impl Eq for StoreFault {

}

/// What went wrong in an operation of the persistence layer.
#[derive(Debug)]
pub enum DatabaseError {
    /// A category could not be assembled from its parts.
    CategoryBuilder(String),
    /// The pool could not establish or hand out a connection.
    Connection(String),
    /// The store rejected a statement.
    Sqlx(StoreFault),
    /// A schema migration failed.
    Migration(String),
    /// A value failed a precondition enforced above the store.
    Validation(String),
    /// An identity-scoped operation matched no row.
    NotFound(String),
    /// Anything else.
    Generic(String),
}

/// The result of an operation of the persistence layer.
pub type DatabaseResult<T> = Result<T, DatabaseError>;

/// The mathematical content of a [`DatabaseError`].
pub ghost enum ErrorView {
    CategoryBuilder(Seq<char>),
    Connection(Seq<char>),
    Sqlx(FaultView),
    Migration(Seq<char>),
    Validation(Seq<char>),
    NotFound(Seq<char>),
    Generic(Seq<char>),
}

impl View for DatabaseError {
    type V = ErrorView;

    open spec fn view(&self) -> ErrorView {
        match self {
            DatabaseError::CategoryBuilder(s) => ErrorView::CategoryBuilder(s@),
            DatabaseError::Connection(s) => ErrorView::Connection(s@),
            DatabaseError::Sqlx(f) => ErrorView::Sqlx(f@),
            DatabaseError::Migration(s) => ErrorView::Migration(s@),
            DatabaseError::Validation(s) => ErrorView::Validation(s@),
            DatabaseError::NotFound(s) => ErrorView::NotFound(s@),
            DatabaseError::Generic(s) => ErrorView::Generic(s@),
        }
    }
}

/// The message of an error: a fixed lead for its kind, then its detail.
pub open spec fn error_text(e: ErrorView) -> Seq<char> {
    match e {
        ErrorView::CategoryBuilder(s) => "Error building category: "@ + s,
        ErrorView::Connection(s) => "Error connecting to the database: "@ + s,
        ErrorView::Sqlx(f) => "Database error: "@ + fault_text(f),
        ErrorView::Migration(s) => "Database migration error: "@ + s,
        ErrorView::Validation(s) => "Validation: "@ + s,
        ErrorView::NotFound(s) => "Not found: "@ + s,
        ErrorView::Generic(s) => "Other database error: "@ + s,
    }
}

impl DatabaseError {
    /// A copy of this error.
    pub fn duplicate(&self) -> (copy: DatabaseError)
        ensures
            copy == *self,
    {
        match self {
            DatabaseError::CategoryBuilder(s) => DatabaseError::CategoryBuilder(s.clone()),
            DatabaseError::Connection(s) => DatabaseError::Connection(s.clone()),
            DatabaseError::Sqlx(f) => DatabaseError::Sqlx(f.duplicate()),
            DatabaseError::Migration(s) => DatabaseError::Migration(s.clone()),
            DatabaseError::Validation(s) => DatabaseError::Validation(s.clone()),
            DatabaseError::NotFound(s) => DatabaseError::NotFound(s.clone()),
            DatabaseError::Generic(s) => DatabaseError::Generic(s.clone()),
        }
    }

    /// The message of this error.
    pub fn to_string(&self) -> (text: String)
        ensures
            text@ == error_text(self@),
    {
        match self {
            DatabaseError::CategoryBuilder(s) => String::from_str("Error building category: ").concat(
                s.as_str(),
            ),
            DatabaseError::Connection(s) => String::from_str(
                "Error connecting to the database: ",
            ).concat(s.as_str()),
            DatabaseError::Sqlx(f) => {
                let detail = f.to_string();
                String::from_str("Database error: ").concat(detail.as_str())
            },
            DatabaseError::Migration(s) => String::from_str("Database migration error: ").concat(
                s.as_str(),
            ),
            DatabaseError::Validation(s) => String::from_str("Validation: ").concat(s.as_str()),
            DatabaseError::NotFound(s) => String::from_str("Not found: ").concat(s.as_str()),
            DatabaseError::Generic(s) => String::from_str("Other database error: ").concat(
                s.as_str(),
            ),
        }
    }
}

impl From<StoreFault> for DatabaseError {
    fn from(fault: StoreFault) -> (error: DatabaseError) {
        DatabaseError::Sqlx(fault)
    }
}

impl FromSpecImpl<StoreFault> for DatabaseError {
    open spec fn obeys_from_spec() -> bool {
        true
    }

    open spec fn from_spec(fault: StoreFault) -> DatabaseError {
        DatabaseError::Sqlx(fault)
    }
}

impl PartialEq for DatabaseError {
    fn eq(&self, other: &DatabaseError) -> (same: bool) {
        match (self, other) {
            (DatabaseError::CategoryBuilder(a), DatabaseError::CategoryBuilder(b)) => *a == *b,
            (DatabaseError::Connection(a), DatabaseError::Connection(b)) => *a == *b,
            (DatabaseError::Sqlx(a), DatabaseError::Sqlx(b)) => *a == *b,
            (DatabaseError::Migration(a), DatabaseError::Migration(b)) => *a == *b,
            (DatabaseError::Validation(a), DatabaseError::Validation(b)) => *a == *b,
            (DatabaseError::NotFound(a), DatabaseError::NotFound(b)) => *a == *b,
            (DatabaseError::Generic(a), DatabaseError::Generic(b)) => *a == *b,
            _ => false,
        }
    }
}

impl PartialEqSpecImpl for DatabaseError {
    open spec fn obeys_eq_spec() -> bool {
        true
    }

    open spec fn eq_spec(&self, other: &DatabaseError) -> bool {
        self@ == other@
    }
}

impl Eq for DatabaseError {

}

impl Clone for StoreFault {
    fn clone(&self) -> (copy: StoreFault)
        ensures
            copy == *self,
    {
        self.duplicate()
    }
}

impl Clone for DatabaseError {
    fn clone(&self) -> (copy: DatabaseError)
        ensures
            copy == *self,
    {
        self.duplicate()
    }
}

} // verus!
