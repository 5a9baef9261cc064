//! The statements of the protocol in SQL: the text of each action, and the
//! values bound to its placeholders, in order.

use vstd::prelude::*;
use crate::categories::model::{color_of, slug_of, text_of, Categories};
use crate::categories::protocol::Action;
use crate::categories::statement::{Filter, Key, Probe, Selection, Statement};
use crate::domain::{
    id_of_text, id_text, is_hex_color_text, is_slug_text, type_of_text, type_text, CategoryTypes,
    HexColor, RowID, Timestamp, UrlSlug,
};
use crate::error::{Column, DatabaseError, DatabaseResult, ErrorView, FaultView, StoreFault};

verus! {

/// A value bound to a placeholder.
#[derive(Debug, PartialEq, Eq)]
pub enum Value {
    Null,
    Text(String),
    Boolean(bool),
    Integer(i64),
    Time(Timestamp),
}

/// The mathematical content of a [`Value`].
pub ghost enum Datum {
    Null,
    Text(Seq<char>),
    Boolean(bool),
    Integer(i64),
    Time(Timestamp),
}

impl View for Value {
    type V = Datum;

    open spec fn view(&self) -> Datum {
        match self {
            Value::Null => Datum::Null,
            Value::Text(s) => Datum::Text(s@),
            Value::Boolean(b) => Datum::Boolean(*b),
            Value::Integer(n) => Datum::Integer(*n),
            Value::Time(t) => Datum::Time(*t),
        }
    }
}

/// The content of each value of a sequence.
pub open spec fn data(values: Seq<Value>) -> Seq<Datum> {
    Seq::new(values.len(), |i: int| values[i]@)
}

/// An optional text as a datum: null when absent.
pub open spec fn optional(text: Option<Seq<char>>) -> Datum {
    match text {
        Some(s) => Datum::Text(s),
        None => Datum::Null,
    }
}

/// The columns of a row, in the order of the table.
pub open spec fn columns() -> Seq<char> {
    "id, code, name, description, url_slug, category_type, color, icon, is_active, created_on, updated_on"@
}

/// The text that stands, in a statement, for the time that an update
/// stamps a row with: the later of the row's time of update and the
/// store's time.
pub open spec fn clock() -> Seq<char> {
    "max(updated_on, strftime('%Y-%m-%dT%H:%M:%fZ','now'))"@
}

/// The text of an insert.
pub open spec fn insert_text() -> Seq<char> {
    "INSERT INTO categories ("@ + columns() + ") VALUES (?, ?, ?, ?, ?, ?, ?, ?, ?, ?, ?)"@
}

/// What an insert-or-overwrite adds to an insert.
pub open spec fn conflict_text() -> Seq<char> {
    " ON CONFLICT(id) DO UPDATE SET code = excluded.code, name = excluded.name, description = excluded.description, url_slug = excluded.url_slug, category_type = excluded.category_type, color = excluded.color, icon = excluded.icon, is_active = excluded.is_active, updated_on = excluded.updated_on"@
}

/// The text of a full update.
pub open spec fn update_text() -> Seq<char> {
    "UPDATE categories SET code = ?, name = ?, description = ?, url_slug = ?, category_type = ?, color = ?, icon = ?, is_active = ?, updated_on = "@
        + clock() + " WHERE id = ?"@
}

/// The text of an update of the active flag.
pub open spec fn set_active_text() -> Seq<char> {
    "UPDATE categories SET is_active = ?, updated_on = "@ + clock() + " WHERE id = ?"@
}

/// The condition that picks the row with a key.
pub open spec fn key_condition(probe: Probe) -> Seq<char> {
    match probe {
        Probe::Id(_) => " WHERE id = ?"@,
        Probe::Code(_) => " WHERE code = ?"@,
        Probe::Slug(_) => " WHERE url_slug = ?"@,
    }
}

/// The condition that picks the rows that a filter keeps: one comparison
/// for each part that is present, joined by `AND`; nothing for the filter
/// that keeps every row.
pub open spec fn filter_condition(filter: Filter) -> Seq<char> {
    let kind = if filter.kind is Some {
        " WHERE category_type = ?"@
    } else {
        Seq::empty()
    };
    let active = if filter.active is Some {
        if filter.kind is Some {
            kind + " AND is_active = ?"@
        } else {
            " WHERE is_active = ?"@
        }
    } else {
        kind
    };
    if filter.name is Some {
        if filter.kind is Some || filter.active is Some {
            active + " AND name LIKE ? ESCAPE '\\'"@
        } else {
            " WHERE name LIKE ? ESCAPE '\\'"@
        }
    } else {
        active
    }
}

/// `s` with a backslash before each character that a `LIKE` pattern reads
/// as other than itself.
pub open spec fn escaped(s: Seq<char>) -> Seq<char>
    decreases s.len(),
{
    if s.len() == 0 {
        Seq::empty()
    } else {
        let c = s.last();
        if c == '%' || c == '_' || c == '\\' {
            escaped(s.drop_last()) + "\\"@ + s.subrange(s.len() - 1, s.len() as int)
        } else {
            escaped(s.drop_last()) + s.subrange(s.len() - 1, s.len() as int)
        }
    }
}

/// The `LIKE` pattern of the texts that contain `s`.
pub open spec fn containing(s: Seq<char>) -> Seq<char> {
    "%"@ + escaped(s) + "%"@
}

/// The SQL text of an action.
pub open spec fn sql_text(action: Action) -> Seq<char> {
    match action {
        Action::Begin => "BEGIN"@,
        Action::Commit => "COMMIT"@,
        Action::Rollback => "ROLLBACK"@,
        Action::Execute(Statement::Insert(_)) => insert_text(),
        Action::Execute(Statement::Upsert(_)) => insert_text() + conflict_text(),
        Action::Execute(Statement::Update(_)) => update_text(),
        Action::Execute(Statement::SetActive(_, _)) => set_active_text(),
        Action::Execute(Statement::Delete(key)) => "DELETE FROM categories"@ + key_condition(
            key@,
        ),
        Action::Execute(Statement::Purge(selection)) => "DELETE FROM categories"@
            + filter_condition(selection@),
        Action::FetchOptional(key) => "SELECT "@ + columns() + " FROM categories"@
            + key_condition(key@),
        Action::FetchAll(selection) => "SELECT "@ + columns() + " FROM categories"@
            + filter_condition(selection@) + " ORDER BY created_on DESC"@,
        Action::FetchPage(selection, _, _) => "SELECT "@ + columns() + " FROM categories"@
            + filter_condition(selection@) + " ORDER BY created_on DESC LIMIT ? OFFSET ?"@,
        Action::FetchCount(selection) => "SELECT COUNT(*) FROM categories"@ + filter_condition(
            selection@,
        ),
    }
}

/// The eleven values of a row, in the order of the columns.
pub open spec fn row_data(c: Categories) -> Seq<Datum> {
    seq![
        Datum::Text(id_text(c.id)),
        Datum::Text(c.code@),
        Datum::Text(c.name@),
        optional(text_of(c.description)),
        optional(slug_of(c.url_slug)),
        Datum::Text(type_text(c.category_type)),
        optional(color_of(c.color)),
        optional(text_of(c.icon)),
        Datum::Boolean(c.is_active),
        Datum::Time(c.created_on),
        Datum::Time(c.updated_on),
    ]
}

/// The values of a full update: the fields that it overwrites, then the id.
pub open spec fn update_data(c: Categories) -> Seq<Datum> {
    seq![
        Datum::Text(c.code@),
        Datum::Text(c.name@),
        optional(text_of(c.description)),
        optional(slug_of(c.url_slug)),
        Datum::Text(type_text(c.category_type)),
        optional(color_of(c.color)),
        optional(text_of(c.icon)),
        Datum::Boolean(c.is_active),
        Datum::Text(id_text(c.id)),
    ]
}

/// The value that a key is compared with.
pub open spec fn key_data(probe: Probe) -> Seq<Datum> {
    match probe {
        Probe::Id(id) => seq![Datum::Text(id_text(id))],
        Probe::Code(code) => seq![Datum::Text(code)],
        Probe::Slug(slug) => seq![Datum::Text(slug)],
    }
}

/// The values that the parts of a filter are compared with.
pub open spec fn filter_data(filter: Filter) -> Seq<Datum> {
    let kind = match filter.kind {
        Some(k) => seq![Datum::Text(type_text(k))],
        None => Seq::empty(),
    };
    let active = match filter.active {
        Some(a) => kind.push(Datum::Boolean(a)),
        None => kind,
    };
    match filter.name {
        Some(n) => active.push(Datum::Text(containing(n))),
        None => active,
    }
}

/// The values bound to the placeholders of an action, in order.
pub open spec fn bindings_of(action: Action) -> Seq<Datum> {
    match action {
        Action::Begin => Seq::empty(),
        Action::Commit => Seq::empty(),
        Action::Rollback => Seq::empty(),
        Action::Execute(Statement::Insert(c)) => row_data(c),
        Action::Execute(Statement::Upsert(c)) => row_data(c),
        Action::Execute(Statement::Update(c)) => update_data(c),
        Action::Execute(Statement::SetActive(id, flag)) => seq![
            Datum::Boolean(flag),
            Datum::Text(id_text(id)),
        ],
        Action::Execute(Statement::Delete(key)) => key_data(key@),
        Action::Execute(Statement::Purge(selection)) => filter_data(selection@),
        Action::FetchOptional(key) => key_data(key@),
        Action::FetchAll(selection) => filter_data(selection@),
        Action::FetchPage(selection, offset, limit) => filter_data(selection@).push(
            Datum::Integer(limit as i64),
        ).push(Datum::Integer(offset as i64)),
        Action::FetchCount(selection) => filter_data(selection@),
    }
}

fn optional_text(text: &Option<String>) -> (value: Value)
    ensures
        value@ == optional(text_of(*text)),
{
    match text {
        Some(s) => Value::Text(s.clone()),
        None => Value::Null,
    }
}

fn optional_slug(slug: &Option<UrlSlug>) -> (value: Value)
    ensures
        value@ == optional(slug_of(*slug)),
{
    match slug {
        Some(s) => Value::Text(s.text.clone()),
        None => Value::Null,
    }
}

fn optional_color(color: &Option<HexColor>) -> (value: Value)
    ensures
        value@ == optional(color_of(*color)),
{
    match color {
        Some(c) => Value::Text(c.text.clone()),
        None => Value::Null,
    }
}

fn row_values(c: &Categories) -> (values: Vec<Value>)
    ensures
        data(values@) == row_data(*c),
{
    let mut values: Vec<Value> = Vec::new();
    values.push(Value::Text(c.id.to_string()));
    values.push(Value::Text(c.code.clone()));
    values.push(Value::Text(c.name.clone()));
    values.push(optional_text(&c.description));
    values.push(optional_slug(&c.url_slug));
    values.push(Value::Text(String::from_str(c.category_type.as_str())));
    values.push(optional_color(&c.color));
    values.push(optional_text(&c.icon));
    values.push(Value::Boolean(c.is_active));
    values.push(Value::Time(c.created_on));
    values.push(Value::Time(c.updated_on));
    assert(data(values@) =~= row_data(*c));
    values
}

fn update_values(c: &Categories) -> (values: Vec<Value>)
    ensures
        data(values@) == update_data(*c),
{
    let mut values: Vec<Value> = Vec::new();
    values.push(Value::Text(c.code.clone()));
    values.push(Value::Text(c.name.clone()));
    values.push(optional_text(&c.description));
    values.push(optional_slug(&c.url_slug));
    values.push(Value::Text(String::from_str(c.category_type.as_str())));
    values.push(optional_color(&c.color));
    values.push(optional_text(&c.icon));
    values.push(Value::Boolean(c.is_active));
    values.push(Value::Text(c.id.to_string()));
    assert(data(values@) =~= update_data(*c));
    values
}

fn key_values(key: &Key) -> (values: Vec<Value>)
    ensures
        data(values@) == key_data(key@),
{
    let mut values: Vec<Value> = Vec::new();
    match key {
        Key::Id(id) => values.push(Value::Text(id.to_string())),
        Key::Code(code) => values.push(Value::Text(code.clone())),
        Key::Slug(slug) => values.push(Value::Text(slug.text.clone())),
    }
    assert(data(values@) =~= key_data(key@));
    values
}

/// `text` with a backslash before each character that a `LIKE` pattern
/// reads as other than itself.
pub fn escape(text: &str) -> (out: String)
    ensures
        out@ == escaped(text@),
{
    let n = text.unicode_len();
    let mut out = String::new();
    let mut i: usize = 0;
    assert(text@.take(0) =~= Seq::<char>::empty());
    while i < n
        invariant
            i <= n,
            n == text@.len(),
            out@ == escaped(text@.take(i as int)),
        decreases n - i,
    {
        let c = text.get_char(i);
        proof {
            let next = text@.take(i + 1);
            assert(next.drop_last() =~= text@.take(i as int));
            assert(next.last() == c);
            assert(next.subrange(next.len() - 1, next.len() as int) =~= text@.subrange(
                i as int,
                i + 1,
            ));
        }
        if c == '%' || c == '_' || c == '\\' {
            out.append("\\");
        }
        out.append(text.substring_char(i, i + 1));
        i = i + 1;
    }
    assert(text@.take(n as int) =~= text@);
    out
}

fn filter_values(selection: &Selection) -> (values: Vec<Value>)
    ensures
        data(values@) == filter_data(selection@),
{
    let mut values: Vec<Value> = Vec::new();
    match selection.kind {
        Some(k) => values.push(Value::Text(String::from_str(k.as_str()))),
        None => {},
    }
    match selection.active {
        Some(a) => values.push(Value::Boolean(a)),
        None => {},
    }
    match &selection.name {
        Some(n) => {
            let inner = escape(n.as_str());
            values.push(Value::Text(String::from_str("%").concat(inner.as_str()).concat("%")));
        },
        None => {},
    }
    assert(data(values@) =~= filter_data(selection@));
    values
}

fn key_where(key: &Key) -> (text: &'static str)
    ensures
        text@ == key_condition(key@),
{
    match key {
        Key::Id(_) => " WHERE id = ?",
        Key::Code(_) => " WHERE code = ?",
        Key::Slug(_) => " WHERE url_slug = ?",
    }
}

fn filter_where(selection: &Selection) -> (text: String)
    ensures
        text@ == filter_condition(selection@),
{
    let mut text = String::new();
    let mut any = false;
    if selection.kind.is_some() {
        text.append(" WHERE category_type = ?");
        any = true;
    }
    if selection.active.is_some() {
        if any {
            text.append(" AND is_active = ?");
        } else {
            text.append(" WHERE is_active = ?");
        }
        any = true;
    }
    if selection.name.is_some() {
        if any {
            text.append(" AND name LIKE ? ESCAPE '\\'");
        } else {
            text.append(" WHERE name LIKE ? ESCAPE '\\'");
        }
    }
    assert(text@ =~= filter_condition(selection@));
    text
}

fn select_from() -> (text: String)
    ensures
        text@ == "SELECT "@ + columns() + " FROM categories"@,
{
    String::from_str("SELECT ").concat(
        "id, code, name, description, url_slug, category_type, color, icon, is_active, created_on, updated_on",
    ).concat(" FROM categories")
}

fn insert_into() -> (text: String)
    ensures
        text@ == insert_text(),
{
    String::from_str("INSERT INTO categories (").concat(
        "id, code, name, description, url_slug, category_type, color, icon, is_active, created_on, updated_on",
    ).concat(") VALUES (?, ?, ?, ?, ?, ?, ?, ?, ?, ?, ?)")
}

impl Action {
    /// The SQL text of this action, with a `?` for each value to bind.
    pub fn sql(&self) -> (text: String)
        ensures
            text@ == sql_text(*self),
    {
        match self {
            Action::Begin => String::from_str("BEGIN"),
            Action::Commit => String::from_str("COMMIT"),
            Action::Rollback => String::from_str("ROLLBACK"),
            Action::Execute(Statement::Insert(_)) => insert_into(),
            Action::Execute(Statement::Upsert(_)) => insert_into().concat(
                " ON CONFLICT(id) DO UPDATE SET code = excluded.code, name = excluded.name, description = excluded.description, url_slug = excluded.url_slug, category_type = excluded.category_type, color = excluded.color, icon = excluded.icon, is_active = excluded.is_active, updated_on = excluded.updated_on",
            ),
            Action::Execute(Statement::Update(_)) => String::from_str(
                "UPDATE categories SET code = ?, name = ?, description = ?, url_slug = ?, category_type = ?, color = ?, icon = ?, is_active = ?, updated_on = ",
            ).concat("max(updated_on, strftime('%Y-%m-%dT%H:%M:%fZ','now'))").concat(
                " WHERE id = ?",
            ),
            Action::Execute(Statement::SetActive(_, _)) => String::from_str(
                "UPDATE categories SET is_active = ?, updated_on = ",
            ).concat("max(updated_on, strftime('%Y-%m-%dT%H:%M:%fZ','now'))").concat(
                " WHERE id = ?",
            ),
            Action::Execute(Statement::Delete(key)) => String::from_str(
                "DELETE FROM categories",
            ).concat(key_where(key)),
            Action::Execute(Statement::Purge(selection)) => {
                let condition = filter_where(selection);
                String::from_str("DELETE FROM categories").concat(condition.as_str())
            },
            Action::FetchOptional(key) => select_from().concat(key_where(key)),
            Action::FetchAll(selection) => {
                let condition = filter_where(selection);
                select_from().concat(condition.as_str()).concat(" ORDER BY created_on DESC")
            },
            Action::FetchPage(selection, _, _) => {
                let condition = filter_where(selection);
                select_from().concat(condition.as_str()).concat(
                    " ORDER BY created_on DESC LIMIT ? OFFSET ?",
                )
            },
            Action::FetchCount(selection) => {
                let condition = filter_where(selection);
                String::from_str("SELECT COUNT(*) FROM categories").concat(condition.as_str())
            },
        }
    }

    /// The values to bind to the placeholders of this action, in order.
    pub fn bindings(&self) -> (values: Vec<Value>)
        ensures
            data(values@) == bindings_of(*self),
    {
        match self {
            Action::Begin => {
                let values: Vec<Value> = Vec::new();
                assert(data(values@) =~= Seq::<Datum>::empty());
                values
            },
            Action::Commit => {
                let values: Vec<Value> = Vec::new();
                assert(data(values@) =~= Seq::<Datum>::empty());
                values
            },
            Action::Rollback => {
                let values: Vec<Value> = Vec::new();
                assert(data(values@) =~= Seq::<Datum>::empty());
                values
            },
            Action::Execute(Statement::Insert(c)) => row_values(c),
            Action::Execute(Statement::Upsert(c)) => row_values(c),
            Action::Execute(Statement::Update(c)) => update_values(c),
            Action::Execute(Statement::SetActive(id, flag)) => {
                let mut values: Vec<Value> = Vec::new();
                values.push(Value::Boolean(*flag));
                values.push(Value::Text(id.to_string()));
                assert(data(values@) =~= bindings_of(*self));
                values
            },
            Action::Execute(Statement::Delete(key)) => key_values(key),
            Action::Execute(Statement::Purge(selection)) => filter_values(selection),
            Action::FetchOptional(key) => key_values(key),
            Action::FetchAll(selection) => filter_values(selection),
            Action::FetchPage(selection, offset, limit) => {
                let mut values = filter_values(selection);
                let ghost before = values@;
                values.push(Value::Integer(*limit as i64));
                values.push(Value::Integer(*offset as i64));
                assert(data(values@) =~= data(before).push(Datum::Integer(*limit as i64)).push(
                    Datum::Integer(*offset as i64),
                ));
                values
            },
            Action::FetchCount(selection) => filter_values(selection),
        }
    }
}

/// A row as the store hands it out: each column as a plain value.
#[derive(Debug, PartialEq, Eq)]
pub struct RawRow {
    pub id: String,
    pub code: String,
    pub name: String,
    pub description: Option<String>,
    pub url_slug: Option<String>,
    pub category_type: String,
    pub color: Option<String>,
    pub icon: Option<String>,
    pub is_active: bool,
    pub created_on: Timestamp,
    pub updated_on: Timestamp,
}

/// The first column of a raw row whose text does not have the shape that
/// the column asks for, in the order id, type, slug, colour.
pub open spec fn misfit(raw: RawRow) -> Option<Column> {
    if id_of_text(raw.id@) is None {
        Some(Column::Id)
    } else if type_of_text(raw.category_type@) is None {
        Some(Column::CategoryType)
    } else if raw.url_slug is Some && !is_slug_text(raw.url_slug->0@) {
        Some(Column::UrlSlug)
    } else if raw.color is Some && !is_hex_color_text(raw.color->0@) {
        Some(Column::Color)
    } else {
        None
    }
}

/// The category that a raw row holds.
pub open spec fn decoded(raw: RawRow) -> Categories {
    Categories {
        id: id_of_text(raw.id@)->0,
        code: raw.code,
        name: raw.name,
        description: raw.description,
        url_slug: match raw.url_slug {
            Some(text) => Some(UrlSlug { text }),
            None => None,
        },
        category_type: type_of_text(raw.category_type@)->0,
        color: match raw.color {
            Some(text) => Some(HexColor { text }),
            None => None,
        },
        icon: raw.icon,
        is_active: raw.is_active,
        created_on: raw.created_on,
        updated_on: raw.updated_on,
    }
}

impl RawRow {
    /// Turns the raw row into a category: reads the id, the type, the slug
    /// and the colour from their text, and takes every other column as it
    /// is. The first text that does not have the shape of its column comes
    /// back as a decoding fault.
    pub fn decode(self) -> (result: DatabaseResult<Categories>)
        ensures
            match misfit(self) {
                Some(column) => result matches Err(e) && e@ == ErrorView::Sqlx(
                    FaultView::Decode(column),
                ),
                None => result == Ok::<Categories, DatabaseError>(decoded(self)),
            },
    {
        let id = match RowID::parse(self.id.as_str()) {
            Some(id) => id,
            None => {
                return Err(DatabaseError::Sqlx(StoreFault::Decode(Column::Id)));
            },
        };
        let category_type = match CategoryTypes::parse(self.category_type.as_str()) {
            Some(kind) => kind,
            None => {
                return Err(DatabaseError::Sqlx(StoreFault::Decode(Column::CategoryType)));
            },
        };
        let url_slug = match self.url_slug {
            Some(text) => match UrlSlug::from_string(text) {
                Some(slug) => Some(slug),
                None => {
                    return Err(DatabaseError::Sqlx(StoreFault::Decode(Column::UrlSlug)));
                },
            },
            None => None,
        };
        let color = match self.color {
            Some(text) => match HexColor::from_string(text) {
                Some(color) => Some(color),
                None => {
                    return Err(DatabaseError::Sqlx(StoreFault::Decode(Column::Color)));
                },
            },
            None => None,
        };
        Ok(
            Categories {
                id,
                code: self.code,
                name: self.name,
                description: self.description,
                url_slug,
                category_type,
                color,
                icon: self.icon,
                is_active: self.is_active,
                created_on: self.created_on,
                updated_on: self.updated_on,
            },
        )
    }
}

} // verus!
