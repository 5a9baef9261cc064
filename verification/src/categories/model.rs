//! The shape of a category row and what makes one valid.

use vstd::prelude::*;
use vstd::std_specs::cmp::PartialEqSpecImpl;
use crate::domain::{is_code, is_code_text, is_hex_color_text, is_slug_text};
use crate::domain::{CategoryTypes, HexColor, RowID, Timestamp, UrlSlug};

verus! {

/// The characters of an optional text.
pub open spec fn text_of(o: Option<String>) -> Option<Seq<char>> {
    match o {
        Some(s) => Some(s@),
        None => None,
    }
}

/// The characters of an optional slug.
pub open spec fn slug_of(o: Option<UrlSlug>) -> Option<Seq<char>> {
    match o {
        Some(s) => Some(s@),
        None => None,
    }
}

/// The characters of an optional colour.
pub open spec fn color_of(o: Option<HexColor>) -> Option<Seq<char>> {
    match o {
        Some(s) => Some(s@),
        None => None,
    }
}

/// A copy of an optional text.
pub fn copy_text(o: &Option<String>) -> (copy: Option<String>)
    ensures
        copy == *o,
{
    match o {
        Some(s) => Some(s.clone()),
        None => None,
    }
}

/// Whether two optional texts hold the same characters.
pub fn same_text(a: &Option<String>, b: &Option<String>) -> (same: bool)
    ensures
        same == (text_of(*a) == text_of(*b)),
{
    match (a, b) {
        (Some(x), Some(y)) => *x == *y,
        (None, None) => true,
        _ => false,
    }
}

/// Whether two optional slugs hold the same characters.
pub fn same_slug(a: &Option<UrlSlug>, b: &Option<UrlSlug>) -> (same: bool)
    ensures
        same == (slug_of(*a) == slug_of(*b)),
{
    match (a, b) {
        (Some(x), Some(y)) => x.text == y.text,
        (None, None) => true,
        _ => false,
    }
}

/// Whether two optional colours hold the same characters.
pub fn same_color(a: &Option<HexColor>, b: &Option<HexColor>) -> (same: bool)
    ensures
        same == (color_of(*a) == color_of(*b)),
{
    match (a, b) {
        (Some(x), Some(y)) => x.text == y.text,
        (None, None) => true,
        _ => false,
    }
}

/// One row of the categories table.
#[derive(Debug)]
pub struct Categories {
    /// Primary key; never changes once the row exists.
    pub id: RowID,
    /// Three dot-separated groups of three letters or digits; unique.
    pub code: String,
    /// Human-readable name; not empty.
    pub name: String,
    pub description: Option<String>,
    /// Unique among the rows that have one.
    pub url_slug: Option<UrlSlug>,
    pub category_type: CategoryTypes,
    pub color: Option<HexColor>,
    pub icon: Option<String>,
    /// `false` marks the row as logically deactivated; the row stays.
    pub is_active: bool,
    /// Set when the row is inserted; never changes afterwards.
    pub created_on: Timestamp,
    /// Set when the row is inserted; refreshed by every update.
    pub updated_on: Timestamp,
}

impl Categories {
    /// The row meets the constraints on the shape of its fields.
    pub open spec fn valid(&self) -> bool {
        &&& is_code_text(self.code@)
        &&& self.name@.len() > 0
        &&& (self.url_slug matches Some(s) ==> is_slug_text(s@))
        &&& (self.color matches Some(c) ==> is_hex_color_text(c@))
    }

    /// Two rows hold the same data, field by field.
    pub open spec fn same_as(&self, other: &Categories) -> bool {
        &&& self.id == other.id
        &&& self.code@ == other.code@
        &&& self.name@ == other.name@
        &&& text_of(self.description) == text_of(other.description)
        &&& slug_of(self.url_slug) == slug_of(other.url_slug)
        &&& self.category_type == other.category_type
        &&& color_of(self.color) == color_of(other.color)
        &&& text_of(self.icon) == text_of(other.icon)
        &&& self.is_active == other.is_active
        &&& self.created_on == other.created_on
        &&& self.updated_on == other.updated_on
    }

    /// Whether the row meets the constraints on the shape of its fields.
    pub fn is_valid(&self) -> (ok: bool)
        ensures
            ok == self.valid(),
    {
        if !is_code(self.code.as_str()) {
            return false;
        }
        if self.name.as_str().unicode_len() == 0 {
            return false;
        }
        let slug_ok = match &self.url_slug {
            Some(s) => UrlSlug::parse(s.as_str()).is_some(),
            None => true,
        };
        if !slug_ok {
            return false;
        }
        match &self.color {
            Some(c) => HexColor::parse(c.as_str()).is_some(),
            None => true,
        }
    }

    /// A copy of this row.
    pub fn duplicate(&self) -> (copy: Categories)
        ensures
            copy == *self,
    {
        Categories {
            id: self.id,
            code: self.code.clone(),
            name: self.name.clone(),
            description: copy_text(&self.description),
            url_slug: match &self.url_slug {
                Some(s) => Some(s.duplicate()),
                None => None,
            },
            category_type: self.category_type,
            color: match &self.color {
                Some(c) => Some(c.duplicate()),
                None => None,
            },
            icon: copy_text(&self.icon),
            is_active: self.is_active,
            created_on: self.created_on,
            updated_on: self.updated_on,
        }
    }
}

impl Clone for Categories {
    fn clone(&self) -> (copy: Categories)
        ensures
            copy == *self,
    {
        self.duplicate()
    }
}

impl PartialEq for Categories {
    fn eq(&self, other: &Categories) -> (same: bool) {
        self.id == other.id && self.code == other.code && self.name == other.name && same_text(
            &self.description,
            &other.description,
        ) && same_slug(&self.url_slug, &other.url_slug) && self.category_type
            == other.category_type && same_color(&self.color, &other.color) && same_text(
            &self.icon,
            &other.icon,
        ) && self.is_active == other.is_active && self.created_on == other.created_on
            && self.updated_on == other.updated_on
    }
}

impl PartialEqSpecImpl for Categories {
    open spec fn obeys_eq_spec() -> bool {
        true
    }

    open spec fn eq_spec(&self, other: &Categories) -> bool {
        self.same_as(other)
    }
}

impl Eq for Categories {

}

/// Copies every row of `rows`, in order.
pub fn copy_rows(rows: &Vec<Categories>) -> (copy: Vec<Categories>)
    ensures
        copy@ == rows@,
{
    let mut copy: Vec<Categories> = Vec::new();
    let mut i: usize = 0;
    while i < rows.len()
        invariant
            i <= rows.len(),
            copy@ == rows@.take(i as int),
        decreases rows.len() - i,
    {
        copy.push(rows[i].duplicate());
        assert(rows@.take(i + 1) == rows@.take(i as int).push(rows@[i as int]));
        i = i + 1;
    }
    assert(rows@.take(rows.len() as int) == rows@);
    copy
}

} // verus!
