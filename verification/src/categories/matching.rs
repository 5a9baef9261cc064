//! Deciding whether a row has a key or passes a selection.

use vstd::prelude::*;
use crate::categories::model::Categories;
use crate::categories::statement::{Key, Selection};
use crate::categories::table::{contains_folded, fold_case, occurs_at};

verus! {

/// `c` with an ASCII uppercase letter turned to lowercase.
pub fn lowercase(c: char) -> (folded: char)
    ensures
        folded == fold_case(c),
{
    if 'A' <= c && c <= 'Z' {
        let b: u8 = c as u8;
        (b + 32) as char
    } else {
        c
    }
}

/// The characters of `text`, each with its letter case folded.
pub fn folded_chars(text: &str) -> (folded: Vec<char>)
    ensures
        folded@.len() == text@.len(),
        forall|i: int| 0 <= i < text@.len() ==> folded@[i] == fold_case(#[trigger] text@[i]),
{
    let n = text.unicode_len();
    let mut folded: Vec<char> = Vec::new();
    let mut i: usize = 0;
    while i < n
        invariant
            i <= n,
            n == text@.len(),
            folded@.len() == i,
            forall|k: int| 0 <= k < i ==> folded@[k] == fold_case(#[trigger] text@[k]),
        decreases n - i,
    {
        folded.push(lowercase(text.get_char(i)));
        i = i + 1;
    }
    folded
}

/// Whether `needle` stands in `hay` at offset `at`; both are already folded.
fn stands_at(hay: &Vec<char>, needle: &Vec<char>, at: usize) -> (found: bool)
    requires
        at + needle@.len() <= hay@.len(),
    ensures
        found == (forall|j: int| 0 <= j < needle@.len() ==> #[trigger] hay@[at + j] == needle@[j]),
{
    let mut j: usize = 0;
    while j < needle.len()
        invariant
            j <= needle@.len(),
            at + needle@.len() <= hay@.len(),
            hay@.len() == hay.len(),
            forall|k: int| 0 <= k < j ==> #[trigger] hay@[at + k] == needle@[k],
        decreases needle@.len() - j,
    {
        if hay[at + j] != needle[j] {
            return false;
        }
        j = j + 1;
    }
    true
}

/// Whether `needle` occurs somewhere in `hay`, letter case ignored.
pub fn name_contains(hay: &str, needle: &str) -> (found: bool)
    ensures
        found == contains_folded(hay@, needle@),
{
    let h = folded_chars(hay);
    let n = folded_chars(needle);
    if n.len() > h.len() {
        assert(!contains_folded(hay@, needle@)) by {
            assert(forall|at: int| !occurs_at(hay@, needle@, at));
        }
        return false;
    }
    let last: usize = h.len() - n.len();
    let mut at: usize = 0;
    loop
        invariant
            at <= last,
            last == hay@.len() - needle@.len(),
            h@.len() == hay@.len(),
            n@.len() == needle@.len(),
            forall|i: int| 0 <= i < hay@.len() ==> h@[i] == fold_case(#[trigger] hay@[i]),
            forall|i: int| 0 <= i < needle@.len() ==> n@[i] == fold_case(#[trigger] needle@[i]),
            forall|k: int| 0 <= k < at ==> !occurs_at(hay@, needle@, k),
        decreases last - at,
    {
        if stands_at(&h, &n, at) {
            assert(occurs_at(hay@, needle@, at as int)) by {
                assert forall|j: int| 0 <= j < needle@.len() implies fold_case(
                    #[trigger] hay@[at + j],
                ) == fold_case(needle@[j]) by {
                    assert(h@[at + j] == n@[j]);
                }
            }
            return true;
        }
        assert(!occurs_at(hay@, needle@, at as int)) by {
            if occurs_at(hay@, needle@, at as int) {
                assert forall|j: int| 0 <= j < n@.len() implies #[trigger] h@[at + j] == n@[j] by {
                    assert(fold_case(hay@[at + j]) == fold_case(needle@[j]));
                }
            }
        }
        if at == last {
            assert(!contains_folded(hay@, needle@)) by {
                assert(forall|k: int| !occurs_at(hay@, needle@, k));
            }
            return false;
        }
        at = at + 1;
    }
}

/// Whether the row has the key.
pub fn key_hits(key: &Key, row: &Categories) -> (hit: bool)
    ensures
        hit == key@.hits(*row),
{
    match key {
        Key::Id(id) => row.id == *id,
        Key::Code(code) => row.code == *code,
        Key::Slug(slug) => match &row.url_slug {
            Some(s) => s.text == slug.text,
            None => false,
        },
    }
}

/// Whether the row passes the selection.
pub fn selection_admits(selection: &Selection, row: &Categories) -> (kept: bool)
    ensures
        kept == selection@.admits(*row),
{
    let kind_ok = match selection.kind {
        Some(k) => row.category_type == k,
        None => true,
    };
    let active_ok = match selection.active {
        Some(a) => row.is_active == a,
        None => true,
    };
    if !kind_ok || !active_ok {
        return false;
    }
    match &selection.name {
        Some(n) => name_contains(row.name.as_str(), n.as_str()),
        None => true,
    }
}

} // verus!
