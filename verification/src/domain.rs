//! Value types that a category row is made of.

use vstd::prelude::*;
use crate::text::same_chars;

verus! {

/// An ASCII decimal digit.
pub open spec fn is_digit(c: char) -> bool {
    '0' <= c && c <= '9'
}

/// An ASCII lowercase letter.
pub open spec fn is_lower(c: char) -> bool {
    'a' <= c && c <= 'z'
}

/// An ASCII uppercase letter.
pub open spec fn is_upper(c: char) -> bool {
    'A' <= c && c <= 'Z'
}

/// An ASCII letter or digit.
pub open spec fn is_alphanumeric(c: char) -> bool {
    is_digit(c) || is_lower(c) || is_upper(c)
}

/// A hexadecimal digit, in either case.
pub open spec fn is_hex_digit(c: char) -> bool {
    is_digit(c) || ('a' <= c && c <= 'f') || ('A' <= c && c <= 'F')
}

/// A character that may stand in a URL slug.
pub open spec fn is_slug_char(c: char) -> bool {
    is_digit(c) || is_lower(c) || c == '-'
}

/// Every character of `s` is one that may stand in a URL slug, and there is
/// at least one.
pub open spec fn is_slug_text(s: Seq<char>) -> bool {
    s.len() > 0 && forall|i: int| 0 <= i < s.len() ==> is_slug_char(#[trigger] s[i])
}

/// `s` is `#` followed by six hexadecimal digits.
pub open spec fn is_hex_color_text(s: Seq<char>) -> bool {
    s.len() == 7 && s[0] == '#' && forall|i: int| 1 <= i < 7 ==> is_hex_digit(#[trigger] s[i])
}

/// `s` is three groups of three ASCII letters or digits, separated by dots.
pub open spec fn is_code_text(s: Seq<char>) -> bool {
    s.len() == 11 && s[3] == '.' && s[7] == '.' && forall|i: int|
        0 <= i < 11 && i != 3 && i != 7 ==> is_alphanumeric(#[trigger] s[i])
}

/// Whether `c` is an ASCII letter or digit.
pub fn char_is_alphanumeric(c: char) -> (b: bool)
    ensures
        b == is_alphanumeric(c),
{
    ('0' <= c && c <= '9') || ('a' <= c && c <= 'z') || ('A' <= c && c <= 'Z')
}

/// Whether `c` is a hexadecimal digit.
pub fn char_is_hex_digit(c: char) -> (b: bool)
    ensures
        b == is_hex_digit(c),
{
    ('0' <= c && c <= '9') || ('a' <= c && c <= 'f') || ('A' <= c && c <= 'F')
}

/// Whether `c` may stand in a URL slug.
pub fn char_is_slug(c: char) -> (b: bool)
    ensures
        b == is_slug_char(c),
{
    ('0' <= c && c <= '9') || ('a' <= c && c <= 'z') || c == '-'
}

/// Whether `text` has the shape of a category code.
pub fn is_code(text: &str) -> (b: bool)
    ensures
        b == is_code_text(text@),
{
    if text.unicode_len() != 11 {
        return false;
    }
    let mut i: usize = 0;
    while i < 11
        invariant
            i <= 11,
            text@.len() == 11,
            forall|k: int|
                0 <= k < i ==> if k == 3 || k == 7 {
                    text@[k] == '.'
                } else {
                    is_alphanumeric(#[trigger] text@[k])
                },
        decreases 11 - i,
    {
        let c = text.get_char(i);
        if i == 3 || i == 7 {
            if c != '.' {
                return false;
            }
        } else if !char_is_alphanumeric(c) {
            return false;
        }
        i = i + 1;
    }
    true
}

/// Identifier of a row: 128 bits, unique across the table.
#[derive(Clone, Copy, Debug, PartialEq, Eq, Structural, Hash)]
pub struct RowID {
    pub value: u128,
}

/// One hexadecimal digit, lowercase, for a value below sixteen.
pub open spec fn hex_digit(d: int) -> Seq<char> {
    if d == 0 {
        "0"@
    } else if d == 1 {
        "1"@
    } else if d == 2 {
        "2"@
    } else if d == 3 {
        "3"@
    } else if d == 4 {
        "4"@
    } else if d == 5 {
        "5"@
    } else if d == 6 {
        "6"@
    } else if d == 7 {
        "7"@
    } else if d == 8 {
        "8"@
    } else if d == 9 {
        "9"@
    } else if d == 10 {
        "a"@
    } else if d == 11 {
        "b"@
    } else if d == 12 {
        "c"@
    } else if d == 13 {
        "d"@
    } else if d == 14 {
        "e"@
    } else {
        "f"@
    }
}

/// The `n` lowest hexadecimal digits of `v`, highest first.
pub open spec fn hex_of(v: int, n: nat) -> Seq<char>
    decreases n,
{
    if n == 0 {
        Seq::empty()
    } else {
        hex_of(v / 16, (n - 1) as nat) + hex_digit(v % 16)
    }
}

/// An identifier in text: 32 hexadecimal digits in groups of 8, 4, 4, 4 and
/// 12, with hyphens between the groups.
pub open spec fn id_text(id: RowID) -> Seq<char> {
    let v = id.value as int;
    hex_of(v / 0x1_0000_0000_0000_0000_0000_0000, 8) + "-"@ + hex_of(
        v / 0x1_0000_0000_0000_0000_0000,
        4,
    ) + "-"@ + hex_of(v / 0x1_0000_0000_0000_0000, 4) + "-"@ + hex_of(v / 0x1_0000_0000_0000, 4)
        + "-"@ + hex_of(v, 12)
}

fn hex_digit_str(d: u128) -> (s: &'static str)
    requires
        d < 16,
    ensures
        s@ == hex_digit(d as int),
{
    if d == 0 {
        "0"
    } else if d == 1 {
        "1"
    } else if d == 2 {
        "2"
    } else if d == 3 {
        "3"
    } else if d == 4 {
        "4"
    } else if d == 5 {
        "5"
    } else if d == 6 {
        "6"
    } else if d == 7 {
        "7"
    } else if d == 8 {
        "8"
    } else if d == 9 {
        "9"
    } else if d == 10 {
        "a"
    } else if d == 11 {
        "b"
    } else if d == 12 {
        "c"
    } else if d == 13 {
        "d"
    } else if d == 14 {
        "e"
    } else {
        "f"
    }
}

fn hex_group(v: u128, n: u8) -> (s: String)
    ensures
        s@ == hex_of(v as int, n as nat),
    decreases n,
{
    if n == 0 {
        String::new()
    } else {
        hex_group(v / 16, n - 1).concat(hex_digit_str(v % 16))
    }
}

impl RowID {
    /// Wraps a raw 128-bit identifier.
    pub fn from_u128(value: u128) -> (id: RowID)
        ensures
            id.value == value,
    {
        RowID { value }
    }

    /// The raw 128-bit identifier.
    pub fn as_u128(&self) -> (value: u128)
        ensures
            value == self.value,
    {
        self.value
    }

    /// The identifier in text.
    pub fn to_string(&self) -> (text: String)
        ensures
            text@ == id_text(*self),
    {
        let v = self.value;
        let a = hex_group(v / 0x1_0000_0000_0000_0000_0000_0000, 8);
        let b = hex_group(v / 0x1_0000_0000_0000_0000_0000, 4);
        let c = hex_group(v / 0x1_0000_0000_0000_0000, 4);
        let d = hex_group(v / 0x1_0000_0000_0000, 4);
        let e = hex_group(v, 12);
        a.concat("-").concat(b.as_str()).concat("-").concat(c.as_str()).concat("-").concat(
            d.as_str(),
        ).concat("-").concat(e.as_str())
    }

    /// The identifier that a text stands for: 32 hexadecimal digits in
    /// either case, in groups of 8, 4, 4, 4 and 12 with hyphens between
    /// them. Any other text stands for none.
    pub fn parse(text: &str) -> (id: Option<RowID>)
        ensures
            id == id_of_text(text@),
    {
        if text.unicode_len() != 36 {
            return None;
        }
        let mut value: u128 = 0;
        let mut i: usize = 0;
        while i < 36
            invariant
                i <= 36,
                text@.len() == 36,
                forall|k: int| 0 <= k < i ==> id_char_ok(text@, k),
                value == hex_number(text@, i as int),
                value < sixteen_to(digits_before(i as int)),
            decreases 36 - i,
        {
            let c = text.get_char(i);
            if i == 8 || i == 13 || i == 18 || i == 23 {
                if c != '-' {
                    assert(!id_char_ok(text@, i as int));
                    return None;
                }
            } else {
                match hex_value_of(c) {
                    None => {
                        assert(!id_char_ok(text@, i as int));
                        return None;
                    },
                    Some(d) => {
                        proof {
                            lemma_sixteen_to(digits_before(i as int));
                            lemma_sixteen_to_bound(digits_before(i as int));
                        }
                        value = value * 16 + d as u128;
                    },
                }
            }
            i = i + 1;
        }
        Some(RowID { value })
    }
}

/// The value of a hexadecimal digit; none for any other character.
pub open spec fn hex_value(c: char) -> Option<int> {
    if is_digit(c) {
        Some(c as int - '0' as int)
    } else if 'a' <= c && c <= 'f' {
        Some(c as int - 'a' as int + 10)
    } else if 'A' <= c && c <= 'F' {
        Some(c as int - 'A' as int + 10)
    } else {
        None
    }
}

/// The character at index `k` of an identifier's text is what belongs
/// there: a hyphen after each group, a hexadecimal digit elsewhere.
pub open spec fn id_char_ok(s: Seq<char>, k: int) -> bool {
    if k == 8 || k == 13 || k == 18 || k == 23 {
        s[k] == '-'
    } else {
        hex_value(s[k]) is Some
    }
}

/// The number that the hexadecimal digits among the first `n` characters
/// spell, hyphens passed over.
pub open spec fn hex_number(s: Seq<char>, n: int) -> int
    decreases n,
{
    if n <= 0 {
        0
    } else {
        match hex_value(s[n - 1]) {
            Some(d) => hex_number(s, n - 1) * 16 + d,
            None => hex_number(s, n - 1),
        }
    }
}

/// The identifier that a text stands for, if it has the shape of one.
pub open spec fn id_of_text(s: Seq<char>) -> Option<RowID> {
    if s.len() == 36 && forall|k: int| 0 <= k < 36 ==> id_char_ok(s, k) {
        Some(RowID { value: hex_number(s, 36) as u128 })
    } else {
        None
    }
}

/// How many of the first `i` places of an identifier's text hold digits.
pub open spec fn digits_before(i: int) -> nat {
    if i <= 8 {
        i as nat
    } else if i <= 13 {
        (i - 1) as nat
    } else if i <= 18 {
        (i - 2) as nat
    } else if i <= 23 {
        (i - 3) as nat
    } else {
        (i - 4) as nat
    }
}

/// Sixteen to the power `n`.
pub open spec fn sixteen_to(n: nat) -> int
    decreases n,
{
    if n == 0 {
        1
    } else {
        16 * sixteen_to((n - 1) as nat)
    }
}

proof fn lemma_sixteen_to(n: nat)
    ensures
        sixteen_to(n + 1) == 16 * sixteen_to(n),
        sixteen_to(n) >= 1,
    decreases n,
{
    if n > 0 {
        lemma_sixteen_to((n - 1) as nat);
    }
}

proof fn lemma_sixteen_to_bound(n: nat)
    requires
        n < 32,
    ensures
        sixteen_to(n + 1) <= 0x1_0000_0000_0000_0000_0000_0000_0000_0000,
    decreases 32 - n,
{
    if n < 31 {
        lemma_sixteen_to_bound(n + 1);
        lemma_sixteen_to(n + 1);
    } else {
        reveal_with_fuel(sixteen_to, 33);
    }
}

fn hex_value_of(c: char) -> (d: Option<u8>)
    ensures
        match hex_value(c) {
            Some(v) => d == Some(v as u8) && 0 <= v < 16,
            None => d is None,
        },
{
    if '0' <= c && c <= '9' {
        Some(c as u8 - 48)
    } else if 'a' <= c && c <= 'f' {
        Some(c as u8 - 97 + 10)
    } else if 'A' <= c && c <= 'F' {
        Some(c as u8 - 65 + 10)
    } else {
        None
    }
}

/// A point in time: microseconds since the Unix epoch, UTC.
#[derive(Clone, Copy, Debug, PartialEq, Eq, Structural, Hash)]
pub struct Timestamp {
    pub micros: i64,
}

/// The later of two points in time.
pub open spec fn later(a: Timestamp, b: Timestamp) -> Timestamp {
    if a.micros >= b.micros {
        a
    } else {
        b
    }
}

impl Timestamp {
    /// The later of this point in time and another.
    pub fn or_later(&self, other: &Timestamp) -> (t: Timestamp)
        ensures
            t == later(*self, *other),
    {
        if self.micros >= other.micros {
            *self
        } else {
            *other
        }
    }

    /// The instant `micros` microseconds after the Unix epoch.
    pub fn from_micros(micros: i64) -> (t: Timestamp)
        ensures
            t.micros == micros,
    {
        Timestamp { micros }
    }

    /// Whether `self` is not later than `other`.
    pub fn not_after(&self, other: &Timestamp) -> (b: bool)
        ensures
            b == (self.micros <= other.micros),
    {
        self.micros <= other.micros
    }
}

/// The accounting class of a category.
#[derive(Clone, Copy, Debug, PartialEq, Eq, Structural, Hash)]
pub enum CategoryTypes {
    Asset,
    Liability,
    Income,
    Expense,
    Equity,
}

/// The name of a category type, as it is stored.
pub open spec fn type_text(kind: CategoryTypes) -> Seq<char> {
    match kind {
        CategoryTypes::Asset => "Asset"@,
        CategoryTypes::Liability => "Liability"@,
        CategoryTypes::Income => "Income"@,
        CategoryTypes::Expense => "Expense"@,
        CategoryTypes::Equity => "Equity"@,
    }
}

/// The category type with this name, if it is the name of one.
pub open spec fn type_of_text(text: Seq<char>) -> Option<CategoryTypes> {
    if text == "Asset"@ {
        Some(CategoryTypes::Asset)
    } else if text == "Liability"@ {
        Some(CategoryTypes::Liability)
    } else if text == "Income"@ {
        Some(CategoryTypes::Income)
    } else if text == "Expense"@ {
        Some(CategoryTypes::Expense)
    } else if text == "Equity"@ {
        Some(CategoryTypes::Equity)
    } else {
        None
    }
}

impl CategoryTypes {
    /// The name of the type, as it is stored.
    pub fn as_str(&self) -> (name: &'static str)
        ensures
            name@ == type_text(*self),
    {
        match self {
            CategoryTypes::Asset => "Asset",
            CategoryTypes::Liability => "Liability",
            CategoryTypes::Income => "Income",
            CategoryTypes::Expense => "Expense",
            CategoryTypes::Equity => "Equity",
        }
    }

    /// The type with this name; none when it is the name of no type.
    pub fn parse(text: &str) -> (kind: Option<CategoryTypes>)
        ensures
            kind == type_of_text(text@),
    {
        if same_chars(text, "Asset") {
            Some(CategoryTypes::Asset)
        } else if same_chars(text, "Liability") {
            Some(CategoryTypes::Liability)
        } else if same_chars(text, "Income") {
            Some(CategoryTypes::Income)
        } else if same_chars(text, "Expense") {
            Some(CategoryTypes::Expense)
        } else if same_chars(text, "Equity") {
            Some(CategoryTypes::Equity)
        } else {
            None
        }
    }
}

/// A URL slug: the part of an address that names a category. A row is
/// valid only with a slug that [`UrlSlug::parse`] accepts.
#[derive(Debug, PartialEq, Eq)]
pub struct UrlSlug {
    pub text: String,
}

impl View for UrlSlug {
    type V = Seq<char>;

    open spec fn view(&self) -> Seq<char> {
        self.text@
    }
}

impl UrlSlug {
    /// Accepts `text` when it is non-empty and made of lowercase ASCII
    /// letters, digits and hyphens.
    pub fn parse(text: &str) -> (slug: Option<UrlSlug>)
        ensures
            slug is Some <==> is_slug_text(text@),
            slug matches Some(s) ==> s@ == text@,
    {
        let n = text.unicode_len();
        if n == 0 {
            return None;
        }
        let mut i: usize = 0;
        while i < n
            invariant
                i <= n,
                n == text@.len(),
                forall|k: int| 0 <= k < i ==> is_slug_char(#[trigger] text@[k]),
            decreases n - i,
        {
            if !char_is_slug(text.get_char(i)) {
                return None;
            }
            i = i + 1;
        }
        Some(UrlSlug { text: String::from_str(text) })
    }

    /// Accepts `text` as [`UrlSlug::parse`] does, and keeps the string itself.
    pub fn from_string(text: String) -> (slug: Option<UrlSlug>)
        ensures
            slug == if is_slug_text(text@) {
                Some(UrlSlug { text })
            } else {
                None
            },
    {
        if UrlSlug::parse(text.as_str()).is_some() {
            Some(UrlSlug { text })
        } else {
            None
        }
    }

    /// The characters of the slug.
    pub fn as_str(&self) -> (s: &str)
        ensures
            s@ == self@,
    {
        self.text.as_str()
    }

    /// A copy of this slug.
    pub fn duplicate(&self) -> (copy: UrlSlug)
        ensures
            copy == *self,
    {
        UrlSlug { text: self.text.clone() }
    }
}

/// A colour in `#RRGGBB` form. A row is valid only with a colour that
/// [`HexColor::parse`] accepts.
#[derive(Debug, PartialEq, Eq)]
pub struct HexColor {
    pub text: String,
}

impl View for HexColor {
    type V = Seq<char>;

    open spec fn view(&self) -> Seq<char> {
        self.text@
    }
}

impl HexColor {
    /// Accepts `text` when it is `#` followed by six hexadecimal digits.
    pub fn parse(text: &str) -> (color: Option<HexColor>)
        ensures
            color is Some <==> is_hex_color_text(text@),
            color matches Some(c) ==> c@ == text@,
    {
        if text.unicode_len() != 7 {
            return None;
        }
        if text.get_char(0) != '#' {
            return None;
        }
        let mut i: usize = 1;
        while i < 7
            invariant
                1 <= i <= 7,
                text@.len() == 7,
                text@[0] == '#',
                forall|k: int| 1 <= k < i ==> is_hex_digit(#[trigger] text@[k]),
            decreases 7 - i,
        {
            if !char_is_hex_digit(text.get_char(i)) {
                return None;
            }
            i = i + 1;
        }
        Some(HexColor { text: String::from_str(text) })
    }

    /// Accepts `text` as [`HexColor::parse`] does, and keeps the string
    /// itself.
    pub fn from_string(text: String) -> (color: Option<HexColor>)
        ensures
            color == if is_hex_color_text(text@) {
                Some(HexColor { text })
            } else {
                None
            },
    {
        if HexColor::parse(text.as_str()).is_some() {
            Some(HexColor { text })
        } else {
            None
        }
    }

    /// The characters of the colour.
    pub fn as_str(&self) -> (s: &str)
        ensures
            s@ == self@,
    {
        self.text.as_str()
    }

    /// A copy of this colour.
    pub fn duplicate(&self) -> (copy: HexColor)
        ensures
            copy == *self,
    {
        HexColor { text: self.text.clone() }
    }
}

impl Clone for UrlSlug {
    fn clone(&self) -> (copy: UrlSlug)
        ensures
            copy == *self,
    {
        self.duplicate()
    }
}

impl Clone for HexColor {
    fn clone(&self) -> (copy: HexColor)
        ensures
            copy == *self,
    {
        self.duplicate()
    }
}

} // verus!
