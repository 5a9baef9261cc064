//! Made-up categories for trying things out: chance picks the parts, and
//! the category put together from them is always valid.

use vstd::prelude::*;
use fake::Fake;
use fake::rand::RngExt;
use crate::categories::matching::lowercase;
use crate::categories::model::Categories;
use crate::categories::table::fold_case;
use crate::domain::{
    is_alphanumeric, is_code_text, is_digit, is_hex_color_text, is_hex_digit, is_lower,
    is_slug_char, is_slug_text, is_upper, CategoryTypes, HexColor, RowID, Timestamp, UrlSlug,
};

verus! {

/// A word of filler text: at least one character, each a lowercase ASCII
/// letter.
pub open spec fn word_like(s: Seq<char>) -> bool {
    s.len() > 0 && forall|j: int| 0 <= j < s.len() ==> is_lower(#[trigger] s[j])
}

/// At least `low` and fewer than `high` words of filler text.
pub open spec fn filler(words: Seq<String>, low: int, high: int) -> bool {
    low <= words.len() < high && forall|i: int|
        0 <= i < words.len() ==> word_like(#[trigger] words[i]@)
}

/// `fake`'s `Words`, in English: it draws a count from the range `low` to
/// `high - 1` and then that many words from its list of Latin filler words,
/// each of which is made of lowercase ASCII letters. Which count and which
/// words come is up to chance; an empty range makes it panic, so it is
/// left out.
#[verifier::external_body]
fn fake_words(low: usize, high: usize) -> (words: Vec<String>)
    requires
        low < high,
    ensures
        filler(words@, low as int, high as int),
{
    fake::faker::lorem::en::Words(low..high).fake()
}

/// `fake`'s `Word`, in English: one word from its list of Latin filler
/// words, each of which is made of lowercase ASCII letters; which one is up
/// to chance.
#[verifier::external_body]
fn fake_word() -> (word: String)
    ensures
        word_like(word@),
{
    fake::faker::lorem::en::Word().fake()
}

/// `fake`'s `Boolean`: true with a chance of about `percent` in a hundred.
#[verifier::external_body]
fn fake_chance(percent: u8) -> (yes: bool) {
    fake::faker::boolean::en::Boolean(percent).fake()
}

/// `rand`'s `Alphanumeric`: one byte drawn from the ASCII letters and
/// digits, as its documentation says; which one is up to chance.
#[verifier::external_body]
fn random_alphanumeric() -> (byte: u8)
    ensures
        (48 <= byte <= 57) || (65 <= byte <= 90) || (97 <= byte <= 122),
{
    fake::rand::rng().sample(fake::rand::distr::Alphanumeric)
}

/// `rand`'s `random`: 128 bits, up to chance.
#[verifier::external_body]
fn random_bits() -> (bits: u128) {
    fake::rand::random::<u128>()
}

/// `chrono`'s `Utc::now`: the time of the machine's clock, in microseconds
/// since the Unix epoch.
#[verifier::external_body]
fn clock_micros() -> (micros: i64) {
    chrono::Utc::now().timestamp_micros()
}

/// `String::from_iter` of std: the string made of these characters, in
/// their order.
#[verifier::external_body]
fn string_of(chars: &Vec<char>) -> (text: String)
    ensures
        text@ == chars@,
{
    chars.iter().collect()
}

/// The words with one space between each two.
pub open spec fn spaced(words: Seq<String>, n: int) -> Seq<char>
    decreases n,
{
    if n <= 0 {
        Seq::empty()
    } else if n == 1 {
        words[0]@
    } else {
        spaced(words, n - 1) + " "@ + words[n - 1]@
    }
}

/// Joins words with one space between each two.
pub fn join_words(words: &Vec<String>) -> (text: String)
    ensures
        text@ == spaced(words@, words@.len() as int),
{
    let mut text = String::new();
    let mut i: usize = 0;
    while i < words.len()
        invariant
            i <= words@.len(),
            text@ == spaced(words@, i as int),
        decreases words@.len() - i,
    {
        if i > 0 {
            text.append(" ");
        }
        text.append(words[i].as_str());
        i = i + 1;
    }
    text
}

/// One word or more of filler text, joined, make a text that is not empty.
pub proof fn lemma_spaced_not_empty(words: Seq<String>, n: int)
    requires
        1 <= n <= words.len(),
        word_like(words[0]@),
    ensures
        spaced(words, n).len() > 0,
    decreases n,
{
    if n > 1 {
        lemma_spaced_not_empty(words, n - 1);
    }
}

/// The character that a name's character becomes in a slug: a letter in
/// lowercase, a digit as it is, anything else a hyphen.
pub open spec fn slug_char(c: char) -> char {
    if is_alphanumeric(c) {
        fold_case(c)
    } else {
        '-'
    }
}

/// The slug of a name: each character turned into what may stand in a
/// slug.
pub open spec fn slug_text(name: Seq<char>) -> Seq<char> {
    Seq::new(name.len(), |i: int| slug_char(name[i]))
}

impl UrlSlug {
    /// The slug of a name: letters in lowercase, digits as they are, a
    /// hyphen for anything else. An empty name has no slug.
    pub fn from_name(name: &str) -> (slug: Option<UrlSlug>)
        ensures
            name@.len() == 0 ==> slug is None,
            name@.len() > 0 ==> (slug matches Some(s) && s@ == slug_text(name@) && is_slug_text(
                s@,
            )),
    {
        let n = name.unicode_len();
        if n == 0 {
            return None;
        }
        let mut chars: Vec<char> = Vec::new();
        let mut i: usize = 0;
        while i < n
            invariant
                i <= n,
                n == name@.len(),
                chars@.len() == i,
                forall|k: int| 0 <= k < i ==> chars@[k] == slug_char(#[trigger] name@[k]),
                forall|k: int| 0 <= k < i ==> is_slug_char(#[trigger] chars@[k]),
            decreases n - i,
        {
            let c = name.get_char(i);
            let out = if ('0' <= c && c <= '9') || ('a' <= c && c <= 'z') || ('A' <= c && c
                <= 'Z') {
                lowercase(c)
            } else {
                '-'
            };
            chars.push(out);
            i = i + 1;
        }
        assert(chars@ =~= slug_text(name@));
        Some(UrlSlug { text: string_of(&chars) })
    }
}

/// The identifier made of a time and of chance: the time in milliseconds in
/// the upper 48 bits, then the version, then bits of chance around the
/// variant mark.
pub open spec fn timed_id(millis: u64, chance: u128) -> u128 {
    (((millis as u128) & 0xffff_ffff_ffff) << 80) | (0x7u128 << 76) | (0x2u128 << 62) | (chance
        & 0x0fff_3fff_ffff_ffff_ffff)
}

impl RowID {
    /// An identifier that sorts by time: made of the time in milliseconds
    /// and of bits of chance.
    pub fn from_time(millis: u64, chance: u128) -> (id: RowID)
        ensures
            id.value == timed_id(millis, chance),
    {
        RowID {
            value: (((millis as u128) & 0xffff_ffff_ffff) << 80) | (0x7u128 << 76) | (0x2u128
                << 62) | (chance & 0x0fff_3fff_ffff_ffff_ffff),
        }
    }

    /// The identifier of a reading of the clock, in microseconds since the
    /// Unix epoch, and of bits of chance: the identifier of the time in
    /// whole milliseconds, a time before the epoch counting as the epoch.
    pub fn from_clock(micros: i64, chance: u128) -> (id: RowID)
        ensures
            id.value == timed_id(clock_millis(micros), chance),
    {
        let millis: u64 = if micros < 0 {
            0
        } else {
            (micros / 1000) as u64
        };
        RowID::from_time(millis, chance)
    }

    /// A made-up identifier: that of the clock's time and of 128 bits of
    /// chance. Whatever the clock reads and chance gives, it carries the
    /// marks of a version 7 identifier.
    pub fn mock() -> (id: RowID)
        ensures
            exists|micros: i64, chance: u128|
                id.value == #[trigger] timed_id(clock_millis(micros), chance),
            has_marks(id.value),
    {
        let micros = clock_micros();
        let chance = random_bits();
        proof {
            lemma_timed_id_has_marks(clock_millis(micros), chance);
        }
        RowID::from_clock(micros, chance)
    }
}

/// The whole milliseconds of a reading of the clock in microseconds; a
/// reading before the epoch counts as the epoch.
pub open spec fn clock_millis(micros: i64) -> u64 {
    if micros < 0 {
        0
    } else {
        (micros / 1000) as u64
    }
}

/// The identifier carries the marks of its kind: the version 7 in the four
/// bits above bit 76, the variant `10` in the two bits above bit 62.
pub open spec fn has_marks(value: u128) -> bool {
    (value >> 76) & 0xf == 7 && (value >> 62) & 0x3 == 2
}

/// An identifier made of a time and of chance carries the marks.
pub proof fn lemma_timed_id_has_marks(millis: u64, chance: u128)
    ensures
        has_marks(timed_id(millis, chance)),
{
    let m = millis as u128;
    assert(((((m & 0xffff_ffff_ffff) << 80) | (0x7u128 << 76) | (0x2u128 << 62) | (chance
        & 0x0fff_3fff_ffff_ffff_ffff)) >> 76) & 0xf == 7 && ((((m & 0xffff_ffff_ffff) << 80) | (
    0x7u128 << 76) | (0x2u128 << 62) | (chance & 0x0fff_3fff_ffff_ffff_ffff)) >> 62) & 0x3 == 2)
        by (bit_vector);
}

/// Of two identifiers made of times below 2^48 milliseconds, the one of the
/// earlier time is the smaller, whatever chance added.
pub proof fn law_ids_sort_by_time(early: u64, late: u64, a: u128, b: u128)
    requires
        early < late,
        late < 0x1_0000_0000_0000,
    ensures
        timed_id(early, a) < timed_id(late, b),
{
    let e = early as u128;
    let l = late as u128;
    assert(e < l && l < 0x1_0000_0000_0000u128 ==> ((e & 0xffff_ffff_ffff) << 80) | (0x7u128
        << 76) | (0x2u128 << 62) | (a & 0x0fff_3fff_ffff_ffff_ffff) < ((l & 0xffff_ffff_ffff)
        << 80) | (0x7u128 << 76) | (0x2u128 << 62) | (b & 0x0fff_3fff_ffff_ffff_ffff))
        by (bit_vector);
}

impl CategoryTypes {
    /// The type that a number picks: the types in their order, round and
    /// round.
    pub fn pick(n: u128) -> (kind: CategoryTypes)
        ensures
            kind == match n % 5 {
                0 => CategoryTypes::Asset,
                1 => CategoryTypes::Liability,
                2 => CategoryTypes::Income,
                3 => CategoryTypes::Expense,
                _ => CategoryTypes::Equity,
            },
    {
        let r = n % 5;
        if r == 0 {
            CategoryTypes::Asset
        } else if r == 1 {
            CategoryTypes::Liability
        } else if r == 2 {
            CategoryTypes::Income
        } else if r == 3 {
            CategoryTypes::Expense
        } else {
            CategoryTypes::Equity
        }
    }

    /// A made-up type, up to chance.
    pub fn mock() -> (kind: CategoryTypes) {
        CategoryTypes::pick(random_bits())
    }
}

/// The uppercase hexadecimal digit of a value below sixteen.
pub open spec fn upper_hex(d: int) -> char {
    if d < 10 {
        (48 + d) as char
    } else {
        (55 + d) as char
    }
}

/// The text of the colour with these parts: `#`, then two digits for each
/// part, letters in uppercase.
pub open spec fn rgb_text(red: u8, green: u8, blue: u8) -> Seq<char> {
    seq![
        '#',
        upper_hex(red as int / 16),
        upper_hex(red as int % 16),
        upper_hex(green as int / 16),
        upper_hex(green as int % 16),
        upper_hex(blue as int / 16),
        upper_hex(blue as int % 16),
    ]
}

fn hex_char(d: u8) -> (c: char)
    requires
        d < 16,
    ensures
        c == upper_hex(d as int),
        is_hex_digit(c),
{
    if d < 10 {
        (48 + d) as char
    } else {
        (55 + d) as char
    }
}

impl HexColor {
    /// The colour with these red, green and blue parts.
    pub fn from_rgb(red: u8, green: u8, blue: u8) -> (color: HexColor)
        ensures
            color@ == rgb_text(red, green, blue),
            is_hex_color_text(color@),
    {
        let mut chars: Vec<char> = Vec::new();
        chars.push('#');
        chars.push(hex_char(red / 16));
        chars.push(hex_char(red % 16));
        chars.push(hex_char(green / 16));
        chars.push(hex_char(green % 16));
        chars.push(hex_char(blue / 16));
        chars.push(hex_char(blue % 16));
        assert(chars@ =~= rgb_text(red, green, blue));
        HexColor { text: string_of(&chars) }
    }

    /// The colour that bits pick: the lowest byte its red part, the next
    /// its green part, the third its blue part.
    pub fn from_bits(bits: u128) -> (color: HexColor)
        ensures
            color@ == rgb_text(
                (bits % 256) as u8,
                ((bits / 256) % 256) as u8,
                ((bits / 65536) % 256) as u8,
            ),
            is_hex_color_text(color@),
    {
        HexColor::from_rgb(
            (bits % 256) as u8,
            ((bits / 256) % 256) as u8,
            ((bits / 65536) % 256) as u8,
        )
    }

    /// A made-up colour: the colour that 128 bits of chance pick, so the
    /// text of some red, green and blue parts.
    pub fn mock() -> (color: HexColor)
        ensures
            exists|red: u8, green: u8, blue: u8| color@ == #[trigger] rgb_text(red, green, blue),
            is_hex_color_text(color@),
    {
        HexColor::from_bits(random_bits())
    }

    /// The colour that bits pick, if one is wanted.
    pub fn wanted_from_bits(wanted: bool, bits: u128) -> (color: Option<HexColor>)
        ensures
            wanted ==> (color matches Some(c) && c@ == rgb_text(
                (bits % 256) as u8,
                ((bits / 256) % 256) as u8,
                ((bits / 65536) % 256) as u8,
            )),
            !wanted ==> color is None,
    {
        if wanted {
            Some(HexColor::from_bits(bits))
        } else {
            None
        }
    }

    /// A made-up colour, or none: chance decides, one time in two each, and
    /// picks the colour. A colour that is there is the text of some red,
    /// green and blue parts.
    pub fn mock_with_option() -> (color: Option<HexColor>)
        ensures
            color matches Some(c) ==> is_hex_color_text(c@) && exists|
                red: u8,
                green: u8,
                blue: u8,
            | c@ == #[trigger] rgb_text(red, green, blue),
    {
        if fake_chance(50) {
            HexColor::wanted_from_bits(true, random_bits())
        } else {
            None
        }
    }
}

fn upper_alphanumeric(byte: u8) -> (c: char)
    requires
        (48 <= byte <= 57) || (65 <= byte <= 90) || (97 <= byte <= 122),
    ensures
        is_digit(c) || is_upper(c),
{
    if byte >= 97 {
        (byte - 32) as char
    } else {
        byte as char
    }
}

impl Categories {
    /// A made-up code: nine letters and digits of chance, letters in
    /// uppercase, in three groups with dots between them.
    pub fn generate_mock_code() -> (code: String)
        ensures
            is_code_text(code@),
            forall|k: int| 0 <= k < code@.len() ==> !is_lower(#[trigger] code@[k]),
    {
        let mut chars: Vec<char> = Vec::new();
        let mut i: usize = 0;
        while i < 11
            invariant
                i <= 11,
                chars@.len() == i,
                forall|k: int|
                    0 <= k < i ==> if k == 3 || k == 7 {
                        chars@[k] == '.'
                    } else {
                        is_alphanumeric(#[trigger] chars@[k]) && !is_lower(chars@[k])
                    },
            decreases 11 - i,
        {
            if i == 3 || i == 7 {
                chars.push('.');
            } else {
                chars.push(upper_alphanumeric(random_alphanumeric()));
            }
            i = i + 1;
        }
        string_of(&chars)
    }

    /// A made-up name: one or two words of filler text, with a space
    /// between them. Which words is up to chance; the name is never empty.
    pub fn generate_mock_name() -> (name: String)
        ensures
            exists|words: Seq<String>|
                #[trigger] filler(words, 1, 3) && name@ == spaced(words, words.len() as int),
            name@.len() > 0,
    {
        let words = fake_words(1, 3);
        proof {
            lemma_spaced_not_empty(words@, words@.len() as int);
        }
        join_words(&words)
    }

    /// A made-up description, or none: chance decides, one time in two
    /// each. A description that is there is three to seven words of filler
    /// text, with a space between each two.
    pub fn generate_mock_description() -> (description: Option<String>)
        ensures
            description matches Some(text) ==> text@.len() > 0 && exists|words: Seq<String>|
                #[trigger] filler(words, 3, 8) && text@ == spaced(words, words.len() as int),
    {
        if fake_chance(50) {
            let words = fake_words(3, 8);
            proof {
                lemma_spaced_not_empty(words@, words@.len() as int);
            }
            Some(join_words(&words))
        } else {
            None
        }
    }

    /// The slug of a made-up name: always there, since a made-up name is
    /// never empty, and the slug of one or two words of filler text.
    pub fn generate_mock_url_slug() -> (slug: Option<UrlSlug>)
        ensures
            slug matches Some(s) && is_slug_text(s@) && exists|words: Seq<String>|
                #[trigger] filler(words, 1, 3) && s@ == slug_text(
                    spaced(words, words.len() as int),
                ),
    {
        let name = Categories::generate_mock_name();
        UrlSlug::from_name(name.as_str())
    }

    /// A made-up icon, or none: chance decides, one time in two each. An
    /// icon that is there is one word of filler text.
    pub fn generate_mock_icon() -> (icon: Option<String>)
        ensures
            icon matches Some(word) ==> word_like(word@),
    {
        if fake_chance(50) {
            Some(fake_word())
        } else {
            None
        }
    }

    /// A made-up active flag: on four times in five.
    pub fn generate_mock_is_active() -> (active: bool) {
        fake_chance(80)
    }

    /// The category of these parts, with a stand-in for a name that is
    /// empty. It is valid when the code, the slug and the colour are.
    pub fn assemble(
        id: RowID,
        code: String,
        name: String,
        description: Option<String>,
        url_slug: Option<UrlSlug>,
        category_type: CategoryTypes,
        color: Option<HexColor>,
        icon: Option<String>,
        is_active: bool,
        now: Timestamp,
    ) -> (category: Categories)
        ensures
            category == (Categories {
                id,
                code,
                name: category.name,
                description,
                url_slug,
                category_type,
                color,
                icon,
                is_active,
                created_on: now,
                updated_on: now,
            }),
            name@.len() > 0 ==> category.name == name,
            name@.len() == 0 ==> category.name@ == "category"@,
            category.name@.len() > 0,
    {
        let name = if name.as_str().unicode_len() == 0 {
            proof {
                reveal_strlit("category");
            }
            String::from_str("category")
        } else {
            name
        };
        Categories {
            id,
            code,
            name,
            description,
            url_slug,
            category_type,
            color,
            icon,
            is_active,
            created_on: now,
            updated_on: now,
        }
    }

    /// A made-up category: every part up to chance, the two timestamps the
    /// clock's time, and the whole valid.
    pub fn mock() -> (category: Categories)
        ensures
            category.valid(),
    {
        let now = Timestamp::from_micros(clock_micros());
        Categories::assemble(
            RowID::mock(),
            Categories::generate_mock_code(),
            Categories::generate_mock_name(),
            Categories::generate_mock_description(),
            Categories::generate_mock_url_slug(),
            CategoryTypes::mock(),
            HexColor::mock_with_option(),
            Categories::generate_mock_icon(),
            Categories::generate_mock_is_active(),
            now,
        )
    }
}

} // verus!
