use personal_ledger::domain::is_code;
use personal_ledger::{Categories, CategoryTypes, HexColor, RowID, Timestamp, UrlSlug};

#[test]
fn row_id_text_is_hyphenated_lowercase_hex() {
    let id = RowID::from_u128(0x0123_4567_89ab_cdef_0123_4567_89ab_cdef);
    assert_eq!(id.to_string(), "01234567-89ab-cdef-0123-456789abcdef");
    assert_eq!(RowID::from_u128(0).to_string(), "00000000-0000-0000-0000-000000000000");
    assert_eq!(
        RowID::from_u128(u128::MAX).to_string(),
        "ffffffff-ffff-ffff-ffff-ffffffffffff"
    );
    assert_eq!(id.as_u128(), 0x0123_4567_89ab_cdef_0123_4567_89ab_cdef);
}

#[test]
fn row_id_parse_reads_its_own_text_back() {
    for value in [
        0u128,
        1,
        0x0123_4567_89ab_cdef_0123_4567_89ab_cdef,
        0x0190_5d2c_7b3a_7f00_8000_1234_5678_9abc,
        u128::MAX,
    ] {
        let id = RowID::from_u128(value);
        assert_eq!(RowID::parse(&id.to_string()), Some(id));
    }
    assert_eq!(
        RowID::parse("01234567-89AB-CDEF-0123-456789ABCDEF"),
        Some(RowID::from_u128(0x0123_4567_89ab_cdef_0123_4567_89ab_cdef))
    );
}

#[test]
fn row_id_parse_refuses_other_shapes() {
    for text in [
        "",
        "0123456789abcdef0123456789abcdef",
        "01234567-89ab-cdef-0123-456789abcde",
        "01234567-89ab-cdef-0123-456789abcdef0",
        "01234567089ab-cdef-0123-456789abcdef",
        "01234567-89ab-cdef-0123-456789abcdeg",
        "0123456-789ab-cdef-0123-456789abcdef",
        "01234567-89ab-cdef-0123-45678\u{e9}abcdef",
        "not an id",
    ] {
        assert_eq!(RowID::parse(text), None, "{:?}", text);
    }
}

#[test]
fn category_type_names() {
    let all = [
        (CategoryTypes::Asset, "Asset"),
        (CategoryTypes::Liability, "Liability"),
        (CategoryTypes::Income, "Income"),
        (CategoryTypes::Expense, "Expense"),
        (CategoryTypes::Equity, "Equity"),
    ];
    for (kind, name) in all {
        assert_eq!(kind.as_str(), name);
        assert_eq!(CategoryTypes::parse(name), Some(kind));
    }
    assert_eq!(CategoryTypes::parse("asset"), None);
    assert_eq!(CategoryTypes::parse(""), None);
    assert_eq!(CategoryTypes::parse("Assets"), None);
}

#[test]
fn url_slug_parse() {
    assert_eq!(UrlSlug::parse("example-category").unwrap().as_str(), "example-category");
    assert_eq!(UrlSlug::parse("a1-b2").unwrap().as_str(), "a1-b2");
    assert!(UrlSlug::parse("").is_none());
    assert!(UrlSlug::parse("Has Space").is_none());
    assert!(UrlSlug::parse("UPPER").is_none());
    assert!(UrlSlug::parse("under_score").is_none());
    assert!(UrlSlug::parse("caf\u{e9}").is_none());
    assert_eq!(
        UrlSlug::from_string("x-y".to_string()),
        UrlSlug::parse("x-y")
    );
    assert_eq!(UrlSlug::from_string("X".to_string()), None);
}

#[test]
fn hex_color_parse() {
    assert_eq!(HexColor::parse("#FF5733").unwrap().as_str(), "#FF5733");
    assert_eq!(HexColor::parse("#00ff7f").unwrap().as_str(), "#00ff7f");
    assert!(HexColor::parse("FF5733").is_none());
    assert!(HexColor::parse("#FF573").is_none());
    assert!(HexColor::parse("#FF57333").is_none());
    assert!(HexColor::parse("#GG5733").is_none());
    assert!(HexColor::parse("").is_none());
    assert_eq!(
        HexColor::from_string("#000000".to_string()),
        HexColor::parse("#000000")
    );
    assert_eq!(HexColor::from_string("black".to_string()), None);
}

#[test]
fn codes_are_three_groups_of_three() {
    assert!(is_code("ABC.DEF.GHI"));
    assert!(is_code("001.002.003"));
    assert!(is_code("a1B.2cD.e3F"));
    assert!(!is_code("ABC.DEF.GH"));
    assert!(!is_code("ABC.DEF.GHIJ"));
    assert!(!is_code("ABCDEF.GHI."));
    assert!(!is_code("ABC-DEF-GHI"));
    assert!(!is_code("AB\u{c7}.DEF.GHI"));
    assert!(!is_code(""));
}

fn valid() -> Categories {
    Categories {
        id: RowID::from_u128(1),
        code: "FOO.BAR.BAZ".to_string(),
        name: "Example Category".to_string(),
        description: Some("An example category".to_string()),
        url_slug: Some(UrlSlug::parse("example-category").unwrap()),
        category_type: CategoryTypes::Expense,
        color: Some(HexColor::parse("#FF5733").unwrap()),
        icon: Some("shopping-cart".to_string()),
        is_active: true,
        created_on: Timestamp::from_micros(0),
        updated_on: Timestamp::from_micros(0),
    }
}

#[test]
fn a_category_is_valid_by_the_shape_of_its_fields() {
    assert!(valid().is_valid());
    let mut c = valid();
    c.code = "FOO.BAR".to_string();
    assert!(!c.is_valid());
    let mut c = valid();
    c.name = String::new();
    assert!(!c.is_valid());
    let mut c = valid();
    c.url_slug = Some(UrlSlug { text: "Not A Slug".to_string() });
    assert!(!c.is_valid());
    let mut c = valid();
    c.color = Some(HexColor { text: "red".to_string() });
    assert!(!c.is_valid());
    let mut c = valid();
    c.url_slug = None;
    c.color = None;
    c.description = None;
    c.icon = None;
    assert!(c.is_valid());
}

#[test]
fn category_struct_derives_work() {
    let cat1 = valid();
    let cat2 = cat1.clone();
    assert_eq!(cat1, cat2);

    let debug_str = format!("{:?}", cat1);
    assert!(debug_str.contains("Categories"));

    let mut other = cat1.clone();
    other.icon = None;
    assert_ne!(cat1, other);
}

#[test]
fn timestamps_compare_by_their_microseconds() {
    let early = Timestamp::from_micros(-5);
    let late = Timestamp::from_micros(5);
    assert!(early.not_after(&late));
    assert!(early.not_after(&early));
    assert!(!late.not_after(&early));
}

#[test]
fn the_later_of_two_times() {
    let early = Timestamp::from_micros(-5);
    let late = Timestamp::from_micros(5);
    assert_eq!(early.or_later(&late), late);
    assert_eq!(late.or_later(&early), late);
    assert_eq!(late.or_later(&late), late);
}
