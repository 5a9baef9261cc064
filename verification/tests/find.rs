use personal_ledger::{
    Categories, CategoryTypes, HexColor, MemoryStore, RowID, Timestamp, UrlSlug,
};

fn entry(n: u32, name: &str, kind: CategoryTypes, active: bool) -> Categories {
    Categories {
        id: RowID::from_u128(0xf00d_0000 + n as u128),
        code: format!("F{:02}.IND.{:03}", n % 100, n % 1000),
        name: name.to_string(),
        description: None,
        url_slug: UrlSlug::parse(&format!("entry-{}", n)),
        category_type: kind,
        color: HexColor::parse("#abcdef"),
        icon: None,
        is_active: active,
        created_on: Timestamp::from_micros(100 * n as i64),
        updated_on: Timestamp::from_micros(100 * n as i64),
    }
}

fn busy_store() -> (MemoryStore, Vec<Categories>) {
    let rows = vec![
        entry(1, "Groceries", CategoryTypes::Expense, true),
        entry(2, "Rent", CategoryTypes::Expense, false),
        entry(3, "Salary", CategoryTypes::Income, true),
        entry(4, "Car", CategoryTypes::Asset, true),
        entry(5, "Old car loan", CategoryTypes::Liability, false),
        entry(6, "Dining out (GROCERIES extra)", CategoryTypes::Expense, true),
    ];
    let mut store = MemoryStore::new(Timestamp::from_micros(0));
    for row in &rows {
        row.insert(&mut store).unwrap();
    }
    (store, rows)
}

fn ids(rows: &[Categories]) -> Vec<u128> {
    rows.iter().map(|c| c.id.as_u128() - 0xf00d_0000).collect()
}

#[test]
fn test_find_by_id() {
    let (mut store, rows) = busy_store();
    let category = &rows[2];

    let result = Categories::find_by_id(category.id, &mut store);
    assert!(result.is_ok());
    let found = result.unwrap();
    assert!(found.is_some());
    assert_eq!(found.unwrap().id, category.id);
    assert_eq!(
        Categories::find_by_id(RowID::from_u128(1), &mut store),
        Ok(None)
    );
}

#[test]
fn test_find_by_code() {
    let (mut store, rows) = busy_store();
    let category = &rows[0];

    let result = Categories::find_by_code(&category.code, &mut store);
    assert!(result.is_ok());
    let found = result.unwrap();
    assert!(found.is_some());
    assert_eq!(found.unwrap().code, category.code);
    assert_eq!(Categories::find_by_code("NOP.NOP.NOP", &mut store), Ok(None));
    assert_eq!(Categories::find_by_code("f01.ind.001", &mut store), Ok(None));
}

#[test]
fn test_find_by_url_slug() {
    let (mut store, _) = busy_store();
    let mut category = entry(9, "Slugged", CategoryTypes::Equity, true);
    category.url_slug = Some(UrlSlug::parse("test-slug").unwrap());
    category.insert(&mut store).unwrap();

    let result = Categories::find_by_url_slug(category.url_slug.as_ref().unwrap(), &mut store);
    assert!(result.is_ok());
    let found = result.unwrap();
    assert!(found.is_some());
    assert_eq!(found.unwrap().url_slug, category.url_slug);

    let other = UrlSlug::parse("no-such-slug").unwrap();
    assert_eq!(Categories::find_by_url_slug(&other, &mut store), Ok(None));
}

#[test]
fn test_find_by_name() {
    let (mut store, rows) = busy_store();
    let category = &rows[0];

    let result = Categories::find_by_name(&category.name, &mut store);
    assert!(result.is_ok());
    let found = result.unwrap();
    assert!(!found.is_empty());
    assert!(found.iter().any(|c| c.id == category.id));
}

#[test]
fn find_by_name_ignores_case_and_matches_inside() {
    let (mut store, _) = busy_store();
    let found = Categories::find_by_name("groceries", &mut store).unwrap();
    assert_eq!(ids(&found), vec![6, 1]);
    let found = Categories::find_by_name("CAR", &mut store).unwrap();
    assert_eq!(ids(&found), vec![5, 4]);
    let found = Categories::find_by_name("", &mut store).unwrap();
    assert_eq!(found.len(), 6);
    let found = Categories::find_by_name("%", &mut store).unwrap();
    assert!(found.is_empty());
    let found = Categories::find_by_name("Ren_", &mut store).unwrap();
    assert!(found.is_empty());
    let found = Categories::find_by_name("Rentals", &mut store).unwrap();
    assert!(found.is_empty());
}

#[test]
fn test_find_all() {
    let (mut store, _) = busy_store();
    let result = Categories::find_all(&mut store);
    assert!(result.is_ok());
    let categories = result.unwrap();
    assert!(categories.len() >= 2);
    assert_eq!(ids(&categories), vec![6, 5, 4, 3, 2, 1]);
}

#[test]
fn test_find_all_active() {
    let (mut store, _) = busy_store();
    let result = Categories::find_all_active(&mut store);
    assert!(result.is_ok());
    let categories = result.unwrap();
    assert!(categories.iter().all(|c| c.is_active));
    assert_eq!(ids(&categories), vec![6, 4, 3, 1]);
}

#[test]
fn test_find_inactive() {
    let (mut store, _) = busy_store();
    let result = Categories::find_inactive(&mut store);
    assert!(result.is_ok());
    let categories = result.unwrap();
    assert!(categories.iter().all(|c| !c.is_active));
    assert_eq!(ids(&categories), vec![5, 2]);
}

#[test]
fn find_by_type_and_find_active_by_type() {
    let (mut store, _) = busy_store();
    let expenses = Categories::find_by_type(CategoryTypes::Expense, &mut store).unwrap();
    assert_eq!(ids(&expenses), vec![6, 2, 1]);
    let active = Categories::find_active_by_type(CategoryTypes::Expense, &mut store).unwrap();
    assert_eq!(ids(&active), vec![6, 1]);
    let none = Categories::find_by_type(CategoryTypes::Equity, &mut store).unwrap();
    assert!(none.is_empty());
}

#[test]
fn test_find_all_with_pagination() {
    let (mut store, _) = busy_store();
    let (categories, total_count) =
        Categories::find_all_with_pagination(0, 2, &mut store).unwrap();
    assert_eq!(categories.len(), 2);
    assert!(total_count >= 5);
    assert_eq!(total_count, 6);
    assert_eq!(ids(&categories), vec![6, 5]);
}

#[test]
fn test_find_active_with_pagination() {
    let (mut store, _) = busy_store();
    let (categories, total_count) =
        Categories::find_active_with_pagination(0, 2, &mut store).unwrap();
    assert!(categories.len() <= 2);
    assert!(categories.iter().all(|c| c.is_active));
    assert!(total_count >= 3);
    assert_eq!(total_count, 4);
    assert_eq!(ids(&categories), vec![6, 4]);
}

#[test]
fn test_find_inactive_with_pagination() {
    let (mut store, _) = busy_store();
    let (categories, total_count) =
        Categories::find_inactive_with_pagination(0, 2, &mut store).unwrap();
    assert!(categories.len() <= 2);
    assert!(categories.iter().all(|c| !c.is_active));
    assert!(total_count >= 2);
    assert_eq!(total_count, 2);
    assert_eq!(ids(&categories), vec![5, 2]);
}

#[test]
fn find_by_type_with_pagination_pages_the_type() {
    let (mut store, _) = busy_store();
    let (page, total) =
        Categories::find_by_type_with_pagination(CategoryTypes::Expense, 1, 1, &mut store)
            .unwrap();
    assert_eq!(ids(&page), vec![2]);
    assert_eq!(total, 3);
    let (page, total) =
        Categories::find_active_by_type_with_pagination(CategoryTypes::Expense, 1, 5, &mut store)
            .unwrap();
    assert_eq!(ids(&page), vec![1]);
    assert_eq!(total, 2);
}

#[test]
fn pages_beyond_the_end_and_odd_bounds() {
    let (mut store, _) = busy_store();
    let (page, total) = Categories::find_all_with_pagination(6, 3, &mut store).unwrap();
    assert!(page.is_empty());
    assert_eq!(total, 6);
    let (page, total) = Categories::find_all_with_pagination(100, 3, &mut store).unwrap();
    assert!(page.is_empty());
    assert_eq!(total, 6);
    let (page, _) = Categories::find_all_with_pagination(4, 100, &mut store).unwrap();
    assert_eq!(ids(&page), vec![2, 1]);
    let (page, _) = Categories::find_all_with_pagination(0, 0, &mut store).unwrap();
    assert!(page.is_empty());
    let (page, _) = Categories::find_all_with_pagination(-3, 2, &mut store).unwrap();
    assert_eq!(ids(&page), vec![6, 5]);
    let (page, _) = Categories::find_all_with_pagination(4, -1, &mut store).unwrap();
    assert_eq!(ids(&page), vec![2, 1]);
    let (page, total) =
        Categories::find_all_with_pagination(i32::MAX, i32::MAX, &mut store).unwrap();
    assert!(page.is_empty());
    assert_eq!(total, 6);
}

#[test]
fn find_with_filters_picks_the_listing_by_the_filters_given() {
    let (mut store, _) = busy_store();
    let (page, total) =
        Categories::find_with_filters(None, None, None, None, 0, 10, &mut store).unwrap();
    assert_eq!(ids(&page), vec![6, 5, 4, 3, 2, 1]);
    assert_eq!(total, 6);

    let (page, total) =
        Categories::find_with_filters(None, Some(true), None, None, 0, 10, &mut store).unwrap();
    assert_eq!(ids(&page), vec![6, 4, 3, 1]);
    assert_eq!(total, 4);

    let (page, total) =
        Categories::find_with_filters(None, Some(false), None, None, 0, 10, &mut store).unwrap();
    assert_eq!(ids(&page), vec![5, 2]);
    assert_eq!(total, 2);

    let (page, total) = Categories::find_with_filters(
        Some(CategoryTypes::Expense),
        None,
        None,
        None,
        0,
        10,
        &mut store,
    )
    .unwrap();
    assert_eq!(ids(&page), vec![6, 2, 1]);
    assert_eq!(total, 3);

    let (page, total) = Categories::find_with_filters(
        Some(CategoryTypes::Expense),
        Some(true),
        None,
        None,
        0,
        10,
        &mut store,
    )
    .unwrap();
    assert_eq!(ids(&page), vec![6, 1]);
    assert_eq!(total, 2);

    let (page, total) = Categories::find_with_filters(
        Some(CategoryTypes::Expense),
        Some(false),
        None,
        None,
        0,
        10,
        &mut store,
    )
    .unwrap();
    assert_eq!(ids(&page), vec![2]);
    assert_eq!(total, 1);
    assert!(page.iter().all(|c| c.category_type == CategoryTypes::Expense && !c.is_active));

    let (page, total) = Categories::find_with_filters(
        Some(CategoryTypes::Income),
        Some(false),
        None,
        None,
        0,
        10,
        &mut store,
    )
    .unwrap();
    assert!(page.is_empty());
    assert_eq!(total, 0);
}

#[test]
fn find_with_filters_accepts_sorting_and_does_not_apply_it() {
    let (mut store, _) = busy_store();
    let (plain, _) =
        Categories::find_with_filters(None, None, None, None, 0, 10, &mut store).unwrap();
    let (sorted, _) = Categories::find_with_filters(
        None,
        None,
        Some("name"),
        Some(false),
        0,
        10,
        &mut store,
    )
    .unwrap();
    assert_eq!(plain, sorted);
}

#[test]
fn reads_leave_the_store_as_it_was() {
    let (mut store, rows) = busy_store();
    let _ = Categories::find_all(&mut store).unwrap();
    let _ = Categories::find_by_name("a", &mut store).unwrap();
    let _ = Categories::find_all_with_pagination(1, 2, &mut store).unwrap();
    assert_eq!(store.len(), rows.len());
    assert!(!store.in_transaction());
    for row in &rows {
        assert_eq!(
            Categories::find_by_id(row.id, &mut store).unwrap().as_ref(),
            Some(row)
        );
    }
}
