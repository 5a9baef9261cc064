use personal_ledger::{
    Categories, CategoryTypes, Constraint, DatabaseError, HexColor, MemoryStore, RowID, StoreFault,
    Timestamp, UrlSlug,
};

fn sample(n: u32) -> Categories {
    Categories {
        id: RowID::from_u128(0xabc0_0000 + n as u128),
        code: format!("U{:02}.XYZ.{:03}", n % 100, n % 1000),
        name: format!("Sample {}", n),
        description: Some(format!("Sample description {}", n)),
        url_slug: UrlSlug::parse(&format!("sample-{}", n)),
        category_type: CategoryTypes::Liability,
        color: HexColor::parse("#123abc"),
        icon: Some("tag".to_string()),
        is_active: n % 2 == 0,
        created_on: Timestamp::from_micros(1_000 + n as i64),
        updated_on: Timestamp::from_micros(1_000 + n as i64),
    }
}

fn modified(original: &Categories) -> Categories {
    let mut changed = original.clone();
    changed.name = format!("{} (modified)", original.name);
    changed.description = None;
    changed.is_active = !original.is_active;
    changed.category_type = CategoryTypes::Equity;
    changed.updated_on = Timestamp::from_micros(7);
    changed
}

fn store_with(rows: &[Categories]) -> MemoryStore {
    let mut store = MemoryStore::new(Timestamp::from_micros(5_000_000));
    for row in rows {
        row.insert(&mut store).unwrap();
    }
    store
}

#[test]
fn update_existing_category_successfully() {
    let original = sample(1);
    let mut store = store_with(&[original.clone()]);
    let change = modified(&original);

    let updated = change.update(&mut store).unwrap();
    assert_eq!(updated.id, original.id);
    assert_eq!(updated.name, change.name);
    assert_eq!(updated.description, change.description);
    assert_eq!(updated.is_active, change.is_active);
    assert_eq!(updated.category_type, change.category_type);
    assert_eq!(
        Categories::find_by_id(original.id, &mut store).unwrap(),
        Some(updated)
    );
}

#[test]
fn update_nonexistent_category_returns_not_found() {
    let mut store = store_with(&[]);
    let ghost = sample(9);
    let result = ghost.update(&mut store);
    assert!(matches!(result, Err(DatabaseError::NotFound(_))));
    assert_eq!(
        result,
        Err(DatabaseError::NotFound(
            "Category with id 00000000-0000-0000-0000-0000abc00009 not found".to_string()
        ))
    );
    assert_eq!(store.len(), 0);
}

#[test]
fn update_preserves_created_on_timestamp() {
    let original = sample(2);
    let mut store = store_with(&[original.clone()]);
    let mut change = modified(&original);
    change.created_on = Timestamp::from_micros(999_999_999);

    let updated = change.update(&mut store).unwrap();
    assert_eq!(updated.created_on, original.created_on);
    assert!(updated.updated_on.micros > original.updated_on.micros);
    assert_eq!(updated.updated_on, Timestamp::from_micros(5_000_000));
}

#[test]
fn update_with_various_optional_fields() {
    let original = sample(3);
    let mut store = store_with(&[original.clone()]);

    let mut change = original.clone();
    change.description = None;
    change.url_slug = None;
    change.color = None;
    change.icon = None;
    let updated = change.update(&mut store).unwrap();
    assert_eq!(updated.description, None);
    assert_eq!(updated.url_slug, None);
    assert_eq!(updated.color, None);
    assert_eq!(updated.icon, None);

    change.description = Some("back again".to_string());
    change.color = HexColor::parse("#FFFFFF");
    let updated = change.update(&mut store).unwrap();
    assert_eq!(updated.description, Some("back again".to_string()));
    assert_eq!(updated.color, HexColor::parse("#FFFFFF"));
}

#[test]
fn update_refuses_the_code_of_another_row() {
    let one = sample(1);
    let two = sample(2);
    let mut store = store_with(&[one.clone(), two.clone()]);
    let mut change = two.clone();
    change.code = one.code.clone();
    assert_eq!(
        change.update(&mut store),
        Err(DatabaseError::Sqlx(StoreFault::Unique(Constraint::Code)))
    );
    assert_eq!(Categories::find_by_id(two.id, &mut store).unwrap(), Some(two));
}

#[test]
fn update_many_empty_list_returns_empty_vec() {
    let mut store = store_with(&[]);
    let result = Categories::update_many(&[], &mut store);
    assert_eq!(result, Ok(vec![]));
}

#[test]
fn update_many_successfully_updates_multiple_categories() {
    let originals = vec![sample(1), sample(2), sample(3)];
    let mut store = store_with(&originals);
    let changes: Vec<Categories> = originals.iter().map(modified).collect();

    let updated = Categories::update_many(&changes, &mut store).unwrap();
    assert_eq!(updated.len(), 3);
    for (change, row) in changes.iter().zip(updated.iter()) {
        assert_eq!(row.id, change.id);
        assert_eq!(row.name, change.name);
        assert_eq!(row.updated_on, Timestamp::from_micros(5_000_000));
        assert_eq!(
            Categories::find_by_id(row.id, &mut store).unwrap().as_ref(),
            Some(row)
        );
    }
    assert!(!store.in_transaction());
}

#[test]
fn update_many_fails_if_any_category_not_found() {
    let originals = vec![sample(1), sample(2)];
    let mut store = store_with(&originals);
    let mut changes: Vec<Categories> = originals.iter().map(modified).collect();
    changes.push(modified(&sample(50)));

    let result = Categories::update_many(&changes, &mut store);
    assert!(matches!(result, Err(DatabaseError::NotFound(_))));
}

#[test]
fn update_many_is_atomic_on_failure() {
    let originals = vec![sample(1), sample(2), sample(3)];
    let mut store = store_with(&originals);
    let mut changes: Vec<Categories> = originals.iter().map(modified).collect();
    changes.push(modified(&sample(50)));

    let _ = Categories::update_many(&changes, &mut store);

    for change in changes.iter().take(3) {
        let current = Categories::find_by_id(change.id, &mut store)
            .unwrap()
            .unwrap();
        assert_ne!(
            current.name, change.name,
            "Category should not have been updated due to transaction rollback"
        );
    }
    assert_eq!(Categories::find_all(&mut store).unwrap().len(), 3);
    assert!(!store.in_transaction());
}

#[test]
fn update_many_rolls_back_on_a_clash() {
    let originals = vec![sample(1), sample(2), sample(3)];
    let mut store = store_with(&originals);
    let mut changes: Vec<Categories> = originals.iter().map(modified).collect();
    changes[2].code = originals[0].code.clone();

    let result = Categories::update_many(&changes, &mut store);
    assert_eq!(
        result,
        Err(DatabaseError::Sqlx(StoreFault::Unique(Constraint::Code)))
    );
    for original in &originals {
        assert_eq!(
            Categories::find_by_id(original.id, &mut store).unwrap().as_ref(),
            Some(original)
        );
    }
}

#[test]
fn update_active_status_to_true() {
    let mut original = sample(1);
    original.is_active = false;
    let mut store = store_with(&[original.clone()]);
    let updated = Categories::update_active_status(original.id, true, &mut store).unwrap();
    assert!(updated.is_active);
    assert_eq!(updated.id, original.id);
}

#[test]
fn update_active_status_to_false() {
    let mut original = sample(2);
    original.is_active = true;
    let mut store = store_with(&[original.clone()]);
    let updated = Categories::update_active_status(original.id, false, &mut store).unwrap();
    assert!(!updated.is_active);
    assert_eq!(updated.id, original.id);
}

#[test]
fn update_active_status_nonexistent_category() {
    let mut store = store_with(&[sample(1)]);
    let result = Categories::update_active_status(RowID::from_u128(404), true, &mut store);
    assert!(matches!(result, Err(DatabaseError::NotFound(_))));
}

#[test]
fn update_active_status_preserves_other_fields() {
    let original = sample(4);
    let mut store = store_with(&[original.clone()]);
    let updated =
        Categories::update_active_status(original.id, !original.is_active, &mut store).unwrap();

    assert_eq!(updated.id, original.id);
    assert_eq!(updated.code, original.code);
    assert_eq!(updated.name, original.name);
    assert_eq!(updated.description, original.description);
    assert_eq!(updated.url_slug, original.url_slug);
    assert_eq!(updated.category_type, original.category_type);
    assert_eq!(updated.color, original.color);
    assert_eq!(updated.icon, original.icon);
    assert_eq!(updated.created_on, original.created_on);
    assert_ne!(updated.is_active, original.is_active);
    assert!(updated.updated_on.micros >= original.updated_on.micros);
}

#[test]
fn update_active_status_twice_changes_only_the_time_of_update() {
    let original = sample(6);
    let mut store = store_with(&[original.clone()]);
    let first = Categories::update_active_status(original.id, false, &mut store).unwrap();
    store.set_now(Timestamp::from_micros(6_000_000));
    let second = Categories::update_active_status(original.id, false, &mut store).unwrap();
    assert_eq!(first.is_active, second.is_active);
    assert_eq!(first.updated_on, Timestamp::from_micros(5_000_000));
    assert_eq!(second.updated_on, Timestamp::from_micros(6_000_000));
    let mut expected = first.clone();
    expected.updated_on = second.updated_on;
    assert_eq!(second, expected);
}

#[test]
fn update_handles_various_category_configurations() {
    let kinds = [
        CategoryTypes::Asset,
        CategoryTypes::Liability,
        CategoryTypes::Income,
        CategoryTypes::Expense,
        CategoryTypes::Equity,
    ];
    let originals: Vec<Categories> = (1..=5).map(sample).collect();
    let mut store = store_with(&originals);
    for (original, kind) in originals.iter().zip(kinds.iter()) {
        let mut change = original.clone();
        change.category_type = *kind;
        change.is_active = !original.is_active;
        let updated = change.update(&mut store).unwrap();
        assert_eq!(updated.category_type, *kind);
        assert_eq!(updated.is_active, change.is_active);
    }
}

#[test]
fn the_time_of_update_never_goes_back() {
    let mut store = MemoryStore::new(Timestamp::from_micros(0));
    let mut row = sample(7);
    row.updated_on = Timestamp::from_micros(100);
    row.insert(&mut store).unwrap();

    let updated = modified(&row).update(&mut store).unwrap();
    assert_eq!(updated.updated_on, Timestamp::from_micros(100));
    let flagged = Categories::update_active_status(row.id, false, &mut store).unwrap();
    assert_eq!(flagged.updated_on, Timestamp::from_micros(100));
    let many = Categories::update_many(&[modified(&row)], &mut store).unwrap();
    assert_eq!(many[0].updated_on, Timestamp::from_micros(100));

    store.set_now(Timestamp::from_micros(200));
    let updated = modified(&row).update(&mut store).unwrap();
    assert_eq!(updated.updated_on, Timestamp::from_micros(200));
    store.set_now(Timestamp::from_micros(150));
    let flagged = Categories::update_active_status(row.id, true, &mut store).unwrap();
    assert_eq!(flagged.updated_on, Timestamp::from_micros(200));
    assert_eq!(
        Categories::find_by_id(row.id, &mut store).unwrap().unwrap().updated_on,
        Timestamp::from_micros(200)
    );
}
