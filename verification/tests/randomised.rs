use fake::faker::boolean::en::Boolean;
use fake::Fake;
use personal_ledger::{
    Categories, DatabaseError, MemoryStore, RowID, TelemetryError, TelemetryResult, Timestamp,
    UrlSlug,
};

fn fresh_store() -> MemoryStore {
    MemoryStore::new(Timestamp::from_micros(i64::MAX))
}

fn insert_test_category(store: &mut MemoryStore, category: &Categories) -> RowID {
    category.insert(store).unwrap().id
}

#[test]
fn test_delete_many_by_id_randomized() {
    let mut store = fresh_store();
    for i in 0..10 {
        let count = (1..5).fake::<usize>(); // Random count 1-4
        let mut ids = Vec::new();

        for j in 0..count {
            let mut category = Categories::mock();
            // Ensure unique identifiers for this test
            category.code = format!("DEL{:03}.RND{:03}.TST", i, j);
            category.name = format!("Test Category {} {}", i, j);
            category.url_slug = UrlSlug::from_name(&format!("test-category-{}-{}", i, j));
            let id = insert_test_category(&mut store, &category);
            ids.push(id);
        }

        let result = Categories::delete_many_by_id(&ids, &mut store);
        assert!(result.is_ok(), "Bulk delete should succeed for random mock data");

        // Verify all deleted
        for &id in &ids {
            let result2 = Categories::delete_by_id(id, &mut store);
            assert!(matches!(result2, Err(DatabaseError::NotFound(_))));
        }
    }
}

#[test]
fn test_delete_inactive_randomized() {
    let mut store = fresh_store();
    for i in 0..10 {
        // Insert mix of active/inactive
        let mut active_count = 0;
        let mut inactive_count = 0;

        for j in 0..5 {
            let mut category = Categories::mock();
            category.is_active = (0..2).fake::<u8>() == 1; // Random true/false
            // Ensure unique identifiers
            category.code = format!("INA{:03}.RND{:03}.TST", i, j);
            category.name = format!("Inactive Test {} {}", i, j);
            category.url_slug = UrlSlug::from_name(&format!("inactive-test-{}-{}", i, j));
            if category.is_active {
                active_count += 1;
            } else {
                inactive_count += 1;
            }
            insert_test_category(&mut store, &category);
        }

        let deleted = Categories::delete_inactive(&mut store).unwrap();
        assert_eq!(deleted, inactive_count as u64);

        // Verify active remain
        let remaining = Categories::delete_all(&mut store).unwrap();
        assert_eq!(remaining, active_count as u64);
    }
}

#[test]
fn test_mock_data_validation() {
    let mut store = fresh_store();
    for _ in 0..20 {
        let category = Categories::mock();

        // Basic validation: code format, non-empty name, etc.
        assert!(category.code.contains('.'));
        let parts: Vec<&str> = category.code.split('.').collect();
        assert_eq!(parts.len(), 3);
        assert!(!category.name.is_empty());
        assert!(category.is_valid());

        // Test deletion works with valid mock data
        insert_test_category(&mut store, &category);
        let result = category.delete(&mut store);
        assert!(result.is_ok());
    }
}

#[test]
fn test_mock_randomises_optional_fields() {
    let mut has_description = false;
    let mut has_none_description = false;
    let mut has_icon = false;
    let mut has_none_icon = false;

    for _ in 0..50 {
        let category = Categories::mock();
        if category.description.is_some() {
            has_description = true;
        } else {
            has_none_description = true;
        }
        if category.icon.is_some() {
            has_icon = true;
        } else {
            has_none_icon = true;
        }
    }

    assert!(has_description && has_none_description, "Description should be randomised");
    assert!(has_icon && has_none_icon, "Icon should be randomised");
}

#[test]
fn update_active_status_randomized_testing() {
    let mut store = fresh_store();
    for i in 0..15 {
        let mut original = Categories::mock();
        // Ensure unique identifiers for this test
        original.code = format!("STATUS{:03}.ABC.DEF", i);
        original.name = format!("Status Test Category {}", i); // Ensure unique name
        original.url_slug = UrlSlug::from_name(&format!("status-test-category-{}", i));

        insert_test_category(&mut store, &original);

        // Randomly choose target active status
        let target_active = Boolean(50).fake();

        let updated =
            Categories::update_active_status(original.id, target_active, &mut store).unwrap();

        assert_eq!(updated.is_active, target_active);
        assert_eq!(updated.id, original.id);
        // Other fields should be preserved
        assert_eq!(updated.name, original.name);
        assert_eq!(updated.code, original.code);
    }
}

#[test]
fn mock_categories_go_in_and_come_out_as_they_are() {
    let mut store = fresh_store();
    let mut made = Vec::new();
    for i in 0..30 {
        let mut category = Categories::mock();
        category.url_slug = UrlSlug::from_name(&format!("mock-{}", i));
        if category.insert(&mut store).is_ok() {
            made.push(category);
        }
    }
    assert!(made.len() >= 25);
    for category in &made {
        assert_eq!(
            Categories::find_by_code(&category.code, &mut store).unwrap().as_ref(),
            Some(category)
        );
    }
    let listed = Categories::find_all(&mut store).unwrap();
    assert_eq!(listed.len(), made.len());
    for pair in listed.windows(2) {
        assert!(pair[0].created_on.micros >= pair[1].created_on.micros);
    }
}

#[test]
fn test_result_type_alias() {
    // Test that TelemetryResult works as expected
    let ok_result: TelemetryResult<i32> = Ok(42);
    assert_eq!(ok_result.unwrap(), 42);

    let err_result: TelemetryResult<i32> = Err(TelemetryError::generic("test error"));
    assert!(err_result.is_err());

    if let Err(TelemetryError::Generic(msg)) = err_result {
        assert_eq!(msg, "test error");
    } else {
        panic!("Expected Generic error");
    }
}
