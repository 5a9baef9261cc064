use personal_ledger::{
    Categories, CategoryTypes, DatabaseError, HexColor, MemoryStore, RowID, Timestamp, UrlSlug,
};

fn item(n: u32, active: bool) -> Categories {
    Categories {
        id: RowID::from_u128(0xdead_0000 + n as u128),
        code: format!("D{:02}.ELE.{:03}", n % 100, n % 1000),
        name: format!("Item {}", n),
        description: None,
        url_slug: UrlSlug::parse(&format!("item-{}", n)),
        category_type: CategoryTypes::Asset,
        color: HexColor::parse("#000000"),
        icon: None,
        is_active: active,
        created_on: Timestamp::from_micros(n as i64),
        updated_on: Timestamp::from_micros(n as i64),
    }
}

fn filled(rows: &[Categories]) -> MemoryStore {
    let mut store = MemoryStore::new(Timestamp::from_micros(1_000));
    for row in rows {
        row.insert(&mut store).unwrap();
    }
    store
}

#[test]
fn test_delete_existing_category() {
    let category = item(1, true);
    let mut store = filled(&[category.clone()]);
    let result = category.delete(&mut store);
    assert!(result.is_ok());
    assert_eq!(Categories::find_by_id(category.id, &mut store), Ok(None));
}

#[test]
fn test_delete_nonexistent_category() {
    let mut store = filled(&[]);
    let category = item(1, true);
    let result = category.delete(&mut store);
    assert!(matches!(result, Err(DatabaseError::NotFound(_))));
    assert_eq!(
        result,
        Err(DatabaseError::NotFound(
            "Category with id 00000000-0000-0000-0000-0000dead0001 not found".to_string()
        ))
    );
}

#[test]
fn test_delete_by_id() {
    let category = item(2, true);
    let mut store = filled(&[item(1, true), category.clone(), item(3, false)]);
    let result = Categories::delete_by_id(category.id, &mut store);
    assert!(result.is_ok());
    assert_eq!(Categories::find_by_id(category.id, &mut store), Ok(None));
    assert_eq!(store.len(), 2);
}

#[test]
fn test_delete_by_code() {
    let category = item(2, true);
    let mut store = filled(&[item(1, true), category.clone()]);
    let result = Categories::delete_by_code(&category.code, &mut store);
    assert!(result.is_ok());
    assert_eq!(Categories::find_by_code(&category.code, &mut store), Ok(None));
    assert_eq!(store.len(), 1);
}

#[test]
fn test_delete_by_url_slug() {
    let mut category = item(2, true);
    category.url_slug = Some(UrlSlug::parse("test-slug").unwrap());
    let mut store = filled(&[item(1, true), category.clone()]);
    let result =
        Categories::delete_by_url_slug(category.url_slug.as_ref().unwrap(), &mut store);
    assert!(result.is_ok());
    assert_eq!(Categories::find_by_id(category.id, &mut store), Ok(None));
    assert_eq!(store.len(), 1);
}

#[test]
fn test_delete_handles_various_category_configurations() {
    let mut bare = item(1, false);
    bare.url_slug = None;
    bare.color = None;
    let mut rich = item(2, true);
    rich.description = Some("rich".to_string());
    rich.icon = Some("star".to_string());
    let mut store = filled(&[bare.clone(), rich.clone()]);
    assert!(bare.delete(&mut store).is_ok());
    assert!(rich.delete(&mut store).is_ok());
    assert_eq!(store.len(), 0);
}

#[test]
fn test_delete_by_code_edge_cases() {
    let mut store = filled(&[item(1, true)]);
    let result = Categories::delete_by_code("NON.EXISTENT.CODE", &mut store);
    assert!(matches!(result, Err(DatabaseError::NotFound(_))));
    assert_eq!(
        result,
        Err(DatabaseError::NotFound(
            "Category with code 'NON.EXISTENT.CODE' not found".to_string()
        ))
    );

    let result = Categories::delete_by_code("", &mut store);
    assert!(matches!(result, Err(DatabaseError::NotFound(_))));
    assert_eq!(store.len(), 1);
}

#[test]
fn test_delete_by_url_slug_edge_cases() {
    let mut store = filled(&[item(1, true)]);
    let slug = UrlSlug::parse("non-existent-slug").unwrap();
    let result = Categories::delete_by_url_slug(&slug, &mut store);
    assert!(matches!(result, Err(DatabaseError::NotFound(_))));
    assert_eq!(
        result,
        Err(DatabaseError::NotFound(
            "Category with URL slug 'non-existent-slug' not found".to_string()
        ))
    );
}

#[test]
fn test_delete_many_by_id_success() {
    let rows = vec![item(1, true), item(2, false), item(3, true)];
    let mut store = filled(&rows);
    let ids: Vec<RowID> = rows.iter().map(|c| c.id).collect();

    let result = Categories::delete_many_by_id(&ids, &mut store);
    assert!(result.is_ok());
    for id in ids {
        assert_eq!(Categories::find_by_id(id, &mut store), Ok(None));
    }
    assert!(!store.in_transaction());
}

#[test]
fn test_delete_many_by_id_fails_on_nonexistent() {
    let rows = vec![item(1, true), item(2, false)];
    let mut store = filled(&rows);
    let ids = vec![rows[0].id, RowID::from_u128(0xffff), rows[1].id];

    let result = Categories::delete_many_by_id(&ids, &mut store);
    assert!(matches!(result, Err(DatabaseError::NotFound(_))));
    assert_eq!(
        result,
        Err(DatabaseError::NotFound(
            "Category with id 00000000-0000-0000-0000-00000000ffff not found".to_string()
        ))
    );
    assert_eq!(store.len(), 2);
    assert_eq!(
        Categories::find_by_id(rows[0].id, &mut store).unwrap().as_ref(),
        Some(&rows[0])
    );
    assert!(!store.in_transaction());
}

#[test]
fn delete_many_by_id_with_a_repeated_id_deletes_nothing() {
    let rows = vec![item(1, true), item(2, false)];
    let mut store = filled(&rows);
    let ids = vec![rows[0].id, rows[0].id];
    let result = Categories::delete_many_by_id(&ids, &mut store);
    assert!(matches!(result, Err(DatabaseError::NotFound(_))));
    assert_eq!(store.len(), 2);
}

#[test]
fn test_delete_many_by_id_empty_list() {
    let mut store = filled(&[item(1, true)]);
    let result = Categories::delete_many_by_id(&[], &mut store);
    assert!(result.is_ok());
    assert_eq!(store.len(), 1);
}

#[test]
fn test_delete_inactive() {
    let rows = vec![
        item(1, true),
        item(2, false),
        item(3, true),
        item(4, false),
        item(5, false),
    ];
    let mut store = filled(&rows);
    let deleted = Categories::delete_inactive(&mut store).unwrap();
    assert_eq!(deleted, 3);
    let left = Categories::find_all(&mut store).unwrap();
    assert_eq!(left.len(), 2);
    assert!(left.iter().all(|c| c.is_active));
    assert_eq!(Categories::delete_inactive(&mut store), Ok(0));
}

#[test]
fn test_delete_all() {
    let rows = vec![item(1, true), item(2, false), item(3, true)];
    let mut store = filled(&rows);
    let deleted = Categories::delete_all(&mut store).unwrap();
    assert_eq!(deleted, 3);
    assert_eq!(store.len(), 0);
    assert_eq!(Categories::delete_all(&mut store), Ok(0));
}
