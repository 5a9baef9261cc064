use personal_ledger::{
    Categories, CategoryTypes, Constraint, DatabaseError, HexColor, MemoryStore, RowID, StoreFault,
    Timestamp, UrlSlug,
};

fn category(n: u128, code: &str, name: &str) -> Categories {
    Categories {
        id: RowID::from_u128(n),
        code: code.to_string(),
        name: name.to_string(),
        description: Some(format!("about {}", name)),
        url_slug: UrlSlug::parse(&format!("slug-{}", n)),
        category_type: CategoryTypes::Expense,
        color: HexColor::parse("#FF5733"),
        icon: None,
        is_active: true,
        created_on: Timestamp::from_micros(1_000 * n as i64),
        updated_on: Timestamp::from_micros(1_000 * n as i64),
    }
}

fn store_at(micros: i64) -> MemoryStore {
    MemoryStore::new(Timestamp::from_micros(micros))
}

#[test]
fn round_trip_insert_then_find_by_id() {
    let mut store = store_at(50_000);
    let c = category(7, "ABC.DEF.GHI", "Groceries");
    assert!(c.is_valid());
    let inserted = c.insert(&mut store).unwrap();
    assert_eq!(inserted, c);
    let found = Categories::find_by_id(c.id, &mut store).unwrap().unwrap();
    assert_eq!(found, c);
    assert!(found.created_on.micros >= c.created_on.micros);
    assert!(found.updated_on.micros >= c.updated_on.micros);
}

#[test]
fn uniqueness_second_insert_with_same_code_fails() {
    let mut store = store_at(50_000);
    let first = category(1, "ABC.DEF.GHI", "First");
    let second = category(2, "ABC.DEF.GHI", "Second");
    first.insert(&mut store).unwrap();
    let refused = second.insert(&mut store);
    assert_eq!(
        refused,
        Err(DatabaseError::Sqlx(StoreFault::Unique(Constraint::Code)))
    );
    assert_eq!(store.len(), 1);
    assert_eq!(
        Categories::find_by_id(first.id, &mut store).unwrap(),
        Some(first)
    );
    assert_eq!(Categories::find_by_id(second.id, &mut store).unwrap(), None);
}

#[test]
fn delete_then_delete_again_is_not_found() {
    let mut store = store_at(50_000);
    let c = category(3, "AAA.BBB.CCC", "Rent");
    c.insert(&mut store).unwrap();
    assert_eq!(Categories::delete_by_id(c.id, &mut store), Ok(()));
    assert_eq!(
        Categories::delete_by_id(c.id, &mut store),
        Err(DatabaseError::NotFound(
            "Category with id 00000000-0000-0000-0000-000000000003 not found".to_string()
        ))
    );
    assert_eq!(store.len(), 0);
}

#[test]
fn atomic_batch_update_changes_nothing_on_failure() {
    let mut store = store_at(50_000);
    let originals = vec![
        category(1, "AAA.AAA.AAA", "One"),
        category(2, "BBB.BBB.BBB", "Two"),
        category(3, "CCC.CCC.CCC", "Three"),
    ];
    for c in &originals {
        c.insert(&mut store).unwrap();
    }
    let mut batch: Vec<Categories> = originals
        .iter()
        .map(|c| {
            let mut changed = c.clone();
            changed.name = format!("{} changed", c.name);
            changed
        })
        .collect();
    batch.push(category(99, "ZZZ.ZZZ.ZZZ", "Nowhere"));

    let result = Categories::update_many(&batch, &mut store);
    assert_eq!(
        result,
        Err(DatabaseError::NotFound(
            "Category with id 00000000-0000-0000-0000-000000000063 not found".to_string()
        ))
    );
    assert!(!store.in_transaction());
    for c in &originals {
        let current = Categories::find_by_id(c.id, &mut store).unwrap().unwrap();
        assert_eq!(current.name, c.name);
        assert_eq!(&current, c);
    }
}

#[test]
fn non_atomic_batch_insert_passes_over_the_duplicate() {
    let mut store = store_at(50_000);
    let one = category(1, "AAA.AAA.AAA", "One");
    let two = category(2, "AAA.AAA.AAA", "Two");
    let three = category(3, "CCC.CCC.CCC", "Three");
    let batch = vec![one.clone(), two.clone(), three.clone()];

    let inserted = Categories::insert_many(&batch, &mut store).unwrap();
    assert_eq!(inserted, vec![one.clone(), three.clone()]);
    assert!(!store.in_transaction());
    assert_eq!(store.len(), 2);
    assert_eq!(Categories::find_by_id(two.id, &mut store).unwrap(), None);
    assert_eq!(
        Categories::find_by_id(three.id, &mut store).unwrap(),
        Some(three)
    );
}

#[test]
fn soft_delete_keeps_the_row_and_hard_delete_removes_it() {
    let mut store = store_at(50_000);
    let c = category(5, "SOF.TDE.LET", "Soft");
    c.insert(&mut store).unwrap();

    let off = Categories::update_active_status(c.id, false, &mut store).unwrap();
    assert!(!off.is_active);
    let found = Categories::find_by_id(c.id, &mut store).unwrap().unwrap();
    assert!(!found.is_active);
    assert_eq!(found.name, c.name);
    assert_eq!(found.created_on, c.created_on);
    assert_eq!(found.updated_on, Timestamp::from_micros(50_000));

    Categories::delete_by_id(c.id, &mut store).unwrap();
    assert_eq!(Categories::find_by_id(c.id, &mut store).unwrap(), None);
}

#[test]
fn upsert_creates_then_overwrites() {
    let mut store = store_at(50_000);
    let c = category(8, "UPS.ERT.001", "Original");
    let created = Categories::insert_or_update(&c, &mut store).unwrap();
    assert_eq!(created, c);
    assert_eq!(
        Categories::find_by_id(c.id, &mut store).unwrap(),
        Some(c.clone())
    );

    let mut changed = c.clone();
    changed.name = "X".to_string();
    changed.created_on = Timestamp::from_micros(999_999);
    changed.updated_on = Timestamp::from_micros(60_000);
    let overwritten = Categories::insert_or_update(&changed, &mut store).unwrap();
    assert_eq!(overwritten.name, "X");
    assert_eq!(overwritten.id, c.id);
    assert_eq!(overwritten.created_on, c.created_on);
    assert_eq!(overwritten.updated_on, Timestamp::from_micros(60_000));
    assert_eq!(store.len(), 1);
    let all = Categories::find_all(&mut store).unwrap();
    assert_eq!(all.iter().filter(|r| r.id == c.id).count(), 1);
}

#[test]
fn pagination_total_matches_full_scan() {
    let mut store = store_at(50_000);
    let n: i32 = 10;
    for i in 0..n {
        let code = format!("P{:02}.AAA.BBB", i);
        category(i as u128 + 1, &code, "Paged")
            .insert(&mut store)
            .unwrap();
    }
    let (all, total) = Categories::find_all_with_pagination(0, n, &mut store).unwrap();
    assert_eq!(all.len(), n as usize);
    assert_eq!(total, n);

    let (half, total) = Categories::find_all_with_pagination(0, n / 2, &mut store).unwrap();
    assert_eq!(half.len(), (n / 2) as usize);
    assert_eq!(total, n);
    assert_eq!(half[..], all[..(n / 2) as usize]);

    let (rest, total) = Categories::find_all_with_pagination(n / 2, n, &mut store).unwrap();
    assert_eq!(rest[..], all[(n / 2) as usize..]);
    assert_eq!(total, n);
}
