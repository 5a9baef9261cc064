use personal_ledger::rpc::{activation_reply, parse_category_id};
use personal_ledger::{
    activate_category, Categories, CategoryTypes, DatabaseError, HexColor, MemoryStore, RowID,
    StoreFault, Timestamp, UrlSlug, WireStatus,
};

fn inactive(n: u32) -> Categories {
    Categories {
        id: RowID::from_u128(0x0190_0000_0000_7000_8000_0000_0000_0000 + n as u128),
        code: format!("{:03}.{:03}.{:03}", n, n + 1, n + 2),
        name: format!("Wire {}", n),
        description: None,
        url_slug: UrlSlug::parse(&format!("wire-{}", n)),
        category_type: CategoryTypes::Expense,
        color: HexColor::parse("#FF5733"),
        icon: None,
        is_active: false,
        created_on: Timestamp::from_micros(10),
        updated_on: Timestamp::from_micros(10),
    }
}

fn store_with(rows: &[Categories]) -> MemoryStore {
    let mut store = MemoryStore::new(Timestamp::from_micros(500));
    for row in rows {
        row.insert(&mut store).unwrap();
    }
    store
}

#[test]
fn test_activate_inactive_category() {
    let category = inactive(1);
    let mut store = store_with(&[category.clone()]);

    let reply = activate_category(&category.id.to_string(), &mut store);
    let activated = reply.unwrap();
    assert_eq!(activated.id, category.id);
    assert!(activated.is_active);

    let stored = Categories::find_by_id(category.id, &mut store).unwrap().unwrap();
    assert!(stored.is_active);
}

#[test]
fn test_activate_already_active_category() {
    let mut category = inactive(2);
    category.is_active = true;
    let mut store = store_with(&[category.clone()]);

    let activated = activate_category(&category.id.to_string(), &mut store).unwrap();
    assert!(activated.is_active);
    assert_eq!(activated.name, category.name);
}

#[test]
fn test_activate_nonexistent_category() {
    let mut store = store_with(&[inactive(1)]);
    let missing = RowID::from_u128(0x42).to_string();
    let reply = activate_category(&missing, &mut store);
    assert_eq!(
        reply,
        Err(WireStatus::NotFound(
            "Category with ID '00000000-0000-0000-0000-000000000042' not found".to_string()
        ))
    );
}

#[test]
fn activate_with_a_malformed_id_is_an_invalid_argument() {
    let mut store = store_with(&[inactive(1)]);
    let reply = activate_category("invalid-uuid", &mut store);
    assert_eq!(
        reply,
        Err(WireStatus::InvalidArgument(
            "Invalid category ID format".to_string()
        ))
    );
    assert_eq!(
        parse_category_id(""),
        Err(WireStatus::InvalidArgument(
            "Invalid category ID format".to_string()
        ))
    );
    assert_eq!(
        parse_category_id("00000000-0000-0000-0000-000000000042"),
        Ok(RowID::from_u128(0x42))
    );
}

#[test]
fn test_activation_updates_timestamp() {
    let category = inactive(3);
    let mut store = store_with(&[category.clone()]);
    let activated = activate_category(&category.id.to_string(), &mut store).unwrap();
    assert!(activated.updated_on.micros > category.updated_on.micros);
    assert_eq!(activated.updated_on, Timestamp::from_micros(500));
    assert_eq!(activated.created_on, category.created_on);
}

#[test]
fn test_activate_with_randomised_fields() {
    for n in 1..20 {
        let mut category = inactive(n);
        category.description = if n % 2 == 0 { Some(format!("d{}", n)) } else { None };
        category.icon = if n % 3 == 0 { Some("i".to_string()) } else { None };
        let mut store = store_with(&[category.clone()]);
        let activated = activate_category(&category.id.to_string(), &mut store).unwrap();
        let mut expected = category.clone();
        expected.is_active = true;
        expected.updated_on = Timestamp::from_micros(500);
        assert_eq!(activated, expected);
    }
}

#[test]
fn any_other_error_of_the_store_is_internal_on_the_wire() {
    let faults = vec![
        DatabaseError::Sqlx(StoreFault::Engine("locked".to_string())),
        DatabaseError::Connection("down".to_string()),
        DatabaseError::Generic("odd".to_string()),
        DatabaseError::Validation("bad".to_string()),
    ];
    for fault in faults {
        assert_eq!(
            activation_reply("some-id", Err(fault)),
            Err(WireStatus::Internal("Failed to activate category".to_string()))
        );
    }
    assert_eq!(
        activation_reply("some-id", Err(DatabaseError::NotFound("whatever".to_string()))),
        Err(WireStatus::NotFound(
            "Category with ID 'some-id' not found".to_string()
        ))
    );
    assert_eq!(activation_reply("x", Ok(inactive(1))), Ok(inactive(1)));
}

#[test]
fn a_ping_is_answered_with_a_pong() {
    let service = personal_ledger::MyUtilitiesService::default();
    assert_eq!(service.ping(), "Pong...");
}
