use fake::Fake;
use personal_ledger::error::Column;
use personal_ledger::{Constraint, DatabaseError, DatabaseResult, StoreFault};

#[test]
fn test_database_result_type_alias() {
    // Test that DatabaseResult<T> is equivalent to Result<T, DatabaseError>
    let ok_result: DatabaseResult<i32> = Ok(42);
    assert_eq!(ok_result, Ok(42));

    let err_result: DatabaseResult<i32> = Err(DatabaseError::Validation("test".to_string()));
    assert!(err_result.is_err());
    assert!(matches!(err_result, Err(DatabaseError::Validation(_))));

    let cb_result: DatabaseResult<i32> =
        Err(DatabaseError::CategoryBuilder("test".to_string()));
    assert!(cb_result.is_err());
    assert!(matches!(cb_result, Err(DatabaseError::CategoryBuilder(_))));
}

#[test]
fn test_database_error_variants() {
    // Test Connection variant
    let conn_msg: String = fake::faker::lorem::en::Sentence(3..10).fake();
    let conn_err = DatabaseError::Connection(conn_msg);
    assert!(matches!(conn_err, DatabaseError::Connection(_)));

    // Test CategoryBuilder variant
    let cb_msg: String = fake::faker::lorem::en::Sentence(3..10).fake();
    let cb_err = DatabaseError::CategoryBuilder(cb_msg);
    assert!(matches!(cb_err, DatabaseError::CategoryBuilder(_)));

    // Test Sqlx variant (via From)
    let store_err = StoreFault::RowNotFound;
    let db_err: DatabaseError = store_err.into();
    assert!(matches!(db_err, DatabaseError::Sqlx(_)));

    // Test Migration variant
    let db_err = DatabaseError::Migration("while executing migrations".to_string());
    assert!(matches!(db_err, DatabaseError::Migration(_)));

    // Test Validation variant
    let val_msg: String = fake::faker::lorem::en::Sentence(3..10).fake();
    let val_err = DatabaseError::Validation(val_msg);
    assert!(matches!(val_err, DatabaseError::Validation(_)));

    // Test NotFound variant
    let not_found_msg: String = fake::faker::lorem::en::Sentence(3..10).fake();
    let not_found_err = DatabaseError::NotFound(not_found_msg);
    assert!(matches!(not_found_err, DatabaseError::NotFound(_)));

    // Test Other variant
    let other_msg: String = fake::faker::lorem::en::Sentence(3..10).fake();
    let other_err = DatabaseError::Generic(other_msg);
    assert!(matches!(other_err, DatabaseError::Generic(_)));
}

#[test]
fn test_database_error_display() {
    let conn_msg: String = fake::faker::lorem::en::Sentence(3..10).fake();
    let conn_err = DatabaseError::Connection(conn_msg.clone());
    assert_eq!(
        conn_err.to_string(),
        format!("Error connecting to the database: {}", conn_msg)
    );

    let cb_msg: String = fake::faker::lorem::en::Sentence(3..10).fake();
    let cb_err = DatabaseError::CategoryBuilder(cb_msg.clone());
    assert_eq!(
        cb_err.to_string(),
        format!("Error building category: {}", cb_msg)
    );

    let sqlx_err = DatabaseError::Sqlx(StoreFault::RowNotFound);
    assert!(sqlx_err.to_string().contains("Database error:"));

    let migrate_err = DatabaseError::Migration("while executing migrations".to_string());
    assert!(migrate_err.to_string().contains("Database migration error:"));

    let val_msg: String = fake::faker::lorem::en::Sentence(3..10).fake();
    let val_err = DatabaseError::Validation(val_msg.clone());
    assert_eq!(val_err.to_string(), format!("Validation: {}", val_msg));

    let not_found_msg: String = fake::faker::lorem::en::Sentence(3..10).fake();
    let not_found_err = DatabaseError::NotFound(not_found_msg.clone());
    assert_eq!(
        not_found_err.to_string(),
        format!("Not found: {}", not_found_msg)
    );

    let other_msg: String = fake::faker::lorem::en::Sentence(3..10).fake();
    let other_err = DatabaseError::Generic(other_msg.clone());
    assert_eq!(
        other_err.to_string(),
        format!("Other database error: {}", other_msg)
    );
}

#[test]
fn test_database_error_debug() {
    let msg: String = fake::faker::lorem::en::Sentence(3..10).fake();
    let err = DatabaseError::CategoryBuilder(msg.clone());
    let debug_str = format!("{:?}", err);
    assert!(debug_str.contains("CategoryBuilder"));
    assert!(debug_str.contains(&msg));
}

#[test]
fn test_database_error_from_conversions() {
    // Test From<StoreFault>
    let store_err = StoreFault::RowNotFound;
    let db_err: DatabaseError = store_err.into();
    assert!(matches!(db_err, DatabaseError::Sqlx(_)));
    assert_eq!(db_err, DatabaseError::Sqlx(StoreFault::RowNotFound));

    let db_err = DatabaseError::from(StoreFault::Engine("database is locked".to_string()));
    assert_eq!(
        db_err,
        DatabaseError::Sqlx(StoreFault::Engine("database is locked".to_string()))
    );
}

#[test]
fn test_database_error_partial_eq() {
    let msg1: String = fake::faker::lorem::en::Sentence(3..10).fake();
    let msg2: String = format!("{} and more", msg1);

    // Test equal Connection errors
    let err1 = DatabaseError::Connection(msg1.clone());
    let err2 = DatabaseError::Connection(msg1.clone());
    assert_eq!(err1, err2);

    // Test unequal Connection errors
    let err3 = DatabaseError::Connection(msg2.clone());
    assert_ne!(err1, err3);

    // Test equal CategoryBuilder errors
    let cb_err1 = DatabaseError::CategoryBuilder(msg1.clone());
    let cb_err2 = DatabaseError::CategoryBuilder(msg1.clone());
    assert_eq!(cb_err1, cb_err2);

    // Test unequal CategoryBuilder errors
    let cb_err3 = DatabaseError::CategoryBuilder(msg2.clone());
    assert_ne!(cb_err1, cb_err3);

    // Test different variants are not equal
    let val_err = DatabaseError::Validation(msg1.clone());
    assert_ne!(err1, val_err);

    // Test Sqlx errors (using same error)
    let sqlx_err1 = DatabaseError::Sqlx(StoreFault::RowNotFound);
    let sqlx_err2 = DatabaseError::Sqlx(StoreFault::RowNotFound);
    assert_eq!(sqlx_err1, sqlx_err2);
    assert_ne!(sqlx_err1, DatabaseError::Sqlx(StoreFault::Full));

    // Test Migration errors
    let migrate_err1 = DatabaseError::Migration("while executing migrations".to_string());
    let migrate_err2 = DatabaseError::Migration("while executing migrations".to_string());
    assert_eq!(migrate_err1, migrate_err2);
}

#[test]
fn test_database_error_std_error_trait() {
    let err = DatabaseError::CategoryBuilder("test message".to_string());
    assert_eq!(err.to_string(), "Error building category: test message");
}

#[test]
fn test_database_error_eq_trait() {
    let msg: String = fake::faker::lorem::en::Sentence(3..10).fake();
    let err1 = DatabaseError::CategoryBuilder(msg.clone());
    let err2 = DatabaseError::CategoryBuilder(msg.clone());
    assert_eq!(err1, err2);

    let err3 = DatabaseError::CategoryBuilder(format!("{} else", msg));
    assert_ne!(err1, err3);
}

#[test]
fn test_database_error_property_based_randomization() {
    // Ensure errors handle varied fake data
    for _ in 0..20 {
        let msg: String = fake::faker::lorem::en::Sentence(3..10).fake();
        let err = DatabaseError::CategoryBuilder(msg.clone());
        assert_eq!(err.to_string(), format!("Error building category: {}", msg));
        assert!(matches!(err, DatabaseError::CategoryBuilder(_)));
    }
}

#[test]
fn test_database_error_edge_cases() {
    // Test with empty string
    let empty_err = DatabaseError::NotFound("".to_string());
    assert_eq!(empty_err.to_string(), "Not found: ");

    // Test with very long string
    let long_msg = "a".repeat(1000);
    let long_err = DatabaseError::Connection(long_msg.clone());
    assert_eq!(
        long_err.to_string(),
        format!("Error connecting to the database: {}", long_msg)
    );

    // Test CategoryBuilder with empty string
    let cb_empty_err = DatabaseError::CategoryBuilder("".to_string());
    assert_eq!(cb_empty_err.to_string(), "Error building category: ");

    // Test CategoryBuilder with very long string
    let cb_long_err = DatabaseError::CategoryBuilder(long_msg.clone());
    assert_eq!(
        cb_long_err.to_string(),
        format!("Error building category: {}", long_msg)
    );
}

#[test]
fn store_faults_have_their_words() {
    let cases = vec![
        (
            StoreFault::RowNotFound,
            "no rows returned by a query that expected to return at least one row",
        ),
        (
            StoreFault::Unique(Constraint::Id),
            "UNIQUE constraint failed: categories.id",
        ),
        (
            StoreFault::Unique(Constraint::Code),
            "UNIQUE constraint failed: categories.code",
        ),
        (
            StoreFault::Unique(Constraint::UrlSlug),
            "UNIQUE constraint failed: categories.url_slug",
        ),
        (StoreFault::NoTransaction, "no transaction is open"),
        (StoreFault::TransactionOpen, "a transaction is already open"),
        (StoreFault::Full, "the table is full"),
        (
            StoreFault::Decode(Column::Id),
            "error occurred while decoding column id",
        ),
        (
            StoreFault::Decode(Column::CategoryType),
            "error occurred while decoding column category_type",
        ),
        (
            StoreFault::Decode(Column::UrlSlug),
            "error occurred while decoding column url_slug",
        ),
        (
            StoreFault::Decode(Column::Color),
            "error occurred while decoding column color",
        ),
        (StoreFault::Engine("disk I/O error".to_string()), "disk I/O error"),
    ];
    for (fault, words) in cases {
        assert_eq!(fault.to_string(), words);
        assert_eq!(fault.clone(), fault);
        assert_eq!(
            DatabaseError::Sqlx(fault).to_string(),
            format!("Database error: {}", words)
        );
    }
    assert_ne!(
        StoreFault::Engine("a".to_string()),
        StoreFault::Engine("b".to_string())
    );
    assert_ne!(StoreFault::RowNotFound, StoreFault::Full);
}
