use rowstream::error::{
    get_fieldname_from_constraint_violation_message, BackendFailure, DataError, ErrorBody,
};

fn field(msg: &str) -> Option<String> {
    get_fieldname_from_constraint_violation_message(msg.to_string())
}

#[test]
fn fieldname_is_the_column_after_the_table() {
    assert_eq!(field("UNIQUE constraint failed: users.name"), Some("name".to_string()));
}

#[test]
fn fieldname_stops_at_the_next_dot() {
    assert_eq!(field("UNIQUE constraint failed: a.b.c"), Some("b".to_string()));
    assert_eq!(field("UNIQUE constraint failed: t.a, t.b"), Some("a, t".to_string()));
}

#[test]
fn fieldname_may_be_empty_after_a_trailing_dot() {
    assert_eq!(field("UNIQUE constraint failed: users."), Some("".to_string()));
    assert_eq!(field("UNIQUE constraint failed: ."), Some("".to_string()));
    assert_eq!(field("UNIQUE constraint failed: .."), Some("".to_string()));
}

#[test]
fn fieldname_is_unknown_without_a_dot() {
    assert_eq!(field("UNIQUE constraint failed: users"), None);
    assert_eq!(field("UNIQUE constraint failed: "), None);
}

#[test]
fn fieldname_is_unknown_without_the_prefix() {
    assert_eq!(field("NOT NULL constraint failed: users.name"), None);
    assert_eq!(field("unique constraint failed: users.name"), None);
    assert_eq!(field("UNIQUE constraint failed:users.name"), None);
    assert_eq!(field("UNIQUE constraint"), None);
    assert_eq!(field(""), None);
    assert_eq!(field("users.name"), None);
}

#[test]
fn fieldname_keeps_characters_beyond_ascii() {
    assert_eq!(field("UNIQUE constraint failed: bücher.größe"), Some("größe".to_string()));
}

#[test]
fn classify_decodes_a_recognized_uniqueness_message() {
    let e = DataError::classify(BackendFailure::Constraint(Some(
        "UNIQUE constraint failed: users.name".to_string(),
    )));
    assert_eq!(e, DataError::ConstraintViolation(Some("name".to_string())));
}

#[test]
fn classify_keeps_a_constraint_violation_whose_field_is_unknown() {
    let e = DataError::classify(BackendFailure::Constraint(Some(
        "NOT NULL constraint failed: users.name".to_string(),
    )));
    assert_eq!(e, DataError::ConstraintViolation(None));
    assert_eq!(
        DataError::classify(BackendFailure::Constraint(None)),
        DataError::ConstraintViolation(None)
    );
}

#[test]
fn classify_keeps_other_failures_opaque() {
    let e = DataError::classify(BackendFailure::Other("no such table: nope".to_string()));
    assert_eq!(e, DataError::Db("no such table: nope".to_string()));
    // The text of another failure is not searched for a column.
    let e = DataError::classify(BackendFailure::Other(
        "UNIQUE constraint failed: users.name".to_string(),
    ));
    assert_eq!(e, DataError::Db("UNIQUE constraint failed: users.name".to_string()));
}

#[test]
fn from_sqlite_reads_a_constraint_violation() {
    let e = rusqlite::Error::SqliteFailure(
        rusqlite::ffi::Error::new(2067),
        Some("UNIQUE constraint failed: users.email".to_string()),
    );
    assert_eq!(
        DataError::from_sqlite(e),
        DataError::ConstraintViolation(Some("email".to_string()))
    );
}

#[test]
fn from_sqlite_reads_a_constraint_violation_without_message() {
    let e = rusqlite::Error::SqliteFailure(rusqlite::ffi::Error::new(19), None);
    assert_eq!(DataError::from_sqlite(e), DataError::ConstraintViolation(None));
}

#[test]
fn from_sqlite_keeps_other_sqlite_failures_as_printed() {
    let e = rusqlite::Error::SqliteFailure(
        rusqlite::ffi::Error::new(1),
        Some("no such table: nope".to_string()),
    );
    assert_eq!(DataError::from_sqlite(e), DataError::Db("no such table: nope".to_string()));
}

#[test]
fn from_sqlite_keeps_errors_of_the_binding_as_printed() {
    let printed = rusqlite::Error::QueryReturnedNoRows.to_string();
    assert_eq!(
        DataError::from_sqlite(rusqlite::Error::QueryReturnedNoRows),
        DataError::Db(printed)
    );
    let printed = rusqlite::Error::InvalidColumnIndex(7).to_string();
    assert_eq!(
        DataError::from_sqlite(rusqlite::Error::InvalidColumnIndex(7)),
        DataError::Db(printed)
    );
}

#[test]
fn from_pool_reports_a_pool_failure() {
    let manager = r2d2_sqlite::SqliteConnectionManager::memory();
    let pool = r2d2::Pool::builder()
        .max_size(1)
        .connection_timeout(std::time::Duration::from_millis(50))
        .build(manager)
        .unwrap();
    let held = pool.get().unwrap();
    let failure = match pool.get() {
        Ok(_) => panic!("the pool has one connection only"),
        Err(e) => e,
    };
    let printed = failure.to_string();
    assert!(printed.starts_with("timed out waiting for connection"));
    assert_eq!(DataError::from_pool(failure), DataError::DbPool(printed));
    drop(held);
}

fn plain(error: &str) -> ErrorBody {
    ErrorBody { error: error.to_string(), field: None }
}

#[test]
fn body_of_backend_failures_is_their_text() {
    assert_eq!(DataError::Db("disk I/O error".to_string()).body(), plain("disk I/O error"));
    assert_eq!(
        DataError::DbPool("timed out waiting for connection".to_string()).body(),
        plain("timed out waiting for connection")
    );
}

#[test]
fn body_of_a_constraint_violation_carries_the_field() {
    assert_eq!(
        DataError::ConstraintViolation(Some("name".to_string())).body(),
        ErrorBody { error: "Constraint violation".to_string(), field: Some("name".to_string()) }
    );
    assert_eq!(DataError::ConstraintViolation(None).body(), plain("Constraint violation"));
}

#[test]
fn body_names_the_table_or_the_field() {
    assert_eq!(
        DataError::TableNotFound("users".to_string()).body(),
        plain("Table \"users\" not found")
    );
    assert_eq!(
        DataError::MissingValue("name".to_string()).body(),
        plain("Value for field \"name\" is missing")
    );
    assert_eq!(
        DataError::NoPrimaryKey("logs".to_string()).body(),
        plain("Table \"logs\" does not have a primary key column")
    );
    assert_eq!(
        DataError::CompositePrimaryKey("pairs".to_string()).body(),
        plain("Table \"pairs\" has composite primary key, which is not supported")
    );
}

#[test]
fn body_of_input_shape_failures() {
    assert_eq!(DataError::ExpectingObject.body(), plain("Input format should be a Json object"));
    assert_eq!(
        DataError::UnsupportedValue.body(),
        plain("Structured values cannot be stored in a column")
    );
}

#[test]
fn caller_faults_are_all_but_backend_and_pool_failures() {
    assert!(!DataError::Db("x".to_string()).is_caller_fault());
    assert!(!DataError::DbPool("x".to_string()).is_caller_fault());
    assert!(DataError::ConstraintViolation(None).is_caller_fault());
    assert!(DataError::ConstraintViolation(Some("a".to_string())).is_caller_fault());
    assert!(DataError::TableNotFound("t".to_string()).is_caller_fault());
    assert!(DataError::NoPrimaryKey("t".to_string()).is_caller_fault());
    assert!(DataError::CompositePrimaryKey("t".to_string()).is_caller_fault());
    assert!(DataError::MissingValue("f".to_string()).is_caller_fault());
    assert!(DataError::ExpectingObject.is_caller_fault());
    assert!(DataError::UnsupportedValue.is_caller_fault());
}

#[test]
fn from_pool_keeps_what_the_pool_prints_after_its_description() {
    let manager = r2d2_sqlite::SqliteConnectionManager::file("/nonexistent-directory/db.sqlite");
    let pool = r2d2::Pool::builder()
        .max_size(1)
        .connection_timeout(std::time::Duration::from_millis(500))
        .build_unchecked(manager);
    let failure = match pool.get() {
        Ok(_) => panic!("the database cannot be opened"),
        Err(e) => e,
    };
    let printed = failure.to_string();
    assert!(printed.starts_with("timed out waiting for connection"));
    assert_eq!(DataError::from_pool(failure), DataError::DbPool(printed));
}
