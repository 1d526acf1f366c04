use storage_impl::errors::{diesel_error_to_data_error, DatabaseError, StorageError};

#[test]
fn a_lost_connection_keeps_its_name() {
    assert_eq!(
        diesel_error_to_data_error(DatabaseError::DatabaseConnectionError),
        StorageError::DatabaseConnectionError
    );
}

#[test]
fn a_missing_value_is_reported_as_such() {
    assert_eq!(
        diesel_error_to_data_error(DatabaseError::NotFound),
        StorageError::ValueNotFound("Value not found".to_string())
    );
}

#[test]
fn a_unique_violation_is_a_duplicate_without_a_key() {
    assert_eq!(
        diesel_error_to_data_error(DatabaseError::UniqueViolation),
        StorageError::DuplicateValue {
            entity: "entity ",
            key: None
        }
    );
}

#[test]
fn any_other_database_error_is_handed_on() {
    let error = DatabaseError::Other("no fields to update".to_string());
    assert_eq!(
        diesel_error_to_data_error(error.clone()),
        StorageError::DatabaseError(error)
    );
}
