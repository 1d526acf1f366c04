//! Errors of the storage layer.
use vstd::prelude::*;

verus! {

/// Why a database query failed.
#[derive(Debug, Clone, PartialEq, Eq)]
pub enum DatabaseError {
    /// No connection to the database.
    DatabaseConnectionError,
    /// The query found nothing.
    NotFound,
    /// A unique constraint of the database does not hold.
    UniqueViolation,
    /// Any other failure, with its description.
    Other(String),
}

/// Why the storage layer could not do what it was asked for.
#[derive(Debug, Clone, PartialEq, Eq)]
pub enum StorageError {
    /// A store could not be set up.
    InitializationError,
    /// No connection to the database.
    DatabaseConnectionError,
    /// There is no such value.
    ValueNotFound(String),
    /// The value exists already.
    DuplicateValue { entity: &'static str, key: Option<String> },
    /// The database failed in some other way.
    DatabaseError(DatabaseError),
    /// Any other failure, with its description.
    Other(String),
}

/// Why Redis could not do what it was asked for.
#[derive(Debug, Clone, PartialEq, Eq)]
pub enum RedisError {
    /// The members were not added to the set.
    SetAddMembersFailed,
    /// An entry could not be turned into text.
    JsonSerializationFailed,
    /// The entry was not appended to the stream.
    StreamAppendFailed,
    /// Any other failure, with its description.
    Other(String),
}

/// The storage error that stands for a database error.
///
/// A lost connection, a missing value and a duplicate have an error of their own; every other
/// database error is handed on as it is.
pub fn diesel_error_to_data_error(diesel_error: DatabaseError) -> (error: StorageError)
    ensures
        match diesel_error {
            DatabaseError::DatabaseConnectionError => error
                == StorageError::DatabaseConnectionError,
            DatabaseError::NotFound => error matches StorageError::ValueNotFound(message)
                && message@ == "Value not found"@,
            DatabaseError::UniqueViolation => error matches StorageError::DuplicateValue {
                entity,
                key,
            } && entity@ == "entity "@ && key == None::<String>,
            DatabaseError::Other(_) => error == StorageError::DatabaseError(diesel_error),
        },
{
    match diesel_error {
        DatabaseError::DatabaseConnectionError => StorageError::DatabaseConnectionError,
        DatabaseError::NotFound => StorageError::ValueNotFound("Value not found".to_string()),
        DatabaseError::UniqueViolation => StorageError::DuplicateValue {
            entity: "entity ",
            key: None,
        },
        _ => StorageError::DatabaseError(diesel_error),
    }
}

} // verus!
