//! The error taxonomy of the core.

use vstd::prelude::*;

verus! {

/// Failures of schema registration. They are meant to stop start-up.
#[derive(Clone, Copy, Debug, PartialEq, Eq, Structural)]
pub enum SchemaError {
    /// An entry with the same table name is already registered.
    DuplicateTable,
    /// A column's value kind has no wire encoding.
    UnsupportedType,
}

/// Failures of one insert or query. They go back to the calling handler.
#[derive(Clone, Copy, Debug, PartialEq, Eq, Structural)]
pub enum DatabaseError {
    /// No connection could be had, or the round trip on it failed.
    ConnectionError,
    /// Every slot of the pool is checked out.
    PoolExhausted,
    /// The store rejected the row.
    ConstraintViolation,
    /// A returned row does not have the shape the projection asked for.
    DecodeError,
    /// A column or record was used against a table it does not belong to.
    ColumnMismatch,
}

impl SchemaError {
    /// A short fixed description, safe to show to an operator.
    pub fn message(&self) -> (s: String)
        ensures
            s@ == (match *self {
                SchemaError::DuplicateTable => "table is already registered"@,
                SchemaError::UnsupportedType => "column type has no wire encoding"@,
            }),
    {
        match self {
            SchemaError::DuplicateTable => "table is already registered".to_string(),
            SchemaError::UnsupportedType => "column type has no wire encoding".to_string(),
        }
    }
}

impl DatabaseError {
    /// A short fixed description that never carries text from the store.
    pub fn message(&self) -> (s: String)
        ensures
            s@ == (match *self {
                DatabaseError::ConnectionError => "connection error"@,
                DatabaseError::PoolExhausted => "connection pool exhausted"@,
                DatabaseError::ConstraintViolation => "constraint violation"@,
                DatabaseError::DecodeError => "row could not be decoded"@,
                DatabaseError::ColumnMismatch => "column does not belong to table"@,
            }),
    {
        match self {
            DatabaseError::ConnectionError => "connection error".to_string(),
            DatabaseError::PoolExhausted => "connection pool exhausted".to_string(),
            DatabaseError::ConstraintViolation => "constraint violation".to_string(),
            DatabaseError::DecodeError => "row could not be decoded".to_string(),
            DatabaseError::ColumnMismatch => "column does not belong to table".to_string(),
        }
    }
}

} // verus!
