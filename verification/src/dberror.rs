//! The closed error taxonomy of the storage layer.

use vstd::prelude::*;

verus! {

/// Why a store operation failed: the row is missing, the underlying storage
/// reported an error, credential hashing failed, or a uniqueness constraint
/// was violated.
#[derive(Debug, Clone, PartialEq, Eq)]
pub enum DbError {
    NotFound,
    DatabaseError(String),
    HashingError(String),
    Conflict,
}

impl DbError {
    /// The human-readable description of the error.
    pub open spec fn spec_message(self) -> Seq<char> {
        match self {
            DbError::NotFound => "Not found"@,
            DbError::DatabaseError(e) => "Database error: "@ + e@,
            DbError::HashingError(e) => "Hashing error: "@ + e@,
            DbError::Conflict => "Conflict"@,
        }
    }

    pub fn message(&self) -> (r: String)
        ensures
            r@ == self.spec_message(),
    {
        match self {
            DbError::NotFound => "Not found".to_owned(),
            DbError::DatabaseError(e) => String::from_str("Database error: ").concat(e.as_str()),
            DbError::HashingError(e) => String::from_str("Hashing error: ").concat(e.as_str()),
            DbError::Conflict => "Conflict".to_owned(),
        }
    }
}

} // verus!
