//! Failures of the alert store.
use vstd::prelude::*;
use vstd::string::*;

verus! {

/// Why a store operation failed.
#[derive(Debug)]
pub enum DbError {
    /// No row matches.
    NotFound,
    UnknownError,
    /// The engine under the store refused the statement; its description.
    DatabaseError(String),
    /// A statement touched more rows than a unique key allows.
    InconsistentState,
    DuplicateRow,
    InvalidToken,
    InvalidArguments,
    ForeignKeyConstraintViolation,
}

impl DbError {
    /// The failure that stands for an error of the engine under the store:
    /// a missing row is `NotFound`, anything else is carried by description.
    pub fn from_engine(row_not_found: bool, description: String) -> (e: DbError)
        ensures
            row_not_found ==> e == DbError::NotFound,
            !row_not_found ==> e == DbError::DatabaseError(description),
    {
        if row_not_found {
            DbError::NotFound
        } else {
            DbError::DatabaseError(description)
        }
    }

    /// The sentence that describes the failure.
    pub open spec fn spec_message(self) -> Seq<char> {
        match self {
            DbError::NotFound => "entity not found"@,
            DbError::UnknownError => "unknown database error"@,
            DbError::DatabaseError(description) => "database error: "@ + description@,
            DbError::InconsistentState => "inconsistent state"@,
            DbError::DuplicateRow => "duplicate row error"@,
            DbError::InvalidToken => "invalid token"@,
            DbError::InvalidArguments => "invalid arguments"@,
            DbError::ForeignKeyConstraintViolation => "foreign key constraint violation"@,
        }
    }

    /// The sentence that describes the failure.
    pub fn message(&self) -> (text: String)
        ensures
            text@ == self.spec_message(),
    {
        match self {
            DbError::NotFound => "entity not found".to_owned(),
            DbError::UnknownError => "unknown database error".to_owned(),
            DbError::DatabaseError(description) => {
                let mut text: String = "database error: ".to_owned();
                text.append(description.as_str());
                text
            },
            DbError::InconsistentState => "inconsistent state".to_owned(),
            DbError::DuplicateRow => "duplicate row error".to_owned(),
            DbError::InvalidToken => "invalid token".to_owned(),
            DbError::InvalidArguments => "invalid arguments".to_owned(),
            DbError::ForeignKeyConstraintViolation => "foreign key constraint violation".to_owned(),
        }
    }

    /// The name of the failure's kind, in lower case with underscores.
    pub open spec fn spec_name(self) -> Seq<char> {
        match self {
            DbError::NotFound => "not_found"@,
            DbError::UnknownError => "unknown_error"@,
            DbError::DatabaseError(_) => "database_error"@,
            DbError::InconsistentState => "inconsistent_state"@,
            DbError::DuplicateRow => "duplicate_row"@,
            DbError::InvalidToken => "invalid_token"@,
            DbError::InvalidArguments => "invalid_arguments"@,
            DbError::ForeignKeyConstraintViolation => "foreign_key_constraint_violation"@,
        }
    }

    /// The name of the failure's kind, in lower case with underscores.
    pub fn name(&self) -> (text: &'static str)
        ensures
            text@ == self.spec_name(),
    {
        match self {
            DbError::NotFound => "not_found",
            DbError::UnknownError => "unknown_error",
            DbError::DatabaseError(_) => "database_error",
            DbError::InconsistentState => "inconsistent_state",
            DbError::DuplicateRow => "duplicate_row",
            DbError::InvalidToken => "invalid_token",
            DbError::InvalidArguments => "invalid_arguments",
            DbError::ForeignKeyConstraintViolation => "foreign_key_constraint_violation",
        }
    }
}

} // verus!
