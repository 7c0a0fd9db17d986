//! Failures of charting and of serving charts.
use vstd::prelude::*;
use vstd::string::*;
use vstd::std_specs::convert::FromSpecImpl;
use crate::db::errors::DbError;

verus! {

/// Why no chart came of an alert's series.
#[derive(Debug)]
pub enum ChartServiceError {
    /// The series gave no chart.
    Generation,
    /// The chart could not be drawn; the renderer's description.
    Render(String),
    /// The image could not be written; the description of the failure.
    Storage(String),
}

impl Clone for ChartServiceError {
    fn clone(&self) -> (copy: ChartServiceError)
        ensures
            copy == *self,
    {
        match self {
            ChartServiceError::Generation => ChartServiceError::Generation,
            ChartServiceError::Render(description) => ChartServiceError::Render(description.clone()),
            ChartServiceError::Storage(description) => ChartServiceError::Storage(
                description.clone(),
            ),
        }
    }
}

impl ChartServiceError {
    /// The failure that stands for an error of writing the image, carried
    /// by its description.
    pub fn from_io_error(description: String) -> (e: ChartServiceError)
        ensures
            e == ChartServiceError::Storage(description),
    {
        ChartServiceError::Storage(description)
    }

    /// The sentence that describes the failure.
    pub open spec fn spec_message(self) -> Seq<char> {
        match self {
            ChartServiceError::Generation => "Cannot generate chart"@,
            ChartServiceError::Render(description) => "Cannot render chart: "@ + description@,
            ChartServiceError::Storage(_) => "Cannot store chart found"@,
        }
    }

    /// The sentence that describes the failure.
    pub fn message(&self) -> (text: String)
        ensures
            text@ == self.spec_message(),
    {
        match self {
            ChartServiceError::Generation => "Cannot generate chart".to_owned(),
            ChartServiceError::Render(description) => {
                let mut text: String = "Cannot render chart: ".to_owned();
                text.append(description.as_str());
                text
            },
            ChartServiceError::Storage(_) => "Cannot store chart found".to_owned(),
        }
    }
}

/// Why a stored chart could not be served.
#[derive(Debug)]
pub enum ChartHandlerError {
    DatabaseError(DbError),
    /// The image could not be read; the description of the failure.
    FileError(String),
    /// There is no such alert, or it has no chart.
    NotFound,
}

impl From<DbError> for ChartHandlerError {
    fn from(error: DbError) -> (e: ChartHandlerError) {
        match error {
            DbError::NotFound => ChartHandlerError::NotFound,
            error => ChartHandlerError::DatabaseError(error),
        }
    }
}

impl FromSpecImpl<DbError> for ChartHandlerError {
    open spec fn obeys_from_spec() -> bool {
        true
    }

    open spec fn from_spec(error: DbError) -> ChartHandlerError {
        match error {
            DbError::NotFound => ChartHandlerError::NotFound,
            error => ChartHandlerError::DatabaseError(error),
        }
    }
}

impl ChartHandlerError {
    /// The failure that stands for an error of reading the image, carried
    /// by its description.
    pub fn from_io_error(description: String) -> (e: ChartHandlerError)
        ensures
            e == ChartHandlerError::FileError(description),
    {
        ChartHandlerError::FileError(description)
    }

    /// The HTTP status that answers a request which failed so.
    pub open spec fn spec_status_code(self) -> u16 {
        match self {
            ChartHandlerError::DatabaseError(_) => 502,
            ChartHandlerError::FileError(_) => 500,
            ChartHandlerError::NotFound => 404,
        }
    }

    /// The HTTP status that answers a request which failed so.
    pub fn status_code(&self) -> (code: u16)
        ensures
            code == self.spec_status_code(),
    {
        match self {
            ChartHandlerError::DatabaseError(_) => 502,
            ChartHandlerError::FileError(_) => 500,
            ChartHandlerError::NotFound => 404,
        }
    }

    /// The sentence that describes the failure.
    pub open spec fn spec_message(self) -> Seq<char> {
        match self {
            ChartHandlerError::DatabaseError(error) => "Database error: "@ + error.spec_message(),
            ChartHandlerError::FileError(description) => "Cannot read file: "@ + description@,
            ChartHandlerError::NotFound => "Entity not found"@,
        }
    }

    /// The sentence that describes the failure.
    pub fn message(&self) -> (text: String)
        ensures
            text@ == self.spec_message(),
    {
        match self {
            ChartHandlerError::DatabaseError(error) => {
                let mut text: String = "Database error: ".to_owned();
                let inner: String = error.message();
                text.append(inner.as_str());
                text
            },
            ChartHandlerError::FileError(description) => {
                let mut text: String = "Cannot read file: ".to_owned();
                text.append(description.as_str());
                text
            },
            ChartHandlerError::NotFound => "Entity not found".to_owned(),
        }
    }
}

} // verus!
