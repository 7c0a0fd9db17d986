//! Failures of the alert intake.
use vstd::prelude::*;
use vstd::string::*;
use vstd::std_specs::convert::FromSpecImpl;
use crate::db::errors::DbError;
use crate::events::SendError;

verus! {

/// Why a delivery of the webhook was refused or abandoned.
#[derive(Debug)]
pub enum AlertmanagerWebhookHandlerError {
    /// The event bus takes no more events.
    ChannelClosed,
    DatabaseError(DbError),
    NotFound,
    /// The delivery speaks another version of the protocol; that version.
    UnexpectedVersion(String),
}

impl From<DbError> for AlertmanagerWebhookHandlerError {
    fn from(error: DbError) -> (e: AlertmanagerWebhookHandlerError) {
        match error {
            DbError::NotFound => AlertmanagerWebhookHandlerError::NotFound,
            error => AlertmanagerWebhookHandlerError::DatabaseError(error),
        }
    }
}

impl FromSpecImpl<DbError> for AlertmanagerWebhookHandlerError {
    open spec fn obeys_from_spec() -> bool {
        true
    }

    open spec fn from_spec(error: DbError) -> AlertmanagerWebhookHandlerError {
        match error {
            DbError::NotFound => AlertmanagerWebhookHandlerError::NotFound,
            error => AlertmanagerWebhookHandlerError::DatabaseError(error),
        }
    }
}

impl From<SendError> for AlertmanagerWebhookHandlerError {
    fn from(error: SendError) -> (e: AlertmanagerWebhookHandlerError) {
        AlertmanagerWebhookHandlerError::ChannelClosed
    }
}

impl FromSpecImpl<SendError> for AlertmanagerWebhookHandlerError {
    open spec fn obeys_from_spec() -> bool {
        true
    }

    open spec fn from_spec(error: SendError) -> AlertmanagerWebhookHandlerError {
        AlertmanagerWebhookHandlerError::ChannelClosed
    }
}

impl AlertmanagerWebhookHandlerError {
    /// The HTTP status that answers a delivery which failed so.
    pub open spec fn spec_status_code(self) -> u16 {
        match self {
            AlertmanagerWebhookHandlerError::ChannelClosed => 500,
            AlertmanagerWebhookHandlerError::DatabaseError(_) => 502,
            AlertmanagerWebhookHandlerError::NotFound => 404,
            AlertmanagerWebhookHandlerError::UnexpectedVersion(_) => 400,
        }
    }

    /// The HTTP status that answers a delivery which failed so.
    pub fn status_code(&self) -> (code: u16)
        ensures
            code == self.spec_status_code(),
    {
        match self {
            AlertmanagerWebhookHandlerError::ChannelClosed => 500,
            AlertmanagerWebhookHandlerError::DatabaseError(_) => 502,
            AlertmanagerWebhookHandlerError::NotFound => 404,
            AlertmanagerWebhookHandlerError::UnexpectedVersion(_) => 400,
        }
    }

    /// The sentence that describes the failure.
    pub open spec fn spec_message(self) -> Seq<char> {
        match self {
            AlertmanagerWebhookHandlerError::ChannelClosed => "Cannot send message to channel"@,
            AlertmanagerWebhookHandlerError::DatabaseError(error) => "Database error: "@
                + error.spec_message(),
            AlertmanagerWebhookHandlerError::NotFound => "Entity not found"@,
            AlertmanagerWebhookHandlerError::UnexpectedVersion(_) => "Unexpected version"@,
        }
    }

    /// The sentence that describes the failure.
    pub fn message(&self) -> (text: String)
        ensures
            text@ == self.spec_message(),
    {
        match self {
            AlertmanagerWebhookHandlerError::ChannelClosed => "Cannot send message to channel".to_owned(),
            AlertmanagerWebhookHandlerError::DatabaseError(error) => {
                let mut text: String = "Database error: ".to_owned();
                let inner: String = error.message();
                text.append(inner.as_str());
                text
            },
            AlertmanagerWebhookHandlerError::NotFound => "Entity not found".to_owned(),
            AlertmanagerWebhookHandlerError::UnexpectedVersion(_) => "Unexpected version".to_owned(),
        }
    }
}

} // verus!
