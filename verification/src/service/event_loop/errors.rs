//! Failures of the orchestrator.
use vstd::prelude::*;
use vstd::string::*;
use vstd::std_specs::convert::FromSpecImpl;
use crate::db::errors::DbError;
use crate::events::SendError;
use crate::service::charts::errors::ChartServiceError;
use crate::service::slack::errors::SlackServiceError;

verus! {

/// Why an event was abandoned, or why the orchestrator stopped unasked.
#[derive(Debug)]
pub enum EventLoopError {
    /// The event bus is gone.
    ChannelClosed,
    ChartError(ChartServiceError),
    DatabaseError(DbError),
    NotFound,
    SlackError(SlackServiceError),
}

impl From<ChartServiceError> for EventLoopError {
    fn from(error: ChartServiceError) -> (e: EventLoopError) {
        EventLoopError::ChartError(error)
    }
}

impl FromSpecImpl<ChartServiceError> for EventLoopError {
    open spec fn obeys_from_spec() -> bool {
        true
    }

    open spec fn from_spec(error: ChartServiceError) -> EventLoopError {
        EventLoopError::ChartError(error)
    }
}

impl From<DbError> for EventLoopError {
    fn from(error: DbError) -> (e: EventLoopError) {
        match error {
            DbError::NotFound => EventLoopError::NotFound,
            error => EventLoopError::DatabaseError(error),
        }
    }
}

impl FromSpecImpl<DbError> for EventLoopError {
    open spec fn obeys_from_spec() -> bool {
        true
    }

    open spec fn from_spec(error: DbError) -> EventLoopError {
        match error {
            DbError::NotFound => EventLoopError::NotFound,
            error => EventLoopError::DatabaseError(error),
        }
    }
}

impl From<SendError> for EventLoopError {
    fn from(error: SendError) -> (e: EventLoopError) {
        EventLoopError::ChannelClosed
    }
}

impl FromSpecImpl<SendError> for EventLoopError {
    open spec fn obeys_from_spec() -> bool {
        true
    }

    open spec fn from_spec(error: SendError) -> EventLoopError {
        EventLoopError::ChannelClosed
    }
}

impl From<SlackServiceError> for EventLoopError {
    fn from(error: SlackServiceError) -> (e: EventLoopError) {
        EventLoopError::SlackError(error)
    }
}

impl FromSpecImpl<SlackServiceError> for EventLoopError {
    open spec fn obeys_from_spec() -> bool {
        true
    }

    open spec fn from_spec(error: SlackServiceError) -> EventLoopError {
        EventLoopError::SlackError(error)
    }
}

impl EventLoopError {
    /// The sentence that describes the failure.
    pub open spec fn spec_message(self) -> Seq<char> {
        match self {
            EventLoopError::ChannelClosed => "Channel unexpectedly closed"@,
            EventLoopError::ChartError(error) => "Chart error: "@ + error.spec_message(),
            EventLoopError::DatabaseError(error) => "Database error: "@ + error.spec_message(),
            EventLoopError::NotFound => "Entity not found"@,
            EventLoopError::SlackError(error) => "Slack error: "@ + error.spec_message(),
        }
    }

    /// The sentence that describes the failure.
    pub fn message(&self) -> (text: String)
        ensures
            text@ == self.spec_message(),
    {
        match self {
            EventLoopError::ChannelClosed => "Channel unexpectedly closed".to_owned(),
            EventLoopError::ChartError(error) => {
                let mut text: String = "Chart error: ".to_owned();
                let inner: String = error.message();
                text.append(inner.as_str());
                text
            },
            EventLoopError::DatabaseError(error) => {
                let mut text: String = "Database error: ".to_owned();
                let inner: String = error.message();
                text.append(inner.as_str());
                text
            },
            EventLoopError::NotFound => "Entity not found".to_owned(),
            EventLoopError::SlackError(error) => {
                let mut text: String = "Slack error: ".to_owned();
                let inner: String = error.message();
                text.append(inner.as_str());
                text
            },
        }
    }
}

} // verus!
