//! Failures of the chat service.
use vstd::prelude::*;
use vstd::string::*;

verus! {

/// Why a chat request failed or could not be made.
#[derive(Debug)]
pub enum SlackServiceError {
    /// The chat client or its transport failed; its description.
    Client(String),
    /// The alert was never posted, so there is no message to update.
    MissingTimestamp,
}

impl Clone for SlackServiceError {
    fn clone(&self) -> (copy: SlackServiceError)
        ensures
            copy == *self,
    {
        match self {
            SlackServiceError::Client(description) => SlackServiceError::Client(description.clone()),
            SlackServiceError::MissingTimestamp => SlackServiceError::MissingTimestamp,
        }
    }
}

impl SlackServiceError {
    /// The failure that stands for an error of the chat client, carried by
    /// its description.
    pub fn from_client_error(description: String) -> (e: SlackServiceError)
        ensures
            e == SlackServiceError::Client(description),
    {
        SlackServiceError::Client(description)
    }

    /// The sentence that describes the failure.
    pub open spec fn spec_message(self) -> Seq<char> {
        match self {
            SlackServiceError::Client(description) => "Config error: "@ + description@,
            SlackServiceError::MissingTimestamp => "Cannot update message without timestamp"@,
        }
    }

    /// The sentence that describes the failure.
    pub fn message(&self) -> (text: String)
        ensures
            text@ == self.spec_message(),
    {
        match self {
            SlackServiceError::Client(description) => {
                let mut text: String = "Config error: ".to_owned();
                text.append(description.as_str());
                text
            },
            SlackServiceError::MissingTimestamp => "Cannot update message without timestamp".to_owned(),
        }
    }
}

} // verus!
