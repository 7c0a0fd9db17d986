//! Failures of the metrics service.
use vstd::prelude::*;
use vstd::string::*;

verus! {

/// Why the metrics service gave no series.
#[derive(Debug)]
pub enum PrometheusServiceError {
    Config(String),
    Deserialization(String),
    Http(String),
    /// The objective's percentile is no number; the percentile.
    InvalidPercentile(String),
    /// The objective is of no kind that can be queried; its name.
    UnknownSlo(String),
}

impl Clone for PrometheusServiceError {
    fn clone(&self) -> (copy: PrometheusServiceError)
        ensures
            copy == *self,
    {
        match self {
            PrometheusServiceError::Config(detail) => PrometheusServiceError::Config(detail.clone()),
            PrometheusServiceError::Deserialization(detail) => PrometheusServiceError::Deserialization(
                detail.clone(),
            ),
            PrometheusServiceError::Http(detail) => PrometheusServiceError::Http(detail.clone()),
            PrometheusServiceError::InvalidPercentile(detail) => PrometheusServiceError::InvalidPercentile(
                detail.clone(),
            ),
            PrometheusServiceError::UnknownSlo(detail) => PrometheusServiceError::UnknownSlo(
                detail.clone(),
            ),
        }
    }
}

impl PrometheusServiceError {
    /// The failure that stands for a sample whose value is no number,
    /// carried by the parser's description.
    pub fn from_parse_float_error(description: &str) -> (e: PrometheusServiceError)
        ensures
            e matches PrometheusServiceError::Deserialization(text) && text@
                == "Could not parse number: "@ + description@,
    {
        let mut text: String = "Could not parse number: ".to_owned();
        text.append(description);
        PrometheusServiceError::Deserialization(text)
    }

    /// The sentence that describes the failure.
    pub open spec fn spec_message(self) -> Seq<char> {
        match self {
            PrometheusServiceError::Config(detail) => "Config error: "@ + detail@,
            PrometheusServiceError::Deserialization(detail) => "Deserialization error: "@
                + detail@,
            PrometheusServiceError::Http(detail) => "HTTP request error: "@ + detail@,
            PrometheusServiceError::InvalidPercentile(detail) => "Percentile error: "@ + detail@,
            PrometheusServiceError::UnknownSlo(detail) => "Unrecognized SLO: "@ + detail@,
        }
    }

    /// The sentence that describes the failure.
    pub fn message(&self) -> (text: String)
        ensures
            text@ == self.spec_message(),
    {
        let (mut text, detail): (String, &String) = match self {
            PrometheusServiceError::Config(detail) => ("Config error: ".to_owned(), detail),
            PrometheusServiceError::Deserialization(detail) => (
                "Deserialization error: ".to_owned(),
                detail,
            ),
            PrometheusServiceError::Http(detail) => ("HTTP request error: ".to_owned(), detail),
            PrometheusServiceError::InvalidPercentile(detail) => (
                "Percentile error: ".to_owned(),
                detail,
            ),
            PrometheusServiceError::UnknownSlo(detail) => ("Unrecognized SLO: ".to_owned(), detail),
        };
        text.append(detail.as_str());
        text
    }
}

} // verus!
