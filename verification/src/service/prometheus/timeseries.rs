//! The request for a range of samples.
use vstd::prelude::*;
use vstd::string::*;
use crate::calendar::{rfc3339_text, TimeRange};
use crate::service::alertmanager::labels::entries_view;
use crate::service::prometheus::errors::PrometheusServiceError;
use crate::service::prometheus::PrometheusServiceConfig;
use crate::text::{decimal_digits, push_decimal_digits};
use crate::urls::{append_segments, replace_query, with_query, with_segments};

verus! {

/// A query and the range of time it is asked over.
#[derive(Debug)]
pub struct TimeseriesQuery {
    pub query: String,
    pub time_range: TimeRange,
}

/// The unit of a step.
#[derive(Clone, Copy, Debug, PartialEq, Eq, Structural)]
pub enum StepUnit {
    Hours,
    Minutes,
    Seconds,
}

impl StepUnit {
    /// The letter that stands for the unit in a duration.
    pub open spec fn spec_to_str(self) -> Seq<char> {
        match self {
            StepUnit::Hours => "h"@,
            StepUnit::Minutes => "m"@,
            StepUnit::Seconds => "s"@,
        }
    }

    /// The letter that stands for the unit in a duration.
    pub fn to_str(self) -> (letter: &'static str)
        ensures
            letter@ == self.spec_to_str(),
    {
        match self {
            StepUnit::Hours => "h",
            StepUnit::Minutes => "m",
            StepUnit::Seconds => "s",
        }
    }
}

/// The time between two samples.
#[derive(Clone, Copy, Debug, PartialEq, Eq, Structural)]
pub struct StepSize {
    pub amount: u32,
    pub unit: StepUnit,
}

impl StepSize {
    /// The step as a duration of the query language: the amount, then the
    /// unit's letter.
    pub open spec fn spec_to_string(self) -> Seq<char> {
        decimal_digits(self.amount as nat) + self.unit.spec_to_str()
    }

    /// The step as a duration of the query language.
    pub fn to_string(&self) -> (text: String)
        ensures
            text@ == self.spec_to_string(),
    {
        let mut text: String = String::new();
        assert(text@ + decimal_digits(self.amount as nat) =~= decimal_digits(self.amount as nat));
        push_decimal_digits(&mut text, self.amount as u64);
        text.append(self.unit.to_str());
        text
    }
}

/// The pairs `pairs` as a form body: names and values percent-encoded,
/// `=` between name and value, `&` between pairs.
pub uninterp spec fn form_urlencoded_text(pairs: Seq<(Seq<char>, Seq<char>)>) -> Seq<char>;

/// Writes `pairs` as a form body with `form_urlencoded::Serializer`.
/// Trusted: the text is named, not described.
#[verifier::external_body]
fn serialize_form(pairs: &Vec<(String, String)>) -> (text: String)
    ensures
        text@ == form_urlencoded_text(entries_view(pairs@)),
{
    form_urlencoded::Serializer::new(String::new()).extend_pairs(pairs).finish()
}

/// What is sent to the metrics service to ask for a range of samples.
#[derive(Debug)]
pub struct QueryRangeRequest {
    /// Where the request goes, query included.
    pub url: String,
    /// The form that is posted.
    pub body: String,
    pub content_type: String,
    /// After how many seconds the request is given up.
    pub timeout_seconds: u64,
}

/// The form that asks for `query` over `time_range`, one sample every
/// `step`.
pub open spec fn range_form(query: Seq<char>, time_range: TimeRange, step: StepSize) -> Seq<char> {
    form_urlencoded_text(
        seq![
            ("query"@, query),
            ("start"@, rfc3339_text(time_range.from@)),
            ("end"@, rfc3339_text(time_range.to@)),
            ("step"@, step.spec_to_string()),
        ],
    )
}

/// The address that range queries go to: `api/v1/query_range` under the
/// base URL of the metrics service, with the form as its query.
pub open spec fn range_url(base_url: Seq<char>, form: Seq<char>) -> Option<Seq<char>> {
    match with_segments(base_url, seq!["api"@, "v1"@, "query_range"@]) {
        Some(url) => with_query(url, form),
        None => None,
    }
}

/// What [`query_series`] returns: the request, or a configuration error
/// where the base URL takes no path or the request has no address.
pub open spec fn range_request(
    query: Seq<char>,
    time_range: TimeRange,
    step: StepSize,
    base_url: Seq<char>,
    result: Result<QueryRangeRequest, PrometheusServiceError>,
) -> bool {
    match range_url(base_url, range_form(query, time_range, step)) {
        Some(url) => {
            &&& result matches Ok(request)
            &&& request.url@ == url
            &&& request.body@ == range_form(query, time_range, step)
            &&& request.content_type@ == "application/x-www-form-urlencoded"@
            &&& request.timeout_seconds == 15
        },
        None => {
            &&& result matches Err(PrometheusServiceError::Config(message))
            &&& message@ == "Cannot append to prometheus base URL: "@ + base_url
        },
    }
}

/// The request that asks the metrics service for the samples of `query`,
/// one every `step`.
pub fn query_series(query: TimeseriesQuery, config: &PrometheusServiceConfig, step: StepSize) -> (request:
    Result<QueryRangeRequest, PrometheusServiceError>)
    requires
        query.time_range.printable(),
    ensures
        range_request(query.query@, query.time_range, step, config.prometheus_url@, request),
{
    let mut pairs: Vec<(String, String)> = Vec::new();
    let start: String = query.time_range.from.to_rfc3339();
    let end: String = query.time_range.to.to_rfc3339();
    let ghost query_text = query.query@;
    pairs.push(("query".to_owned(), query.query));
    pairs.push(("start".to_owned(), start));
    pairs.push(("end".to_owned(), end));
    pairs.push(("step".to_owned(), step.to_string()));
    assert(entries_view(pairs@) =~= seq![
        ("query"@, query_text),
        ("start"@, rfc3339_text(query.time_range.from@)),
        ("end"@, rfc3339_text(query.time_range.to@)),
        ("step"@, step.spec_to_string()),
    ]);
    let query_string: String = serialize_form(&pairs);
    let mut segments: Vec<String> = Vec::new();
    segments.push("api".to_owned());
    segments.push("v1".to_owned());
    segments.push("query_range".to_owned());
    assert(crate::urls::segments_view(segments@) =~= seq!["api"@, "v1"@, "query_range"@]);
    let url: Option<String> = match append_segments(config.prometheus_url.as_str(), &segments) {
        Some(url) => replace_query(url.as_str(), query_string.as_str()),
        None => None,
    };
    match url {
        Some(url) => Ok(
            QueryRangeRequest {
                url,
                body: query_string,
                content_type: "application/x-www-form-urlencoded".to_owned(),
                timeout_seconds: 15,
            },
        ),
        None => {
            let mut message: String = "Cannot append to prometheus base URL: ".to_owned();
            message.append(config.prometheus_url.as_str());
            Err(PrometheusServiceError::Config(message))
        },
    }
}

} // verus!
