//! The metrics service: which query charts an objective, and the request
//! that asks for its series.
pub mod errors;
pub mod timeseries;
pub mod types;

pub use errors::PrometheusServiceError;

use vstd::prelude::*;
use vstd::string::*;
use crate::calendar::TimeRange;
use crate::service::prometheus::timeseries::{query_series, QueryRangeRequest, StepSize, TimeseriesQuery, range_request};
use crate::text::{decimal, push_decimal, strip_prefix};

verus! {

/// Where the metrics service is reached.
#[derive(Debug)]
pub struct PrometheusServiceConfig {
    /// Base URL on which the metrics service can be reached.
    pub prometheus_url: String,
}

impl PrometheusServiceConfig {
    /// A configuration for trials: the metrics service of the local host.
    pub fn new_test_config() -> (config: PrometheusServiceConfig)
        ensures
            config.prometheus_url@ == "http://localhost:9090/prometheus"@,
    {
        PrometheusServiceConfig { prometheus_url: "http://localhost:9090/prometheus".to_owned() }
    }
}

/// The query that charts the success rate of an objective: the rate of
/// successful calls over the rate of all calls, by function.
pub open spec fn success_rate_query(
    objective_name: Seq<char>,
    percentile: Seq<char>,
    interval: Seq<char>,
) -> Seq<char> {
    "\n(\n    sum by(function, module, version, commit, service_name) (\n        rate(\n            {\n                __name__=~\"function_calls(_count)?(_total)?\",\n                result=\"ok\", \n                objective_name=\""@
        + objective_name
        + "\",\n                objective_percentile=\""@
        + percentile
        + "\"\n            }["@
        + interval
        + "]\n        )\n        * on (instance, job) group_left(version, commit) (\n            last_over_time(build_info["@
        + "5s"@
        + "])\n            or on (instance, job) up\n        )\n    )\n) / (\n    sum by(function, module, version, commit, service_name) (\n        rate(\n            {\n                __name__=~\"function_calls(_count)?(_total)?\",\n                objective_name=\""@
        + objective_name
        + "\",\n                objective_percentile=\""@
        + percentile
        + "\"\n\n            }["@
        + interval
        + "]\n        )\n        * on (instance, job) group_left(version, commit) (\n            last_over_time(build_info["@
        + "5s"@
        + "])\n            or on (instance, job) up\n        )\n    ) > 0\n)\n            "@
}

/// The query that charts the latency of an objective: the quantile
/// `promql_percentile` of the call durations, by function.
pub open spec fn latency_query(
    promql_percentile: Seq<char>,
    objective_name: Seq<char>,
    percentile: Seq<char>,
    interval: Seq<char>,
) -> Seq<char> {
    "\nlabel_replace(\n    histogram_quantile(\n        "@
        + promql_percentile
        + ",\n        sum by (le, function, module, commit, version, service_name) (\n        rate({\n            __name__=~\"function_calls_duration(_seconds)?_bucket\",\n            objective_name=\""@
        + objective_name
        + "\",\n            objective_percentile=\""@
        + percentile
        + "\",\n        }["@
        + interval
        + "])\n        # Attach the version and commit labels from the build_info metric\n        * on (instance, job) group_left(version, commit) (\n            last_over_time(build_info["@
        + "5s"@
        + "])\n            or on (instance, job) up\n        )\n        )\n    ),\n    # Add the percentile_latency label to the time series\n    \"percentile_latency\", \""@
        + percentile
        + "\", \"\", \"\"\n)\n        "@
}

/// The length of the range in whole seconds, as a duration of the query
/// language.
pub open spec fn prometheus_window(time_range: TimeRange) -> Seq<char> {
    decimal(time_range.to.spec_unix_timestamp() - time_range.from.spec_unix_timestamp()) + "s"@
}

/// What follows `prefix` in `slo`.
pub open spec fn after_prefix(slo: Seq<char>, prefix: Seq<char>) -> Seq<char> {
    slo.subrange(prefix.len() as int, slo.len() as int)
}

/// The percentile that a latency objective names, which is what follows
/// `latency-` in its name.
pub open spec fn spec_latency_percentile(slo: Seq<char>) -> Option<Seq<char>> {
    if !"success-rate-"@.is_prefix_of(slo) && "latency-"@.is_prefix_of(slo) {
        Some(after_prefix(slo, "latency-"@))
    } else {
        None
    }
}

/// The query for the objective `slo`, or why there is none.
pub enum SloQuery {
    Query(Seq<char>),
    InvalidPercentile(Seq<char>),
    UnknownSlo(Seq<char>),
}

/// Which query charts the objective `slo`. A success-rate objective is
/// charted whatever its percentile; a latency objective needs the quantile
/// that its percentile stands for; any other objective is unknown.
pub open spec fn slo_query(
    slo: Seq<char>,
    objective_name: Seq<char>,
    time_range: TimeRange,
    promql_percentile: Option<Seq<char>>,
) -> SloQuery {
    if "success-rate-"@.is_prefix_of(slo) {
        SloQuery::Query(
            success_rate_query(
                objective_name,
                after_prefix(slo, "success-rate-"@),
                prometheus_window(time_range),
            ),
        )
    } else if "latency-"@.is_prefix_of(slo) {
        match promql_percentile {
            Some(quantile) => SloQuery::Query(
                latency_query(
                    quantile,
                    objective_name,
                    after_prefix(slo, "latency-"@),
                    prometheus_window(time_range),
                ),
            ),
            None => SloQuery::InvalidPercentile(after_prefix(slo, "latency-"@)),
        }
    } else {
        SloQuery::UnknownSlo(slo)
    }
}

/// What [`query_for_slo`] returns for a query or the lack of one.
pub open spec fn query_result(found: SloQuery, result: Result<String, PrometheusServiceError>) -> bool {
    match found {
        SloQuery::Query(text) => result matches Ok(query) && query@ == text,
        SloQuery::InvalidPercentile(percentile) => result matches Err(
            PrometheusServiceError::InvalidPercentile(p),
        ) && p@ == percentile,
        SloQuery::UnknownSlo(slo) => result matches Err(PrometheusServiceError::UnknownSlo(s))
            && s@ == slo,
    }
}

/// The percentile that a latency objective names; `None` for an objective
/// of another kind.
pub fn latency_percentile(slo: &str) -> (percentile: Option<&str>)
    ensures
        match percentile {
            Some(p) => Some(p@),
            None => None,
        } == spec_latency_percentile(slo@),
{
    if strip_prefix(slo, "success-rate-").is_some() {
        None
    } else {
        strip_prefix(slo, "latency-")
    }
}

fn write_success_rate_query(objective_name: &str, percentile: &str, interval: &str) -> (text: String)
    ensures
        text@ == success_rate_query(objective_name@, percentile@, interval@),
{
    let mut text: String = "\n(\n    sum by(function, module, version, commit, service_name) (\n        rate(\n            {\n                __name__=~\"function_calls(_count)?(_total)?\",\n                result=\"ok\", \n                objective_name=\"".to_owned();
    text.append(objective_name);
    text.append("\",\n                objective_percentile=\"");
    text.append(percentile);
    text.append("\"\n            }[");
    text.append(interval);
    text.append("]\n        )\n        * on (instance, job) group_left(version, commit) (\n            last_over_time(build_info[");
    text.append("5s");
    text.append("])\n            or on (instance, job) up\n        )\n    )\n) / (\n    sum by(function, module, version, commit, service_name) (\n        rate(\n            {\n                __name__=~\"function_calls(_count)?(_total)?\",\n                objective_name=\"");
    text.append(objective_name);
    text.append("\",\n                objective_percentile=\"");
    text.append(percentile);
    text.append("\"\n\n            }[");
    text.append(interval);
    text.append("]\n        )\n        * on (instance, job) group_left(version, commit) (\n            last_over_time(build_info[");
    text.append("5s");
    text.append("])\n            or on (instance, job) up\n        )\n    ) > 0\n)\n            ");
    text
}

fn write_latency_query(promql_percentile: &str, objective_name: &str, percentile: &str, interval: &str) -> (text:
    String)
    ensures
        text@ == latency_query(promql_percentile@, objective_name@, percentile@, interval@),
{
    let mut text: String = "\nlabel_replace(\n    histogram_quantile(\n        ".to_owned();
    text.append(promql_percentile);
    text.append(",\n        sum by (le, function, module, commit, version, service_name) (\n        rate({\n            __name__=~\"function_calls_duration(_seconds)?_bucket\",\n            objective_name=\"");
    text.append(objective_name);
    text.append("\",\n            objective_percentile=\"");
    text.append(percentile);
    text.append("\",\n        }[");
    text.append(interval);
    text.append("])\n        # Attach the version and commit labels from the build_info metric\n        * on (instance, job) group_left(version, commit) (\n            last_over_time(build_info[");
    text.append("5s");
    text.append("])\n            or on (instance, job) up\n        )\n        )\n    ),\n    # Add the percentile_latency label to the time series\n    \"percentile_latency\", \"");
    text.append(percentile);
    text.append("\", \"\", \"\"\n)\n        ");
    text
}

/// The length of the range in whole seconds, as a duration of the query
/// language.
pub fn get_prometheus_window_from_time_range(time_range: &TimeRange) -> (window: String)
    requires
        time_range.measurable(),
    ensures
        window@ == prometheus_window(*time_range),
{
    let from: i64 = time_range.from.unix_timestamp();
    let to: i64 = time_range.to.unix_timestamp();
    let mut window: String = String::new();
    assert(window@ + decimal(to - from) =~= decimal(to - from));
    push_decimal(&mut window, to - from);
    window.append("s");
    window
}

/// The query that charts the objective `slo` over `time_range`.
/// `promql_percentile` is the quantile that the percentile of a latency
/// objective stands for, written as a decimal fraction, or `None` where
/// that percentile is no number; it is read for latency objectives only.
pub fn query_for_slo(
    slo: &str,
    objective_name: &str,
    time_range: &TimeRange,
    promql_percentile: Option<&str>,
) -> (query: Result<String, PrometheusServiceError>)
    requires
        time_range.measurable(),
    ensures
        query_result(
            slo_query(
                slo@,
                objective_name@,
                *time_range,
                match promql_percentile {
                    Some(q) => Some(q@),
                    None => None,
                },
            ),
            query,
        ),
{
    let interval: String = get_prometheus_window_from_time_range(time_range);
    if let Some(percentile) = strip_prefix(slo, "success-rate-") {
        Ok(write_success_rate_query(objective_name, percentile, interval.as_str()))
    } else if let Some(percentile) = strip_prefix(slo, "latency-") {
        match promql_percentile {
            Some(quantile) => Ok(
                write_latency_query(quantile, objective_name, percentile, interval.as_str()),
            ),
            None => Err(PrometheusServiceError::InvalidPercentile(percentile.to_owned())),
        }
    } else {
        Err(PrometheusServiceError::UnknownSlo(slo.to_owned()))
    }
}

/// A range between two instants of the years 0000 to 9999 can be counted
/// in whole seconds.
pub proof fn lemma_printable_is_measurable(time_range: TimeRange)
    requires
        time_range.printable(),
    ensures
        time_range.measurable(),
{
}

/// The metrics service.
#[derive(Debug)]
pub struct PrometheusService {
    pub config: PrometheusServiceConfig,
}

impl PrometheusService {
    pub fn new(config: PrometheusServiceConfig) -> (service: PrometheusService)
        ensures
            service.config == config,
    {
        PrometheusService { config }
    }

    /// The request that asks the metrics service for the series of the
    /// objective `slo` over `time_range`, one sample every `step`.
    /// `promql_percentile` is read as [`query_for_slo`] reads it.
    pub fn query_slo_timeseries(
        &self,
        slo: &str,
        objective_name: &str,
        time_range: TimeRange,
        promql_percentile: Option<&str>,
        step: StepSize,
    ) -> (request: Result<QueryRangeRequest, PrometheusServiceError>)
        requires
            time_range.printable(),
        ensures
            match slo_query(
                slo@,
                objective_name@,
                time_range,
                match promql_percentile {
                    Some(q) => Some(q@),
                    None => None,
                },
            ) {
                SloQuery::Query(text) => range_request(
                    text,
                    time_range,
                    step,
                    self.config.prometheus_url@,
                    request,
                ),
                SloQuery::InvalidPercentile(percentile) => request matches Err(
                    PrometheusServiceError::InvalidPercentile(p),
                ) && p@ == percentile,
                SloQuery::UnknownSlo(unknown) => request matches Err(
                    PrometheusServiceError::UnknownSlo(s),
                ) && s@ == unknown,
            },
    {
        proof {
            lemma_printable_is_measurable(time_range);
        }
        let query: String = match query_for_slo(slo, objective_name, &time_range, promql_percentile) {
            Ok(query) => query,
            Err(e) => {
                return Err(e);
            },
        };
        let timeseries_query = TimeseriesQuery { query, time_range };
        query_series(timeseries_query, &self.config, step)
    }
}

} // verus!
