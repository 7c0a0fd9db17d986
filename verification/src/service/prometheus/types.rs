//! What the metrics service answers.
use vstd::prelude::*;
use vstd::string::*;
use crate::service::alertmanager::labels::Labels;

verus! {

/// What is known about a metric.
#[derive(Debug)]
pub struct Metadata {
    pub help: Option<String>,
}

/// The answer to a question about metrics: for each metric's name, what is
/// known about it.
#[derive(Debug)]
pub struct PrometheusMetadataResponse {
    pub data: Vec<(String, Vec<Metadata>)>,
}

/// The label under which the metrics service names a series.
pub open spec fn name_label() -> Seq<char> {
    "__name__"@
}

/// The name of the series with the labels `metric`: its `__name__` label,
/// or nothing where it has none.
pub open spec fn series_name(metric: Map<Seq<char>, Seq<char>>) -> Seq<char> {
    if metric.contains_key(name_label()) {
        metric[name_label()]
    } else {
        Seq::empty()
    }
}

/// Parts the labels of a series into its name and the labels that tell it
/// from others of that name.
pub fn split_series_name(metric: Labels) -> (series: (String, Labels))
    ensures
        series.0@ == series_name(metric@),
        series.1@ == metric@.remove(name_label()),
{
    let mut labels = metric;
    let name: String = match labels.remove("__name__") {
        Some(name) => name,
        None => String::new(),
    };
    (name, labels)
}

} // verus!
