//! Alerts as the monitoring webhook delivers them, and the text that
//! describes one.
pub mod errors;
pub mod guarantees;
pub mod handlers;
pub mod labels;

pub use errors::AlertmanagerWebhookHandlerError;

use vstd::prelude::*;
use vstd::string::*;
use crate::db::models::Timestamp;
use crate::service::alertmanager::labels::Labels;
use crate::text::text_eq;

verus! {

/// Whether an alert condition holds or has ended.
#[derive(Clone, Copy, Debug, PartialEq, Eq, Structural)]
pub enum AlertStatus {
    Firing,
    Resolved,
}

impl Default for AlertStatus {
    fn default() -> (status: AlertStatus)
        ensures
            status == AlertStatus::Firing,
    {
        AlertStatus::Firing
    }
}

impl AlertStatus {
    pub open spec fn spec_is_resolved(&self) -> bool {
        *self == AlertStatus::Resolved
    }

    #[verifier::when_used_as_spec(spec_is_resolved)]
    pub fn is_resolved(&self) -> (resolved: bool)
        ensures
            resolved == (*self == AlertStatus::Resolved),
    {
        matches!(self, AlertStatus::Resolved)
    }
}

/// One alert of a delivery.
#[derive(Debug)]
pub struct AlertmanagerAlert {
    /// Identifies the alert over its deliveries.
    pub fingerprint: String,
    /// Identifies the entity that caused the alert.
    pub generator_url: String,
    pub annotations: Labels,
    pub labels: Labels,
    pub status: AlertStatus,
    pub starts_at: Timestamp,
    pub ends_at: Timestamp,
}

/// What the intake reads of an [`AlertmanagerAlert`].
pub struct InboundAlert {
    pub fingerprint: Seq<char>,
    pub annotations: Map<Seq<char>, Seq<char>>,
    pub labels: Map<Seq<char>, Seq<char>>,
    pub resolved: bool,
}

impl View for AlertmanagerAlert {
    type V = InboundAlert;

    open spec fn view(&self) -> InboundAlert {
        InboundAlert {
            fingerprint: self.fingerprint@,
            annotations: self.annotations@,
            labels: self.labels@,
            resolved: self.status == AlertStatus::Resolved,
        }
    }
}

/// The alerts of a batch as the intake reads them.
pub open spec fn inbound_alerts(alerts: Seq<AlertmanagerAlert>) -> Seq<InboundAlert> {
    Seq::new(alerts.len(), |i: int| alerts[i]@)
}

/// One delivery of the webhook: a batch of alerts and what they share.
#[derive(Debug)]
pub struct AlertmanagerWebhookPayload {
    pub alerts: Vec<AlertmanagerAlert>,
    pub common_annotations: Labels,
    pub common_labels: Labels,
    /// Backlink to the sender.
    pub external_url: String,
    /// Key identifying the group of alerts.
    pub group_key: String,
    pub group_labels: Labels,
    pub receiver: String,
    pub status: AlertStatus,
    /// How many alerts the sender left out of the batch.
    pub truncated_alerts: u32,
    /// Version of the webhook protocol.
    pub version: String,
}

impl Default for AlertmanagerWebhookPayload {
    fn default() -> (payload: AlertmanagerWebhookPayload)
        ensures
            payload.alerts@.len() == 0,
            payload.common_annotations@ == Map::<Seq<char>, Seq<char>>::empty(),
            payload.common_labels@ == Map::<Seq<char>, Seq<char>>::empty(),
            payload.group_labels@ == Map::<Seq<char>, Seq<char>>::empty(),
            payload.external_url@.len() == 0,
            payload.group_key@.len() == 0,
            payload.receiver@.len() == 0,
            payload.version@.len() == 0,
            payload.status == AlertStatus::Firing,
            payload.truncated_alerts == 0,
    {
        AlertmanagerWebhookPayload {
            alerts: Vec::new(),
            common_annotations: Labels::new(),
            common_labels: Labels::new(),
            external_url: String::new(),
            group_key: String::new(),
            group_labels: Labels::new(),
            receiver: String::new(),
            status: AlertStatus::Firing,
            truncated_alerts: 0,
            version: String::new(),
        }
    }
}

/// The value of a label: that of the alert, else that of the batch.
pub open spec fn label_of(labels: Map<Seq<char>, Seq<char>>, common: Map<Seq<char>, Seq<char>>, key: Seq<char>) -> Option<Seq<char>> {
    if labels.contains_key(key) {
        Some(labels[key])
    } else if common.contains_key(key) {
        Some(common[key])
    } else {
        None
    }
}

/// What an alert is called before its service and environment are named.
pub open spec fn alert_headline(labels: Map<Seq<char>, Seq<char>>, common: Map<Seq<char>, Seq<char>>) -> Seq<char> {
    if label_of(labels, common, "alertname"@) == Some("InstanceDown"@) {
        let instance = match label_of(labels, common, "kubernetes_pod_name"@) {
            Some(pod) => pod,
            None => match label_of(labels, common, "instance"@) {
                Some(instance) => instance,
                None => "unknown"@,
            },
        };
        "Instance \""@ + instance + "\" down"@
    } else if label_of(labels, common, "category"@) == Some("success-rate"@) {
        "High Error Rate"@
    } else if label_of(labels, common, "category"@) == Some("latency"@) {
        "High Latency"@
    } else {
        match label_of(labels, common, "sloth_slo"@) {
            Some(slo) => "SLO \""@ + slo + "\" in danger"@,
            None => "Alert"@,
        }
    }
}

/// ` for "<service>"`, where the alert names a service.
pub open spec fn service_suffix(labels: Map<Seq<char>, Seq<char>>, common: Map<Seq<char>, Seq<char>>) -> Seq<char> {
    match label_of(labels, common, "sloth_service"@) {
        Some(service) => " for \""@ + service + "\""@,
        None => Seq::empty(),
    }
}

/// ` [environment=<environment>]`, where the alert names an environment.
pub open spec fn environment_suffix(labels: Map<Seq<char>, Seq<char>>, common: Map<Seq<char>, Seq<char>>) -> Seq<char> {
    match label_of(labels, common, "environment"@) {
        Some(environment) => " [environment="@ + environment + "]"@,
        None => Seq::empty(),
    }
}

/// The text of an alert: its `summary` annotation as it stands, else its
/// headline followed by its service and its environment.
pub open spec fn alert_text(
    annotations: Map<Seq<char>, Seq<char>>,
    labels: Map<Seq<char>, Seq<char>>,
    common: Map<Seq<char>, Seq<char>>,
) -> Seq<char> {
    if annotations.contains_key("summary"@) {
        annotations["summary"@]
    } else {
        alert_headline(labels, common) + service_suffix(labels, common) + environment_suffix(
            labels,
            common,
        )
    }
}

/// The value of the label `key` of `alert`, looked up in the alert's own
/// labels first and in the labels common to the batch second.
pub fn get_label<'a>(alert: &'a AlertmanagerAlert, payload: &'a AlertmanagerWebhookPayload, key: &str) -> (value:
    Option<&'a str>)
    ensures
        value is Some <==> label_of(alert.labels@, payload.common_labels@, key@) is Some,
        value matches Some(v) ==> Some(v@) == label_of(
            alert.labels@,
            payload.common_labels@,
            key@,
        ),
{
    match alert.labels.get(key) {
        Some(v) => Some(v),
        None => payload.common_labels.get(key),
    }
}

fn label_is(alert: &AlertmanagerAlert, payload: &AlertmanagerWebhookPayload, key: &str, wanted: &str) -> (same:
    bool)
    ensures
        same == (label_of(alert.labels@, payload.common_labels@, key@) == Some(wanted@)),
{
    match get_label(alert, payload, key) {
        Some(v) => text_eq(v, wanted),
        None => false,
    }
}

fn alert_headline_text(alert: &AlertmanagerAlert, payload: &AlertmanagerWebhookPayload) -> (text: String)
    ensures
        text@ == alert_headline(alert.labels@, payload.common_labels@),
{
    if label_is(alert, payload, "alertname", "InstanceDown") {
        let instance: &str = match get_label(alert, payload, "kubernetes_pod_name") {
            Some(pod) => pod,
            None => match get_label(alert, payload, "instance") {
                Some(instance) => instance,
                None => "unknown",
            },
        };
        let mut text: String = "Instance \"".to_owned();
        text.append(instance);
        text.append("\" down");
        text
    } else if label_is(alert, payload, "category", "success-rate") {
        "High Error Rate".to_owned()
    } else if label_is(alert, payload, "category", "latency") {
        "High Latency".to_owned()
    } else {
        match get_label(alert, payload, "sloth_slo") {
            Some(slo) => {
                let mut text: String = "SLO \"".to_owned();
                text.append(slo);
                text.append("\" in danger");
                text
            },
            None => "Alert".to_owned(),
        }
    }
}

/// The text that describes `alert`.
pub fn create_alert_text(alert: &AlertmanagerAlert, payload: &AlertmanagerWebhookPayload) -> (text: String)
    ensures
        text@ == alert_text(alert.annotations@, alert.labels@, payload.common_labels@),
{
    if let Some(summary) = alert.annotations.get("summary") {
        return summary.to_owned();
    }
    let mut text: String = alert_headline_text(alert, payload);
    let ghost headline = text@;
    if let Some(service) = get_label(alert, payload, "sloth_service") {
        text.append(" for \"");
        text.append(service);
        text.append("\"");
        assert(text@ =~= headline + (" for \""@ + service@ + "\""@));
    } else {
        assert(text@ =~= headline + Seq::<char>::empty());
    }
    let ghost with_service = text@;
    if let Some(environment) = get_label(alert, payload, "environment") {
        text.append(" [environment=");
        text.append(environment);
        text.append("]");
        assert(text@ =~= with_service + (" [environment="@ + environment@ + "]"@));
    } else {
        assert(text@ =~= with_service + Seq::<char>::empty());
    }
    text
}

} // verus!
