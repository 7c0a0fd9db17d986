//! The services of the orchestrator.
pub mod alertmanager;
pub mod charts;
pub mod event_loop;
pub mod prometheus;
pub mod slack;

pub use charts::{ChartServiceConfig, ChartServiceError};
pub use prometheus::{PrometheusServiceConfig, PrometheusServiceError};
pub use slack::{SlackServiceConfig, SlackServiceError};

use vstd::prelude::*;
use crate::db::store::{Db, StoreView};
use crate::events::{BusView, EventBus};
use crate::service::charts::ChartService;
use crate::service::prometheus::PrometheusService;
use crate::service::slack::SlackService;

verus! {

/// The abstract value of a [`Service`].
pub struct ServiceView {
    pub store: StoreView,
    pub bus: BusView,
    pub shutdown: bool,
}

/// What the intake and the orchestrator share: the store, the sending end
/// of the event bus, the shutdown flag, and the services that say how the
/// metrics, chart and chat services are to be asked.
pub struct Service {
    pub charts: ChartService,
    pub db: Db,
    pub event_sender: EventBus,
    pub prometheus: PrometheusService,
    pub shutdown: bool,
    pub slack: SlackService,
}

impl View for Service {
    type V = ServiceView;

    open spec fn view(&self) -> ServiceView {
        ServiceView { store: self.db@, bus: self.event_sender@, shutdown: self.shutdown }
    }
}

impl Service {
    /// Whether this service asks the metrics, chart and chat services as
    /// `other` does: the three are the same in both.
    pub open spec fn same_services(&self, other: &Service) -> bool {
        &&& self.charts == other.charts
        &&& self.prometheus == other.prometheus
        &&& self.slack == other.slack
    }

    /// A service over `db` that sends its events to `event_sender`; it has
    /// not been shut down. The chat service links to the metrics service of
    /// `prometheus_config`.
    pub fn new(
        service_base_url: String,
        chart_config: ChartServiceConfig,
        db: Db,
        event_sender: EventBus,
        explorer_base_url: Option<String>,
        prometheus_config: PrometheusServiceConfig,
        slack_config: SlackServiceConfig,
    ) -> (service: Service)
        ensures
            service@ == (ServiceView { store: db@, bus: event_sender@, shutdown: false }),
            service.charts.config == chart_config,
            service.prometheus.config == prometheus_config,
            service.slack.service_base_url == service_base_url,
            service.slack.channel == slack_config.channel,
            service.slack.prometheus_url == prometheus_config.prometheus_url,
            service.slack.explorer_base_url == explorer_base_url,
    {
        let prometheus_url: String = prometheus_config.prometheus_url.clone();
        Service {
            charts: ChartService::new(chart_config),
            db,
            event_sender,
            prometheus: PrometheusService::new(prometheus_config),
            shutdown: false,
            slack: SlackService::new(
                service_base_url,
                slack_config,
                prometheus_url,
                explorer_base_url,
            ),
        }
    }
}

} // verus!
