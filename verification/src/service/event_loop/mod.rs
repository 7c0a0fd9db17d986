//! The orchestrator: the single consumer of the event bus. It handles one
//! event to the end before it takes the next, so that at most one piece of
//! work on an alert's chat message is under way at any time.
//!
//! The calls to the metrics, chart and chat services are made by whoever
//! drives the orchestrator; each handler takes what the service answered
//! and does the rest.
pub mod errors;
pub mod guarantees;

pub use errors::EventLoopError;

use vstd::prelude::*;
use vstd::string::*;
use crate::calendar::TimeRange;
use crate::db::models::{Alert, AlertView, Timestamp};
use crate::db::store::StoreView;
use crate::events::{events_view, BusView, Event, EventView};
use crate::service::charts::errors::ChartServiceError;
use crate::service::prometheus::errors::PrometheusServiceError;
use crate::service::slack::errors::SlackServiceError;
use crate::service::slack::PostedMessage;
use crate::service::{Service, ServiceView};

verus! {

/// How the handling of one event ended.
pub type EventResult = Result<(), EventLoopError>;

/// A service after an event, and how the handling ended.
pub struct Handled {
    pub service: ServiceView,
    pub result: EventResult,
}

/// The objective to chart for an alert and the time to chart it over: the
/// six hours up to the alert's creation.
#[derive(Debug)]
pub struct ChartRequest {
    pub slo: String,
    pub objective_name: String,
    pub time_range: TimeRange,
}

/// Whether a chart is asked for: the alert names an objective and the
/// objective's name.
pub open spec fn wants_chart(alert: AlertView) -> bool {
    alert.sloth_slo is Some && alert.objective_name is Some
}

/// What to chart for `alert`, if anything.
pub fn chart_request(alert: &Alert) -> (request: Option<ChartRequest>)
    requires
        wants_chart(alert@) ==> alert@.created_at - crate::calendar::SIX_HOURS_NANOS >= i128::MIN,
    ensures
        request is Some <==> wants_chart(alert@),
        request matches Some(r) ==> {
            &&& Some(r.slo@) == alert@.sloth_slo
            &&& Some(r.objective_name@) == alert@.objective_name
            &&& r.time_range.from@ == alert@.created_at - crate::calendar::SIX_HOURS_NANOS
            &&& r.time_range.to == alert.created_at
        },
{
    match (&alert.sloth_slo, &alert.objective_name) {
        (Some(slo), Some(objective_name)) => Some(
            ChartRequest {
                slo: slo.clone(),
                objective_name: objective_name.clone(),
                time_range: TimeRange {
                    from: alert.created_at.six_hours_earlier(),
                    to: alert.created_at,
                },
            },
        ),
        _ => None,
    }
}

/// What the orchestrator writes to an alert's row: the file of its chart,
/// or where its chat message is. Nothing else of a row is the
/// orchestrator's to change.
#[derive(Debug)]
pub enum RowChange {
    ChartFile(String),
    ChatMessage(PostedMessage),
}

/// The row `row` with `change` applied and nothing else touched.
pub open spec fn changed(row: AlertView, change: RowChange) -> AlertView {
    match change {
        RowChange::ChartFile(filename) => AlertView { chart_filename: Some(filename@), ..row },
        RowChange::ChatMessage(message) => AlertView {
            slack_channel: Some(message.channel@),
            slack_ts: Some(message.ts@),
            ..row
        },
    }
}

/// The row `row` after `change` was written to it at `now`.
pub open spec fn amended(row: AlertView, change: RowChange, now: int) -> AlertView {
    AlertView { updated_at: now, ..changed(row, change) }
}

/// The alert `alert` with `change` applied and nothing else touched.
pub fn apply_change(alert: Alert, change: RowChange) -> (after: Alert)
    ensures
        after@ == changed(alert@, change),
{
    let mut alert = alert;
    match change {
        RowChange::ChartFile(filename) => {
            alert.chart_filename = Some(filename);
        },
        RowChange::ChatMessage(message) => {
            alert.slack_channel = Some(message.channel);
            alert.slack_ts = Some(message.ts);
        },
    }
    alert
}

/// The service after `change` was written to the row `alert_id` in a
/// transaction of its own. The row is read in that transaction and keeps
/// everything but what `change` names and the time of its last update.
/// `NotFound`, and nothing changed, where the store has no such row.
pub open spec fn after_update(service: ServiceView, alert_id: int, change: RowChange, now: int) -> Handled {
    match service.store.by_id(alert_id) {
        Some(row) => Handled {
            service: ServiceView {
                store: service.store.with_row(alert_id, amended(row, change, now)),
                ..service
            },
            result: Ok(()),
        },
        None => Handled { service, result: Err(EventLoopError::NotFound) },
    }
}

/// The service after `event` was sent: `ChannelClosed`, and nothing
/// changed, where the bus is closed.
pub open spec fn after_send(service: ServiceView, event: EventView) -> Handled {
    if service.bus.closed {
        Handled { service, result: Err(EventLoopError::ChannelClosed) }
    } else {
        Handled {
            service: ServiceView {
                bus: BusView { pending: service.bus.pending.push(event), ..service.bus },
                ..service
            },
            result: Ok(()),
        }
    }
}

/// The alert `alert` with the file of its chart.
pub open spec fn with_chart(alert: AlertView, filename: Seq<char>) -> AlertView {
    AlertView { chart_filename: Some(filename), ..alert }
}

/// The service after the chart step for `alert`. Where a chart was asked
/// for and the series came, the chart's file is written to the alert's row,
/// which keeps everything else it holds, and a failure to chart or to write
/// the row abandons the event. In every other case the alert goes on
/// without a chart. The alert is then sent off to be posted, with the file
/// of its chart if it has one.
pub open spec fn after_create_chart(
    service: ServiceView,
    alert: AlertView,
    timeseries: Result<(), PrometheusServiceError>,
    chart: Result<String, ChartServiceError>,
    now: int,
) -> Handled {
    if wants_chart(alert) && timeseries is Ok {
        match chart {
            Ok(filename) => {
                let updated = after_update(service, alert.id, RowChange::ChartFile(filename), now);
                if updated.result is Ok {
                    after_send(
                        updated.service,
                        EventView::PostSlackAlert { alert: with_chart(alert, filename@) },
                    )
                } else {
                    updated
                }
            },
            Err(e) => Handled { service, result: Err(EventLoopError::ChartError(e)) },
        }
    } else {
        after_send(service, EventView::PostSlackAlert { alert })
    }
}

/// The service after the chat answered the post of `alert`: the message's
/// channel and timestamp are written to the alert's row together, and the
/// row keeps everything else it holds; or the chat's failure abandons the
/// event.
pub open spec fn after_post_slack_alert(
    service: ServiceView,
    alert: AlertView,
    posted: Result<PostedMessage, SlackServiceError>,
    now: int,
) -> Handled {
    match posted {
        Ok(message) => after_update(service, alert.id, RowChange::ChatMessage(message), now),
        Err(e) => Handled { service, result: Err(EventLoopError::SlackError(e)) },
    }
}

/// How the update of the chat message of the alert `alert_id` ends: the
/// store is read, never written. `NotFound` where there is no such alert,
/// `MissingTimestamp` where it was never posted, else what the chat
/// answered.
pub open spec fn update_slack_alert_result(
    store: StoreView,
    alert_id: int,
    updated: Result<(), SlackServiceError>,
) -> EventResult {
    match store.by_id(alert_id) {
        Some(row) => if row.slack_ts is Some {
            match updated {
                Ok(()) => Ok(()),
                Err(e) => Err(EventLoopError::SlackError(e)),
            }
        } else {
            Err(EventLoopError::SlackError(SlackServiceError::MissingTimestamp))
        },
        None => Err(EventLoopError::NotFound),
    }
}

/// What the chart step decided for an alert: the alert as it goes on to be
/// posted, and the file to write to its row first, if a chart was made.
#[derive(Debug)]
pub struct ChartStep {
    pub alert: Alert,
    pub chart_file: Option<String>,
}

/// Decides the chart step for `alert`, given what the metrics service
/// answered and what came of charting. Where a chart was asked for and the
/// series came, the alert goes on with the chart's file, which is to be
/// written to its row, or the failure to chart abandons the event. In every
/// other case the alert goes on as it is, whatever the metrics service
/// answered.
pub fn chart_step(
    alert: Alert,
    timeseries: &Result<(), PrometheusServiceError>,
    chart: Result<String, ChartServiceError>,
) -> (step: Result<ChartStep, EventLoopError>)
    ensures
        wants_chart(alert@) && timeseries is Ok ==> match chart {
            Ok(filename) => {
                &&& step matches Ok(decided)
                &&& decided.chart_file == Some(filename)
                &&& decided.alert@ == with_chart(alert@, filename@)
            },
            Err(e) => step == Err::<ChartStep, EventLoopError>(EventLoopError::ChartError(e)),
        },
        !(wants_chart(alert@) && timeseries is Ok) ==> {
            &&& step matches Ok(decided)
            &&& decided.chart_file is None
            &&& decided.alert == alert
        },
{
    let mut alert = alert;
    let wanted: bool = alert.sloth_slo.is_some() && alert.objective_name.is_some();
    if wanted && timeseries.is_ok() {
        match chart {
            Ok(filename) => {
                alert.chart_filename = Some(filename.clone());
                Ok(ChartStep { alert, chart_file: Some(filename) })
            },
            Err(e) => Err(EventLoopError::from(e)),
        }
    } else {
        Ok(ChartStep { alert, chart_file: None })
    }
}

/// Whether the chat message of `alert` can be updated: an alert without a
/// chat timestamp was never posted, which is `MissingTimestamp`.
pub fn require_posted(alert: &Alert) -> (posted: EventResult)
    ensures
        posted is Ok <==> alert.slack_ts is Some,
        posted is Err ==> posted == Err::<(), EventLoopError>(
            EventLoopError::SlackError(SlackServiceError::MissingTimestamp),
        ),
{
    if alert.slack_ts.is_some() {
        Ok(())
    } else {
        Err(EventLoopError::from(SlackServiceError::MissingTimestamp))
    }
}

/// Writing the row with a change applied is replacing it by the amended
/// row: a full-row update changes nothing that the change left alone.
pub proof fn lemma_update_amends(store: StoreView, alert_id: int, change: RowChange, now: int)
    requires
        store.has_id(alert_id),
    ensures
        store.with_updated(changed(store.by_id(alert_id)->0, change), now) == store.with_row(
            alert_id,
            amended(store.by_id(alert_id)->0, change, now),
        ),
{
    let row = store.by_id(alert_id)->0;
    assert(changed(row, change).id == alert_id);
    assert(row.updated_with(changed(row, change), now) == amended(row, change, now));
}

/// Writes `change` to the row `alert_id`, in a transaction of its own: the
/// row is read, changed and written back within it.
pub fn update_alert(service: &mut Service, alert_id: i64, change: RowChange, now: Timestamp) -> (result:
    EventResult)
    requires
        old(service)@.store.wf(),
    ensures
        final(service)@.store.wf(),
        final(service).same_services(old(service)),
        (Handled { service: final(service)@, result }) == after_update(
            old(service)@,
            alert_id as int,
            change,
            now@,
        ),
{
    let mut tx = match service.db.start_transaction() {
        Ok(tx) => tx,
        Err(e) => {
            return Err(EventLoopError::from(e));
        },
    };
    let row = match service.db.alert_get(&mut tx, alert_id) {
        Ok(row) => row,
        Err(e) => {
            return Err(EventLoopError::from(e));
        },
    };
    let after = apply_change(row, change);
    proof {
        lemma_update_amends(old(service)@.store, alert_id as int, change, now@);
        crate::db::store::lemma_updated_wf(old(service)@.store, after@, now@);
    }
    match service.db.alert_update(&mut tx, &after, now) {
        Ok(()) => {},
        Err(e) => {
            return Err(EventLoopError::from(e));
        },
    }
    match service.db.commit(tx) {
        Ok(()) => {},
        Err(e) => {
            return Err(EventLoopError::from(e));
        },
    }
    Ok(())
}

/// Handles `CreateChartAndPostToSlack`, given what the metrics service
/// answered to the query for the alert's series and what came of charting
/// them: the name of the chart's file, or the failure. Neither answer is
/// read where no chart was asked for, nor `chart` where the series did not
/// come.
pub fn handle_create_chart(
    service: &mut Service,
    alert: Alert,
    timeseries: Result<(), PrometheusServiceError>,
    chart: Result<String, ChartServiceError>,
    now: Timestamp,
) -> (result: EventResult)
    requires
        old(service)@.store.wf(),
    ensures
        final(service)@.store.wf(),
        final(service).same_services(old(service)),
        (Handled { service: final(service)@, result }) == after_create_chart(
            old(service)@,
            alert@,
            timeseries,
            chart,
            now@,
        ),
{
    let step = match chart_step(alert, &timeseries, chart) {
        Ok(step) => step,
        Err(e) => {
            return Err(e);
        },
    };
    if let Some(filename) = step.chart_file {
        match update_alert(service, step.alert.id, RowChange::ChartFile(filename), now) {
            Ok(()) => {},
            Err(e) => {
                return Err(e);
            },
        }
    }
    match service.event_sender.send(Event::PostSlackAlert { alert: step.alert }) {
        Ok(()) => Ok(()),
        Err(e) => Err(EventLoopError::from(e)),
    }
}

/// Handles `PostSlackAlert`, given what the chat answered to the post.
pub fn handle_post_slack_alert(
    service: &mut Service,
    alert: Alert,
    posted: Result<PostedMessage, SlackServiceError>,
    now: Timestamp,
) -> (result: EventResult)
    requires
        old(service)@.store.wf(),
    ensures
        final(service)@.store.wf(),
        final(service).same_services(old(service)),
        (Handled { service: final(service)@, result }) == after_post_slack_alert(
            old(service)@,
            alert@,
            posted,
            now@,
        ),
{
    match posted {
        Ok(message) => update_alert(service, alert.id, RowChange::ChatMessage(message), now),
        Err(e) => Err(EventLoopError::from(e)),
    }
}

/// Handles `UpdateSlackAlert`, given what the chat answered to the update.
/// The answer is read only where the alert has a chat timestamp; an alert
/// without one was never posted, which is reported as `MissingTimestamp`.
pub fn handle_update_slack_alert(
    service: &mut Service,
    alert_id: i64,
    updated: Result<(), SlackServiceError>,
) -> (result: EventResult)
    requires
        old(service)@.store.wf(),
    ensures
        final(service)@ == old(service)@,
        final(service).same_services(old(service)),
        result == update_slack_alert_result(old(service)@.store, alert_id as int, updated),
{
    let mut tx = match service.db.start_transaction() {
        Ok(tx) => tx,
        Err(e) => {
            return Err(EventLoopError::from(e));
        },
    };
    let alert = match service.db.alert_get(&mut tx, alert_id) {
        Ok(alert) => alert,
        Err(e) => {
            return Err(EventLoopError::from(e));
        },
    };
    match require_posted(&alert) {
        Ok(()) => {},
        Err(e) => {
            return Err(e);
        },
    }
    match updated {
        Ok(()) => {},
        Err(e) => {
            return Err(EventLoopError::from(e));
        },
    }
    match service.db.commit(tx) {
        Ok(()) => {},
        Err(e) => {
            return Err(EventLoopError::from(e));
        },
    }
    Ok(())
}

/// Handles `Shutdown`: raises the shutdown flag and touches nothing else.
pub fn handle_shutdown(service: &mut Service)
    ensures
        final(service)@ == (ServiceView { shutdown: true, ..old(service)@ }),
        final(service).same_services(old(service)),
{
    service.shutdown = true;
}

/// What the outside services answer while the orchestrator runs. Each
/// service answers every call alike.
#[derive(Debug)]
pub struct Replies {
    /// What the metrics service answers to a query for series.
    pub timeseries: Result<(), PrometheusServiceError>,
    /// What comes of charting series: the name of the chart's file.
    pub chart: Result<String, ChartServiceError>,
    /// What the chat answers to a post.
    pub posted: Result<PostedMessage, SlackServiceError>,
    /// What the chat answers to an update.
    pub updated: Result<(), SlackServiceError>,
}

impl Replies {
    fn timeseries_reply(&self) -> (reply: Result<(), PrometheusServiceError>)
        ensures
            reply == self.timeseries,
    {
        match &self.timeseries {
            Ok(unit) => Ok(*unit),
            Err(e) => Err(e.clone()),
        }
    }

    fn chart_reply(&self) -> (reply: Result<String, ChartServiceError>)
        ensures
            reply == self.chart,
    {
        match &self.chart {
            Ok(filename) => Ok(filename.clone()),
            Err(e) => Err(e.clone()),
        }
    }

    fn posted_reply(&self) -> (reply: Result<PostedMessage, SlackServiceError>)
        ensures
            reply == self.posted,
    {
        match &self.posted {
            Ok(message) => Ok(message.clone()),
            Err(e) => Err(e.clone()),
        }
    }

    fn updated_reply(&self) -> (reply: Result<(), SlackServiceError>)
        ensures
            reply == self.updated,
    {
        match &self.updated {
            Ok(unit) => Ok(*unit),
            Err(e) => Err(e.clone()),
        }
    }
}

/// The service after one event was handled.
pub open spec fn after_event(service: ServiceView, event: EventView, replies: Replies, now: int) -> Handled {
    match event {
        EventView::CreateChartAndPostToSlack { alert } => after_create_chart(
            service,
            alert,
            replies.timeseries,
            replies.chart,
            now,
        ),
        EventView::PostSlackAlert { alert } => after_post_slack_alert(
            service,
            alert,
            replies.posted,
            now,
        ),
        EventView::UpdateSlackAlert { alert_id } => Handled {
            service,
            result: update_slack_alert_result(service.store, alert_id, replies.updated),
        },
        EventView::Shutdown => Handled {
            service: ServiceView { shutdown: true, ..service },
            result: Ok(()),
        },
    }
}

/// The service once the oldest event is off the bus.
pub open spec fn received(service: ServiceView) -> ServiceView {
    ServiceView {
        bus: BusView { pending: service.bus.pending.drop_first(), ..service.bus },
        ..service
    }
}

/// The service once the receiving end of the bus is gone.
pub open spec fn stopped(service: ServiceView) -> ServiceView {
    ServiceView { bus: BusView { closed: true, ..service.bus }, ..service }
}

/// How much work an event stands for: charting is followed by posting.
pub open spec fn event_weight(event: EventView) -> nat {
    if event is CreateChartAndPostToSlack {
        2
    } else {
        1
    }
}

/// How much work waits on the bus.
pub open spec fn bus_weight(pending: Seq<EventView>) -> nat
    decreases pending.len(),
{
    if pending.len() == 0 {
        0
    } else {
        bus_weight(pending.drop_last()) + event_weight(pending.last())
    }
}

/// The work on the bus is that of its oldest event and that of the rest.
pub proof fn lemma_bus_weight_first(pending: Seq<EventView>)
    requires
        pending.len() > 0,
    ensures
        bus_weight(pending) == event_weight(pending[0]) + bus_weight(pending.drop_first()),
    decreases pending.len(),
{
    if pending.len() == 1 {
        assert(pending.drop_last() =~= Seq::<EventView>::empty());
        assert(pending.drop_first() =~= Seq::<EventView>::empty());
    } else {
        lemma_bus_weight_first(pending.drop_last());
        assert(pending.drop_last().drop_first() =~= pending.drop_first().drop_last());
        assert(pending.drop_first().last() == pending.last());
        assert(pending.drop_last()[0] == pending[0]);
    }
}

/// Handling an event adds less work to the bus than the event stood for.
pub proof fn lemma_event_weight(service: ServiceView, event: EventView, replies: Replies, now: int)
    ensures
        bus_weight(after_event(service, event, replies, now).service.bus.pending) < bus_weight(
            service.bus.pending,
        ) + event_weight(event),
{
    let after = after_event(service, event, replies, now).service;
    match event {
        EventView::CreateChartAndPostToSlack { alert } => {
            if after.bus.pending != service.bus.pending {
                assert(after.bus.pending.drop_last() =~= service.bus.pending);
            }
        },
        _ => {},
    }
}

/// The service once another sender has put `event` on the bus. A closed bus
/// takes nothing.
pub open spec fn arrived(service: ServiceView, event: EventView) -> ServiceView {
    after_send(service, event).service
}

/// How much is left of a run: the work on the bus, the work that is still
/// to arrive, and one for each arrival.
pub open spec fn run_weight(service: ServiceView, arrivals: Seq<EventView>) -> nat {
    bus_weight(service.bus.pending) + bus_weight(arrivals) + arrivals.len()
}

/// The orchestrator's run: events are taken off the bus oldest first and
/// handled to the end, one after the other, whether or not handling them
/// fails. While the bus is empty the orchestrator waits, and the next of
/// `arrivals`, the events that other senders send in that order, comes in.
/// `Shutdown` raises the flag and ends the run in good order; what is
/// behind it on the bus is never handled, and what has not arrived never
/// will. A bus with nothing left and nothing to come ends the run with
/// `ChannelClosed`. Either way the bus is closed afterwards.
pub open spec fn run(service: ServiceView, replies: Replies, arrivals: Seq<EventView>, now: int) -> Handled
    decreases run_weight(service, arrivals),
    via run_decreases
{
    if service.bus.pending.len() == 0 {
        if arrivals.len() == 0 {
            Handled { service: stopped(service), result: Err(EventLoopError::ChannelClosed) }
        } else {
            run(arrived(service, arrivals[0]), replies, arrivals.drop_first(), now)
        }
    } else {
        let event = service.bus.pending[0];
        if event is Shutdown {
            Handled {
                service: stopped(after_event(received(service), event, replies, now).service),
                result: Ok(()),
            }
        } else {
            run(after_event(received(service), event, replies, now).service, replies, arrivals, now)
        }
    }
}

/// An arrival takes more off what is to come than it puts on the bus.
pub proof fn lemma_arrival_weight(service: ServiceView, arrivals: Seq<EventView>)
    requires
        arrivals.len() > 0,
    ensures
        run_weight(arrived(service, arrivals[0]), arrivals.drop_first()) < run_weight(
            service,
            arrivals,
        ),
{
    lemma_bus_weight_first(arrivals);
    let after = arrived(service, arrivals[0]);
    if !service.bus.closed {
        assert(after.bus.pending.drop_last() =~= service.bus.pending);
    }
}

#[via_fn]
proof fn run_decreases(service: ServiceView, replies: Replies, arrivals: Seq<EventView>, now: int) {
    if service.bus.pending.len() > 0 {
        lemma_bus_weight_first(service.bus.pending);
        lemma_event_weight(received(service), service.bus.pending[0], replies, now);
    } else if arrivals.len() > 0 {
        lemma_arrival_weight(service, arrivals);
    }
}

/// What the orchestrator does about what it received.
#[derive(Debug)]
pub enum Step {
    /// Handle the event, then receive the next.
    Handle(Event),
    /// Stop receiving, and end the run so.
    Stop(EventResult),
}

/// Decides what to do about what the bus gave: a shutdown event ends the
/// run in good order, a bus that is gone ends it with `ChannelClosed`, and
/// any other event is to be handled.
pub fn next_step(message: Option<Event>) -> (step: Step)
    ensures
        match message {
            Some(event) => if event@ is Shutdown {
                step == Step::Stop(Ok(()))
            } else {
                step == Step::Handle(event)
            },
            None => step == Step::Stop(Err(EventLoopError::ChannelClosed)),
        },
{
    match message {
        Some(Event::Shutdown) => Step::Stop(Ok(())),
        Some(event) => Step::Handle(event),
        None => Step::Stop(Err(EventLoopError::ChannelClosed)),
    }
}

/// Handles one event, and gives how handling it ended.
pub fn handle_event(service: &mut Service, event: Event, replies: &Replies, now: Timestamp) -> (result:
    EventResult)
    requires
        old(service)@.store.wf(),
    ensures
        final(service)@.store.wf(),
        final(service).same_services(old(service)),
        (Handled { service: final(service)@, result }) == after_event(
            old(service)@,
            event@,
            *replies,
            now@,
        ),
{
    match event {
        Event::CreateChartAndPostToSlack { alert } => handle_create_chart(
            service,
            alert,
            replies.timeseries_reply(),
            replies.chart_reply(),
            now,
        ),
        Event::PostSlackAlert { alert } => handle_post_slack_alert(
            service,
            alert,
            replies.posted_reply(),
            now,
        ),
        Event::UpdateSlackAlert { alert_id } => handle_update_slack_alert(
            service,
            alert_id,
            replies.updated_reply(),
        ),
        Event::Shutdown => {
            handle_shutdown(service);
            Ok(())
        },
    }
}

/// Handles the events on the bus until a shutdown event is received.
/// `arrivals` are the events that other senders send while the
/// orchestrator waits on the empty bus, in the order in which they come.
pub fn handle_events(service: &mut Service, replies: &Replies, arrivals: Vec<Event>, now: Timestamp) -> (result:
    EventResult)
    requires
        old(service)@.store.wf(),
    ensures
        final(service)@.store.wf(),
        final(service).same_services(old(service)),
        (Handled { service: final(service)@, result }) == run(
            old(service)@,
            *replies,
            events_view(arrivals@),
            now@,
        ),
{
    let ghost all = events_view(arrivals@);
    let mut coming = arrivals;
    loop
        invariant
            service@.store.wf(),
            service.same_services(old(service)),
            all == events_view(arrivals@),
            run(service@, *replies, events_view(coming@), now@) == run(
                old(service)@,
                *replies,
                all,
                now@,
            ),
        decreases run_weight(service@, events_view(coming@)),
    {
        let ghost before = service@;
        let ghost waiting = events_view(coming@);
        let message = service.event_sender.recv();
        if message.is_none() && coming.len() > 0 {
            let event = coming.remove(0);
            proof {
                assert(event@ == waiting[0]);
                assert(events_view(coming@) =~= waiting.drop_first());
                lemma_arrival_weight(before, waiting);
            }
            let _sent = service.event_sender.send(event);
        } else {
            match next_step(message) {
                Step::Handle(event) => {
                    assert(service@ == received(before));
                    proof {
                        lemma_bus_weight_first(before.bus.pending);
                        lemma_event_weight(received(before), event@, *replies, now@);
                    }
                    let _handled = handle_event(service, event, replies, now);
                },
                Step::Stop(result) => {
                    if result.is_ok() {
                        handle_shutdown(service);
                    }
                    service.event_sender.close();
                    return result;
                },
            }
        }
    }
}

} // verus!
