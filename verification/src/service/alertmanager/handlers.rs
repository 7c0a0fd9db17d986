//! The alert intake: what becomes of a delivery of the webhook.
use vstd::prelude::*;
use vstd::string::*;
use crate::db::errors::DbError;
use crate::db::models::{Alert, AlertView, NewAlert, NewAlertView, Timestamp};
use crate::db::store::{lemma_updated_wf, StoreView};
use crate::events::{Event, EventView};
use crate::service::alertmanager::errors::AlertmanagerWebhookHandlerError;
use crate::service::alertmanager::{
    alert_text,
    create_alert_text,
    get_label,
    inbound_alerts,
    label_of,
    AlertmanagerAlert,
    AlertmanagerWebhookPayload,
    InboundAlert,
};
use crate::service::Service;
use crate::text::text_eq;

verus! {

/// The row that a first sighting of `alert` asks for: described by the
/// alert's text, classified by its labels, not charted and not posted.
pub open spec fn new_alert_for(alert: InboundAlert, common: Map<Seq<char>, Seq<char>>) -> NewAlertView {
    NewAlertView {
        text: alert_text(alert.annotations, alert.labels, common),
        resolved: alert.resolved,
        fingerprint: Some(alert.fingerprint),
        chart_filename: None,
        slack_channel: None,
        slack_ts: None,
        sloth_slo: label_of(alert.labels, common, "sloth_slo"@),
        sloth_service: label_of(alert.labels, common, "sloth_service"@),
        objective_name: label_of(alert.labels, common, "objective_name"@),
        severity: label_of(alert.labels, common, "severity"@),
    }
}

/// What the intake does about one alert of a delivery.
#[derive(Debug)]
pub enum Delivery {
    /// The stored row says what the delivery says: nothing to write, nothing
    /// to send.
    Unchanged,
    /// The stored row changes state: write `alert`, then ask for its chat
    /// message to be updated.
    Update { alert: Alert },
    /// The fingerprint is new: create the row, then ask for it to be charted
    /// and posted.
    Create { new_alert: NewAlert },
}

/// The abstract value of a [`Delivery`].
pub enum DeliveryView {
    Unchanged,
    Update { alert: AlertView },
    Create { new_alert: NewAlertView },
}

impl View for Delivery {
    type V = DeliveryView;

    open spec fn view(&self) -> DeliveryView {
        match self {
            Delivery::Unchanged => DeliveryView::Unchanged,
            Delivery::Update { alert } => DeliveryView::Update { alert: alert@ },
            Delivery::Create { new_alert } => DeliveryView::Create { new_alert: new_alert@ },
        }
    }
}

/// What to do about `alert`, given the row that its fingerprint names.
pub open spec fn delivery_for(
    existing: Option<AlertView>,
    alert: InboundAlert,
    common: Map<Seq<char>, Seq<char>>,
) -> DeliveryView {
    match existing {
        Some(row) => if row.resolved == alert.resolved {
            DeliveryView::Unchanged
        } else {
            DeliveryView::Update { alert: AlertView { resolved: alert.resolved, ..row } }
        },
        None => DeliveryView::Create { new_alert: new_alert_for(alert, common) },
    }
}

fn owned(text: Option<&str>) -> (copy: Option<String>)
    ensures
        copy is Some <==> text is Some,
        copy matches Some(c) ==> c@ == text->0@,
{
    match text {
        Some(t) => Some(t.to_owned()),
        None => None,
    }
}

/// Decides what to do about `alert`, given the row that the store holds
/// under its fingerprint.
pub fn plan_delivery(
    existing: Option<Alert>,
    alert: &AlertmanagerAlert,
    payload: &AlertmanagerWebhookPayload,
) -> (delivery: Delivery)
    ensures
        delivery@ == delivery_for(
            match existing {
                Some(row) => Some(row@),
                None => None,
            },
            alert@,
            payload.common_labels@,
        ),
{
    match existing {
        Some(row) => {
            let resolved: bool = alert.status.is_resolved();
            if row.resolved == resolved {
                Delivery::Unchanged
            } else {
                let mut changed = row;
                changed.resolved = resolved;
                Delivery::Update { alert: changed }
            }
        },
        None => {
            let new_alert = NewAlert {
                text: create_alert_text(alert, payload),
                resolved: alert.status.is_resolved(),
                fingerprint: Some(alert.fingerprint.clone()),
                chart_filename: None,
                slack_channel: None,
                slack_ts: None,
                sloth_slo: owned(get_label(alert, payload, "sloth_slo")),
                sloth_service: owned(get_label(alert, payload, "sloth_service")),
                objective_name: owned(get_label(alert, payload, "objective_name")),
                severity: owned(get_label(alert, payload, "severity")),
            };
            Delivery::Create { new_alert }
        },
    }
}

/// Why a batch was abandoned.
pub enum IntakeFailure {
    /// The bus took no event.
    ChannelClosed,
    /// The store took no row.
    Store,
}

/// What a batch, or one alert of it, came to: the store as the transaction
/// sees it, the events sent, and the failure that ended the work, if any.
pub struct BatchOutcome {
    pub store: StoreView,
    pub sent: Seq<EventView>,
    pub failure: Option<IntakeFailure>,
}

/// What one alert comes to. The row is written before the event is sent, and
/// a closed bus fails the send.
pub open spec fn deliver_one(
    store: StoreView,
    bus_closed: bool,
    alert: InboundAlert,
    common: Map<Seq<char>, Seq<char>>,
    now: int,
) -> BatchOutcome {
    match delivery_for(store.by_fingerprint(alert.fingerprint), alert, common) {
        DeliveryView::Unchanged => BatchOutcome { store, sent: Seq::empty(), failure: None },
        DeliveryView::Update { alert: changed } => if bus_closed {
            BatchOutcome {
                store: store.with_updated(changed, now),
                sent: Seq::empty(),
                failure: Some(IntakeFailure::ChannelClosed),
            }
        } else {
            BatchOutcome {
                store: store.with_updated(changed, now),
                sent: seq![EventView::UpdateSlackAlert { alert_id: changed.id }],
                failure: None,
            }
        },
        DeliveryView::Create { new_alert } => if !store.accepts(new_alert) {
            BatchOutcome { store, sent: Seq::empty(), failure: Some(IntakeFailure::Store) }
        } else if bus_closed {
            BatchOutcome {
                store: store.with_created(new_alert, now),
                sent: Seq::empty(),
                failure: Some(IntakeFailure::ChannelClosed),
            }
        } else {
            BatchOutcome {
                store: store.with_created(new_alert, now),
                sent: seq![
                    EventView::CreateChartAndPostToSlack {
                        alert: new_alert.stored_as(store.next_id, now),
                    },
                ],
                failure: None,
            }
        },
    }
}

/// What a batch comes to: its alerts one after the other, each against the
/// store as the alerts before it left it, up to the first failure.
pub open spec fn deliver(
    store: StoreView,
    bus_closed: bool,
    alerts: Seq<InboundAlert>,
    common: Map<Seq<char>, Seq<char>>,
    now: int,
) -> BatchOutcome
    decreases alerts.len(),
{
    if alerts.len() == 0 {
        BatchOutcome { store, sent: Seq::empty(), failure: None }
    } else {
        let first = deliver_one(store, bus_closed, alerts[0], common, now);
        if first.failure is Some {
            first
        } else {
            let rest = deliver(first.store, bus_closed, alerts.drop_first(), common, now);
            BatchOutcome { store: rest.store, sent: first.sent + rest.sent, failure: rest.failure }
        }
    }
}

/// The outcome `outcome` after `sent` had been sent before it.
pub open spec fn after_sending(sent: Seq<EventView>, outcome: BatchOutcome) -> BatchOutcome {
    BatchOutcome { sent: sent + outcome.sent, ..outcome }
}

/// Whether the delivery speaks the version of the protocol that the intake
/// understands, which is "4".
pub fn version_supported(payload: &AlertmanagerWebhookPayload) -> (supported: bool)
    ensures
        supported == (payload.version@ == "4"@),
{
    text_eq(payload.version.as_str(), "4")
}

/// Takes a delivery of the webhook. A delivery of another protocol version
/// than "4" is refused. Otherwise each alert is looked up by fingerprint in
/// one transaction: a known alert that changes state is updated and an
/// update of its chat message is asked for, a known alert in the state it
/// had is passed over, a new alert becomes a row and is sent off to be
/// charted and posted. The transaction is committed only if every alert
/// went through.
pub fn receive_alertmanager_webhook(
    service: &mut Service,
    payload: AlertmanagerWebhookPayload,
    now: Timestamp,
) -> (received: Result<String, AlertmanagerWebhookHandlerError>)
    requires
        old(service)@.store.wf(),
    ensures
        final(service)@.store.wf(),
        final(service).same_services(old(service)),
        final(service)@.shutdown == old(service)@.shutdown,
        final(service)@.bus.closed == old(service)@.bus.closed,
        payload.version@ != "4"@ ==> {
            &&& received matches Err(AlertmanagerWebhookHandlerError::UnexpectedVersion(v))
            &&& v@ == payload.version@
            &&& final(service)@ == old(service)@
        },
        payload.version@ == "4"@ ==> {
            let outcome = deliver(
                old(service)@.store,
                old(service)@.bus.closed,
                inbound_alerts(payload.alerts@),
                payload.common_labels@,
                now@,
            );
            &&& final(service)@.bus.pending == old(service)@.bus.pending + outcome.sent
            &&& match outcome.failure {
                None => {
                    &&& received matches Ok(body)
                    &&& body@ == "ok"@
                    &&& final(service)@.store == outcome.store
                },
                Some(IntakeFailure::ChannelClosed) => {
                    &&& received == Err::<String, AlertmanagerWebhookHandlerError>(
                        AlertmanagerWebhookHandlerError::ChannelClosed,
                    )
                    &&& final(service)@.store == old(service)@.store
                },
                Some(IntakeFailure::Store) => {
                    &&& received matches Err(
                        AlertmanagerWebhookHandlerError::DatabaseError(DbError::DatabaseError(why)),
                    )
                    &&& why@ == "no id is left"@
                    &&& final(service)@.store == old(service)@.store
                },
            }
        },
{
    if !version_supported(&payload) {
        return Err(AlertmanagerWebhookHandlerError::UnexpectedVersion(payload.version));
    }
    let mut tx = match service.db.start_transaction() {
        Ok(tx) => tx,
        Err(e) => {
            return Err(AlertmanagerWebhookHandlerError::from(e));
        },
    };
    let ghost store0 = old(service)@.store;
    let ghost bus0 = old(service)@.bus;
    let ghost all = inbound_alerts(payload.alerts@);
    let ghost common = payload.common_labels@;
    let ghost mut sent: Seq<EventView> = Seq::empty();
    let n: usize = payload.alerts.len();
    let mut i: usize = 0;
    proof {
        assert(all.subrange(0, n as int) =~= all);
        assert(Seq::<EventView>::empty() + deliver(store0, bus0.closed, all, common, now@).sent
            =~= deliver(store0, bus0.closed, all, common, now@).sent);
        assert(bus0.pending + sent =~= bus0.pending);
    }
    while i < n
        invariant
            i <= n,
            n == payload.alerts@.len(),
            all == inbound_alerts(payload.alerts@),
            common == payload.common_labels@,
            payload.version@ == "4"@,
            store0 == old(service)@.store,
            bus0 == old(service)@.bus,
            store0.wf(),
            tx@.wf(),
            service@.store == store0,
            service.same_services(old(service)),
            service@.shutdown == old(service)@.shutdown,
            service@.bus.closed == bus0.closed,
            service@.bus.pending == bus0.pending + sent,
            deliver(store0, bus0.closed, all, common, now@) == after_sending(
                sent,
                deliver(tx@, bus0.closed, all.subrange(i as int, n as int), common, now@),
            ),
        decreases n - i,
    {
        let alert = &payload.alerts[i];
        let ghost tail = all.subrange(i as int, n as int);
        let ghost before = tx@;
        let ghost step = deliver_one(before, bus0.closed, alert@, common, now@);
        proof {
            assert(tail[0] == alert@);
            assert(tail.drop_first() =~= all.subrange(i + 1, n as int));
        }
        let existing = match service.db.alert_get_by_fingerprint(&mut tx, alert.fingerprint.as_str()) {
            Ok(existing) => existing,
            Err(e) => {
                return Err(AlertmanagerWebhookHandlerError::from(e));
            },
        };
        match plan_delivery(existing, alert, &payload) {
            Delivery::Unchanged => {
                proof {
                    assert(sent + (step.sent + deliver(
                        step.store,
                        bus0.closed,
                        tail.drop_first(),
                        common,
                        now@,
                    ).sent) =~= sent + deliver(
                        step.store,
                        bus0.closed,
                        tail.drop_first(),
                        common,
                        now@,
                    ).sent);
                }
            },
            Delivery::Update { alert: changed } => {
                proof {
                    let row = before.by_fingerprint(alert@.fingerprint)->0;
                    let k = before.index_of_fingerprint(alert@.fingerprint);
                    assert(before.rows[k].id == changed@.id);
                    assert(before.has_id(changed@.id));
                    lemma_updated_wf(before, changed@, now@);
                }
                match service.db.alert_update(&mut tx, &changed, now) {
                    Ok(()) => {},
                    Err(e) => {
                        return Err(AlertmanagerWebhookHandlerError::from(e));
                    },
                }
                match service.event_sender.send(Event::UpdateSlackAlert { alert_id: changed.id }) {
                    Ok(()) => {},
                    Err(e) => {
                        proof {
                            assert(sent + step.sent =~= sent);
                        }
                        return Err(AlertmanagerWebhookHandlerError::from(e));
                    },
                }
                proof {
                    let next = sent.push(EventView::UpdateSlackAlert { alert_id: changed@.id });
                    let rest = deliver(step.store, bus0.closed, tail.drop_first(), common, now@);
                    assert(sent + (step.sent + rest.sent) =~= next + rest.sent);
                    assert(bus0.pending + next =~= (bus0.pending + sent).push(
                        EventView::UpdateSlackAlert { alert_id: changed@.id },
                    ));
                    sent = next;
                }
            },
            Delivery::Create { new_alert } => {
                let ghost new_view = new_alert@;
                let row = match service.db.alert_create(&mut tx, new_alert, now) {
                    Ok(row) => row,
                    Err(e) => {
                        proof {
                            assert(sent + step.sent =~= sent);
                        }
                        return Err(AlertmanagerWebhookHandlerError::from(e));
                    },
                };
                let ghost row_view = row@;
                match service.event_sender.send(Event::CreateChartAndPostToSlack { alert: row }) {
                    Ok(()) => {},
                    Err(e) => {
                        proof {
                            assert(sent + step.sent =~= sent);
                        }
                        return Err(AlertmanagerWebhookHandlerError::from(e));
                    },
                }
                proof {
                    let next = sent.push(EventView::CreateChartAndPostToSlack { alert: row_view });
                    let rest = deliver(step.store, bus0.closed, tail.drop_first(), common, now@);
                    assert(sent + (step.sent + rest.sent) =~= next + rest.sent);
                    assert(bus0.pending + next =~= (bus0.pending + sent).push(
                        EventView::CreateChartAndPostToSlack { alert: row_view },
                    ));
                    sent = next;
                }
            },
        }
        i += 1;
    }
    proof {
        assert(all.subrange(n as int, n as int) =~= Seq::<InboundAlert>::empty());
        assert(sent + Seq::<EventView>::empty() =~= sent);
    }
    match service.db.commit(tx) {
        Ok(()) => {},
        Err(e) => {
            return Err(AlertmanagerWebhookHandlerError::from(e));
        },
    }
    Ok("ok".to_owned())
}

} // verus!
