//! What the intake guarantees over any store and any delivery.
use vstd::prelude::*;
use crate::db::models::AlertView;
use crate::db::store::{
    lemma_created_grows,
    lemma_grows_transitive,
    lemma_updated_grows,
    lemma_created_keeps_rows,
    lemma_created_wf,
    lemma_updated_by_fingerprint,
    lemma_updated_wf,
    StoreView,
};
use crate::events::{all_chat_consistent, EventView};
use crate::service::alertmanager::handlers::{
    deliver,
    deliver_one,
    delivery_for,
    new_alert_for,
    DeliveryView,
};
use crate::service::alertmanager::InboundAlert;

verus! {

/// The intake never parts channel and timestamp: if every row knows its
/// chat message by both or by neither, so does every row after an alert
/// was delivered, and so does the alert that a sent event carries.
pub proof fn lemma_deliver_one_keeps_chat_refs(
    store: StoreView,
    bus_closed: bool,
    alert: InboundAlert,
    common: Map<Seq<char>, Seq<char>>,
    now: int,
)
    requires
        store.wf(),
        store.chat_consistent(),
    ensures
        (deliver_one(store, bus_closed, alert, common, now).store).chat_consistent(),
        all_chat_consistent(deliver_one(store, bus_closed, alert, common, now).sent),
{
    let out = deliver_one(store, bus_closed, alert, common, now);
    match delivery_for(store.by_fingerprint(alert.fingerprint), alert, common) {
        DeliveryView::Unchanged => {},
        DeliveryView::Update { alert: changed } => {
            let k = store.index_of_fingerprint(alert.fingerprint);
            assert(store.rows[k].chat_ref_consistent());
            assert(store.rows[k].id == changed.id);
            lemma_updated_wf(store, changed, now);
            assert forall|i: int| 0 <= i < out.store.rows.len() implies (
            #[trigger] out.store.rows[i]).chat_ref_consistent() by {
                assert(store.rows[i].chat_ref_consistent());
            }
        },
        DeliveryView::Create { new_alert } => {
            if store.accepts(new_alert) {
                assert forall|i: int| 0 <= i < out.store.rows.len() implies (
                #[trigger] out.store.rows[i]).chat_ref_consistent() by {
                    if i < store.rows.len() {
                        assert(out.store.rows[i] == store.rows[i]);
                    }
                }
            }
        },
    }
}

/// The intake never parts channel and timestamp, for a batch.
pub proof fn lemma_deliver_keeps_chat_refs(
    store: StoreView,
    bus_closed: bool,
    alerts: Seq<InboundAlert>,
    common: Map<Seq<char>, Seq<char>>,
    now: int,
)
    requires
        store.wf(),
        store.chat_consistent(),
    ensures
        deliver(store, bus_closed, alerts, common, now).store.chat_consistent(),
        all_chat_consistent(deliver(store, bus_closed, alerts, common, now).sent),
    decreases alerts.len(),
{
    if alerts.len() > 0 {
        let first = deliver_one(store, bus_closed, alerts[0], common, now);
        lemma_deliver_one_keeps_chat_refs(store, bus_closed, alerts[0], common, now);
        lemma_deliver_one_wf(store, bus_closed, alerts[0], common, now);
        if first.failure is None {
            lemma_deliver_keeps_chat_refs(first.store, bus_closed, alerts.drop_first(), common, now);
        }
    }
}

/// One alert leaves the store well formed, sends at most one event, and
/// leaves as many rows as it found or one more.
pub proof fn lemma_deliver_one_wf(
    store: StoreView,
    bus_closed: bool,
    alert: InboundAlert,
    common: Map<Seq<char>, Seq<char>>,
    now: int,
)
    requires
        store.wf(),
    ensures
        deliver_one(store, bus_closed, alert, common, now).store.wf(),
        deliver_one(store, bus_closed, alert, common, now).sent.len() <= 1,
        store.rows.len() <= deliver_one(store, bus_closed, alert, common, now).store.rows.len()
            <= store.rows.len() + 1,
        forall|id: int|
            store.has_id(id) ==> deliver_one(store, bus_closed, alert, common, now).store.has_id(id),
        forall|f: Seq<char>|
            store.has_fingerprint(f) ==> deliver_one(
                store,
                bus_closed,
                alert,
                common,
                now,
            ).store.has_fingerprint(f),
{
    let out = deliver_one(store, bus_closed, alert, common, now);
    match delivery_for(store.by_fingerprint(alert.fingerprint), alert, common) {
        DeliveryView::Unchanged => {},
        DeliveryView::Update { alert: changed } => {
            let k = store.index_of_fingerprint(alert.fingerprint);
            assert(store.rows[k].id == changed.id);
            lemma_updated_wf(store, changed, now);
        },
        DeliveryView::Create { new_alert } => {
            if store.accepts(new_alert) {
                lemma_created_wf(store, new_alert, now);
                lemma_created_keeps_rows(store, new_alert, now);
            }
        },
    }
}

/// Intake never deletes a row and never changes what was fixed at a row's
/// creation.
pub proof fn lemma_deliver_grows(
    store: StoreView,
    bus_closed: bool,
    alerts: Seq<InboundAlert>,
    common: Map<Seq<char>, Seq<char>>,
    now: int,
)
    requires
        store.wf(),
    ensures
        store.grows_into(deliver(store, bus_closed, alerts, common, now).store),
    decreases alerts.len(),
{
    if alerts.len() > 0 {
        let first = deliver_one(store, bus_closed, alerts[0], common, now);
        lemma_deliver_one_wf(store, bus_closed, alerts[0], common, now);
        match delivery_for(store.by_fingerprint(alerts[0].fingerprint), alerts[0], common) {
            DeliveryView::Unchanged => {},
            DeliveryView::Update { alert: changed } => {
                let k = store.index_of_fingerprint(alerts[0].fingerprint);
                assert(store.rows[k].id == changed.id);
                lemma_updated_grows(store, changed, now);
            },
            DeliveryView::Create { new_alert } => {
                lemma_created_grows(store, new_alert, now);
            },
        }
        if first.failure is None {
            lemma_deliver_grows(first.store, bus_closed, alerts.drop_first(), common, now);
            lemma_grows_transitive(
                store,
                first.store,
                deliver(first.store, bus_closed, alerts.drop_first(), common, now).store,
            );
        }
    }
}

/// When a batch goes through: always, as long as the bus is open and the
/// store has an id left for each alert.
pub proof fn lemma_deliver_succeeds(
    store: StoreView,
    alerts: Seq<InboundAlert>,
    common: Map<Seq<char>, Seq<char>>,
    now: int,
)
    requires
        store.wf(),
        store.next_id + alerts.len() <= i64::MAX,
    ensures
        deliver(store, false, alerts, common, now).failure is None,
        deliver(store, false, alerts, common, now).store.next_id <= store.next_id + alerts.len(),
    decreases alerts.len(),
{
    if alerts.len() > 0 {
        let first = deliver_one(store, false, alerts[0], common, now);
        lemma_deliver_one_wf(store, false, alerts[0], common, now);
        lemma_deliver_succeeds(first.store, alerts.drop_first(), common, now);
    }
}

/// However often a fingerprint is delivered in a batch, and in
/// whatever state, the store stays well formed, so no two rows share a
/// fingerprint, and no row that was there is lost.
pub proof fn lemma_deliver_wf(
    store: StoreView,
    bus_closed: bool,
    alerts: Seq<InboundAlert>,
    common: Map<Seq<char>, Seq<char>>,
    now: int,
)
    requires
        store.wf(),
    ensures
        deliver(store, bus_closed, alerts, common, now).store.wf(),
        deliver(store, bus_closed, alerts, common, now).sent.len() <= alerts.len(),
        store.rows.len() <= deliver(store, bus_closed, alerts, common, now).store.rows.len()
            <= store.rows.len() + alerts.len(),
        forall|id: int|
            store.has_id(id) ==> deliver(store, bus_closed, alerts, common, now).store.has_id(id),
        forall|f: Seq<char>|
            store.has_fingerprint(f) ==> deliver(
                store,
                bus_closed,
                alerts,
                common,
                now,
            ).store.has_fingerprint(f),
    decreases alerts.len(),
{
    if alerts.len() > 0 {
        let first = deliver_one(store, bus_closed, alerts[0], common, now);
        lemma_deliver_one_wf(store, bus_closed, alerts[0], common, now);
        if first.failure is None {
            lemma_deliver_wf(first.store, bus_closed, alerts.drop_first(), common, now);
        }
    }
}

/// A fingerprint that was delivered in a batch that went through names a
/// row afterwards.
pub proof fn lemma_delivered_fingerprint_is_stored(
    store: StoreView,
    bus_closed: bool,
    alerts: Seq<InboundAlert>,
    common: Map<Seq<char>, Seq<char>>,
    now: int,
    i: int,
)
    requires
        store.wf(),
        0 <= i < alerts.len(),
        deliver(store, bus_closed, alerts, common, now).failure is None,
    ensures
        deliver(store, bus_closed, alerts, common, now).store.has_fingerprint(
            alerts[i].fingerprint,
        ),
    decreases alerts.len(),
{
    let first = deliver_one(store, bus_closed, alerts[0], common, now);
    let rest = alerts.drop_first();
    lemma_deliver_one_wf(store, bus_closed, alerts[0], common, now);
    if i == 0 {
        match delivery_for(store.by_fingerprint(alerts[0].fingerprint), alerts[0], common) {
            DeliveryView::Create { new_alert } => {
                lemma_created_wf(store, new_alert, now);
            },
            _ => {},
        }
        assert(first.store.has_fingerprint(alerts[0].fingerprint));
        lemma_deliver_wf(first.store, bus_closed, rest, common, now);
    } else {
        assert(rest[i - 1] == alerts[i]);
        lemma_delivered_fingerprint_is_stored(first.store, bus_closed, rest, common, now, i - 1);
    }
}

/// No two deliveries make two rows for one fingerprint. After a first batch
/// that held the fingerprint went through, a second delivery of the
/// fingerprint makes no row: the row that the fingerprint named after the
/// first batch is the row it names after the second, under the same id and
/// in the state that was delivered last.
pub proof fn lemma_second_delivery_updates_the_first(
    store: StoreView,
    first: Seq<InboundAlert>,
    i: int,
    again: InboundAlert,
    common: Map<Seq<char>, Seq<char>>,
    now: int,
    later: int,
)
    requires
        store.wf(),
        0 <= i < first.len(),
        first[i].fingerprint == again.fingerprint,
        deliver(store, false, first, common, now).failure is None,
    ensures
        ({
            let before = deliver(store, false, first, common, now).store;
            let second = deliver_one(before, false, again, common, later);
            let after = second.store;
            &&& before.has_fingerprint(again.fingerprint)
            &&& second.failure is None
            &&& after.wf()
            &&& after.rows.len() == before.rows.len()
            &&& after.by_fingerprint(again.fingerprint) is Some
            &&& after.by_fingerprint(again.fingerprint)->0.id == before.by_fingerprint(
                again.fingerprint,
            )->0.id
            &&& after.by_fingerprint(again.fingerprint)->0.resolved == again.resolved
        }),
{
    lemma_delivered_fingerprint_is_stored(store, false, first, common, now, i);
    lemma_deliver_wf(store, false, first, common, now);
    let before = deliver(store, false, first, common, now).store;
    lemma_deliver_one_wf(before, false, again, common, later);
    match delivery_for(before.by_fingerprint(again.fingerprint), again, common) {
        DeliveryView::Unchanged => {},
        DeliveryView::Update { alert: changed } => {
            let k = before.index_of_fingerprint(again.fingerprint);
            assert(before.rows[k].id == changed.id);
            lemma_updated_wf(before, changed, later);
            lemma_updated_by_fingerprint(before, changed, later, again.fingerprint);
        },
        DeliveryView::Create { new_alert } => {},
    }
}

/// Delivery is idempotent: once an alert was delivered, delivering the same
/// fingerprint in the same state again writes nothing and sends nothing.
/// The first delivery sent at most one event and made at most one row.
pub proof fn lemma_redelivery_is_noop(
    store: StoreView,
    alert: InboundAlert,
    common: Map<Seq<char>, Seq<char>>,
    now: int,
    later: int,
)
    requires
        store.wf(),
        deliver_one(store, false, alert, common, now).failure is None,
    ensures
        ({
            let first = deliver_one(store, false, alert, common, now);
            let second = deliver_one(first.store, false, alert, common, later);
            &&& first.sent.len() <= 1
            &&& first.store.rows.len() <= store.rows.len() + 1
            &&& second.store == first.store
            &&& second.sent == Seq::<EventView>::empty()
            &&& second.failure is None
        }),
{
    let first = deliver_one(store, false, alert, common, now);
    lemma_deliver_one_wf(store, false, alert, common, now);
    match delivery_for(store.by_fingerprint(alert.fingerprint), alert, common) {
        DeliveryView::Unchanged => {},
        DeliveryView::Update { alert: changed } => {
            let k = store.index_of_fingerprint(alert.fingerprint);
            assert(store.rows[k].id == changed.id);
            lemma_updated_wf(store, changed, now);
            lemma_updated_by_fingerprint(store, changed, now, alert.fingerprint);
        },
        DeliveryView::Create { new_alert } => {
            lemma_created_wf(store, new_alert, now);
        },
    }
}

/// Deliveries of one alert each are idempotent: the second delivery of the
/// batch leaves store and bus as the first left them.
pub proof fn lemma_redelivered_batch_is_noop(
    store: StoreView,
    alert: InboundAlert,
    common: Map<Seq<char>, Seq<char>>,
    now: int,
    later: int,
)
    requires
        store.wf(),
        deliver(store, false, seq![alert], common, now).failure is None,
    ensures
        ({
            let first = deliver(store, false, seq![alert], common, now);
            let second = deliver(first.store, false, seq![alert], common, later);
            &&& first.sent.len() <= 1
            &&& second.store == first.store
            &&& second.sent == Seq::<EventView>::empty()
            &&& second.failure is None
        }),
{
    let batch = seq![alert];
    assert(batch.drop_first() =~= Seq::<InboundAlert>::empty());
    assert(batch[0] == alert);
    let one = deliver_one(store, false, alert, common, now);
    assert(deliver(one.store, false, batch.drop_first(), common, now).sent
        =~= Seq::<EventView>::empty());
    let first = deliver(store, false, batch, common, now);
    assert(first.store == one.store);
    assert(first.sent =~= one.sent);
    lemma_redelivery_is_noop(store, alert, common, now, later);
    let two = deliver_one(one.store, false, alert, common, later);
    let second = deliver(first.store, false, batch, common, later);
    assert(deliver(two.store, false, batch.drop_first(), common, later).sent
        =~= Seq::<EventView>::empty());
    assert(second.sent =~= two.sent);
}

/// When a firing alert is delivered as resolved, its row is
/// resolved afterwards and exactly one event asks for its chat message to
/// be updated; delivering it as resolved once more sends nothing.
pub proof fn lemma_resolution_round_trip(
    store: StoreView,
    alert: InboundAlert,
    common: Map<Seq<char>, Seq<char>>,
    now: int,
    later: int,
)
    requires
        store.wf(),
        alert.resolved,
        store.by_fingerprint(alert.fingerprint) matches Some(row) && !row.resolved,
    ensures
        ({
            let row = store.by_fingerprint(alert.fingerprint)->0;
            let first = deliver_one(store, false, alert, common, now);
            let second = deliver_one(first.store, false, alert, common, later);
            &&& first.failure is None
            &&& first.sent == seq![EventView::UpdateSlackAlert { alert_id: row.id }]
            &&& first.store.by_fingerprint(alert.fingerprint) matches Some(stored)
            &&& stored.resolved
            &&& stored.id == row.id
            &&& second.sent == Seq::<EventView>::empty()
            &&& second.store == first.store
        }),
{
    let row = store.by_fingerprint(alert.fingerprint)->0;
    let changed = AlertView { resolved: alert.resolved, ..row };
    let k = store.index_of_fingerprint(alert.fingerprint);
    assert(store.rows[k].id == changed.id);
    lemma_updated_wf(store, changed, now);
    lemma_updated_by_fingerprint(store, changed, now, alert.fingerprint);
    lemma_redelivery_is_noop(store, alert, common, now, later);
}

/// A fingerprint that the store has not seen becomes exactly one row, in the
/// state that was delivered, and one event sends that row off to be charted
/// and posted.
pub proof fn lemma_first_sighting_creates_one_row(
    store: StoreView,
    alert: InboundAlert,
    common: Map<Seq<char>, Seq<char>>,
    now: int,
)
    requires
        store.wf(),
        !store.has_fingerprint(alert.fingerprint),
        store.next_id < i64::MAX,
    ensures
        ({
            let first = deliver_one(store, false, alert, common, now);
            let row = new_alert_for(alert, common).stored_as(store.next_id, now);
            &&& first.failure is None
            &&& first.store.rows == store.rows.push(row)
            &&& first.store.by_fingerprint(alert.fingerprint) == Some(row)
            &&& first.sent == seq![EventView::CreateChartAndPostToSlack { alert: row }]
            &&& row.resolved == alert.resolved
            &&& row.slack_channel is None
            &&& row.slack_ts is None
        }),
{
    lemma_created_wf(store, new_alert_for(alert, common), now);
}

} // verus!
