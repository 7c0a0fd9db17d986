//! What the orchestrator guarantees over any store, any bus and any
//! answers of the outside services.
use vstd::prelude::*;
use crate::db::models::AlertView;
use crate::db::store::{
    lemma_grows_transitive,
    lemma_updated_grows,
    lemma_updated_wf,
    StoreView,
};
use crate::events::{all_chat_consistent, BusView, EventView};
use crate::service::event_loop::errors::EventLoopError;
use crate::service::event_loop::{
    after_event,
    after_post_slack_alert,
    after_create_chart,
    after_send,
    after_update,
    amended,
    arrived,
    changed,
    lemma_arrival_weight,
    lemma_bus_weight_first,
    lemma_event_weight,
    lemma_update_amends,
    received,
    run,
    run_weight,
    stopped,
    wants_chart,
    with_chart,
    Handled,
    Replies,
    RowChange,
};
use crate::service::prometheus::errors::PrometheusServiceError;
use crate::service::slack::errors::SlackServiceError;
use crate::service::slack::PostedMessage;
use crate::service::ServiceView;

verus! {

/// A service whose store is well formed, and whose rows and events all know
/// their chat message by channel and timestamp together or not at all.
pub open spec fn consistent(service: ServiceView) -> bool {
    &&& service.store.wf()
    &&& service.store.chat_consistent()
    &&& all_chat_consistent(service.bus.pending)
}

/// Whether `later` holds the rows of `earlier` in the state they had: no
/// row has gone from firing to resolved or back.
pub open spec fn same_states(earlier: StoreView, later: StoreView) -> bool {
    &&& earlier.rows.len() <= later.rows.len()
    &&& forall|i: int|
        0 <= i < earlier.rows.len() ==> (#[trigger] later.rows[i]).resolved
            == earlier.rows[i].resolved
}

/// What a write of the orchestrator does to the store: the row it names
/// is there afterwards with the change and the time of the write, and with
/// nothing else touched; every other row is as it was. The store stays well
/// formed, keeps its rows and what was fixed at their creation, and no row
/// changes between firing and resolved.
pub proof fn lemma_update_changes_one_row(
    service: ServiceView,
    alert_id: int,
    change: RowChange,
    now: int,
)
    requires
        service.store.wf(),
    ensures
        ({
            let after = after_update(service, alert_id, change, now);
            &&& after.service.store.wf()
            &&& after.service.bus == service.bus
            &&& after.service.shutdown == service.shutdown
            &&& service.store.grows_into(after.service.store)
            &&& same_states(service.store, after.service.store)
            &&& after.result is Ok <==> service.store.has_id(alert_id)
            &&& after.result is Err ==> after.service == service
            &&& service.store.by_id(alert_id) matches Some(row) ==> after.service.store.by_id(
                alert_id,
            ) == Some(amended(row, change, now))
            &&& forall|id: int|
                id != alert_id ==> after.service.store.by_id(id) == service.store.by_id(id)
        }),
{
    if service.store.has_id(alert_id) {
        let row = service.store.by_id(alert_id)->0;
        lemma_update_amends(service.store, alert_id, change, now);
        lemma_updated_wf(service.store, changed(row, change), now);
        lemma_updated_grows(service.store, changed(row, change), now);
    }
}

proof fn lemma_update_keeps_chat_refs(service: ServiceView, alert_id: int, change: RowChange, now: int)
    requires
        consistent(service),
    ensures
        consistent(after_update(service, alert_id, change, now).service),
{
    lemma_update_changes_one_row(service, alert_id, change, now);
    if service.store.has_id(alert_id) {
        let after = after_update(service, alert_id, change, now).service.store;
        let k = service.store.index_of_id(alert_id);
        assert(service.store.rows[k].chat_ref_consistent());
        assert forall|i: int| 0 <= i < after.rows.len() implies (
        #[trigger] after.rows[i]).chat_ref_consistent() by {
            assert(service.store.rows[i].chat_ref_consistent());
        }
    }
}

proof fn lemma_send_keeps_chat_refs(service: ServiceView, event: EventView)
    requires
        consistent(service),
        event.chat_consistent(),
    ensures
        consistent(after_send(service, event).service),
        after_send(service, event).service.store == service.store,
        after_send(service, event).service.shutdown == service.shutdown,
        after_send(service, event).service.bus.closed == service.bus.closed,
        service.bus.pending.is_prefix_of(after_send(service, event).service.bus.pending),
{
    let after = after_send(service, event).service;
    assert forall|i: int| 0 <= i < after.bus.pending.len() implies (
    #[trigger] after.bus.pending[i]).chat_consistent() by {
        if i < service.bus.pending.len() {
            assert(after.bus.pending[i] == service.bus.pending[i]);
        }
    }
}

/// Channel and timestamp stay together: handling an event keeps the store
/// well formed and never leaves a row, or an event, with a channel but no
/// timestamp or a timestamp but no channel. What was on the bus stays on
/// it, in order; the flag is raised by `Shutdown` alone, and nothing but
/// the end of a run closes the bus.
pub proof fn lemma_event_keeps_chat_refs(
    service: ServiceView,
    event: EventView,
    replies: Replies,
    now: int,
)
    requires
        consistent(service),
        event.chat_consistent(),
    ensures
        consistent(after_event(service, event, replies, now).service),
        service.bus.pending.is_prefix_of(after_event(service, event, replies, now).service.bus.pending),
        after_event(service, event, replies, now).service.bus.closed == service.bus.closed,
        after_event(service, event, replies, now).service.shutdown == (service.shutdown
            || event is Shutdown),
{
    match event {
        EventView::CreateChartAndPostToSlack { alert } => {
            if wants_chart(alert) && replies.timeseries is Ok {
                if let Ok(filename) = replies.chart {
                    let change = RowChange::ChartFile(filename);
                    lemma_update_keeps_chat_refs(service, alert.id, change, now);
                    lemma_update_changes_one_row(service, alert.id, change, now);
                    let updated = after_update(service, alert.id, change, now);
                    if updated.result is Ok {
                        lemma_send_keeps_chat_refs(
                            updated.service,
                            EventView::PostSlackAlert { alert: with_chart(alert, filename@) },
                        );
                    }
                }
            } else {
                lemma_send_keeps_chat_refs(service, EventView::PostSlackAlert { alert });
            }
        },
        EventView::PostSlackAlert { alert } => {
            if let Ok(message) = replies.posted {
                let change = RowChange::ChatMessage(message);
                lemma_update_keeps_chat_refs(service, alert.id, change, now);
                lemma_update_changes_one_row(service, alert.id, change, now);
            }
        },
        _ => {},
    }
}

/// The orchestrator never deletes a row, never changes what was fixed at a
/// row's creation, and never moves a row between firing and resolved,
/// whatever event it handles and whatever the outside services answer.
pub proof fn lemma_event_grows(service: ServiceView, event: EventView, replies: Replies, now: int)
    requires
        service.store.wf(),
    ensures
        service.store.grows_into(after_event(service, event, replies, now).service.store),
        same_states(service.store, after_event(service, event, replies, now).service.store),
        after_event(service, event, replies, now).service.store.wf(),
{
    match event {
        EventView::CreateChartAndPostToSlack { alert } => {
            if wants_chart(alert) && replies.timeseries is Ok {
                if let Ok(filename) = replies.chart {
                    lemma_update_changes_one_row(
                        service,
                        alert.id,
                        RowChange::ChartFile(filename),
                        now,
                    );
                }
            }
        },
        EventView::PostSlackAlert { alert } => {
            if let Ok(message) = replies.posted {
                lemma_update_changes_one_row(
                    service,
                    alert.id,
                    RowChange::ChatMessage(message),
                    now,
                );
            }
        },
        _ => {},
    }
}

/// A whole run never deletes a row, never changes what was fixed at a row's
/// creation, and never moves a row between firing and resolved.
pub proof fn lemma_run_grows(
    service: ServiceView,
    replies: Replies,
    arrivals: Seq<EventView>,
    now: int,
)
    requires
        service.store.wf(),
    ensures
        service.store.grows_into(run(service, replies, arrivals, now).service.store),
        same_states(service.store, run(service, replies, arrivals, now).service.store),
        run(service, replies, arrivals, now).service.store.wf(),
    decreases run_weight(service, arrivals),
{
    if service.bus.pending.len() > 0 {
        let event = service.bus.pending[0];
        let next = after_event(received(service), event, replies, now).service;
        lemma_event_grows(received(service), event, replies, now);
        if !(event is Shutdown) {
            lemma_bus_weight_first(service.bus.pending);
            lemma_event_weight(received(service), event, replies, now);
            lemma_run_grows(next, replies, arrivals, now);
            lemma_grows_transitive(
                service.store,
                next.store,
                run(next, replies, arrivals, now).service.store,
            );
        }
    } else if arrivals.len() > 0 {
        lemma_arrival_weight(service, arrivals);
        lemma_run_grows(arrived(service, arrivals[0]), replies, arrivals.drop_first(), now);
    }
}

/// Once the chat has answered the post of a stored alert, the alert's row
/// holds the channel and the timestamp of the message, both, and the time
/// of the write. Everything else of the row is as the store held it,
/// whatever the copy of the alert in the event said: a row that was
/// resolved in the meantime stays resolved.
pub proof fn lemma_post_sets_channel_and_timestamp(
    service: ServiceView,
    alert: AlertView,
    message: PostedMessage,
    now: int,
)
    requires
        service.store.wf(),
        service.store.has_id(alert.id),
    ensures
        ({
            let before = service.store.by_id(alert.id)->0;
            let after = after_post_slack_alert(service, alert, Ok(message), now);
            &&& after.result is Ok
            &&& after.service.store.by_id(alert.id) == Some(
                AlertView {
                    slack_channel: Some(message.channel@),
                    slack_ts: Some(message.ts@),
                    updated_at: now,
                    ..before
                },
            )
            &&& after.service.store.by_id(alert.id)->0.resolved == before.resolved
            &&& after.service.store.by_id(alert.id)->0.chart_filename == before.chart_filename
        }),
{
    lemma_update_changes_one_row(service, alert.id, RowChange::ChatMessage(message), now);
}

/// Once an alert that asks for a chart was charted, its row holds the file
/// of the chart and the time of the write. Everything else of the row is as
/// the store held it: its state and its chat message are untouched. The
/// alert goes on to be posted as the event carried it, with the file of its
/// chart.
pub proof fn lemma_chart_sets_the_file_alone(
    service: ServiceView,
    alert: AlertView,
    filename: String,
    now: int,
)
    requires
        service.store.wf(),
        service.store.has_id(alert.id),
        !service.bus.closed,
        wants_chart(alert),
    ensures
        ({
            let before = service.store.by_id(alert.id)->0;
            let after = after_create_chart(
                service,
                alert,
                Ok::<(), PrometheusServiceError>(()),
                Ok(filename),
                now,
            );
            &&& after.result is Ok
            &&& after.service.store.by_id(alert.id) == Some(
                AlertView { chart_filename: Some(filename@), updated_at: now, ..before },
            )
            &&& after.service.bus.pending == service.bus.pending.push(
                EventView::PostSlackAlert { alert: with_chart(alert, filename@) },
            )
        }),
{
    lemma_update_changes_one_row(service, alert.id, RowChange::ChartFile(filename), now);
}

proof fn lemma_arrival_keeps_chat_refs(service: ServiceView, arrivals: Seq<EventView>)
    requires
        consistent(service),
        all_chat_consistent(arrivals),
        arrivals.len() > 0,
    ensures
        consistent(arrived(service, arrivals[0])),
        all_chat_consistent(arrivals.drop_first()),
        arrived(service, arrivals[0]).shutdown == service.shutdown,
        arrived(service, arrivals[0]).store == service.store,
{
    lemma_send_keeps_chat_refs(service, arrivals[0]);
    assert forall|i: int| 0 <= i < arrivals.drop_first().len() implies (
    #[trigger] arrivals.drop_first()[i]).chat_consistent() by {
        assert(arrivals.drop_first()[i] == arrivals[i + 1]);
    }
}

/// The run of a service keeps it consistent, ends with the bus closed, and
/// ends in one of two ways: in good order with the flag raised, or with
/// `ChannelClosed` on an empty bus and the flag as it was. No failure of a
/// handler ends it.
pub proof fn lemma_run_ends(
    service: ServiceView,
    replies: Replies,
    arrivals: Seq<EventView>,
    now: int,
)
    requires
        consistent(service),
        all_chat_consistent(arrivals),
    ensures
        ({
            let end = run(service, replies, arrivals, now);
            &&& consistent(end.service)
            &&& end.service.bus.closed
            &&& end.result is Ok ==> end.service.shutdown
            &&& end.result is Err ==> {
                &&& end.result == Err::<(), EventLoopError>(EventLoopError::ChannelClosed)
                &&& end.service.bus.pending.len() == 0
                &&& end.service.shutdown == service.shutdown
            }
        }),
    decreases run_weight(service, arrivals),
{
    if service.bus.pending.len() > 0 {
        let event = service.bus.pending[0];
        let next = after_event(received(service), event, replies, now).service;
        assert(consistent(received(service))) by {
            assert forall|i: int| 0 <= i < received(service).bus.pending.len() implies (
            #[trigger] received(service).bus.pending[i]).chat_consistent() by {
                assert(received(service).bus.pending[i] == service.bus.pending[i + 1]);
            }
        }
        lemma_event_keeps_chat_refs(received(service), event, replies, now);
        if !(event is Shutdown) {
            lemma_bus_weight_first(service.bus.pending);
            lemma_event_weight(received(service), event, replies, now);
            lemma_run_ends(next, replies, arrivals, now);
        }
    } else if arrivals.len() > 0 {
        lemma_arrival_weight(service, arrivals);
        lemma_arrival_keeps_chat_refs(service, arrivals);
        lemma_run_ends(arrived(service, arrivals[0]), replies, arrivals.drop_first(), now);
    }
}

/// When the oldest event on the bus is `Shutdown`, the run ends in good
/// order at once. The flag is raised and the bus closed; the store is as it
/// was, everything behind the shutdown is still on the bus, unhandled, and
/// nothing that was still to arrive has come.
pub proof fn lemma_shutdown_ends_the_run(
    service: ServiceView,
    replies: Replies,
    arrivals: Seq<EventView>,
    now: int,
)
    requires
        service.bus.pending.len() > 0,
        service.bus.pending[0] is Shutdown,
    ensures
        run(service, replies, arrivals, now) == (Handled {
            service: ServiceView {
                store: service.store,
                bus: BusView { pending: service.bus.pending.drop_first(), closed: true },
                shutdown: true,
            },
            result: Ok(()),
        }),
{
}

/// What is behind a shutdown event on the bus is never handled, and what
/// has not arrived by then never comes. Of two services that differ only in
/// what is behind the first shutdown on their buses, and whatever is still
/// to arrive at either, the runs end alike: in good order, with the same
/// store. What was behind the shutdown is still on the bus afterwards, in
/// order and ahead of anything sent during the run.
pub proof fn lemma_nothing_behind_shutdown_is_handled(
    service: ServiceView,
    before: Seq<EventView>,
    behind: Seq<EventView>,
    other: Seq<EventView>,
    replies: Replies,
    arrivals: Seq<EventView>,
    other_arrivals: Seq<EventView>,
    now: int,
)
    requires
        forall|i: int| 0 <= i < before.len() ==> !(#[trigger] before[i] is Shutdown),
        service.bus.pending == before + seq![EventView::Shutdown] + behind,
    ensures
        ({
            let twin = ServiceView {
                bus: BusView { pending: before + seq![EventView::Shutdown] + other, ..service.bus },
                ..service
            };
            let end = run(service, replies, arrivals, now);
            let twin_end = run(twin, replies, other_arrivals, now);
            &&& end.result is Ok
            &&& end.service.shutdown
            &&& end.service.store == twin_end.service.store
            &&& end.result == twin_end.result
            &&& behind.is_prefix_of(end.service.bus.pending)
        }),
    decreases before.len(),
{
    let twin = ServiceView {
        bus: BusView { pending: before + seq![EventView::Shutdown] + other, ..service.bus },
        ..service
    };
    let pending = service.bus.pending;
    let twin_pending = twin.bus.pending;
    if before.len() == 0 {
        assert(pending[0] is Shutdown);
        assert(twin_pending[0] is Shutdown);
        assert(pending.drop_first() =~= behind);
    } else {
        let event = before[0];
        assert(pending[0] == event);
        assert(twin_pending[0] == event);
        let rest = before.drop_first();
        assert(received(service).bus.pending =~= rest + seq![EventView::Shutdown] + behind);
        assert(received(twin).bus.pending =~= rest + seq![EventView::Shutdown] + other);
        let next = after_event(received(service), event, replies, now).service;
        let twin_next = after_event(received(twin), event, replies, now).service;
        lemma_event_appends(received(service), event, replies, now);
        lemma_event_appends(received(twin), event, replies, now);
        lemma_event_ignores_bus(received(service), received(twin), event, replies, now);
        let sent = sent_by(received(service), event, replies, now);
        let next_behind = behind + sent;
        let next_other = other + sent;
        assert(next.bus.pending =~= rest + seq![EventView::Shutdown] + next_behind);
        assert(twin_next.bus.pending =~= rest + seq![EventView::Shutdown] + next_other);
        assert forall|i: int| 0 <= i < rest.len() implies !(#[trigger] rest[i] is Shutdown) by {
            assert(rest[i] == before[i + 1]);
        }
        lemma_nothing_behind_shutdown_is_handled(
            next,
            rest,
            next_behind,
            next_other,
            replies,
            arrivals,
            other_arrivals,
            now,
        );
        let twin_after = ServiceView {
            bus: BusView { pending: rest + seq![EventView::Shutdown] + next_other, ..next.bus },
            ..next
        };
        assert(twin_after == twin_next);
    }
}

/// What handling `event` sends: the events that it adds to the bus.
pub open spec fn sent_by(service: ServiceView, event: EventView, replies: Replies, now: int) -> Seq<
    EventView,
> {
    let after = after_event(service, event, replies, now).service;
    after.bus.pending.subrange(service.bus.pending.len() as int, after.bus.pending.len() as int)
}

/// Handling an event adds to the end of the bus and takes nothing off it.
proof fn lemma_event_appends(service: ServiceView, event: EventView, replies: Replies, now: int)
    ensures
        after_event(service, event, replies, now).service.bus.pending == service.bus.pending
            + sent_by(service, event, replies, now),
        after_event(service, event, replies, now).service.bus.closed == service.bus.closed,
{
    let after = after_event(service, event, replies, now).service;
    assert(after.bus.pending =~= service.bus.pending + sent_by(service, event, replies, now));
}

/// How an event is handled does not depend on what waits on the bus.
proof fn lemma_event_ignores_bus(
    service: ServiceView,
    twin: ServiceView,
    event: EventView,
    replies: Replies,
    now: int,
)
    requires
        twin.store == service.store,
        twin.shutdown == service.shutdown,
        twin.bus.closed == service.bus.closed,
    ensures
        ({
            let after = after_event(service, event, replies, now);
            let twin_after = after_event(twin, event, replies, now);
            &&& after.result == twin_after.result
            &&& after.service.store == twin_after.service.store
            &&& after.service.shutdown == twin_after.service.shutdown
            &&& sent_by(service, event, replies, now) == sent_by(twin, event, replies, now)
        }),
{
    let after = after_event(service, event, replies, now);
    let twin_after = after_event(twin, event, replies, now);
    assert(sent_by(service, event, replies, now) =~= sent_by(twin, event, replies, now));
}

/// The update of an alert that was never posted fails with
/// `MissingTimestamp`, changes nothing, and the run goes on with the next
/// event as if the update had never been asked for.
pub proof fn lemma_update_without_post(
    service: ServiceView,
    alert_id: int,
    replies: Replies,
    arrivals: Seq<EventView>,
    now: int,
)
    requires
        service.bus.pending.len() > 0,
        service.bus.pending[0] == (EventView::UpdateSlackAlert { alert_id }),
        service.store.by_id(alert_id) matches Some(row) && row.slack_ts is None,
    ensures
        after_event(received(service), service.bus.pending[0], replies, now) == (Handled {
            service: received(service),
            result: Err(EventLoopError::SlackError(SlackServiceError::MissingTimestamp)),
        }),
        run(service, replies, arrivals, now) == run(received(service), replies, arrivals, now),
{
}

/// The service after the chart step and the post of `alert`, on a bus that
/// held nothing else: the row of the alert knows its message.
proof fn lemma_chart_then_post(
    service: ServiceView,
    alert: AlertView,
    message: PostedMessage,
    replies: Replies,
    now: int,
) -> (posted: ServiceView)
    requires
        service.store.wf(),
        service.store.has_id(alert.id),
        !service.bus.closed,
        service.bus.pending == seq![EventView::CreateChartAndPostToSlack { alert }],
        replies.posted == Ok::<PostedMessage, SlackServiceError>(message),
        !(wants_chart(alert) && replies.timeseries is Ok && replies.chart is Err),
    ensures
        forall|arrivals: Seq<EventView>| #[trigger]
            run(service, replies, arrivals, now) == run(posted, replies, arrivals, now),
        posted.store.wf(),
        posted.bus == (BusView { pending: Seq::empty(), closed: false }),
        posted.shutdown == service.shutdown,
        posted.store.by_id(alert.id) matches Some(row) && row.slack_channel == Some(
            message.channel@,
        ) && row.slack_ts == Some(message.ts@),
{
    let event = service.bus.pending[0];
    let start = received(service);
    assert(start.bus.pending =~= Seq::<EventView>::empty());
    let charted = if wants_chart(alert) && replies.timeseries is Ok {
        with_chart(alert, replies.chart->Ok_0@)
    } else {
        alert
    };
    if wants_chart(alert) && replies.timeseries is Ok {
        lemma_update_changes_one_row(
            start,
            alert.id,
            RowChange::ChartFile(replies.chart->Ok_0),
            now,
        );
    }
    let first = after_event(start, event, replies, now);
    assert(first.service.bus.pending =~= seq![EventView::PostSlackAlert { alert: charted }]);
    assert(first.service.store.wf());
    assert(first.service.store.has_id(alert.id));
    let posting = received(first.service);
    assert(posting.bus.pending =~= Seq::<EventView>::empty());
    lemma_update_changes_one_row(posting, alert.id, RowChange::ChatMessage(message), now);
    let second = after_event(posting, first.service.bus.pending[0], replies, now);
    assert(second.service.bus.pending =~= Seq::<EventView>::empty());
    assert forall|arrivals: Seq<EventView>| #[trigger]
        run(service, replies, arrivals, now) == run(second.service, replies, arrivals, now) by {
        assert(run(first.service, replies, arrivals, now) == run(
            second.service,
            replies,
            arrivals,
            now,
        ));
        assert(run(service, replies, arrivals, now) == run(first.service, replies, arrivals, now));
    }
    second.service
}

/// A stored alert that is sent off to be charted and posted, on a bus that
/// holds nothing else and with nothing more to come, ends up with the
/// channel and the timestamp of its message in its row, both, provided the
/// chat takes the post and charting does not fail.
pub proof fn lemma_posted_alert_converges(
    service: ServiceView,
    alert: AlertView,
    message: PostedMessage,
    replies: Replies,
    now: int,
)
    requires
        service.store.wf(),
        service.store.has_id(alert.id),
        !service.bus.closed,
        service.bus.pending == seq![EventView::CreateChartAndPostToSlack { alert }],
        replies.posted == Ok::<PostedMessage, SlackServiceError>(message),
        !(wants_chart(alert) && replies.timeseries is Ok && replies.chart is Err),
    ensures
        ({
            let end = run(service, replies, Seq::empty(), now);
            &&& end.service.store.by_id(alert.id) matches Some(row)
            &&& row.slack_channel == Some(message.channel@)
            &&& row.slack_ts == Some(message.ts@)
            &&& end.service.bus.pending.len() == 0
        }),
{
    let posted = lemma_chart_then_post(service, alert, message, replies, now);
    assert(run(service, replies, Seq::empty(), now) == run(posted, replies, Seq::empty(), now));
    assert(run(posted, replies, Seq::empty(), now).service == stopped(posted));
}

/// A stored alert that is sent off to be charted and posted, with a
/// shutdown arriving once the bus has run empty: the orchestrator charts
/// the alert, posts it, takes the shutdown and ends in good order, and the
/// row of the alert holds the channel and the timestamp of its message,
/// both. This holds provided the chat takes the post and charting does not
/// fail.
pub proof fn lemma_posted_alert_converges_before_shutdown(
    service: ServiceView,
    alert: AlertView,
    message: PostedMessage,
    replies: Replies,
    arrivals: Seq<EventView>,
    now: int,
)
    requires
        service.store.wf(),
        service.store.has_id(alert.id),
        !service.bus.closed,
        service.bus.pending == seq![EventView::CreateChartAndPostToSlack { alert }],
        arrivals.len() > 0,
        arrivals[0] is Shutdown,
        replies.posted == Ok::<PostedMessage, SlackServiceError>(message),
        !(wants_chart(alert) && replies.timeseries is Ok && replies.chart is Err),
    ensures
        ({
            let end = run(service, replies, arrivals, now);
            &&& end.result is Ok
            &&& end.service.shutdown
            &&& end.service.store.by_id(alert.id) matches Some(row)
            &&& row.slack_channel == Some(message.channel@)
            &&& row.slack_ts == Some(message.ts@)
            &&& end.service.bus.pending.len() == 0
        }),
{
    let posted = lemma_chart_then_post(service, alert, message, replies, now);
    assert(run(service, replies, arrivals, now) == run(posted, replies, arrivals, now));
    let waiting = arrived(posted, arrivals[0]);
    assert(waiting.bus.pending =~= seq![arrivals[0]]);
    assert(waiting.bus.pending.drop_first() =~= Seq::<EventView>::empty());
    lemma_shutdown_ends_the_run(waiting, replies, arrivals.drop_first(), now);
    assert(run(posted, replies, arrivals, now) == run(
        waiting,
        replies,
        arrivals.drop_first(),
        now,
    ));
}

} // verus!
