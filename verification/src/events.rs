//! The orchestrator's units of work and the bus that carries them.
use vstd::prelude::*;
use crate::db::models::{Alert, AlertView};

verus! {

/// A unit of work for the orchestrator.
#[derive(Debug)]
pub enum Event {
    /// Chart the alert if it can be charted, then follow up with
    /// `PostSlackAlert`. Where no chart can be had, the alert is posted
    /// without one.
    CreateChartAndPostToSlack { alert: Alert },
    /// Post a new chat message for the alert.
    PostSlackAlert { alert: Alert },
    /// Read the alert with this id from the store and bring its chat
    /// message up to date.
    UpdateSlackAlert { alert_id: i64 },
    /// Stop the orchestrator.
    Shutdown,
}

/// The abstract value of an [`Event`].
pub enum EventView {
    CreateChartAndPostToSlack { alert: AlertView },
    PostSlackAlert { alert: AlertView },
    UpdateSlackAlert { alert_id: int },
    Shutdown,
}

impl EventView {
    /// The alert that the event carries knows its chat message by channel
    /// and timestamp together, or not at all.
    pub open spec fn chat_consistent(self) -> bool {
        match self {
            EventView::CreateChartAndPostToSlack { alert } => alert.chat_ref_consistent(),
            EventView::PostSlackAlert { alert } => alert.chat_ref_consistent(),
            _ => true,
        }
    }
}

/// Every event of `events` is chat-consistent.
pub open spec fn all_chat_consistent(events: Seq<EventView>) -> bool {
    forall|i: int| 0 <= i < events.len() ==> (#[trigger] events[i]).chat_consistent()
}

impl View for Event {
    type V = EventView;

    open spec fn view(&self) -> EventView {
        match self {
            Event::CreateChartAndPostToSlack { alert } => EventView::CreateChartAndPostToSlack {
                alert: alert@,
            },
            Event::PostSlackAlert { alert } => EventView::PostSlackAlert { alert: alert@ },
            Event::UpdateSlackAlert { alert_id } => EventView::UpdateSlackAlert {
                alert_id: *alert_id as int,
            },
            Event::Shutdown => EventView::Shutdown,
        }
    }
}

/// The events as abstract values.
pub open spec fn events_view(events: Seq<Event>) -> Seq<EventView> {
    Seq::new(events.len(), |i: int| events[i]@)
}

/// An event that could not be sent because the bus is closed.
#[derive(Debug)]
pub struct SendError(pub Event);

/// The abstract value of the bus: the events sent and not yet received,
/// oldest first, and whether the receiving end is gone.
pub struct BusView {
    pub pending: Seq<EventView>,
    pub closed: bool,
}

/// The event bus: an ordered queue from many senders to one receiver.
#[derive(Debug)]
pub struct EventBus {
    pending: Vec<Event>,
    closed: bool,
}

impl View for EventBus {
    type V = BusView;

    closed spec fn view(&self) -> BusView {
        BusView { pending: events_view(self.pending@), closed: self.closed }
    }
}

impl EventBus {
    /// An open bus with nothing on it.
    pub fn new() -> (bus: EventBus)
        ensures
            bus@ == (BusView { pending: Seq::empty(), closed: false }),
    {
        let bus = EventBus { pending: Vec::new(), closed: false };
        assert(bus@.pending =~= Seq::empty());
        bus
    }

    /// Puts `event` behind everything sent before it. Fails, handing the
    /// event back, when the bus is closed.
    pub fn send(&mut self, event: Event) -> (sent: Result<(), SendError>)
        ensures
            sent is Ok <==> !old(self)@.closed,
            sent is Ok ==> final(self)@ == (BusView {
                pending: old(self)@.pending.push(event@),
                closed: false,
            }),
            sent matches Err(e) ==> e.0 == event && final(self)@ == old(self)@,
    {
        if self.closed {
            Err(SendError(event))
        } else {
            self.pending.push(event);
            assert(self@.pending =~= old(self)@.pending.push(event@));
            Ok(())
        }
    }

    /// Takes the oldest event off the bus; `None` once nothing is left.
    pub fn recv(&mut self) -> (received: Option<Event>)
        ensures
            received is Some <==> old(self)@.pending.len() > 0,
            received matches Some(event) ==> event@ == old(self)@.pending[0] && final(self)@ == (
            BusView { pending: old(self)@.pending.drop_first(), closed: old(self)@.closed }),
            received is None ==> final(self)@ == old(self)@,
    {
        if self.pending.len() == 0 {
            None
        } else {
            let event = self.pending.remove(0);
            assert(self@.pending =~= old(self)@.pending.drop_first());
            Some(event)
        }
    }

    /// Closes the bus: what is on it stays undelivered, and nothing more can
    /// be sent.
    pub fn close(&mut self)
        ensures
            final(self)@ == (BusView { pending: old(self)@.pending, closed: true }),
    {
        self.closed = true;
    }

    /// How many events wait on the bus.
    pub fn len(&self) -> (n: usize)
        ensures
            n == self@.pending.len(),
    {
        self.pending.len()
    }

    pub fn is_closed(&self) -> (closed: bool)
        ensures
            closed == self@.closed,
    {
        self.closed
    }
}

} // verus!
