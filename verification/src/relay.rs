//! The relay of a streamed answer, one chunk at a time.
//!
//! The caller reads the upstream and reports each outcome as a [`ChunkEvent`];
//! [`Relay::step`] answers with what to do for the caller's client. The relay
//! holds no chunk: each one is handed on before the next is read.

use vstd::prelude::*;

verus! {

/// What one read of the upstream body gave.
#[derive(Clone, Debug, PartialEq, Eq)]
pub enum ChunkEvent {
    /// A chunk of the body.
    Data(Vec<u8>),
    /// The read failed.
    Failed,
    /// The body has ended.
    Finished,
}

/// What the relay does in answer to one event.
#[derive(Clone, Debug, PartialEq, Eq)]
pub enum RelayAction {
    /// Hand the chunk on, as it is.
    Forward(Vec<u8>),
    /// End the answer with an error, without a closing marker.
    Abort,
    /// End the answer.
    Complete,
    /// Do nothing: the answer has ended before.
    Ignore,
}

/// An event as plain values.
pub enum Event {
    Data(Seq<u8>),
    Failed,
    Finished,
}

/// An action as plain values.
pub enum Action {
    Forward(Seq<u8>),
    Abort,
    Complete,
    Ignore,
}

impl View for ChunkEvent {
    type V = Event;

    open spec fn view(&self) -> Event {
        match self {
            ChunkEvent::Data(chunk) => Event::Data(chunk@),
            ChunkEvent::Failed => Event::Failed,
            ChunkEvent::Finished => Event::Finished,
        }
    }
}

impl View for RelayAction {
    type V = Action;

    open spec fn view(&self) -> Action {
        match self {
            RelayAction::Forward(chunk) => Action::Forward(chunk@),
            RelayAction::Abort => Action::Abort,
            RelayAction::Complete => Action::Complete,
            RelayAction::Ignore => Action::Ignore,
        }
    }
}

/// One step of the relay: whether it is open afterwards, and what it does.
pub open spec fn step_of(open: bool, event: Event) -> (bool, Action) {
    if !open {
        (false, Action::Ignore)
    } else {
        match event {
            Event::Data(chunk) => (true, Action::Forward(chunk)),
            Event::Failed => (false, Action::Abort),
            Event::Finished => (false, Action::Complete),
        }
    }
}

/// Whether the relay is open after the given events, having been `open` before.
pub open spec fn open_after(open: bool, events: Seq<Event>) -> bool
    decreases events.len(),
{
    if events.len() == 0 {
        open
    } else {
        step_of(open_after(open, events.drop_last()), events.last()).0
    }
}

/// What a relay that starts open does for each of the given events.
pub open spec fn actions_of(events: Seq<Event>) -> Seq<Action> {
    Seq::new(events.len(), |i: int| step_of(open_after(true, events.take(i)), events[i]).1)
}

/// All of the first `n` events are chunks.
pub open spec fn all_data(events: Seq<Event>, n: int) -> bool {
    forall|j: int| 0 <= j < n ==> (#[trigger] events[j]) is Data
}

/// A relay that has seen nothing but chunks is still open; after anything else
/// it is closed.
pub proof fn lemma_open_after(events: Seq<Event>)
    ensures
        open_after(true, events) == all_data(events, events.len() as int),
    decreases events.len(),
{
    if events.len() > 0 {
        lemma_open_after(events.drop_last());
        if all_data(events.drop_last(), events.len() - 1) && events.last() is Data {
            assert forall|j: int| 0 <= j < events.len() implies (#[trigger] events[j]) is Data by {
                if j < events.len() - 1 {
                    assert(events.drop_last()[j] is Data);
                }
            }
        } else if !all_data(events.drop_last(), events.len() - 1) {
            let j = choose|j: int| 0 <= j < events.len() - 1 && !(#[trigger] events.drop_last()[j] is Data);
            assert(!(events[j] is Data));
        }
    }
}

/// Every chunk that arrives before the body ends or a read fails is handed on
/// as it is, at its own place in the order of arrival. The first event that is
/// no chunk ends the answer, and nothing is handed on after it.
pub proof fn lemma_relay_in_order(events: Seq<Event>, i: int)
    requires
        0 <= i < events.len(),
    ensures
        actions_of(events).len() == events.len(),
        all_data(events, i) ==> actions_of(events)[i] == match events[i] {
            Event::Data(chunk) => Action::Forward(chunk),
            Event::Failed => Action::Abort,
            Event::Finished => Action::Complete,
        },
        !all_data(events, i) ==> actions_of(events)[i] == Action::Ignore,
{
    let before = events.take(i);
    lemma_open_after(before);
    if all_data(events, i) {
        assert forall|j: int| 0 <= j < i implies (#[trigger] before[j]) is Data by {
            assert(events[j] is Data);
        }
    } else {
        let j = choose|j: int| 0 <= j < i && !(#[trigger] events[j] is Data);
        assert(!(before[j] is Data));
    }
}

/// The relay of one streamed answer.
pub struct Relay {
    open: bool,
}

impl Relay {
    /// Whether the answer is still going on.
    pub closed spec fn is_open(&self) -> bool {
        self.open
    }

    /// A relay for an answer that has just begun.
    pub fn new() -> (relay: Self)
        ensures
            relay.is_open(),
    {
        Relay { open: true }
    }

    /// Whether the answer is still going on.
    pub fn open(&self) -> (open: bool)
        ensures
            open == self.is_open(),
    {
        self.open
    }

    /// Takes the outcome of one read and says what to do with it.
    pub fn step(&mut self, event: ChunkEvent) -> (action: RelayAction)
        ensures
            (final(self).is_open(), action@) == step_of(old(self).is_open(), event@),
    {
        if !self.open {
            return RelayAction::Ignore;
        }
        match event {
            ChunkEvent::Data(chunk) => RelayAction::Forward(chunk),
            ChunkEvent::Failed => {
                self.open = false;
                RelayAction::Abort
            },
            ChunkEvent::Finished => {
                self.open = false;
                RelayAction::Complete
            },
        }
    }
}

} // verus!
