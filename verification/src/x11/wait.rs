//! Waiting for a selection's owner to answer.

use crate::x11::protocol::{Event, Polled, SelectionNotifyEvent, SelectionRequestEvent};
use vstd::prelude::*;

verus! {

/// How many times a wait for an answer looks for an event before it gives up.
pub const NOTIFY_POLLS: u32 = 25;

/// A wait for the answer to a request.
#[derive(Debug, Clone, Copy, PartialEq, Eq, Structural)]
pub struct NotifyWait {
    /// The target that was asked for.
    pub target: u32,
    /// The property that the answer was to be put into.
    pub property: u32,
    /// How many times the wait may still look for an event.
    pub polls_left: u32,
}

/// What an event means to a wait.
#[derive(Debug, Clone, Copy, PartialEq, Eq, Structural)]
pub enum Waited {
    /// It is the answer.
    Found(SelectionNotifyEvent),
    /// Another client asks for our content meanwhile.
    Request(SelectionRequestEvent),
    /// Nothing: it is dropped.
    Nothing,
}

impl NotifyWait {
    /// Whether a notification answers the request: it names the target or the property.
    pub open spec fn answered_by(self, notify: SelectionNotifyEvent) -> bool {
        notify.target == self.target || notify.property == self.property
    }

    /// What was found out by looking for an event.
    pub open spec fn sees(self, polled: Polled) -> Waited {
        match polled {
            Polled::Event(Event::SelectionNotify(notify)) => {
                if self.answered_by(notify) {
                    Waited::Found(notify)
                } else {
                    Waited::Nothing
                }
            },
            Polled::Event(Event::SelectionRequest(request)) => Waited::Request(request),
            _ => Waited::Nothing,
        }
    }

    /// The wait once it has looked for an event.
    pub open spec fn polled(self) -> NotifyWait {
        NotifyWait { polls_left: (self.polls_left - 1) as u32, ..self }
    }

    /// A wait for the answer to a request for `target` into `property`.
    pub fn new(target: u32, property: u32) -> (wait: NotifyWait)
        ensures
            wait == (NotifyWait { target, property, polls_left: NOTIFY_POLLS }),
    {
        NotifyWait { target, property, polls_left: NOTIFY_POLLS }
    }

    /// Takes in what looking for an event gave.
    pub fn wait_for_selection_notify(&mut self, polled: Polled) -> (waited: Waited)
        requires
            old(self).polls_left > 0,
        ensures
            *final(self) == old(self).polled(),
            waited == old(self).sees(polled),
    {
        self.polls_left = self.polls_left - 1;
        match polled {
            Polled::Event(Event::SelectionNotify(notify)) => {
                if notify.target == self.target || notify.property == self.property {
                    Waited::Found(notify)
                } else {
                    Waited::Nothing
                }
            },
            Polled::Event(Event::SelectionRequest(request)) => Waited::Request(request),
            _ => Waited::Nothing,
        }
    }
}

/// A notification is the answer exactly if it names the target that was asked for or the property
/// that the answer was to go into. A request of another client is seen as such, and anything else
/// is nothing to a wait.
pub proof fn law_what_a_wait_sees(
    wait: NotifyWait,
    notify: SelectionNotifyEvent,
    request: SelectionRequestEvent,
    polled: Polled,
)
    ensures
        wait.answered_by(notify) <==> notify.target == wait.target || notify.property
            == wait.property,
        wait.sees(Polled::Event(Event::SelectionNotify(notify))) == if notify.target == wait.target
            || notify.property == wait.property {
            Waited::Found(notify)
        } else {
            Waited::Nothing
        },
        wait.sees(Polled::Event(Event::SelectionRequest(request))) == Waited::Request(request),
        !(polled matches Polled::Event(Event::SelectionNotify(_))) && !(
        polled matches Polled::Event(Event::SelectionRequest(_))) ==> wait.sees(polled)
            == Waited::Nothing,
{
}

/// A look uses up one of those that are left, and changes nothing else of a wait.
pub proof fn law_a_look_is_used_up(wait: NotifyWait)
    requires
        wait.polls_left > 0,
    ensures
        wait.polled().polls_left + 1 == wait.polls_left,
        wait.polled().target == wait.target,
        wait.polled().property == wait.property,
{
}

} // verus!
