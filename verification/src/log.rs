//! The bounded log of retained events.
//!
//! Retention is bounded: the log never holds more than [`CAP`] events. An
//! append to a full log discards the oldest event, so what is retained is
//! always the most recent `CAP` arrivals, in arrival order.
//!
//! Appending and clearing take the log exclusively and reading takes it
//! shared, so a render pass that holds the log sees one state of it from
//! beginning to end.

use std::collections::VecDeque;
use vstd::prelude::*;
use crate::event::{NotificationEvent, NotificationEventView, event_views};

verus! {

/// The most events the log retains, and the length from which the operator is
/// told that older events may be missing.
pub const CAP: usize = 30;

/// What is kept of a run of arrivals: all of it while it fits, else its last
/// `CAP` entries.
pub open spec fn retained(arrivals: Seq<NotificationEventView>) -> Seq<NotificationEventView> {
    if arrivals.len() <= CAP {
        arrivals
    } else {
        arrivals.subrange(arrivals.len() - CAP, arrivals.len() as int)
    }
}

/// The log after one more arrival.
pub open spec fn appended(
    log: Seq<NotificationEventView>,
    event: NotificationEventView,
) -> Seq<NotificationEventView> {
    retained(log.push(event))
}

/// The log after every arrival of `events`, oldest first.
pub open spec fn appended_all(
    log: Seq<NotificationEventView>,
    events: Seq<NotificationEventView>,
) -> Seq<NotificationEventView>
    decreases events.len(),
{
    if events.len() == 0 {
        log
    } else {
        appended(appended_all(log, events.drop_last()), events.last())
    }
}

/// The log after a clear-all.
pub open spec fn cleared(log: Seq<NotificationEventView>) -> Seq<NotificationEventView> {
    Seq::empty()
}

/// Ordered, capacity-bounded collection of events, oldest first. It hands out
/// shared references only, so a retained event never changes.
#[derive(Debug, PartialEq, Eq)]
pub struct NotificationLog {
    events: VecDeque<NotificationEvent>,
}

impl View for NotificationLog {
    type V = Seq<NotificationEventView>;

    closed spec fn view(&self) -> Seq<NotificationEventView> {
        event_views(self.events@)
    }
}

impl NotificationLog {
    #[verifier::type_invariant]
    spec fn within_cap(self) -> bool {
        self.events@.len() <= CAP
    }

    /// An empty log.
    pub fn new() -> (log: NotificationLog)
        ensures
            log@ == Seq::<NotificationEventView>::empty(),
    {
        let log = NotificationLog { events: VecDeque::new() };
        assert(log@ =~= Seq::<NotificationEventView>::empty());
        log
    }

    /// Adds `event` at the tail. A full log first drops its oldest event.
    pub fn append(&mut self, event: NotificationEvent)
        ensures
            final(self)@ == appended(old(self)@, event@),
            final(self)@.len() <= CAP,
            final(self)@.len() > 0,
            final(self)@.last() == event@,
    {
        proof {
            use_type_invariant(&*self);
        }
        let mut events: VecDeque<NotificationEvent> = VecDeque::new();
        core::mem::swap(&mut self.events, &mut events);
        if events.len() >= CAP {
            events.pop_front();
        }
        events.push_back(event);
        self.events = events;
        assert(self@ =~= appended(old(self)@, event@));
    }

    /// Removes every retained event.
    pub fn clear_all(&mut self)
        ensures
            final(self)@ == cleared(old(self)@),
    {
        self.events = VecDeque::new();
        assert(self@ =~= cleared(old(self)@));
    }

    /// The number of retained events.
    pub fn len(&self) -> (n: usize)
        ensures
            n == self@.len(),
            n <= CAP,
    {
        proof {
            use_type_invariant(self);
        }
        self.events.len()
    }

    /// Whether nothing is retained.
    pub fn is_empty(&self) -> (b: bool)
        ensures
            b == (self@.len() == 0),
            self@.len() <= CAP,
    {
        proof {
            use_type_invariant(self);
        }
        self.events.len() == 0
    }

    /// Whether the log has reached the cap, which is when the operator is told
    /// that older events may be missing.
    pub fn at_or_over_cap(&self) -> (b: bool)
        ensures
            b == (self@.len() >= CAP),
            self@.len() <= CAP,
    {
        proof {
            use_type_invariant(self);
        }
        self.events.len() >= CAP
    }

    /// The retained events, oldest first.
    pub fn iter(&self) -> (events: &VecDeque<NotificationEvent>)
        ensures
            event_views(events@) == self@,
            events@.len() <= CAP,
    {
        proof {
            use_type_invariant(self);
        }
        &self.events
    }

    /// The `index`-th oldest retained event, if there are that many.
    pub fn get(&self, index: usize) -> (event: Option<&NotificationEvent>)
        ensures
            index < self@.len() ==> event is Some && event->0@ == self@[index as int],
            index >= self@.len() ==> event is None,
    {
        if index < self.events.len() {
            Some(&self.events[index])
        } else {
            None
        }
    }
}

impl Default for NotificationLog {
    fn default() -> (log: NotificationLog)
        ensures
            log@ == Seq::<NotificationEventView>::empty(),
    {
        NotificationLog::new()
    }
}

} // verus!
