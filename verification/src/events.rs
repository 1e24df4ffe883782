//! What happens in the host: the events, the queue they wait in, and
//! which of them plugins hear of.

use std::collections::VecDeque;
use vstd::prelude::*;
use crate::clock::Moment;
use crate::protocol::EventCategory;

verus! {

/// A reading that comes with a telemetry event.
#[derive(Debug, Clone, PartialEq, Eq)]
pub enum TelemetryValue {
    /// A floating-point number, as the 64 bits that stand for it.
    Float(u64),
    Int(i64),
    Text(String),
}

/// An event of the host. `K` is what a key press is to the terminal.
#[derive(Debug, Clone, PartialEq, Eq)]
pub enum Event<K> {
    /// Time has passed. Every module hears of it.
    Tick { now: Moment },
    /// A key was pressed. The module that shows hears of it.
    Key(K),
    /// The terminal has another size. Every module hears of it.
    Resize { cols: u16, rows: u16 },
    /// The host is to end.
    Quit,
    /// A module shows now. That module hears of it.
    ModuleActivated { id: String },
    /// A module shows no more. That module hears of it.
    ModuleDeactivated { id: String },
    /// A reading of some source.
    Telemetry { source: String, key: String, value: TelemetryValue },
    /// An event of an extension.
    Custom { tag: String, payload: String },
}

/// The tag under which plugins hear that a module shows.
pub const MODULE_ACTIVATED_TAG: &'static str = "module.activated";

/// The tag under which plugins hear that a module shows no more.
pub const MODULE_DEACTIVATED_TAG: &'static str = "module.deactivated";

/// The category and the tag under which plugins hear of an event.
/// They hear of neither key presses nor the end of the host.
pub open spec fn plugin_route<K>(event: Event<K>) -> Option<(EventCategory, Option<Seq<char>>)> {
    match event {
        Event::Tick { .. } => Some((EventCategory::Tick, None)),
        Event::Resize { .. } => Some((EventCategory::Resize, None)),
        Event::ModuleActivated { .. } => Some(
            (EventCategory::ModuleLifecycle, Some(MODULE_ACTIVATED_TAG@)),
        ),
        Event::ModuleDeactivated { .. } => Some(
            (EventCategory::ModuleLifecycle, Some(MODULE_DEACTIVATED_TAG@)),
        ),
        Event::Telemetry { .. } => Some((EventCategory::Telemetry, None)),
        Event::Custom { tag, .. } => Some((EventCategory::Custom, Some(tag@))),
        Event::Key(_) => None,
        Event::Quit => None,
    }
}

/// The category and the tag under which plugins hear of an event.
pub fn map_event_for_plugins<K>(event: &Event<K>) -> (route: Option<
    (EventCategory, Option<String>),
>)
    ensures
        match route {
            Some((category, tag)) => plugin_route(*event) == Some(
                (
                    category,
                    match tag {
                        Some(t) => Some(t@),
                        None => None,
                    },
                ),
            ),
            None => plugin_route(*event) is None,
        },
{
    match event {
        Event::Tick { .. } => Some((EventCategory::Tick, None)),
        Event::Resize { .. } => Some((EventCategory::Resize, None)),
        Event::ModuleActivated { .. } => Some(
            (EventCategory::ModuleLifecycle, Some(MODULE_ACTIVATED_TAG.to_owned())),
        ),
        Event::ModuleDeactivated { .. } => Some(
            (EventCategory::ModuleLifecycle, Some(MODULE_DEACTIVATED_TAG.to_owned())),
        ),
        Event::Telemetry { .. } => Some((EventCategory::Telemetry, None)),
        Event::Custom { tag, .. } => Some((EventCategory::Custom, Some(tag.clone()))),
        Event::Key(_) => None,
        Event::Quit => None,
    }
}

/// The queue in which events wait: first in, first out.
pub struct EventBus<K> {
    queue: VecDeque<Event<K>>,
}

impl<K> EventBus<K> {
    /// The events that wait, oldest first.
    pub closed spec fn pending(&self) -> Seq<Event<K>> {
        self.queue@
    }

    /// An empty queue.
    pub fn new() -> (bus: EventBus<K>)
        ensures
            bus.pending().len() == 0,
    {
        EventBus { queue: VecDeque::new() }
    }

    /// Puts an event at the end of the queue.
    pub fn publish(&mut self, event: Event<K>)
        ensures
            final(self).pending() == old(self).pending().push(event),
    {
        self.queue.push_back(event);
    }

    /// Takes every event out of the queue, oldest first.
    pub fn drain(&mut self) -> (events: Vec<Event<K>>)
        ensures
            events@ == old(self).pending(),
            final(self).pending().len() == 0,
    {
        let mut events: Vec<Event<K>> = Vec::new();
        loop
            invariant
                events@ + self.queue@ == old(self).queue@,
            ensures
                events@ == old(self).queue@,
                self.queue@.len() == 0,
            decreases self.queue@.len(),
        {
            let ghost before = self.queue@;
            let ghost taken = events@;
            match self.queue.pop_front() {
                Some(event) => {
                    events.push(event);
                    proof {
                        assert(events@ + self.queue@ =~= taken + before);
                    }
                },
                None => {
                    proof {
                        assert(events@ =~= events@ + self.queue@);
                    }
                    break ;
                },
            }
        }
        events
    }

    /// Whether an event waits.
    pub fn has_pending(&self) -> (waiting: bool)
        ensures
            waiting == (self.pending().len() > 0),
    {
        self.queue.len() > 0
    }
}

impl<K> Default for EventBus<K> {
    fn default() -> (bus: EventBus<K>)
        ensures
            bus.pending().len() == 0,
    {
        EventBus::new()
    }
}

} // verus!
