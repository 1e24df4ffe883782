//! The set of event categories a session is subscribed to.

use vstd::prelude::*;
use crate::ordered::strictly_sorted;
use crate::permissions::category_names;
use crate::protocol::EventCategory;
use crate::text::breaks_below;

verus! {

/// A set of event categories.
#[derive(Debug, Clone, Copy, PartialEq, Eq, Structural)]
pub struct SubscriptionSet {
    custom: bool,
    module_lifecycle: bool,
    resize: bool,
    telemetry: bool,
    tick: bool,
}

/// The five categories in the ascending order of their wire names.
pub open spec fn name_order() -> Seq<EventCategory> {
    seq![
        EventCategory::Custom,
        EventCategory::ModuleLifecycle,
        EventCategory::Resize,
        EventCategory::Telemetry,
        EventCategory::Tick,
    ]
}

/// The categories of `set` in the ascending order of their wire names.
pub open spec fn in_name_order(set: Set<EventCategory>) -> Seq<EventCategory> {
    name_order().filter(|c: EventCategory| set.contains(c))
}

/// `name_order` lists the wire names in ascending order.
pub proof fn lemma_name_order_ascends()
    ensures
        strictly_sorted(category_names(name_order())),
{
    reveal_strlit("tick");
    reveal_strlit("resize");
    reveal_strlit("module_lifecycle");
    reveal_strlit("telemetry");
    reveal_strlit("custom");
    let names = category_names(name_order());
    assert(breaks_below(names[0], names[1], 0));
    assert(breaks_below(names[1], names[2], 0));
    assert(breaks_below(names[2], names[3], 0));
    assert(breaks_below(names[3], names[4], 1));
    assert(breaks_below(names[0], names[2], 0));
    assert(breaks_below(names[0], names[3], 0));
    assert(breaks_below(names[0], names[4], 0));
    assert(breaks_below(names[1], names[3], 0));
    assert(breaks_below(names[1], names[4], 0));
    assert(breaks_below(names[2], names[4], 0));
}

impl View for SubscriptionSet {
    type V = Set<EventCategory>;

    closed spec fn view(&self) -> Set<EventCategory> {
        Set::new(
            |c: EventCategory|
                match c {
                    EventCategory::Custom => self.custom,
                    EventCategory::ModuleLifecycle => self.module_lifecycle,
                    EventCategory::Resize => self.resize,
                    EventCategory::Telemetry => self.telemetry,
                    EventCategory::Tick => self.tick,
                },
        )
    }
}

impl SubscriptionSet {
    /// The empty set.
    pub fn new() -> (set: SubscriptionSet)
        ensures
            set@ == Set::<EventCategory>::empty(),
    {
        let set = SubscriptionSet {
            custom: false,
            module_lifecycle: false,
            resize: false,
            telemetry: false,
            tick: false,
        };
        assert(set@ =~= Set::<EventCategory>::empty());
        set
    }

    /// Whether `category` is in the set.
    pub fn contains(&self, category: EventCategory) -> (found: bool)
        ensures
            found == self@.contains(category),
    {
        match category {
            EventCategory::Custom => self.custom,
            EventCategory::ModuleLifecycle => self.module_lifecycle,
            EventCategory::Resize => self.resize,
            EventCategory::Telemetry => self.telemetry,
            EventCategory::Tick => self.tick,
        }
    }

    /// Puts `category` into the set.
    pub fn insert(&mut self, category: EventCategory)
        ensures
            final(self)@ == old(self)@.insert(category),
    {
        match category {
            EventCategory::Custom => {
                self.custom = true;
            },
            EventCategory::ModuleLifecycle => {
                self.module_lifecycle = true;
            },
            EventCategory::Resize => {
                self.resize = true;
            },
            EventCategory::Telemetry => {
                self.telemetry = true;
            },
            EventCategory::Tick => {
                self.tick = true;
            },
        }
        assert(self@ =~= old(self)@.insert(category));
    }

    /// Takes `category` out of the set.
    pub fn remove(&mut self, category: EventCategory)
        ensures
            final(self)@ == old(self)@.remove(category),
    {
        match category {
            EventCategory::Custom => {
                self.custom = false;
            },
            EventCategory::ModuleLifecycle => {
                self.module_lifecycle = false;
            },
            EventCategory::Resize => {
                self.resize = false;
            },
            EventCategory::Telemetry => {
                self.telemetry = false;
            },
            EventCategory::Tick => {
                self.tick = false;
            },
        }
        assert(self@ =~= old(self)@.remove(category));
    }

    /// The categories of the set in the ascending order of their wire
    /// names.
    pub fn to_vec(&self) -> (list: Vec<EventCategory>)
        ensures
            list@ == in_name_order(self@),
    {
        let ghost member = |c: EventCategory| self@.contains(c);
        let mut list: Vec<EventCategory> = Vec::new();
        proof {
            reveal_with_fuel(Seq::filter, 6);
        }
        if self.custom {
            list.push(EventCategory::Custom);
        }
        if self.module_lifecycle {
            list.push(EventCategory::ModuleLifecycle);
        }
        if self.resize {
            list.push(EventCategory::Resize);
        }
        if self.telemetry {
            list.push(EventCategory::Telemetry);
        }
        if self.tick {
            list.push(EventCategory::Tick);
        }
        proof {
            let s5 = name_order();
            let s4 = s5.drop_last();
            let s3 = s4.drop_last();
            let s2 = s3.drop_last();
            let s1 = s2.drop_last();
            let s0 = s1.drop_last();
            assert(s0.len() == 0);
            assert(s1.last() == EventCategory::Custom);
            assert(s2.last() == EventCategory::ModuleLifecycle);
            assert(s3.last() == EventCategory::Resize);
            assert(s4.last() == EventCategory::Telemetry);
            assert(s5.last() == EventCategory::Tick);
            assert(list@ =~= s5.filter(member));
        }
        list
    }
}

} // verus!
