//! The modules of the host: what a module is, and the registry that
//! keeps them, knows which one shows, and hands events on to them.

use std::marker::PhantomData;
use vstd::prelude::*;
use crate::events::Event;
use crate::hud::{HelloModule, HudContribution};
use crate::manifest::listed_before;
use crate::text::{concat2, same_text, texts};

verus! {

/// A module of the host. A module says what it is called and may take
/// note of events and put lines on the status display.
pub trait Module<K> {
    /// The identifier of the module; no two modules of a registry have
    /// the same.
    fn id(&self) -> &'static str;

    /// The name of the module as people read it.
    fn title(&self) -> &'static str;

    /// Takes note of an event.
    fn handle_event(&mut self, ev: &Event<K>);

    /// The lines the module puts on the status display.
    fn hud(&self) -> HudContribution;
}

impl<K> Module<K> for HelloModule {
    fn id(&self) -> (id: &'static str)
        ensures
            id@ == "hello"@,
    {
        "hello"
    }

    fn title(&self) -> (title: &'static str)
        ensures
            title@ == "Hello"@,
    {
        "Hello"
    }

    fn handle_event(&mut self, ev: &Event<K>) {
    }

    fn hud(&self) -> (hud: HudContribution)
        ensures
            texts(hud.left_lines@) == seq!["Tab: next module"@, "q: quit"@],
            texts(hud.right_lines@) == seq!["HMR: (planned)"@, "IMG: (planned)"@],
    {
        HelloModule::hud(self)
    }
}

/// Why the registry did not do what was asked, over plain values.
pub enum RegistryFault {
    DuplicateModule(Seq<char>),
    UnknownModule(Seq<char>),
}

/// Why the registry did not do what was asked.
#[derive(Debug, Clone, PartialEq, Eq)]
pub enum RegistryError {
    /// A module of this identifier is registered already.
    DuplicateModule(String),
    /// No module of this identifier is registered.
    UnknownModule(String),
}

impl View for RegistryError {
    type V = RegistryFault;

    open spec fn view(&self) -> RegistryFault {
        match self {
            RegistryError::DuplicateModule(id) => RegistryFault::DuplicateModule(id@),
            RegistryError::UnknownModule(id) => RegistryFault::UnknownModule(id@),
        }
    }
}

impl RegistryFault {
    /// The fault in words.
    pub open spec fn message(self) -> Seq<char> {
        match self {
            RegistryFault::DuplicateModule(id) => "duplicate module id: "@ + id,
            RegistryFault::UnknownModule(id) => "unknown module id: "@ + id,
        }
    }
}

impl RegistryError {
    /// The error in words.
    pub fn message(&self) -> (text: String)
        ensures
            text@ == self@.message(),
    {
        match self {
            RegistryError::DuplicateModule(id) => concat2("duplicate module id: ", id.as_str()),
            RegistryError::UnknownModule(id) => concat2("unknown module id: ", id.as_str()),
        }
    }
}

/// The events of a change from the module at place `from` to the one
/// at place `to`: the one shows no more, unless it is the other, and
/// the other shows.
pub open spec fn switch_events<K>(ids: Seq<Seq<char>>, from: Option<int>, to: int) -> Seq<
    (bool, Seq<char>),
> {
    if from is Some && from->0 != to {
        seq![(false, ids[from->0]), (true, ids[to])]
    } else {
        seq![(true, ids[to])]
    }
}

/// What an event says of the life of a module: whether the module
/// shows, and its identifier. Other events say nothing of it.
pub open spec fn lifecycle<K>(event: Event<K>) -> Option<(bool, Seq<char>)> {
    match event {
        Event::ModuleActivated { id } => Some((true, id@)),
        Event::ModuleDeactivated { id } => Some((false, id@)),
        _ => None,
    }
}

/// The events are those of the given changes, in order.
pub open spec fn events_are<K>(events: Seq<Event<K>>, changes: Seq<(bool, Seq<char>)>) -> bool {
    &&& events.len() == changes.len()
    &&& forall|i: int| 0 <= i < events.len() ==> lifecycle(#[trigger] events[i]) == Some(changes[i])
}

/// Whether the module at place `at` hears of an event: every module
/// hears of most events, the module that shows hears of key presses,
/// and a module hears that it shows or shows no more.
pub open spec fn hears<K>(ids: Seq<Seq<char>>, active: Option<int>, event: Event<K>, at: int) -> bool {
    match event {
        Event::Key(_) => active == Some(at),
        Event::ModuleActivated { id } => ids[at] == id@,
        Event::ModuleDeactivated { id } => ids[at] == id@,
        _ => true,
    }
}

/// The modules of the host, in the order in which they were
/// registered, and the one that shows.
pub struct ModuleRegistry<K, M> {
    modules: Vec<M>,
    ids: Vec<String>,
    active_idx: Option<usize>,
    keys: PhantomData<K>,
}

impl<K, M> ModuleRegistry<K, M> {
    #[verifier::type_invariant]
    spec fn well_kept(&self) -> bool {
        &&& self.ids@.len() == self.modules@.len()
        &&& texts(self.ids@).no_duplicates()
        &&& match self.active_idx {
            Some(i) => i < self.modules@.len(),
            None => self.modules@.len() == 0,
        }
    }

    /// The identifiers of the modules, as they were when the modules
    /// were registered.
    pub closed spec fn ids(&self) -> Seq<Seq<char>> {
        texts(self.ids@)
    }

    /// The modules.
    pub closed spec fn modules(&self) -> Seq<M> {
        self.modules@
    }

    /// The place of the module that shows.
    pub closed spec fn active_index(&self) -> Option<int> {
        match self.active_idx {
            Some(i) => Some(i as int),
            None => None,
        }
    }
}

impl<K, M: Module<K>> ModuleRegistry<K, M> {

    /// An empty registry.
    pub fn new() -> (registry: ModuleRegistry<K, M>)
        ensures
            registry.ids().len() == 0,
            registry.modules().len() == 0,
            registry.active_index() is None,
    {
        ModuleRegistry { modules: Vec::new(), ids: Vec::new(), active_idx: None, keys: PhantomData }
    }

    /// The place of the module of the given identifier.
    pub fn position(&self, id: &str) -> (place: Option<usize>)
        ensures
            self.ids().len() == self.modules().len(),
            self.ids().no_duplicates(),
            match place {
                Some(i) => i < self.ids().len() && self.ids()[i as int] == id@,
                None => !self.ids().contains(id@),
            },
    {
        proof {
            use_type_invariant(self);
        }
        let mut i: usize = 0;
        while i < self.ids.len()
            invariant
                i <= self.ids.len(),
                self.ids@.len() == self.modules@.len(),
                texts(self.ids@).no_duplicates(),
                forall|j: int| 0 <= j < i ==> self.ids@[j]@ != id@,
            decreases self.ids.len() - i,
        {
            if same_text(self.ids[i].as_str(), id) {
                return Some(i);
            }
            i += 1;
        }
        None
    }

    /// Registers a module under the identifier it gives. The first
    /// module that is registered shows.
    pub fn register(&mut self, module: M) -> (r: Result<(), RegistryError>)
        ensures
            match r {
                Ok(()) => {
                    &&& final(self).modules() == old(self).modules().push(module)
                    &&& final(self).ids().len() == old(self).ids().len() + 1
                    &&& final(self).ids().drop_last() == old(self).ids()
                    &&& !old(self).ids().contains(final(self).ids().last())
                    &&& final(self).active_index() == if old(self).active_index() is None {
                        Some(0int)
                    } else {
                        old(self).active_index()
                    }
                },
                Err(e) => {
                    &&& e matches RegistryError::DuplicateModule(id) && old(self).ids().contains(
                        id@,
                    )
                    &&& final(self).modules() == old(self).modules()
                    &&& final(self).ids() == old(self).ids()
                    &&& final(self).active_index() == old(self).active_index()
                },
            },
    {
        proof {
            use_type_invariant(&*self);
        }
        let id: String = module.id().to_owned();
        if self.position(id.as_str()).is_some() {
            return Err(RegistryError::DuplicateModule(id));
        }
        let mut whole: ModuleRegistry<K, M> = ModuleRegistry::new();
        std::mem::swap(self, &mut whole);
        let ModuleRegistry { mut modules, mut ids, active_idx, keys } = whole;
        let active: Option<usize> = match active_idx {
            Some(i) => Some(i),
            None => Some(0),
        };
        let ghost before = texts(ids@);
        modules.push(module);
        ids.push(id);
        proof {
            assert(texts(ids@) =~= before.push(id@));
            assert(texts(ids@).drop_last() =~= before);
            assert forall|a: int, b: int|
                0 <= a < texts(ids@).len() && 0 <= b < texts(ids@).len() && a
                    != b implies texts(ids@)[a] != texts(ids@)[b] by {
                if a < before.len() && b < before.len() {
                    assert(before[a] != before[b]);
                } else if a < before.len() {
                    assert(before.contains(before[a]));
                } else {
                    assert(before.contains(before[b]));
                }
            }
        }
        *self = ModuleRegistry { modules, ids, active_idx: active, keys: PhantomData };
        Ok(())
    }

    /// Shows the module of the given identifier. The events that come
    /// of it are returned: the module that showed shows no more, unless
    /// it is the same, and the module shows.
    pub fn activate(&mut self, id: &str) -> (r: Result<Vec<Event<K>>, RegistryError>)
        ensures
            final(self).modules() == old(self).modules(),
            final(self).ids() == old(self).ids(),
            match r {
                Ok(events) => {
                    &&& old(self).ids().contains(id@)
                    &&& final(self).active_index() == Some(old(self).ids().index_of(id@))
                    &&& events_are(
                        events@,
                        switch_events::<K>(
                            old(self).ids(),
                            old(self).active_index(),
                            old(self).ids().index_of(id@),
                        ),
                    )
                },
                Err(e) => {
                    &&& !old(self).ids().contains(id@)
                    &&& e@ == RegistryFault::UnknownModule(id@)
                    &&& final(self).active_index() == old(self).active_index()
                },
            },
    {
        proof {
            use_type_invariant(&*self);
        }
        match self.position(id) {
            Some(i) => {
                proof {
                    let j = self.ids().index_of(id@);
                    assert(self.ids().contains(id@));
                    assert(self.ids()[j] == id@);
                    assert(j == i);
                }
                Ok(self.switch_to(self.active_idx, i))
            },
            None => Err(RegistryError::UnknownModule(id.to_owned())),
        }
    }

    /// The module that shows.
    pub fn active(&self) -> (module: Option<&M>)
        ensures
            match module {
                Some(m) => self.active_index() is Some && *m == self.modules()[self.active_index()->0],
                None => self.active_index() is None && self.modules().len() == 0,
            },
    {
        proof {
            use_type_invariant(self);
        }
        match self.active_idx {
            Some(i) => Some(&self.modules[i]),
            None => None,
        }
    }

    /// The identifier of the module that shows.
    pub fn active_id(&self) -> (id: Option<&str>)
        ensures
            match id {
                Some(s) => self.active_index() is Some && s@ == self.ids()[self.active_index()->0],
                None => self.active_index() is None,
            },
    {
        proof {
            use_type_invariant(self);
        }
        match self.active_idx {
            Some(i) => Some(self.ids[i].as_str()),
            None => None,
        }
    }

    /// Shows the module after the one that shows, the first one after
    /// the last; an empty registry stays as it is.
    pub fn cycle_next(&mut self) -> (events: Vec<Event<K>>)
        ensures
            final(self).modules() == old(self).modules(),
            final(self).ids() == old(self).ids(),
            match old(self).active_index() {
                None => events@.len() == 0 && final(self).active_index() is None,
                Some(cur) => {
                    let next = (cur + 1) % (old(self).ids().len() as int);
                    &&& final(self).active_index() == Some(next)
                    &&& events_are(
                        events@,
                        switch_events::<K>(old(self).ids(), Some(cur), next),
                    )
                },
            },
    {
        proof {
            use_type_invariant(&*self);
        }
        match self.active_idx {
            None => Vec::new(),
            Some(cur) => {
                let len: usize = self.modules.len();
                let next: usize = if cur + 1 == len {
                    0
                } else {
                    cur + 1
                };
                proof {
                    if cur + 1 == len {
                        assert((cur + 1) % (len as int) == 0) by (nonlinear_arith)
                            requires
                                cur + 1 == len,
                                len > 0,
                        ;
                    } else {
                        assert((cur + 1) % (len as int) == cur + 1) by (nonlinear_arith)
                            requires
                                0 <= cur + 1 < len,
                        ;
                    }
                }
                self.switch_to(Some(cur), next)
            },
        }
    }

    /// Shows the module before the one that shows, the last one before
    /// the first; an empty registry stays as it is.
    pub fn cycle_prev(&mut self) -> (events: Vec<Event<K>>)
        ensures
            final(self).modules() == old(self).modules(),
            final(self).ids() == old(self).ids(),
            match old(self).active_index() {
                None => events@.len() == 0 && final(self).active_index() is None,
                Some(cur) => {
                    let next = if cur == 0 {
                        old(self).ids().len() - 1
                    } else {
                        cur - 1
                    };
                    &&& final(self).active_index() == Some(next)
                    &&& events_are(
                        events@,
                        switch_events::<K>(old(self).ids(), Some(cur), next),
                    )
                },
            },
    {
        proof {
            use_type_invariant(&*self);
        }
        match self.active_idx {
            None => Vec::new(),
            Some(cur) => {
                let next: usize = if cur == 0 {
                    self.modules.len() - 1
                } else {
                    cur - 1
                };
                self.switch_to(Some(cur), next)
            },
        }
    }

    fn switch_to(&mut self, from: Option<usize>, to: usize) -> (events: Vec<Event<K>>)
        requires
            to < old(self).ids().len(),
            from matches Some(f) ==> f < old(self).ids().len(),
        ensures
            final(self).modules() == old(self).modules(),
            final(self).ids() == old(self).ids(),
            final(self).active_index() == Some(to as int),
            events_are(
                events@,
                switch_events::<K>(
                    old(self).ids(),
                    match from {
                        Some(f) => Some(f as int),
                        None => None,
                    },
                    to as int,
                ),
            ),
    {
        proof {
            use_type_invariant(&*self);
        }
        let mut events: Vec<Event<K>> = Vec::new();
        match from {
            Some(f) => {
                if f != to {
                    events.push(Event::ModuleDeactivated { id: self.ids[f].clone() });
                }
            },
            None => {},
        }
        self.active_idx = Some(to);
        events.push(Event::ModuleActivated { id: self.ids[to].clone() });
        events
    }

    /// The identifier and the title of each module, in the order in
    /// which the modules were registered.
    pub fn list(&self) -> (pairs: Vec<(String, String)>)
        ensures
            pairs@.len() == self.ids().len(),
            forall|i: int| 0 <= i < pairs@.len() ==> (#[trigger] pairs@[i]).0@ == self.ids()[i],
    {
        proof {
            use_type_invariant(self);
        }
        let mut pairs: Vec<(String, String)> = Vec::new();
        let mut i: usize = 0;
        while i < self.modules.len()
            invariant
                self.ids@.len() == self.modules@.len(),
                i <= self.modules.len(),
                pairs@.len() == i,
                forall|j: int| 0 <= j < i ==> (#[trigger] pairs@[j]).0@ == self.ids@[j]@,
            decreases self.modules.len() - i,
        {
            let title: String = self.modules[i].title().to_owned();
            pairs.push((self.ids[i].clone(), title));
            i += 1;
        }
        pairs
    }

    /// The module of the given identifier.
    pub fn get(&self, id: &str) -> (module: Option<&M>)
        ensures
            match module {
                Some(m) => self.ids().contains(id@) && *m == self.modules()[self.ids().index_of(
                    id@,
                )],
                None => !self.ids().contains(id@),
            },
    {
        match self.position(id) {
            Some(i) => {
                proof {
                    let j = self.ids().index_of(id@);
                    assert(self.ids().contains(id@));
                    assert(self.ids()[j] == id@);
                    assert(j == i);
                }
                Some(&self.modules[i])
            },
            None => None,
        }
    }

    /// The number of modules.
    pub fn len(&self) -> (n: usize)
        ensures
            n == self.modules().len(),
            n == self.ids().len(),
    {
        proof {
            use_type_invariant(self);
        }
        self.modules.len()
    }

    /// Whether there is no module.
    pub fn is_empty(&self) -> (empty: bool)
        ensures
            empty == (self.modules().len() == 0),
    {
        self.modules.len() == 0
    }

    /// Hands an event on to the modules that hear of it, in the order
    /// in which they were registered. A module that does not hear of
    /// the event is as before; a module that hears of it is as one call
    /// of its `handle_event` with this event leaves it.
    pub fn broadcast(&mut self, event: &Event<K>)
        ensures
            final(self).ids() == old(self).ids(),
            final(self).active_index() == old(self).active_index(),
            final(self).modules().len() == old(self).modules().len(),
            forall|i: int|
                0 <= i < old(self).modules().len() && !hears(
                    old(self).ids(),
                    old(self).active_index(),
                    *event,
                    i,
                ) ==> #[trigger] final(self).modules()[i] == old(self).modules()[i],
            forall|i: int|
                #![trigger hears(old(self).ids(), old(self).active_index(), *event, i)]
                0 <= i < old(self).modules().len() && hears(
                    old(self).ids(),
                    old(self).active_index(),
                    *event,
                    i,
                ) ==> exists|told: &mut M|
                    #![trigger call_ensures(M::handle_event, (told, event), ())]
                    mut_ref_current(told) == old(self).modules()[i] && mut_ref_future(told)
                        == final(self).modules()[i] && call_ensures(
                        M::handle_event,
                        (told, event),
                        (),
                    ),
    {
        proof {
            use_type_invariant(&*self);
        }
        let mut whole: ModuleRegistry<K, M> = ModuleRegistry::new();
        std::mem::swap(self, &mut whole);
        let ModuleRegistry { mut modules, ids, active_idx, keys } = whole;
        let active: Option<usize> = active_idx;
        let ghost before = modules@;
        let ghost names = texts(ids@);
        let ghost shown: Option<int> = match active {
            Some(a) => Some(a as int),
            None => None,
        };
        let n: usize = modules.len();
        let mut i: usize = 0;
        while i < n
            invariant
                i <= n,
                n == before.len(),
                modules@.len() == n,
                ids@.len() == n,
                names == texts(ids@),
                shown == match active {
                    Some(a) => Some(a as int),
                    None => None,
                },
                forall|j: int| i <= j < n ==> modules@[j] == before[j],
                forall|j: int|
                    0 <= j < i && !hears(names, shown, *event, j) ==> modules@[j] == before[j],
                forall|j: int|
                    #![trigger hears(names, shown, *event, j)]
                    0 <= j < i && hears(names, shown, *event, j) ==> exists|told: &mut M|
                        #![trigger call_ensures(M::handle_event, (told, event), ())]
                        mut_ref_current(told) == before[j] && mut_ref_future(told) == modules@[j]
                            && call_ensures(M::handle_event, (told, event), ()),
            decreases n - i,
        {
            let wanted: bool = match event {
                Event::Key(_) => match active {
                    Some(a) => a == i,
                    None => false,
                },
                Event::ModuleActivated { id } => same_text(ids[i].as_str(), id.as_str()),
                Event::ModuleDeactivated { id } => same_text(ids[i].as_str(), id.as_str()),
                _ => true,
            };
            if wanted {
                let mut module: M = modules.remove(i);
                module.handle_event(event);
                modules.insert(i, module);
            }
            i += 1;
        }
        *self = ModuleRegistry { modules, ids, active_idx: active, keys: PhantomData };
    }
}

} // verus!
