use std::sync::{Arc, Mutex};

use spud::clock::Moment;
use spud::events::{map_event_for_plugins, Event, EventBus, TelemetryValue};
use spud::hud::{HelloModule, HudContribution};
use spud::modules::{Module, ModuleRegistry, RegistryError};
use spud::protocol::EventCategory;

#[derive(Debug, Clone, Copy, PartialEq, Eq)]
struct Key(char);

struct FakeModule {
    id: &'static str,
    title: &'static str,
    events: Arc<Mutex<Vec<String>>>,
}

impl FakeModule {
    fn new(id: &'static str, title: &'static str) -> Self {
        Self {
            id,
            title,
            events: Arc::new(Mutex::new(Vec::new())),
        }
    }

    fn with_log(id: &'static str, title: &'static str, log: Arc<Mutex<Vec<String>>>) -> Self {
        Self {
            id,
            title,
            events: log,
        }
    }
}

impl Module<Key> for FakeModule {
    fn id(&self) -> &'static str {
        self.id
    }
    fn title(&self) -> &'static str {
        self.title
    }
    fn handle_event(&mut self, ev: &Event<Key>) {
        let tag = match ev {
            Event::Tick { .. } => "tick",
            Event::Key(_) => "key",
            Event::Resize { .. } => "resize",
            Event::ModuleActivated { .. } => "activated",
            Event::ModuleDeactivated { .. } => "deactivated",
            Event::Quit => "quit",
            _ => "other",
        };
        self.events
            .lock()
            .unwrap()
            .push(format!("{}:{}", self.id, tag));
    }
    fn hud(&self) -> HudContribution {
        HudContribution::default()
    }
}

fn now() -> Moment {
    Moment::from_nanos(1)
}

fn pairs(items: &[(&str, &str)]) -> Vec<(String, String)> {
    items
        .iter()
        .map(|(a, b)| (a.to_string(), b.to_string()))
        .collect()
}

#[test]
fn register_adds_module() {
    let mut reg = ModuleRegistry::new();
    reg.register(FakeModule::new("a", "Alpha")).unwrap();
    assert_eq!(reg.len(), 1);
    assert_eq!(reg.list(), pairs(&[("a", "Alpha")]));
}

#[test]
fn duplicate_id_returns_error() {
    let mut reg = ModuleRegistry::new();
    reg.register(FakeModule::new("a", "Alpha")).unwrap();
    let err = reg.register(FakeModule::new("a", "Alpha2"));
    assert!(err.is_err());
    let err = err.unwrap_err();
    assert!(err.message().contains("duplicate module id"));
    assert_eq!(err, RegistryError::DuplicateModule("a".to_string()));
    assert_eq!(err.message(), "duplicate module id: a");
    assert_eq!(reg.len(), 1);
    assert_eq!(reg.list(), pairs(&[("a", "Alpha")]));
}

#[test]
fn activate_by_id() {
    let mut reg = ModuleRegistry::new();
    reg.register(FakeModule::new("a", "Alpha")).unwrap();
    reg.register(FakeModule::new("b", "Beta")).unwrap();
    reg.activate("b").unwrap();
    assert_eq!(reg.active().unwrap().id(), "b");
}

#[test]
fn activate_invalid_id_returns_error() {
    let mut reg = ModuleRegistry::new();
    reg.register(FakeModule::new("a", "Alpha")).unwrap();
    let err = reg.activate("nope");
    assert!(err.is_err());
    let err = err.unwrap_err();
    assert!(err.message().contains("unknown module id"));
    assert_eq!(err.message(), "unknown module id: nope");
    assert_eq!(reg.active_id(), Some("a"));
}

#[test]
fn activate_emits_lifecycle_events() {
    let mut reg = ModuleRegistry::new();
    reg.register(FakeModule::new("a", "Alpha")).unwrap();
    reg.register(FakeModule::new("b", "Beta")).unwrap();
    let events = reg.activate("b").unwrap();
    assert_eq!(events.len(), 2);
    assert!(matches!(&events[0], Event::ModuleDeactivated { id } if id == "a"));
    assert!(matches!(&events[1], Event::ModuleActivated { id } if id == "b"));
    // the module that shows already is shown again, and nothing is taken away
    let events = reg.activate("b").unwrap();
    assert_eq!(
        events,
        vec![Event::ModuleActivated {
            id: "b".to_string()
        }]
    );
}

#[test]
fn first_register_auto_activates() {
    let mut reg = ModuleRegistry::new();
    reg.register(FakeModule::new("a", "Alpha")).unwrap();
    assert_eq!(reg.active().unwrap().id(), "a");
    reg.register(FakeModule::new("b", "Beta")).unwrap();
    assert_eq!(reg.active_id(), Some("a"));
}

#[test]
fn empty_registry_returns_none() {
    let reg: ModuleRegistry<Key, FakeModule> = ModuleRegistry::new();
    assert!(reg.active().is_none());
    assert!(reg.active_id().is_none());
    assert!(reg.is_empty());
}

#[test]
fn cycle_next_wraps() {
    let mut reg = ModuleRegistry::new();
    reg.register(FakeModule::new("a", "Alpha")).unwrap();
    reg.register(FakeModule::new("b", "Beta")).unwrap();
    reg.register(FakeModule::new("c", "Gamma")).unwrap();

    assert_eq!(reg.active_id(), Some("a"));
    reg.cycle_next();
    assert_eq!(reg.active_id(), Some("b"));
    reg.cycle_next();
    assert_eq!(reg.active_id(), Some("c"));
    reg.cycle_next();
    assert_eq!(reg.active_id(), Some("a"));
}

#[test]
fn cycle_next_emits_lifecycle() {
    let mut reg = ModuleRegistry::new();
    reg.register(FakeModule::new("a", "Alpha")).unwrap();
    reg.register(FakeModule::new("b", "Beta")).unwrap();
    let events = reg.cycle_next();
    assert_eq!(events.len(), 2);
    assert!(matches!(&events[0], Event::ModuleDeactivated { id } if id == "a"));
    assert!(matches!(&events[1], Event::ModuleActivated { id } if id == "b"));
}

#[test]
fn cycle_with_one_module_shows_it_again() {
    let mut reg = ModuleRegistry::new();
    reg.register(FakeModule::new("a", "Alpha")).unwrap();
    let only = vec![Event::ModuleActivated {
        id: "a".to_string(),
    }];
    assert_eq!(reg.cycle_next(), only);
    assert_eq!(reg.cycle_prev(), only);
    assert_eq!(reg.active_id(), Some("a"));
}

#[test]
fn cycle_prev_wraps() {
    let mut reg = ModuleRegistry::new();
    reg.register(FakeModule::new("a", "Alpha")).unwrap();
    reg.register(FakeModule::new("b", "Beta")).unwrap();
    reg.register(FakeModule::new("c", "Gamma")).unwrap();

    assert_eq!(reg.active_id(), Some("a"));
    reg.cycle_prev();
    assert_eq!(reg.active_id(), Some("c"));
    reg.cycle_prev();
    assert_eq!(reg.active_id(), Some("b"));
}

#[test]
fn list_returns_id_title_pairs() {
    let mut reg = ModuleRegistry::new();
    reg.register(FakeModule::new("x", "X-Ray")).unwrap();
    reg.register(FakeModule::new("y", "Yankee")).unwrap();
    assert_eq!(reg.list(), pairs(&[("x", "X-Ray"), ("y", "Yankee")]));
}

#[test]
fn cycle_on_empty_is_noop() {
    let mut reg: ModuleRegistry<Key, FakeModule> = ModuleRegistry::new();
    assert!(reg.cycle_next().is_empty());
    assert!(reg.cycle_prev().is_empty());
    assert!(reg.active().is_none());
}

#[test]
fn get_and_get_mut_by_id() {
    let mut reg = ModuleRegistry::new();
    reg.register(FakeModule::new("a", "Alpha")).unwrap();
    assert_eq!(reg.get("a").unwrap().title(), "Alpha");
    assert!(reg.get("z").is_none());
    assert_eq!(reg.position("a"), Some(0));
    assert_eq!(reg.position("z"), None);
}

#[test]
fn broadcast_tick_goes_to_all() {
    let log_a = Arc::new(Mutex::new(Vec::new()));
    let log_b = Arc::new(Mutex::new(Vec::new()));
    let mut reg = ModuleRegistry::new();
    reg.register(FakeModule::with_log("a", "Alpha", log_a.clone()))
        .unwrap();
    reg.register(FakeModule::with_log("b", "Beta", log_b.clone()))
        .unwrap();

    reg.broadcast(&Event::Tick { now: now() });
    assert_eq!(log_a.lock().unwrap().as_slice(), &["a:tick"]);
    assert_eq!(log_b.lock().unwrap().as_slice(), &["b:tick"]);
    reg.broadcast(&Event::Quit);
    reg.broadcast(&Event::Custom {
        tag: "t".to_string(),
        payload: "p".to_string(),
    });
    assert_eq!(
        log_b.lock().unwrap().as_slice(),
        &["b:tick", "b:quit", "b:other"]
    );
    assert_eq!(reg.list(), pairs(&[("a", "Alpha"), ("b", "Beta")]));
    assert_eq!(reg.active_id(), Some("a"));
}

#[test]
fn broadcast_key_goes_to_active_only() {
    let log_a = Arc::new(Mutex::new(Vec::new()));
    let log_b = Arc::new(Mutex::new(Vec::new()));
    let mut reg = ModuleRegistry::new();
    reg.register(FakeModule::with_log("a", "Alpha", log_a.clone()))
        .unwrap();
    reg.register(FakeModule::with_log("b", "Beta", log_b.clone()))
        .unwrap();

    reg.broadcast(&Event::Key(Key('x')));
    assert_eq!(log_a.lock().unwrap().as_slice(), &["a:key"]);
    assert!(log_b.lock().unwrap().is_empty());
    reg.activate("b").unwrap();
    reg.broadcast(&Event::Key(Key('y')));
    assert_eq!(log_a.lock().unwrap().as_slice(), &["a:key"]);
    assert_eq!(log_b.lock().unwrap().as_slice(), &["b:key"]);
}

#[test]
fn broadcast_lifecycle_goes_to_target() {
    let log_a = Arc::new(Mutex::new(Vec::new()));
    let log_b = Arc::new(Mutex::new(Vec::new()));
    let mut reg = ModuleRegistry::new();
    reg.register(FakeModule::with_log("a", "Alpha", log_a.clone()))
        .unwrap();
    reg.register(FakeModule::with_log("b", "Beta", log_b.clone()))
        .unwrap();

    reg.broadcast(&Event::ModuleActivated { id: "b".into() });
    assert!(log_a.lock().unwrap().is_empty());
    assert_eq!(log_b.lock().unwrap().as_slice(), &["b:activated"]);
    reg.broadcast(&Event::ModuleDeactivated { id: "a".into() });
    reg.broadcast(&Event::ModuleDeactivated { id: "c".into() });
    assert_eq!(log_a.lock().unwrap().as_slice(), &["a:deactivated"]);
    assert_eq!(log_b.lock().unwrap().as_slice(), &["b:activated"]);
}

#[test]
fn hello_module_is_a_module() {
    let mut reg: ModuleRegistry<Key, HelloModule> = ModuleRegistry::new();
    reg.register(HelloModule::new()).unwrap();
    assert_eq!(reg.list(), pairs(&[("hello", "Hello")]));
    assert_eq!(
        reg.register(HelloModule::new()),
        Err(RegistryError::DuplicateModule("hello".to_string()))
    );
    let hud = Module::<Key>::hud(reg.active().unwrap());
    assert_eq!(hud.left_lines.len(), 2);
}

#[test]
fn publish_enqueues_events() {
    let mut bus: EventBus<Key> = EventBus::new();
    bus.publish(Event::Tick { now: now() });
    bus.publish(Event::Quit);
    assert!(bus.has_pending());
}

#[test]
fn drain_returns_all_and_empties() {
    let mut bus: EventBus<Key> = EventBus::new();
    bus.publish(Event::Tick { now: now() });
    bus.publish(Event::Quit);
    let events = bus.drain();
    assert_eq!(events.len(), 2);
    assert!(!bus.has_pending());
}

#[test]
fn drain_on_empty_returns_empty() {
    let mut bus: EventBus<Key> = EventBus::default();
    let events = bus.drain();
    assert!(events.is_empty());
}

#[test]
fn has_pending_correctness() {
    let mut bus: EventBus<Key> = EventBus::new();
    assert!(!bus.has_pending());
    bus.publish(Event::Quit);
    assert!(bus.has_pending());
    bus.drain();
    assert!(!bus.has_pending());
}

#[test]
fn preserves_order() {
    let mut bus: EventBus<Key> = EventBus::new();
    bus.publish(Event::ModuleActivated { id: "a".into() });
    bus.publish(Event::ModuleDeactivated { id: "b".into() });
    bus.publish(Event::Quit);
    let events = bus.drain();
    assert!(matches!(&events[0], Event::ModuleActivated { id } if id == "a"));
    assert!(matches!(&events[1], Event::ModuleDeactivated { id } if id == "b"));
    assert!(matches!(&events[2], Event::Quit));
}

#[test]
fn plugins_hear_of_host_events_under_their_categories() {
    let cases: Vec<(Event<Key>, Option<(EventCategory, Option<&str>)>)> = vec![
        (Event::Tick { now: now() }, Some((EventCategory::Tick, None))),
        (
            Event::Resize { cols: 80, rows: 24 },
            Some((EventCategory::Resize, None)),
        ),
        (
            Event::ModuleActivated { id: "a".into() },
            Some((EventCategory::ModuleLifecycle, Some("module.activated"))),
        ),
        (
            Event::ModuleDeactivated { id: "a".into() },
            Some((EventCategory::ModuleLifecycle, Some("module.deactivated"))),
        ),
        (
            Event::Telemetry {
                source: "cpu".into(),
                key: "load".into(),
                value: TelemetryValue::Float(0.5f64.to_bits()),
            },
            Some((EventCategory::Telemetry, None)),
        ),
        (
            Event::Custom {
                tag: "plugin.metrics".into(),
                payload: "{}".into(),
            },
            Some((EventCategory::Custom, Some("plugin.metrics"))),
        ),
        (Event::Key(Key('q')), None),
        (Event::Quit, None),
    ];
    for (event, route) in cases {
        let expected = route.map(|(c, t)| (c, t.map(|t| t.to_string())));
        assert_eq!(map_event_for_plugins(&event), expected);
    }
}

#[test]
fn hello_module_answers_as_a_module() {
    let hello = HelloModule::new();
    assert_eq!(Module::<Key>::id(&hello), "hello");
    assert_eq!(Module::<Key>::title(&hello), "Hello");
    let hud = Module::<Key>::hud(&hello);
    assert_eq!(
        hud,
        HudContribution {
            left_lines: vec!["Tab: next module".to_string(), "q: quit".to_string()],
            right_lines: vec!["HMR: (planned)".to_string(), "IMG: (planned)".to_string()],
        }
    );
}

#[test]
fn broadcast_tells_each_module_once_and_in_order() {
    let log = Arc::new(Mutex::new(Vec::new()));
    let mut reg = ModuleRegistry::new();
    for (id, title) in [("a", "Alpha"), ("b", "Beta"), ("c", "Gamma")] {
        reg.register(FakeModule::with_log(id, title, log.clone()))
            .unwrap();
    }
    reg.broadcast(&Event::Resize { cols: 1, rows: 2 });
    assert_eq!(
        log.lock().unwrap().as_slice(),
        &["a:resize", "b:resize", "c:resize"]
    );
}
