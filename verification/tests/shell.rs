use spud::clock::{Moment, Span};
use spud::command::{
    lookup_builtin, split_words, unknown_command, Builtin, ClearCommand, CommandOutput,
    EchoCommand, HelpCommand, ModulesCommand, QuitCommand, SwitchCommand, TpsCommand,
    UptimeCommand,
};
use spud::console::Console;
use spud::fps::TickCounter;
use spud::graphics::{contains_text, detect_backend, GraphicsBackend};
use spud::hud::HelloModule;
use spud::logging::{new_log_buffer, push_capped, LogEntry, LogLevel, MessageVisitor};
use spud::ordered::{sorted_distinct, OrderedMap};
use spud::state::AppState;
use spud::text::{join, render_i64, render_u64, same_text, text_less};

fn strings(items: &[&str]) -> Vec<String> {
    items.iter().map(|s| s.to_string()).collect()
}

#[test]
fn log_entry_has_correct_fields() {
    let entry = LogEntry {
        level: LogLevel::Warn,
        target: "spud_core::foo".into(),
        message: "something happened".into(),
    };
    assert_eq!(entry.level, LogLevel::Warn);
    assert_eq!(entry.target, "spud_core::foo");
    assert_eq!(entry.message, "something happened");
}

#[test]
fn log_level_display() {
    assert_eq!(format!("{}", LogLevel::Trace.as_str()), "TRACE");
    assert_eq!(format!("{}", LogLevel::Debug.as_str()), "DEBUG");
    assert_eq!(format!("{}", LogLevel::Info.as_str()), "INFO");
    assert_eq!(format!("{}", LogLevel::Warn.as_str()), "WARN");
    assert_eq!(format!("{}", LogLevel::Error.as_str()), "ERROR");
}

#[test]
fn message_visitor_message_only() {
    let v = MessageVisitor {
        message: Some("hello".into()),
        fields: Vec::new(),
    };
    assert_eq!(v.finish(), "hello");
}

#[test]
fn message_visitor_fields_preserved() {
    let v = MessageVisitor {
        message: Some("hello".into()),
        fields: vec!["key=val".into()],
    };
    let result = v.finish();
    assert!(result.contains("hello"));
    assert!(result.contains("key=val"));
    assert_eq!(result, "hello key=val");
}

#[test]
fn message_visitor_fields_without_message() {
    let v = MessageVisitor {
        message: None,
        fields: vec!["a=1".into(), "b=2".into()],
    };
    assert_eq!(v.finish(), "a=1 b=2");
}

#[test]
fn message_visitor_empty() {
    let v = MessageVisitor {
        message: None,
        fields: Vec::new(),
    };
    assert_eq!(v.finish(), "");
}

#[test]
fn message_visitor_records_fields() {
    let mut v = MessageVisitor::new();
    v.record_str("user", "ada");
    v.record_str("message", "first");
    v.record_str("message", "second");
    v.record_str("n", "2");
    assert_eq!(v.message, Some("second".to_string()));
    assert_eq!(v.fields, vec!["user=ada", "n=2"]);
    assert_eq!(v.finish(), "second user=ada n=2");
}

#[test]
fn console_ring_buffer_caps_at_max() {
    let mut buffer = new_log_buffer(3);
    assert!(buffer.is_empty());
    for i in 0..5 {
        let dropped = push_capped(
            &mut buffer,
            3,
            LogEntry {
                level: LogLevel::Info,
                target: "t".to_string(),
                message: format!("msg {i}"),
            },
        );
        assert_eq!(dropped, i >= 3);
    }
    assert_eq!(buffer.len(), 3);
    assert_eq!(buffer[0].message, "msg 2");
    assert_eq!(buffer[2].message, "msg 4");
}

#[test]
fn empty_input_returns_empty() {
    assert!(split_words("").is_empty());
    assert!(split_words("   \t ").is_empty());
}

#[test]
fn command_name_extraction() {
    assert_eq!(
        split_words("  echo   hello\tworld  "),
        strings(&["echo", "hello", "world"])
    );
    for line in ["a", " a b", "a\u{2003}b\nc ", "switch stats", "é ü"] {
        let expected: Vec<String> = line.split_whitespace().map(|s| s.to_string()).collect();
        assert_eq!(split_words(line), expected, "{:?}", line);
    }
}

#[test]
fn unknown_command_returns_error() {
    assert_eq!(lookup_builtin("nonexistent"), None);
    assert_eq!(
        unknown_command("nonexistent"),
        CommandOutput::Lines(strings(&[
            "unknown command: 'nonexistent'. Type 'help' for available commands."
        ]))
    );
}

#[test]
fn lookup_by_alias() {
    assert_eq!(lookup_builtin("help"), Some(Builtin::Help));
    assert_eq!(lookup_builtin("?"), Some(Builtin::Help));
    assert_eq!(lookup_builtin("cls"), Some(Builtin::Clear));
    assert_eq!(lookup_builtin("mods"), Some(Builtin::Modules));
    assert_eq!(lookup_builtin("sw"), Some(Builtin::Switch));
    assert_eq!(lookup_builtin("uptime"), Some(Builtin::Uptime));
    assert_eq!(lookup_builtin("echo"), Some(Builtin::Echo));
    assert_eq!(lookup_builtin(HelpCommand.name()), Some(Builtin::Help));
    assert_eq!(lookup_builtin(ClearCommand.name()), Some(Builtin::Clear));
    assert_eq!(lookup_builtin(TpsCommand.name()), Some(Builtin::Tps));
}

#[test]
fn help_command() {
    assert_eq!(
        HelpCommand.execute(&vec![]),
        CommandOutput::Lines(strings(&["Type 'help' to list all commands."]))
    );
    assert_eq!(
        HelpCommand.execute(&strings(&["echo", "x"])),
        CommandOutput::Lines(strings(&[
            "help for 'echo' — use 'help' to list all commands"
        ]))
    );
    assert_eq!(HelpCommand.usage(), "help [command]");
}

#[test]
fn clear_command_clears_console() {
    let mut console = Console::default();
    console.push_log(LogEntry {
        level: LogLevel::Info,
        target: "t".to_string(),
        message: "m".to_string(),
    });
    assert_eq!(console.log_lines().len(), 1);
    assert_eq!(
        ClearCommand.execute(&mut console),
        CommandOutput::Lines(vec![])
    );
    assert!(console.log_lines().is_empty());
}

#[test]
fn modules_command_lists_modules() {
    let modules = vec![
        ("hello".to_string(), "Hello".to_string()),
        ("stats".to_string(), "Stats".to_string()),
    ];
    assert_eq!(
        ModulesCommand.execute(&modules, Some("hello")),
        CommandOutput::Lines(strings(&["  hello — Hello *", "  stats — Stats"]))
    );
    assert_eq!(
        ModulesCommand.execute(&modules, None),
        CommandOutput::Lines(strings(&["  hello — Hello", "  stats — Stats"]))
    );
}

#[test]
fn switch_command_changes_active() {
    let args = strings(&["stats"]);
    assert_eq!(SwitchCommand.target(&args), Ok(&"stats".to_string()));
    assert_eq!(
        SwitchCommand.execute(Ok("Stats")),
        CommandOutput::Lines(strings(&["Switched to: Stats"]))
    );
}

#[test]
fn switch_command_invalid_id() {
    assert_eq!(
        SwitchCommand.execute(Err("unknown module id: nope")),
        CommandOutput::Lines(strings(&["error: unknown module id: nope"]))
    );
}

#[test]
fn switch_command_no_args() {
    assert_eq!(
        SwitchCommand.target(&vec![]),
        Err(CommandOutput::Lines(strings(&["usage: switch <module_id>"])))
    );
}

#[test]
fn quit_command_signals_quit() {
    assert_eq!(QuitCommand.execute(), CommandOutput::Quit);
}

#[test]
fn quit_aliases() {
    for word in ["quit", "exit", "q"] {
        assert_eq!(lookup_builtin(word), Some(Builtin::Quit));
    }
}

#[test]
fn uptime_command() {
    assert_eq!(
        UptimeCommand.execute(Span::from_secs(0)),
        CommandOutput::Lines(strings(&["Uptime: 00:00:00"]))
    );
    assert_eq!(
        UptimeCommand.execute(Span::from_nanos(3_725_999_999_999)),
        CommandOutput::Lines(strings(&["Uptime: 01:02:05"]))
    );
    assert_eq!(
        UptimeCommand.execute(Span::from_secs(360_000 + 59)),
        CommandOutput::Lines(strings(&["Uptime: 100:00:59"]))
    );
}

#[test]
fn tps_alias_fps() {
    assert_eq!(lookup_builtin("fps"), Some(Builtin::Tps));
    assert_eq!(lookup_builtin("tps"), Some(Builtin::Tps));
}

#[test]
fn echo_command() {
    assert_eq!(
        EchoCommand.execute(&strings(&["hello", "world"])),
        CommandOutput::Lines(strings(&["hello world"]))
    );
}

#[test]
fn echo_empty() {
    assert_eq!(
        EchoCommand.execute(&vec![]),
        CommandOutput::Lines(strings(&[""]))
    );
}

#[test]
fn tick_records_timestamps() {
    let mut counter = TickCounter::new(Span::from_secs(1));
    let base = Moment::from_nanos(7_000_000_000);
    for i in 0..10 {
        counter.tick(base.later(Span::from_millis(i * 100)));
    }
    assert_eq!(counter.len(), 10);
    assert_eq!(counter.ticks_in_window(), 10);
}

#[test]
fn old_timestamps_pruned() {
    let mut counter = TickCounter::new(Span::from_secs(1));
    let base = Moment::from_nanos(7_000_000_000);

    for i in 0..5 {
        counter.tick(base.later(Span::from_millis(i * 200)));
    }

    for i in 0..3 {
        counter.tick(base.later(Span::from_millis(1000 + i * 300)));
    }

    assert!(counter.len() <= 5, "timestamps: {}", counter.len());
    // the last tick is at 1600 ms; ticks at 600, 800, 1000, 1300, 1600 are kept
    assert_eq!(counter.len(), 5);
    assert_eq!(counter.ticks_in_window(), 5);
}

#[test]
fn empty_counter_returns_zero() {
    let counter = TickCounter::default();
    assert_eq!(counter.ticks_in_window(), 0);
}

#[test]
fn single_tick_returns_zero() {
    let mut counter = TickCounter::default();
    counter.tick(Moment::from_nanos(1));
    assert_eq!(counter.len(), 1);
    assert_eq!(counter.ticks_in_window(), 0);
}

#[test]
fn app_state_knows_how_long_it_has_run() {
    let start = Moment::from_nanos(1_000);
    let state = AppState::new(start);
    assert_eq!(state.status_line, "DE-EVOLUTION IN PROGRESS.");
    assert_eq!(state.started_at, start);
    assert_eq!(
        state.uptime(start.later(Span::from_secs(3))),
        Span::from_secs(3)
    );
    assert_eq!(state.uptime(Moment::from_nanos(0)), Span::zero());
    assert_eq!(Span::from_millis(u64::MAX).nanos, u64::MAX);
    assert_eq!(Span::from_nanos(2_500_000_000).as_secs(), 2);
    assert_eq!(Span::from_nanos(2_500_000_000).as_millis(), 2500);
    assert_eq!(
        Moment::from_nanos(i64::MAX).since(Moment::from_nanos(i64::MIN)),
        Span::from_nanos(u64::MAX)
    );
}

#[test]
fn hello_module_says_what_it_is() {
    let module = HelloModule::new();
    assert_eq!(module.id(), "hello");
    assert_eq!(module.title(), "Hello");
    let hud = module.hud();
    assert_eq!(hud.left_lines, strings(&["Tab: next module", "q: quit"]));
    assert_eq!(hud.right_lines, strings(&["HMR: (planned)", "IMG: (planned)"]));
}

#[test]
fn detect_backend_default_returns_unicode_block() {
    assert_eq!(
        detect_backend(None, None, None),
        GraphicsBackend::UnicodeBlock
    );
    assert_eq!(
        detect_backend(None, Some("Apple_Terminal"), Some("vt100")),
        GraphicsBackend::UnicodeBlock
    );
}

#[test]
fn detect_backend_respects_spud_graphics_sixel_override() {
    assert_eq!(
        detect_backend(Some("sixel"), None, Some("vt100")),
        GraphicsBackend::Sixel
    );
    assert_eq!(
        detect_backend(Some("SIXEL"), None, None),
        GraphicsBackend::Sixel
    );
}

#[test]
fn detect_backend_respects_spud_graphics_unicode_override() {
    assert_eq!(
        detect_backend(Some("Unicode"), Some("WezTerm"), Some("xterm")),
        GraphicsBackend::UnicodeBlock
    );
    // what is no known name is passed over
    assert_eq!(
        detect_backend(Some("kitty"), Some("WezTerm"), None),
        GraphicsBackend::Sixel
    );
}

#[test]
fn detect_backend_detects_wezterm() {
    assert_eq!(
        detect_backend(None, Some("WezTerm"), None),
        GraphicsBackend::Sixel
    );
    assert_eq!(
        detect_backend(None, Some("mlterm"), None),
        GraphicsBackend::Sixel
    );
    assert_eq!(
        detect_backend(None, Some("wezterm"), None),
        GraphicsBackend::UnicodeBlock
    );
}

#[test]
fn detect_backend_detects_xterm() {
    assert_eq!(
        detect_backend(None, None, Some("xterm-256color")),
        GraphicsBackend::Sixel
    );
    assert_eq!(
        detect_backend(None, None, Some("foot")),
        GraphicsBackend::Sixel
    );
    assert_eq!(
        detect_backend(None, None, Some("foot-extra")),
        GraphicsBackend::UnicodeBlock
    );
    for (s, needle) in [
        ("", ""),
        ("a", ""),
        ("xterm", "xterm"),
        ("axterm", "xterm"),
        ("xter", "xterm"),
        ("xxterm", "xterm"),
        ("xtexterm", "xterm"),
        ("mlter", "mlterm"),
    ] {
        assert_eq!(contains_text(s, needle), s.contains(needle), "{s:?} {needle:?}");
    }
}

#[test]
fn strings_are_ordered_as_the_standard_library_orders_them() {
    let samples = ["", "a", "A", "ab", "abc", "abd", "b", "é", "z", "\u{10000}", "\u{ffff}", "spud.a", "spud"];
    for a in samples {
        for b in samples {
            assert_eq!(text_less(a, b), a < b, "{a:?} {b:?}");
            assert_eq!(same_text(a, b), a == b);
        }
    }
    let mut sorted: Vec<String> = samples.iter().map(|s| s.to_string()).collect();
    sorted.push("b".to_string());
    sorted.push("".to_string());
    let mut expected = sorted.clone();
    expected.sort();
    expected.dedup();
    assert_eq!(sorted_distinct(&sorted), expected);
}

#[test]
fn ordered_map_is_walked_in_the_order_of_its_keys() {
    let mut map: OrderedMap<u32> = OrderedMap::new();
    assert_eq!(map.insert("b".to_string(), 2), None);
    assert_eq!(map.insert("a".to_string(), 1), None);
    assert_eq!(map.insert("c".to_string(), 3), None);
    assert_eq!(map.insert("b".to_string(), 20), Some(2));
    assert_eq!(map.len(), 3);
    assert_eq!(map.get("b"), Some(&20));
    assert_eq!(map.get("d"), None);
    assert!(map.contains_key("a"));
    assert_eq!(map.position("c"), Ok(2));
    assert_eq!(map.position("bb"), Err(2));
    assert_eq!(map.key_at(0), "a");
    assert_eq!(*map.value_at(2), 3);
    assert_eq!(map.replace_at(0, 10), 1);
    assert_eq!(map.remove_at(1), ("b".to_string(), 20));
    assert_eq!(map.into_values(), vec![10, 3]);
}

#[test]
fn numbers_and_lists_are_written_as_the_standard_library_writes_them() {
    for n in [0u64, 1, 9, 10, 11, 99, 100, 12345, u64::MAX] {
        assert_eq!(render_u64(n), n.to_string());
    }
    for n in [0i64, -1, 1, -10, i64::MIN, i64::MAX, -999] {
        assert_eq!(render_i64(n), n.to_string());
    }
    assert_eq!(join(&vec![], ", "), "");
    assert_eq!(join(&strings(&["a"]), ", "), "a");
    assert_eq!(join(&strings(&["a", "", "c"]), ", "), "a, , c");
}

#[test]
fn commands_describe_themselves() {
    assert_eq!(HelpCommand.description(), "List commands or show specific help");
    assert_eq!(HelpCommand.usage(), "help [command]");
    assert_eq!(ClearCommand.description(), "Clear console log");
    assert_eq!(ModulesCommand.description(), "List registered modules");
    assert_eq!(SwitchCommand.description(), "Switch active module");
    assert_eq!(SwitchCommand.usage(), "switch <module_id>");
    assert_eq!(QuitCommand.description(), "Exit SPUD");
    assert_eq!(UptimeCommand.description(), "Show runtime uptime");
    assert_eq!(TpsCommand.description(), "Show ticks-per-second");
    assert_eq!(EchoCommand.description(), "Print message to console");
    assert_eq!(EchoCommand.usage(), "echo <message>");
}
