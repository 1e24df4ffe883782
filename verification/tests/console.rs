use spud::clock::{Moment, Span};
use spud::console::{Console, SlideState};
use spud::logging::{LogEntry, LogLevel};

fn entry(msg: &str) -> LogEntry {
    LogEntry {
        level: LogLevel::Info,
        target: "test".into(),
        message: msg.into(),
    }
}

fn now() -> Moment {
    Moment::from_nanos(10_000_000_000)
}

fn fraction(c: &Console, at: Moment) -> f64 {
    c.overlay_span(at).nanos as f64 / c.slide_duration().nanos as f64
}

#[test]
fn toggle_from_hidden_starts_opening() {
    let mut c = Console::default();
    let now = now();
    assert_eq!(c.slide, SlideState::Hidden);
    c.toggle(now);
    assert!(matches!(c.slide, SlideState::Opening { .. }));
}

#[test]
fn toggle_from_open_starts_closing() {
    let mut c = Console::default();
    let now = now();
    c.slide = SlideState::Open;
    c.toggle(now);
    assert!(matches!(c.slide, SlideState::Closing { .. }));
}

#[test]
fn toggle_mid_opening_reverses_to_closing() {
    let mut c = Console::default();
    let start = now();
    c.toggle(start); // Hidden -> Opening

    // Advance halfway through the animation
    let mid = start.later(Span::from_nanos(c.slide_duration().nanos / 2));
    c.toggle(mid); // Opening -> Closing (preserving position)

    assert!(matches!(c.slide, SlideState::Closing { .. }));
    // Fraction at the reversal point should be ~0.5
    let frac = fraction(&c, mid);
    assert!((frac - 0.5).abs() < 0.01);
}

#[test]
fn toggle_mid_closing_reverses_to_opening() {
    let mut c = Console::default();
    let start = now();
    c.slide = SlideState::Open;
    c.toggle(start); // Open -> Closing

    let mid = start.later(Span::from_nanos(c.slide_duration().nanos / 2));
    c.toggle(mid); // Closing -> Opening (preserving position)

    assert!(matches!(c.slide, SlideState::Opening { .. }));
    let frac = fraction(&c, mid);
    assert!((frac - 0.5).abs() < 0.01);
}

#[test]
fn toggle_mid_opening_reverses_at_quarter() {
    let mut c = Console::default();
    let start = now();
    c.toggle(start);

    let quarter = start.later(Span::from_nanos(c.slide_duration().nanos / 4));
    let frac_before = fraction(&c, quarter);
    assert!((frac_before - 0.25).abs() < 0.01);
    c.toggle(quarter);
    assert!(matches!(c.slide, SlideState::Closing { .. }));
    let frac_after = fraction(&c, quarter);
    assert!(
        (frac_after - 0.25).abs() < 0.01,
        "expected ~0.25 after reversal, got {frac_after}"
    );
    assert_eq!(c.overlay_span(quarter), Span::from_nanos(62_500_000));
}

#[test]
fn toggle_mid_closing_reverses_at_quarter() {
    let mut c = Console::default();
    let start = now();
    c.slide = SlideState::Open;
    c.toggle(start);

    let quarter = start.later(Span::from_nanos(c.slide_duration().nanos / 4));
    let frac_before = fraction(&c, quarter);
    assert!((frac_before - 0.75).abs() < 0.01);
    c.toggle(quarter);
    assert!(matches!(c.slide, SlideState::Opening { .. }));
    let frac_after = fraction(&c, quarter);
    assert!(
        (frac_after - 0.75).abs() < 0.01,
        "expected ~0.75 after reversal, got {frac_after}"
    );
    assert_eq!(
        c.slide,
        SlideState::Opening {
            started_at: quarter.earlier(Span::from_nanos(187_500_000))
        }
    );
}

#[test]
fn update_transitions_opening_to_open() {
    let mut c = Console::default();
    let start = now();
    c.toggle(start);

    let after = start.later(c.slide_duration());
    c.update(after);
    assert_eq!(c.slide, SlideState::Open);
}

#[test]
fn update_transitions_closing_to_hidden() {
    let mut c = Console::default();
    let start = now();
    c.slide = SlideState::Open;
    c.toggle(start);

    let after = start.later(c.slide_duration());
    c.update(after);
    assert_eq!(c.slide, SlideState::Hidden);
}

#[test]
fn update_leaves_a_slide_that_is_not_done() {
    let mut c = Console::default();
    let start = now();
    c.toggle(start);
    let almost = start.later(Span::from_nanos(249_999_999));
    c.update(almost);
    assert_eq!(c.slide, SlideState::Opening { started_at: start });
    c.update(start.earlier(Span::from_millis(1)));
    assert_eq!(c.slide, SlideState::Opening { started_at: start });
    c.slide = SlideState::Open;
    c.update(almost);
    assert_eq!(c.slide, SlideState::Open);
}

#[test]
fn overlay_fraction_hidden_is_zero() {
    let c = Console::default();
    assert_eq!(fraction(&c, now()), 0.0);
}

#[test]
fn overlay_fraction_open_is_one() {
    let mut c = Console::default();
    c.slide = SlideState::Open;
    assert_eq!(fraction(&c, now()), 1.0);
}

#[test]
fn overlay_fraction_mid_animation() {
    let mut c = Console::default();
    let start = now();
    c.toggle(start);
    let mid = start.later(Span::from_nanos(c.slide_duration().nanos / 2));
    let frac = fraction(&c, mid);
    assert!((frac - 0.5).abs() < 0.01);
    assert_eq!(fraction(&c, start.later(Span::from_secs(5))), 1.0);
}

#[test]
fn is_visible_false_only_for_hidden() {
    let mut c = Console::default();
    assert!(!c.is_visible());

    let now = now();
    c.toggle(now); // Opening
    assert!(c.is_visible());

    c.slide = SlideState::Open;
    assert!(c.is_visible());

    c.toggle(now); // Closing
    assert!(c.is_visible());
}

#[test]
fn is_open_only_for_open_state() {
    let mut c = Console::default();
    assert!(!c.is_open());

    let now = now();
    c.toggle(now); // Opening
    assert!(!c.is_open());

    c.slide = SlideState::Open;
    assert!(c.is_open());

    c.toggle(now); // Closing
    assert!(!c.is_open());
}

#[test]
fn push_log_adds_entries() {
    let mut c = Console::new(10);
    c.push_log(entry("hello"));
    c.push_log(entry("world"));
    assert_eq!(c.log_lines().len(), 2);
}

#[test]
fn ring_buffer_caps_at_max_lines() {
    let mut c = Console::new(3);
    for i in 0..5 {
        c.push_log(entry(&format!("msg {}", i)));
    }
    assert_eq!(c.log_lines().len(), 3);
    assert_eq!(c.log_lines()[0].message, "msg 2");
    assert_eq!(c.log_lines()[2].message, "msg 4");
}

#[test]
fn push_log_on_a_full_log_keeps_the_scrolled_lines_in_view() {
    let mut c = Console::new(3);
    for i in 0..3 {
        c.push_log(entry(&format!("msg {}", i)));
    }
    c.scroll_up(2);
    assert_eq!(c.scroll_offset(), 2);
    c.push_log(entry("msg 3"));
    assert_eq!(c.scroll_offset(), 1);
    c.push_log(entry("msg 4"));
    c.push_log(entry("msg 5"));
    assert_eq!(c.scroll_offset(), 0);
    let mut none = Console::new(0);
    none.push_log(entry("a"));
    none.push_log(entry("b"));
    assert_eq!(none.log_lines().len(), 1);
    assert_eq!(none.log_lines()[0].message, "b");
}

#[test]
fn scroll_up_and_down_clamp() {
    let mut c = Console::new(100);
    for i in 0..10 {
        c.push_log(entry(&format!("msg {}", i)));
    }
    c.scroll_up(5);
    assert_eq!(c.scroll_offset(), 5);
    c.scroll_up(100);
    assert_eq!(c.scroll_offset(), 9);
    c.scroll_down(3);
    assert_eq!(c.scroll_offset(), 6);
    c.scroll_down(100);
    assert_eq!(c.scroll_offset(), 0);
}

#[test]
fn scroll_up_does_not_overflow() {
    let mut c = Console::new(100);
    c.scroll_up(usize::MAX);
    assert_eq!(c.scroll_offset(), 0);
    for i in 0..4 {
        c.push_log(entry(&format!("msg {}", i)));
    }
    c.scroll_up(1);
    c.scroll_up(usize::MAX);
    assert_eq!(c.scroll_offset(), 3);
}

#[test]
fn submit_input_returns_and_clears() {
    let mut c = Console::default();
    c.insert_char('h');
    c.insert_char('i');
    assert_eq!(c.input_buffer, "hi");
    let result = c.submit_input();
    assert_eq!(result, "hi");
    assert!(c.input_buffer.is_empty());
    assert_eq!(c.cursor_pos, 0);
}

#[test]
fn input_buffer_editing() {
    let mut c = Console::default();
    c.insert_char('a');
    c.insert_char('b');
    c.insert_char('c');
    assert_eq!(c.input_buffer, "abc");
    assert_eq!(c.cursor_pos, 3);

    c.backspace();
    assert_eq!(c.input_buffer, "ab");
    assert_eq!(c.cursor_pos, 2);

    c.cursor_left();
    assert_eq!(c.cursor_pos, 1);
    c.insert_char('x');
    assert_eq!(c.input_buffer, "axb");
    assert_eq!(c.cursor_pos, 2);

    c.cursor_right();
    assert_eq!(c.cursor_pos, 3);
}

#[test]
fn input_editing_counts_the_cursor_in_bytes() {
    let mut c = Console::default();
    for ch in ['a', 'é', '漢', '🙂'] {
        c.insert_char(ch);
    }
    assert_eq!(c.input_buffer, "aé漢🙂");
    assert_eq!(c.cursor_pos, 1 + 2 + 3 + 4);
    c.cursor_left();
    assert_eq!(c.cursor_pos, 6);
    c.cursor_left();
    assert_eq!(c.cursor_pos, 3);
    c.insert_char('ß');
    assert_eq!(c.input_buffer, "aéß漢🙂");
    assert_eq!(c.cursor_pos, 5);
    c.cursor_right();
    assert_eq!(c.cursor_pos, 8);
    c.backspace();
    assert_eq!(c.input_buffer, "aéß🙂");
    assert_eq!(c.cursor_pos, 5);
    c.cursor_right();
    c.cursor_right();
    assert_eq!(c.cursor_pos, c.input_buffer.len());
    assert!(c.input_buffer.is_char_boundary(c.cursor_pos));
}

#[test]
fn cursor_left_at_zero_is_noop() {
    let mut c = Console::default();
    c.cursor_left();
    assert_eq!(c.cursor_pos, 0);
}

#[test]
fn cursor_right_at_end_is_noop() {
    let mut c = Console::default();
    c.insert_char('a');
    assert_eq!(c.cursor_pos, 1);
    c.cursor_right();
    assert_eq!(c.cursor_pos, 1);
}

#[test]
fn backspace_at_zero_is_noop() {
    let mut c = Console::default();
    c.backspace();
    assert_eq!(c.input_buffer, "");
    assert_eq!(c.cursor_pos, 0);
}

#[test]
fn clear_logs_empties_and_resets_scroll() {
    let mut c = Console::new(100);
    for i in 0..10 {
        c.push_log(entry(&format!("msg {}", i)));
    }
    c.scroll_up(5);
    c.clear_logs();
    assert!(c.log_lines().is_empty());
    assert_eq!(c.scroll_offset(), 0);
}

#[test]
fn new_console_is_hidden_and_slides_in_a_quarter_second() {
    let c = Console::new(7);
    assert_eq!(c.slide, SlideState::Hidden);
    assert_eq!(c.slide_duration(), Span::from_millis(250));
    assert_eq!(c.slide_duration().nanos, 250_000_000);
    assert!(c.log_lines().is_empty());
    assert_eq!(c.scroll_offset(), 0);
}
