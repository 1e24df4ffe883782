//! The drop-down console: whether it shows, the log lines it keeps,
//! the line that is being typed, and how far the log is scrolled.

use std::collections::VecDeque;
use vstd::prelude::*;
use crate::clock::{elapsed, Moment, Span};
use crate::cursor::{
    byte_count, byte_len, chars_of, index_at, lemma_byte_len_concat, lemma_index_unique,
    lemma_offset_step, locate, offset_of, on_boundary, text_of, utf8_len, utf8_width,
};
use crate::logging::{push_capped, ring_after, LogEntry};
use crate::text::push_char;

verus! {

/// Where the console is in its slide.
#[derive(Debug, Clone, Copy, PartialEq, Eq, Structural)]
pub enum SlideState {
    /// The console does not show.
    Hidden,
    /// The console slides open.
    Opening { started_at: Moment },
    /// The console shows in full.
    Open,
    /// The console slides shut.
    Closing { started_at: Moment },
}

/// How much of the console shows, as the part of the slide's duration
/// that an opening slide would have taken to get there.
pub open spec fn shown(slide: SlideState, duration: Span, now: Moment) -> nat {
    match slide {
        SlideState::Hidden => 0,
        SlideState::Open => duration.nanos as nat,
        SlideState::Opening { started_at } => if elapsed(now, started_at) >= duration.nanos {
            duration.nanos as nat
        } else {
            elapsed(now, started_at)
        },
        SlideState::Closing { started_at } => if elapsed(now, started_at) >= duration.nanos {
            0
        } else {
            (duration.nanos - elapsed(now, started_at)) as nat
        },
    }
}

/// The slide after a toggle. A console at rest starts to slide at
/// `now`. A console in mid-slide turns round: the new slide is dated
/// back so that as much of the console shows as before.
pub open spec fn toggled(slide: SlideState, duration: Span, now: Moment) -> SlideState {
    match slide {
        SlideState::Hidden => SlideState::Opening { started_at: now },
        SlideState::Open => SlideState::Closing { started_at: now },
        SlideState::Opening { started_at } => SlideState::Closing {
            started_at: Moment {
                nanos: (now.nanos - (duration.nanos - shown(slide, duration, now))) as i64,
            },
        },
        SlideState::Closing { started_at } => SlideState::Opening {
            started_at: Moment { nanos: (now.nanos - shown(slide, duration, now)) as i64 },
        },
    }
}

/// The slide after time has passed: a slide that has taken its
/// duration has come to rest.
pub open spec fn settled(slide: SlideState, duration: Span, now: Moment) -> SlideState {
    match slide {
        SlideState::Opening { started_at } => if elapsed(now, started_at) >= duration.nanos {
            SlideState::Open
        } else {
            slide
        },
        SlideState::Closing { started_at } => if elapsed(now, started_at) >= duration.nanos {
            SlideState::Hidden
        } else {
            slide
        },
        other => other,
    }
}

/// A toggle in mid-slide changes the direction and not how much of the
/// console shows.
pub proof fn lemma_toggle_keeps_position(slide: SlideState, duration: Span, now: Moment)
    requires
        now.nanos - duration.nanos >= i64::MIN,
        slide is Opening || slide is Closing,
    ensures
        shown(toggled(slide, duration, now), duration, now) == shown(slide, duration, now),
{
}

/// The drop-down console.
pub struct Console {
    /// Where the console is in its slide.
    pub slide: SlideState,
    slide_duration: Span,
    log_lines: VecDeque<LogEntry>,
    /// The line that is being typed.
    pub input_buffer: String,
    /// The place of the cursor in `input_buffer`, in bytes.
    pub cursor_pos: usize,
    scroll_offset: usize,
    max_lines: usize,
}

impl Console {
    /// How long a slide takes.
    pub closed spec fn duration(&self) -> Span {
        self.slide_duration
    }

    /// The log lines, oldest first.
    pub closed spec fn lines(&self) -> Seq<LogEntry> {
        self.log_lines@
    }

    /// How many lines the log is scrolled up from its end.
    pub closed spec fn scrolled(&self) -> nat {
        self.scroll_offset as nat
    }

    /// How many log lines are kept.
    pub closed spec fn capacity(&self) -> nat {
        self.max_lines as nat
    }

    /// Where the console is in its slide.
    pub closed spec fn slide_state(&self) -> SlideState {
        self.slide
    }

    /// The line that is being typed.
    pub closed spec fn input(&self) -> Seq<char> {
        self.input_buffer@
    }

    /// The place of the cursor in the line, in bytes.
    pub closed spec fn cursor(&self) -> nat {
        self.cursor_pos as nat
    }

    /// The cursor is at a place between characters of the line.
    pub open spec fn cursor_valid(&self) -> bool {
        on_boundary(self.input(), self.cursor() as int)
    }

    /// The number of characters before the cursor.
    pub open spec fn cursor_index(&self) -> int {
        index_at(self.input(), self.cursor() as int)
    }

    /// Everything of the console but its slide.
    pub open spec fn same_content(&self, other: &Console) -> bool {
        &&& self.duration() == other.duration()
        &&& self.lines() == other.lines()
        &&& self.scrolled() == other.scrolled()
        &&& self.capacity() == other.capacity()
        &&& self.input() == other.input()
        &&& self.cursor() == other.cursor()
    }

    /// Everything of the console but the line that is being typed.
    pub open spec fn same_but_input(&self, other: &Console) -> bool {
        &&& self.duration() == other.duration()
        &&& self.lines() == other.lines()
        &&& self.scrolled() == other.scrolled()
        &&& self.capacity() == other.capacity()
        &&& self.slide_state() == other.slide_state()
    }

    /// Everything of the console but its log and how far it is
    /// scrolled.
    pub open spec fn same_but_log(&self, other: &Console) -> bool {
        &&& self.duration() == other.duration()
        &&& self.capacity() == other.capacity()
        &&& self.slide_state() == other.slide_state()
        &&& self.input() == other.input()
        &&& self.cursor() == other.cursor()
    }

    /// A hidden console that keeps `max_lines` log lines and slides in
    /// a quarter of a second.
    pub fn new(max_lines: usize) -> (console: Console)
        ensures
            console.slide_state() == SlideState::Hidden,
            console.duration().nanos == 250_000_000,
            console.lines().len() == 0,
            console.input().len() == 0,
            console.cursor() == 0,
            console.scrolled() == 0,
            console.capacity() == max_lines,
            console.cursor_valid(),
    {
        let console = Console {
            slide: SlideState::Hidden,
            slide_duration: Span::from_millis(250),
            log_lines: VecDeque::with_capacity(max_lines),
            input_buffer: String::new(),
            cursor_pos: 0,
            scroll_offset: 0,
            max_lines,
        };
        proof {
            assert(console.input_buffer@.take(0).len() == 0);
            assert(offset_of(console.input_buffer@, 0) == 0);
        }
        console
    }

    /// Opens a console that is shut and shuts one that is open, as
    /// `toggled` says.
    pub fn toggle(&mut self, now: Moment)
        requires
            now.nanos - old(self).duration().nanos >= i64::MIN,
        ensures
            final(self).slide_state() == toggled(old(self).slide_state(), old(self).duration(), now),
            final(self).same_content(old(self)),
    {
        let duration: u64 = self.slide_duration.nanos;
        self.slide = match self.slide {
            SlideState::Hidden => SlideState::Opening { started_at: now },
            SlideState::Open => SlideState::Closing { started_at: now },
            SlideState::Opening { started_at } => {
                let gone: u64 = now.since(started_at).nanos;
                let open: u64 = if gone >= duration {
                    duration
                } else {
                    gone
                };
                SlideState::Closing { started_at: now.earlier(Span { nanos: duration - open }) }
            },
            SlideState::Closing { started_at } => {
                let gone: u64 = now.since(started_at).nanos;
                let shut: u64 = if gone >= duration {
                    duration
                } else {
                    gone
                };
                SlideState::Opening { started_at: now.earlier(Span { nanos: duration - shut }) }
            },
        };
    }

    /// Lets a slide that has taken its time come to rest.
    pub fn update(&mut self, now: Moment)
        ensures
            final(self).slide_state() == settled(old(self).slide_state(), old(self).duration(), now),
            final(self).same_content(old(self)),
    {
        self.slide = match self.slide {
            SlideState::Opening { started_at } => {
                if now.since(started_at).nanos >= self.slide_duration.nanos {
                    SlideState::Open
                } else {
                    self.slide
                }
            },
            SlideState::Closing { started_at } => {
                if now.since(started_at).nanos >= self.slide_duration.nanos {
                    SlideState::Hidden
                } else {
                    self.slide
                }
            },
            other => other,
        };
    }

    /// How much of the console shows at `now`, as a length of time out
    /// of `slide_duration`.
    pub fn overlay_span(&self, now: Moment) -> (span: Span)
        ensures
            span.nanos == shown(self.slide_state(), self.duration(), now),
            span.nanos <= self.duration().nanos,
    {
        let duration: u64 = self.slide_duration.nanos;
        match self.slide {
            SlideState::Hidden => Span { nanos: 0 },
            SlideState::Open => Span { nanos: duration },
            SlideState::Opening { started_at } => {
                let gone: u64 = now.since(started_at).nanos;
                if gone >= duration {
                    Span { nanos: duration }
                } else {
                    Span { nanos: gone }
                }
            },
            SlideState::Closing { started_at } => {
                let gone: u64 = now.since(started_at).nanos;
                if gone >= duration {
                    Span { nanos: 0 }
                } else {
                    Span { nanos: duration - gone }
                }
            },
        }
    }

    /// Whether any of the console shows.
    pub fn is_visible(&self) -> (visible: bool)
        ensures
            visible == !(self.slide_state() is Hidden),
    {
        match self.slide {
            SlideState::Hidden => false,
            _ => true,
        }
    }

    /// Whether the console shows in full and takes what is typed.
    pub fn is_open(&self) -> (open: bool)
        ensures
            open == (self.slide_state() is Open),
    {
        match self.slide {
            SlideState::Open => true,
            _ => false,
        }
    }

    /// How long a slide takes.
    pub fn slide_duration(&self) -> (duration: Span)
        ensures
            duration == self.duration(),
    {
        self.slide_duration
    }

    /// Adds a log line. Where the log is full the oldest line leaves,
    /// and a log that is scrolled up stays on the lines it shows.
    pub fn push_log(&mut self, entry: LogEntry)
        ensures
            final(self).same_but_log(old(self)),
            final(self).lines() == ring_after(old(self).lines(), old(self).capacity(), entry),
            final(self).scrolled() == if old(self).lines().len() >= old(self).capacity() && old(
                self,
            ).scrolled() > 0 {
                (old(self).scrolled() - 1) as nat
            } else {
                old(self).scrolled()
            },
    {
        if self.log_lines.len() >= self.max_lines {
            if self.scroll_offset > 0 {
                self.scroll_offset = self.scroll_offset - 1;
            }
        }
        push_capped(&mut self.log_lines, self.max_lines, entry);
    }

    /// The log lines, oldest first.
    pub fn log_lines(&self) -> (lines: &VecDeque<LogEntry>)
        ensures
            lines@ == self.lines(),
    {
        &self.log_lines
    }

    /// Drops every log line and scrolls back to the end.
    pub fn clear_logs(&mut self)
        ensures
            final(self).same_but_log(old(self)),
            final(self).lines().len() == 0,
            final(self).scrolled() == 0,
    {
        self.log_lines.clear();
        self.scroll_offset = 0;
    }

    /// How many lines the log is scrolled up from its end.
    pub fn scroll_offset(&self) -> (offset: usize)
        ensures
            offset == self.scrolled(),
    {
        self.scroll_offset
    }

    /// Scrolls up by `amount` lines, as far as the oldest line.
    pub fn scroll_up(&mut self, amount: usize)
        ensures
            final(self).same_but_log(old(self)),
            final(self).lines() == old(self).lines(),
            final(self).scrolled() == if old(self).lines().len() == 0 {
                0int
            } else if old(self).scrolled() + amount < old(self).lines().len() {
                old(self).scrolled() + amount
            } else {
                old(self).lines().len() - 1
            },
    {
        let len: usize = self.log_lines.len();
        let max_offset: usize = if len == 0 {
            0
        } else {
            len - 1
        };
        if self.scroll_offset >= max_offset || amount >= max_offset - self.scroll_offset {
            self.scroll_offset = max_offset;
        } else {
            self.scroll_offset = self.scroll_offset + amount;
        }
    }

    /// Scrolls down by `amount` lines, as far as the end.
    pub fn scroll_down(&mut self, amount: usize)
        ensures
            final(self).same_but_log(old(self)),
            final(self).lines() == old(self).lines(),
            final(self).scrolled() == if old(self).scrolled() >= amount {
                (old(self).scrolled() - amount) as nat
            } else {
                0
            },
    {
        if self.scroll_offset >= amount {
            self.scroll_offset = self.scroll_offset - amount;
        } else {
            self.scroll_offset = 0;
        }
    }

    /// Types a character at the cursor; the cursor moves behind it.
    pub fn insert_char(&mut self, c: char)
        requires
            old(self).cursor_valid(),
        ensures
            final(self).same_but_input(old(self)),
            final(self).cursor_valid(),
            final(self).input() == old(self).input().insert(old(self).cursor_index(), c),
            final(self).cursor_index() == old(self).cursor_index() + 1,
            final(self).cursor() == old(self).cursor() + utf8_width(c),
    {
        let chars: Vec<char> = chars_of(self.input_buffer.as_str());
        let n: usize = locate(&chars, self.cursor_pos);
        let mut line: String = text_of(&chars, 0, n);
        push_char(&mut line, c);
        let tail: String = text_of(&chars, n, chars.len());
        line.append(tail.as_str());
        proof {
            let before = chars@;
            let after = line@;
            assert(after =~= before.insert(n as int, c));
            assert(after.take(n as int + 1) =~= before.take(n as int).push(c));
            assert(after.take(n as int + 1).drop_last() =~= before.take(n as int));
            lemma_index_unique(after, n as int + 1);
            lemma_total_fits(after, n as int + 1);
            lemma_offset_step(after, n as int);
            assert(after.take(n as int) =~= before.take(n as int));
        }
        // the cursor stays within the new line, whose bytes are counted in a `usize`
        let end: usize = byte_count(line.as_str());
        assert(self.cursor_pos + utf8_width(c) <= end);
        self.input_buffer = line;
        self.cursor_pos = self.cursor_pos + utf8_len(c);
    }

    /// Deletes the character before the cursor, if there is one.
    pub fn backspace(&mut self)
        requires
            old(self).cursor_valid(),
        ensures
            final(self).same_but_input(old(self)),
            final(self).cursor_valid(),
            if old(self).cursor() == 0 {
                final(self).input() == old(self).input() && final(self).cursor() == 0
            } else {
                &&& old(self).cursor_index() >= 1
                &&& final(self).input() == old(self).input().remove(old(self).cursor_index() - 1)
                &&& final(self).cursor_index() == old(self).cursor_index() - 1
                &&& final(self).cursor() == old(self).cursor() - utf8_width(
                    old(self).input()[old(self).cursor_index() - 1],
                )
            },
    {
        if self.cursor_pos > 0 {
            let chars: Vec<char> = chars_of(self.input_buffer.as_str());
            let n: usize = locate(&chars, self.cursor_pos);
            proof {
                assert(chars@.take(0).len() == 0);
                assert(n > 0);
                lemma_offset_step(chars@, n as int - 1);
            }
            let gone: char = chars[n - 1];
            let mut line: String = text_of(&chars, 0, n - 1);
            let tail: String = text_of(&chars, n, chars.len());
            line.append(tail.as_str());
            proof {
                let before = chars@;
                let after = line@;
                assert(after =~= before.remove(n as int - 1));
                assert(after.take(n as int - 1) =~= before.take(n as int - 1));
                lemma_index_unique(after, n as int - 1);
            }
            self.input_buffer = line;
            self.cursor_pos = self.cursor_pos - utf8_len(gone);
        }
    }

    /// Moves the cursor one character to the left, if it is not at the
    /// start.
    pub fn cursor_left(&mut self)
        requires
            old(self).cursor_valid(),
        ensures
            final(self).same_but_input(old(self)),
            final(self).input() == old(self).input(),
            final(self).cursor_valid(),
            final(self).cursor_index() == if old(self).cursor() == 0 {
                0
            } else {
                old(self).cursor_index() - 1
            },
    {
        proof {
            assert(self.input_buffer@.take(0).len() == 0);
            lemma_index_unique(self.input_buffer@, 0);
        }
        if self.cursor_pos > 0 {
            let chars: Vec<char> = chars_of(self.input_buffer.as_str());
            let n: usize = locate(&chars, self.cursor_pos);
            proof {
                assert(n > 0);
                lemma_offset_step(chars@, n as int - 1);
                lemma_index_unique(chars@, n as int - 1);
            }
            self.cursor_pos = self.cursor_pos - utf8_len(chars[n - 1]);
        }
    }

    /// Moves the cursor one character to the right, if it is not at the
    /// end.
    pub fn cursor_right(&mut self)
        requires
            old(self).cursor_valid(),
        ensures
            final(self).same_but_input(old(self)),
            final(self).input() == old(self).input(),
            final(self).cursor_valid(),
            final(self).cursor_index() == if old(self).cursor_index() == old(self).input().len() {
                old(self).cursor_index()
            } else {
                old(self).cursor_index() + 1
            },
    {
        let chars: Vec<char> = chars_of(self.input_buffer.as_str());
        let n: usize = locate(&chars, self.cursor_pos);
        if n < chars.len() {
            proof {
                lemma_offset_step(chars@, n as int);
                lemma_index_unique(chars@, n as int + 1);
                lemma_total_fits(chars@, n as int + 1);
            }
            // the cursor stays within the line, whose bytes are counted in a `usize`
            let end: usize = byte_count(self.input_buffer.as_str());
            assert(self.cursor_pos + utf8_width(chars@[n as int]) <= end);
            self.cursor_pos = self.cursor_pos + utf8_len(chars[n]);
        }
    }

    /// Hands the typed line on and starts a new, empty one.
    pub fn submit_input(&mut self) -> (line: String)
        ensures
            final(self).same_but_input(old(self)),
            line@ == old(self).input(),
            final(self).input().len() == 0,
            final(self).cursor() == 0,
            final(self).cursor_valid(),
    {
        let mut line: String = String::new();
        std::mem::swap(&mut line, &mut self.input_buffer);
        self.cursor_pos = 0;
        proof {
            assert(self.input_buffer@.take(0).len() == 0);
            assert(offset_of(self.input_buffer@, 0) == 0);
        }
        line
    }
}

impl Default for Console {
    /// A console that keeps a thousand log lines.
    fn default() -> (console: Console)
        ensures
            console.slide_state() == SlideState::Hidden,
            console.capacity() == 1000,
            console.cursor_valid(),
    {
        Console::new(1000)
    }
}

/// No place in a text lies further than the text has bytes.
proof fn lemma_total_fits(s: Seq<char>, n: int)
    requires
        0 <= n <= s.len(),
    ensures
        offset_of(s, n) <= byte_len(s),
{
    assert(s.take(n) + s.skip(n) =~= s);
    lemma_byte_len_concat(s.take(n), s.skip(n));
}

} // verus!
