//! Log entries as the console shows them, and the ring they are kept
//! in.

use std::collections::VecDeque;
use vstd::prelude::*;
use crate::text::{concat3, join, joined, same_text, texts};

verus! {

/// How grave a log entry is.
#[derive(Debug, Clone, Copy, PartialEq, Eq, Structural)]
pub enum LogLevel {
    Trace,
    Debug,
    Info,
    Warn,
    Error,
}

/// The name of a level in capitals.
pub open spec fn level_name(level: LogLevel) -> Seq<char> {
    match level {
        LogLevel::Trace => "TRACE"@,
        LogLevel::Debug => "DEBUG"@,
        LogLevel::Info => "INFO"@,
        LogLevel::Warn => "WARN"@,
        LogLevel::Error => "ERROR"@,
    }
}

impl LogLevel {
    /// The name of the level in capitals.
    pub fn as_str(self) -> (name: &'static str)
        ensures
            name@ == level_name(self),
    {
        match self {
            LogLevel::Trace => "TRACE",
            LogLevel::Debug => "DEBUG",
            LogLevel::Info => "INFO",
            LogLevel::Warn => "WARN",
            LogLevel::Error => "ERROR",
        }
    }
}

/// One log entry.
#[derive(Debug, Clone, PartialEq, Eq)]
pub struct LogEntry {
    pub level: LogLevel,
    pub target: String,
    pub message: String,
}

/// An empty ring of log entries with room for `capacity` of them.
pub fn new_log_buffer(capacity: usize) -> (buffer: VecDeque<LogEntry>)
    ensures
        buffer@.len() == 0,
{
    VecDeque::with_capacity(capacity)
}

/// The ring after one more entry: where it is full, the oldest entry
/// leaves first.
pub open spec fn ring_after(entries: Seq<LogEntry>, max_lines: nat, entry: LogEntry) -> Seq<
    LogEntry,
> {
    if entries.len() >= max_lines && entries.len() > 0 {
        entries.drop_first().push(entry)
    } else {
        entries.push(entry)
    }
}

/// Puts an entry into a ring that holds `max_lines` entries.
pub fn push_capped(buffer: &mut VecDeque<LogEntry>, max_lines: usize, entry: LogEntry) -> (dropped:
    bool)
    ensures
        final(buffer)@ == ring_after(old(buffer)@, max_lines as nat, entry),
        dropped == (old(buffer)@.len() >= max_lines && old(buffer)@.len() > 0),
{
    let mut dropped: bool = false;
    if buffer.len() >= max_lines {
        let oldest = buffer.pop_front();
        dropped = oldest.is_some();
        proof {
            if old(buffer)@.len() > 0 {
                assert(buffer@ =~= old(buffer)@.drop_first());
            }
        }
    }
    buffer.push_back(entry);
    dropped
}

/// What is gathered of one log event: its message, if it has one, and
/// its other fields as `name=value`.
#[derive(Debug, Clone, PartialEq, Eq)]
pub struct MessageVisitor {
    pub message: Option<String>,
    pub fields: Vec<String>,
}

/// The text of a log event: the message and the fields with single
/// spaces between them.
pub open spec fn event_text(message: Option<Seq<char>>, fields: Seq<Seq<char>>) -> Seq<char> {
    match message {
        Some(m) => if fields.len() == 0 {
            m
        } else {
            m + " "@ + joined(fields, " "@)
        },
        None => joined(fields, " "@),
    }
}

impl MessageVisitor {
    /// A visitor that has gathered nothing.
    pub fn new() -> (visitor: MessageVisitor)
        ensures
            visitor.message is None,
            visitor.fields@.len() == 0,
    {
        MessageVisitor { message: None, fields: Vec::new() }
    }

    /// Takes note of a field: the field `message` is the message, any
    /// other field is kept as `name=value`.
    pub fn record_str(&mut self, name: &str, value: &str)
        ensures
            if name@ == "message"@ {
                &&& final(self).message matches Some(m) && m@ == value@
                &&& final(self).fields == old(self).fields
            } else {
                &&& final(self).message == old(self).message
                &&& texts(final(self).fields@) == texts(old(self).fields@).push(
                    name@ + "="@ + value@,
                )
            },
    {
        if same_text(name, "message") {
            self.message = Some(value.to_owned());
        } else {
            let ghost before = texts(self.fields@);
            self.fields.push(concat3(name, "=", value));
            assert(texts(self.fields@) =~= before.push(name@ + "="@ + value@));
        }
    }

    /// The text of the event.
    pub fn finish(self) -> (text: String)
        ensures
            text@ == event_text(
                match self.message {
                    Some(m) => Some(m@),
                    None => None,
                },
                texts(self.fields@),
            ),
    {
        let rest: String = join(&self.fields, " ");
        match self.message {
            Some(message) => {
                if self.fields.len() == 0 {
                    message
                } else {
                    concat3(message.as_str(), " ", rest.as_str())
                }
            },
            None => rest,
        }
    }
}

} // verus!
