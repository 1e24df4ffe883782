//! What can go wrong while plugins are run, and what the host records
//! of a request it handled.

use vstd::prelude::*;
use crate::text::{concat2, concat3, concat4, decimal, render_i64, render_u64, signed_decimal};

verus! {

/// What the host records of one request of a plugin.
#[derive(Debug, Clone, PartialEq, Eq)]
pub struct HandledRequest {
    pub plugin_id: String,
    pub method: String,
    pub responded_with_error: bool,
}

/// A failure of the runtime, over plain values.
pub enum RuntimeFault {
    Discovery(Seq<char>),
    Spawn(Seq<char>),
    UnknownPlugin(Seq<char>),
    AlreadyRunning(Seq<char>),
    NotRunning(Seq<char>),
    Timeout { plugin_id: Seq<char>, timeout_ms: u64 },
    ProcessExited { plugin_id: Seq<char>, code: Option<i32> },
    Protocol(Seq<char>),
    Io(Seq<char>),
}

/// A failure of the runtime.
#[derive(Debug, Clone, PartialEq, Eq)]
pub enum RuntimeError {
    /// The plugins on disk are not what they have to be.
    Discovery(String),
    /// The plugin's process could not be started.
    Spawn(String),
    /// No plugin of that identifier is registered.
    UnknownPlugin(String),
    /// The plugin runs already.
    AlreadyRunning(String),
    /// The plugin does not run.
    NotRunning(String),
    /// Nothing came from the plugin in time; it still runs.
    Timeout { plugin_id: String, timeout_ms: u64 },
    /// The plugin's process has ended.
    ProcessExited { plugin_id: String, code: Option<i32> },
    /// The plugin did not keep to the protocol.
    Protocol(String),
    /// A pipe to the plugin failed.
    Io(String),
}

impl View for RuntimeError {
    type V = RuntimeFault;

    open spec fn view(&self) -> RuntimeFault {
        match self {
            RuntimeError::Discovery(m) => RuntimeFault::Discovery(m@),
            RuntimeError::Spawn(m) => RuntimeFault::Spawn(m@),
            RuntimeError::UnknownPlugin(id) => RuntimeFault::UnknownPlugin(id@),
            RuntimeError::AlreadyRunning(id) => RuntimeFault::AlreadyRunning(id@),
            RuntimeError::NotRunning(id) => RuntimeFault::NotRunning(id@),
            RuntimeError::Timeout { plugin_id, timeout_ms } => RuntimeFault::Timeout {
                plugin_id: plugin_id@,
                timeout_ms: *timeout_ms,
            },
            RuntimeError::ProcessExited { plugin_id, code } => RuntimeFault::ProcessExited {
                plugin_id: plugin_id@,
                code: *code,
            },
            RuntimeError::Protocol(m) => RuntimeFault::Protocol(m@),
            RuntimeError::Io(m) => RuntimeFault::Io(m@),
        }
    }
}

/// An exit code as it is printed for debugging: `Some(17)`, `None`.
pub open spec fn exit_code_text(code: Option<i32>) -> Seq<char> {
    match code {
        Some(n) => "Some("@ + signed_decimal(n as int) + ")"@,
        None => "None"@,
    }
}

impl RuntimeFault {
    /// Whether the failure ends the session of the plugin: the end of
    /// its process, a break of the protocol and a failure of its pipes
    /// do. A wait that ran out of time does not, and neither does a
    /// call that was refused before it reached the plugin.
    pub open spec fn ends_session(self) -> bool {
        self is ProcessExited || self is Protocol || self is Io
    }

    /// The failure in words.
    pub open spec fn message(self) -> Seq<char> {
        match self {
            RuntimeFault::Discovery(m) => m,
            RuntimeFault::Spawn(m) => m,
            RuntimeFault::UnknownPlugin(id) => "unknown plugin id: "@ + id,
            RuntimeFault::AlreadyRunning(id) => "plugin is already running: "@ + id,
            RuntimeFault::NotRunning(id) => "plugin is not running: "@ + id,
            RuntimeFault::Timeout { plugin_id, timeout_ms } => "timed out waiting for plugin "@
                + plugin_id + " request after "@ + decimal(timeout_ms as nat) + "ms"@,
            RuntimeFault::ProcessExited { plugin_id, code } => "plugin process exited: "@
                + plugin_id + " (code="@ + exit_code_text(code) + ")"@,
            RuntimeFault::Protocol(m) => m,
            RuntimeFault::Io(m) => m,
        }
    }
}

fn print_exit_code(code: Option<i32>) -> (text: String)
    ensures
        text@ == exit_code_text(code),
{
    match code {
        Some(n) => {
            let digits = render_i64(n as i64);
            concat3("Some(", digits.as_str(), ")")
        },
        None => "None".to_owned(),
    }
}

impl RuntimeError {
    /// The failure in words.
    pub fn message(&self) -> (text: String)
        ensures
            text@ == self@.message(),
    {
        match self {
            RuntimeError::Discovery(m) => m.clone(),
            RuntimeError::Spawn(m) => m.clone(),
            RuntimeError::UnknownPlugin(id) => concat2("unknown plugin id: ", id.as_str()),
            RuntimeError::AlreadyRunning(id) => concat2("plugin is already running: ", id.as_str()),
            RuntimeError::NotRunning(id) => concat2("plugin is not running: ", id.as_str()),
            RuntimeError::Timeout { plugin_id, timeout_ms } => {
                let n = render_u64(*timeout_ms);
                let mut text = concat4(
                    "timed out waiting for plugin ",
                    plugin_id.as_str(),
                    " request after ",
                    n.as_str(),
                );
                text.append("ms");
                text
            },
            RuntimeError::ProcessExited { plugin_id, code } => {
                let c = print_exit_code(*code);
                let mut text = concat4(
                    "plugin process exited: ",
                    plugin_id.as_str(),
                    " (code=",
                    c.as_str(),
                );
                text.append(")");
                text
            },
            RuntimeError::Protocol(m) => m.clone(),
            RuntimeError::Io(m) => m.clone(),
        }
    }

    /// Whether the failure ends the session of the plugin.
    pub fn ends_session(&self) -> (ends: bool)
        ensures
            ends == self@.ends_session(),
    {
        match self {
            RuntimeError::ProcessExited { .. } => true,
            RuntimeError::Protocol(_) => true,
            RuntimeError::Io(_) => true,
            _ => false,
        }
    }

    /// Whether the failure says that the plugin's process has ended.
    pub fn is_process_exit(&self) -> (exited: bool)
        ensures
            exited == (self@ is ProcessExited),
    {
        match self {
            RuntimeError::ProcessExited { .. } => true,
            _ => false,
        }
    }
}

} // verus!
