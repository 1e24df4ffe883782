//! The decisions around a plugin's process and its two pipes: how the
//! process is started, what a line of its output means, what the end of
//! its output or a failed write means, and when it has to be killed.
//! Starting the process, reading and writing are the caller's part.

use vstd::prelude::*;
use crate::failure::{RuntimeError, RuntimeFault};
use crate::manifest::PluginRuntime;
use crate::protocol::duplicate_texts;
use crate::session::PluginRequest;
use crate::text::{blank, concat2, concat3, concat4, is_blank, texts};

verus! {

/// The program to run for a plugin, and its arguments.
#[derive(Debug, Clone, PartialEq, Eq)]
pub struct LaunchPlan {
    pub program: String,
    pub args: Vec<String>,
    /// Where the entrypoint stands: among the arguments at this place,
    /// or, where there is no place, as the program itself.
    pub entrypoint_at: Option<usize>,
}

/// The command line of a plugin whose entrypoint is found at
/// `entrypoint`: the interpreter, the arguments and the entrypoint where
/// the manifest names an interpreter, and else the entrypoint and the
/// arguments.
pub fn launch_plan(runtime: &PluginRuntime, entrypoint: &str) -> (plan: LaunchPlan)
    ensures
        match runtime.command {
            Some(interpreter) => {
                &&& plan.program@ == interpreter@
                &&& texts(plan.args@) == texts(runtime.args@).push(entrypoint@)
                &&& plan.entrypoint_at == Some(runtime.args@.len() as usize)
            },
            None => {
                &&& plan.program@ == entrypoint@
                &&& texts(plan.args@) == texts(runtime.args@)
                &&& plan.entrypoint_at is None
            },
        },
{
    let mut args: Vec<String> = duplicate_texts(&runtime.args);
    match &runtime.command {
        Some(interpreter) => {
            let at: usize = args.len();
            args.push(entrypoint.to_owned());
            assert(texts(args@) =~= texts(runtime.args@).push(entrypoint@));
            LaunchPlan { program: interpreter.clone(), args, entrypoint_at: Some(at) }
        },
        None => LaunchPlan { program: entrypoint.to_owned(), args, entrypoint_at: None },
    }
}

/// Why a plugin's process could not be started.
#[derive(Debug, Clone, PartialEq, Eq)]
pub enum SpawnFailure {
    /// The manifest's path has no directory above it.
    NoManifestDirectory(String),
    /// There is nothing at the entrypoint's path.
    MissingEntrypoint(String),
    /// The system did not start the process of the plugin `plugin_id`.
    NotStarted { plugin_id: String, why: String },
    /// The process runs, but its input pipe could not be had.
    NoInputPipe(String),
    /// The process runs, but its output pipe could not be had.
    NoOutputPipe(String),
}

impl SpawnFailure {
    /// The failure in words.
    pub open spec fn message(&self) -> Seq<char> {
        match self {
            SpawnFailure::NoManifestDirectory(path) => "manifest has no parent directory: "@
                + path@,
            SpawnFailure::MissingEntrypoint(path) => "plugin entrypoint does not exist: "@
                + path@,
            SpawnFailure::NotStarted { plugin_id, why } => "failed to spawn plugin "@ + plugin_id@
                + " process: "@ + why@,
            SpawnFailure::NoInputPipe(plugin_id) => "failed to capture plugin "@ + plugin_id@
                + " stdin pipe"@,
            SpawnFailure::NoOutputPipe(plugin_id) => "failed to capture plugin "@ + plugin_id@
                + " stdout pipe"@,
        }
    }

    /// The failure as the error of a start.
    pub fn to_error(&self) -> (error: RuntimeError)
        ensures
            error@ == RuntimeFault::Spawn(self.message()),
    {
        let text: String = match self {
            SpawnFailure::NoManifestDirectory(path) => concat2(
                "manifest has no parent directory: ",
                path.as_str(),
            ),
            SpawnFailure::MissingEntrypoint(path) => concat2(
                "plugin entrypoint does not exist: ",
                path.as_str(),
            ),
            SpawnFailure::NotStarted { plugin_id, why } => concat4(
                "failed to spawn plugin ",
                plugin_id.as_str(),
                " process: ",
                why.as_str(),
            ),
            SpawnFailure::NoInputPipe(plugin_id) => concat3(
                "failed to capture plugin ",
                plugin_id.as_str(),
                " stdin pipe",
            ),
            SpawnFailure::NoOutputPipe(plugin_id) => concat3(
                "failed to capture plugin ",
                plugin_id.as_str(),
                " stdout pipe",
            ),
        };
        RuntimeError::Spawn(text)
    }
}

/// What the reader of a plugin's output hands on.
#[derive(Debug, Clone, PartialEq, Eq)]
pub enum ReaderEvent {
    /// A line that is a request.
    Request(PluginRequest),
    /// A line that is no request; the text says why.
    ProtocolError(String),
    /// The pipe failed; the text says how.
    IoError(String),
    /// The output has ended.
    Eof,
}

/// Whether the reader passes over a line: it does where the line is
/// blank.
pub fn skips_line(line: &str) -> (skip: bool)
    ensures
        skip == is_blank(line@),
{
    blank(line)
}

/// What the reader hands on for a line that is not blank, given what
/// decoding it as a request gave.
pub fn line_event(line: &str, decoded: Result<PluginRequest, String>) -> (event: ReaderEvent)
    ensures
        match decoded {
            Ok(request) => event == ReaderEvent::Request(request),
            Err(why) => event matches ReaderEvent::ProtocolError(text) && text@
                == "invalid JSON-RPC request ("@ + why@ + "): "@ + line@,
        },
{
    match decoded {
        Ok(request) => ReaderEvent::Request(request),
        Err(why) => ReaderEvent::ProtocolError(
            concat4("invalid JSON-RPC request (", why.as_str(), "): ", line),
        ),
    }
}

impl ReaderEvent {
    /// Whether the reader stops after handing the event on. It goes on
    /// after a request and stops after anything else, so that nothing
    /// follows a report of failure or of the end.
    pub fn ends_reader(&self) -> (ends: bool)
        ensures
            ends == !(self is Request),
    {
        match self {
            ReaderEvent::Request(_) => false,
            _ => true,
        }
    }
}

/// A line as it is written to a plugin: the encoded message and one
/// line feed.
pub fn frame_line(encoded: &str) -> (line: String)
    ensures
        line@ == encoded@.push('\n'),
{
    let line = concat2(encoded, "\n");
    proof {
        reveal_strlit("\n");
        assert(line@ =~= encoded@.push('\n'));
    }
    line
}

/// What waiting for the reader gave.
#[derive(Debug, Clone, PartialEq, Eq)]
pub enum Inbound {
    /// The reader handed an event on.
    Event(ReaderEvent),
    /// Nothing came within the time allowed.
    TimedOut,
    /// The reader is gone.
    Disconnected,
}

/// What a look at the plugin's process showed, without waiting for it.
#[derive(Debug, Clone, PartialEq, Eq)]
pub enum ExitPoll {
    /// The process runs.
    Running,
    /// The process has ended, with this exit code if it has one.
    Exited(Option<i32>),
    /// The look itself failed.
    Failed(String),
}

impl ExitPoll {
    /// Whether a session that is torn down has to kill the process and
    /// wait for it: it has to where the process still runs.
    pub fn calls_for_kill(&self) -> (kill: bool)
        ensures
            kill == (self is Running),
    {
        match self {
            ExitPoll::Running => true,
            _ => false,
        }
    }
}

impl Inbound {
    /// Whether the outcome depends on a look at the process: it does
    /// where the output has ended, the reader is gone, or nothing came
    /// in time.
    pub fn needs_poll(&self) -> (needs: bool)
        ensures
            needs == !(self matches Inbound::Event(e) && !(e is Eof)),
    {
        match self {
            Inbound::Event(ReaderEvent::Eof) => true,
            Inbound::Event(_) => false,
            _ => true,
        }
    }
}

/// The failure of a session whose output has ended: the process has
/// ended too, or the stream closed under a process that still runs.
pub open spec fn stream_end_fault(plugin_id: Seq<char>, poll: ExitPoll) -> RuntimeFault {
    match poll {
        ExitPoll::Exited(code) => RuntimeFault::ProcessExited { plugin_id, code },
        ExitPoll::Running => RuntimeFault::Io(
            "plugin "@ + plugin_id + " request stream ended unexpectedly"@,
        ),
        ExitPoll::Failed(why) => RuntimeFault::Io(
            "failed to poll plugin "@ + plugin_id + " process status: "@ + why@,
        ),
    }
}

/// The failure of a session from which nothing came in time: a process
/// that has ended is reported as ended, and only one that still runs as
/// late.
pub open spec fn timeout_fault(plugin_id: Seq<char>, poll: ExitPoll, timeout_ms: u64) -> RuntimeFault {
    match poll {
        ExitPoll::Exited(code) => RuntimeFault::ProcessExited { plugin_id, code },
        ExitPoll::Running => RuntimeFault::Timeout { plugin_id, timeout_ms },
        ExitPoll::Failed(why) => RuntimeFault::Io(
            "failed to poll plugin "@ + plugin_id + " process status: "@ + why@,
        ),
    }
}

/// The failure of a session to which a line could not be written: the
/// process has ended, or the pipe failed under a process that is not
/// known to have ended.
pub open spec fn write_fault(plugin_id: Seq<char>, poll: ExitPoll, why: Seq<char>) -> RuntimeFault {
    match poll {
        ExitPoll::Exited(code) => RuntimeFault::ProcessExited { plugin_id, code },
        _ => RuntimeFault::Io("plugin "@ + plugin_id + " stdio error: "@ + why),
    }
}

/// What waiting for a request gave, as the request or the failure.
pub open spec fn inbound_fault(
    plugin_id: Seq<char>,
    inbound: Inbound,
    poll: ExitPoll,
    timeout_ms: u64,
) -> Option<RuntimeFault> {
    match inbound {
        Inbound::Event(ReaderEvent::Request(_)) => None,
        Inbound::Event(ReaderEvent::ProtocolError(why)) => Some(
            RuntimeFault::Protocol("plugin "@ + plugin_id + " protocol error: "@ + why@),
        ),
        Inbound::Event(ReaderEvent::IoError(why)) => Some(
            RuntimeFault::Io("plugin "@ + plugin_id + " stdout read error: "@ + why@),
        ),
        Inbound::Event(ReaderEvent::Eof) => Some(stream_end_fault(plugin_id, poll)),
        Inbound::Disconnected => Some(stream_end_fault(plugin_id, poll)),
        Inbound::TimedOut => Some(timeout_fault(plugin_id, poll, timeout_ms)),
    }
}

fn poll_failure(plugin_id: &str, why: &str) -> (error: RuntimeError)
    ensures
        error@ == RuntimeFault::Io(
            "failed to poll plugin "@ + plugin_id@ + " process status: "@ + why@,
        ),
{
    RuntimeError::Io(concat4("failed to poll plugin ", plugin_id, " process status: ", why))
}

/// The failure of the plugin `plugin_id` whose output has ended.
pub fn process_exited_error(plugin_id: &str, poll: &ExitPoll) -> (error: RuntimeError)
    ensures
        error@ == stream_end_fault(plugin_id@, *poll),
{
    match poll {
        ExitPoll::Exited(code) => RuntimeError::ProcessExited {
            plugin_id: plugin_id.to_owned(),
            code: *code,
        },
        ExitPoll::Running => RuntimeError::Io(
            concat3("plugin ", plugin_id, " request stream ended unexpectedly"),
        ),
        ExitPoll::Failed(why) => poll_failure(plugin_id, why.as_str()),
    }
}

/// The failure of the plugin `plugin_id` to which a line could not be
/// written, for the reason `why`.
pub fn io_error(plugin_id: &str, poll: &ExitPoll, why: &str) -> (error: RuntimeError)
    ensures
        error@ == write_fault(plugin_id@, *poll, why@),
{
    match poll {
        ExitPoll::Exited(code) => RuntimeError::ProcessExited {
            plugin_id: plugin_id.to_owned(),
            code: *code,
        },
        _ => RuntimeError::Io(concat4("plugin ", plugin_id, " stdio error: ", why)),
    }
}

/// Turns what waiting for a request gave into the request or the
/// failure. `poll` is read only where `inbound.needs_poll()`.
pub fn next_request(plugin_id: &str, inbound: Inbound, poll: &ExitPoll, timeout_ms: u64) -> (r:
    Result<PluginRequest, RuntimeError>)
    ensures
        match r {
            Ok(request) => inbound == Inbound::Event(ReaderEvent::Request(request)),
            Err(e) => inbound_fault(plugin_id@, inbound, *poll, timeout_ms) == Some(e@),
        },
{
    match inbound {
        Inbound::Event(ReaderEvent::Request(request)) => Ok(request),
        Inbound::Event(ReaderEvent::ProtocolError(why)) => Err(
            RuntimeError::Protocol(
                concat4("plugin ", plugin_id, " protocol error: ", why.as_str()),
            ),
        ),
        Inbound::Event(ReaderEvent::IoError(why)) => Err(
            RuntimeError::Io(concat4("plugin ", plugin_id, " stdout read error: ", why.as_str())),
        ),
        Inbound::Event(ReaderEvent::Eof) => Err(process_exited_error(plugin_id, poll)),
        Inbound::Disconnected => Err(process_exited_error(plugin_id, poll)),
        Inbound::TimedOut => match poll {
            ExitPoll::Exited(code) => Err(
                RuntimeError::ProcessExited { plugin_id: plugin_id.to_owned(), code: *code },
            ),
            ExitPoll::Running => Err(
                RuntimeError::Timeout { plugin_id: plugin_id.to_owned(), timeout_ms },
            ),
            ExitPoll::Failed(why) => Err(poll_failure(plugin_id, why.as_str())),
        },
    }
}

} // verus!
