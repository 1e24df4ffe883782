//! The commands of the console: how a line is split into a command and
//! its arguments, the commands that are built in, and what each of
//! them answers.

use vstd::prelude::*;
use crate::clock::Span;
use crate::console::Console;
use crate::text::{
    concat2, concat3, concat4, decimal, is_space, is_whitespace, join, joined, push_char,
    render_u64, same_text, texts,
};

verus! {

/// What a command gives back.
#[derive(Debug, Clone, PartialEq, Eq)]
pub enum CommandOutput {
    /// Lines to show in the console.
    Lines(Vec<String>),
    /// The host is to quit.
    Quit,
}

/// The number of characters at the start of `s` that are no white
/// space.
pub open spec fn word_len(s: Seq<char>) -> int
    decreases s.len(),
{
    if s.len() == 0 || is_space(s[0]) {
        0
    } else {
        1 + word_len(s.drop_first())
    }
}

/// The words of a line: its longest stretches without white space.
pub open spec fn words(s: Seq<char>) -> Seq<Seq<char>>
    decreases s.len(),
    via words_decreases
{
    if s.len() == 0 {
        Seq::empty()
    } else if is_space(s[0]) {
        words(s.drop_first())
    } else {
        seq![s.take(word_len(s))] + words(s.skip(word_len(s)))
    }
}

#[via_fn]
proof fn words_decreases(s: Seq<char>) {
    lemma_word_len_bounds(s);
}

proof fn lemma_word_len_bounds(s: Seq<char>)
    ensures
        0 <= word_len(s) <= s.len(),
        s.len() > 0 && !is_space(s[0]) ==> word_len(s) >= 1,
    decreases s.len(),
{
    if s.len() > 0 && !is_space(s[0]) {
        lemma_word_len_bounds(s.drop_first());
    }
}

/// Splits a line into its words.
pub fn split_words(input: &str) -> (parts: Vec<String>)
    ensures
        texts(parts@) == words(input@),
{
    let n: usize = input.unicode_len();
    let mut parts: Vec<String> = Vec::new();
    let mut i: usize = 0;
    proof {
        assert(input@.skip(0) =~= input@);
        assert(texts(parts@) + words(input@) =~= words(input@));
    }
    while i < n
        invariant
            n == input@.len(),
            i <= n,
            texts(parts@) + words(input@.skip(i as int)) == words(input@),
        decreases n - i,
    {
        let ghost rest = input@.skip(i as int);
        let ghost done = texts(parts@);
        if is_whitespace(input.get_char(i)) {
            proof {
                assert(rest[0] == input@[i as int]);
                assert(rest.drop_first() =~= input@.skip(i as int + 1));
            }
            i += 1;
        } else {
            let mut word: String = String::new();
            let mut j: usize = i;
            proof {
                assert(rest.skip(0) =~= rest);
                assert(rest.take(0) =~= Seq::<char>::empty());
            }
            while j < n && !is_whitespace(input.get_char(j))
                invariant
                    n == input@.len(),
                    i <= j <= n,
                    rest == input@.skip(i as int),
                    word@ == rest.take(j - i),
                    word_len(rest) == (j - i) + word_len(rest.skip(j - i)),
                decreases n - j,
            {
                proof {
                    let tail = rest.skip(j - i);
                    assert(tail[0] == input@[j as int]);
                    assert(tail.drop_first() =~= rest.skip(j - i + 1));
                }
                push_char(&mut word, input.get_char(j));
                proof {
                    assert(word@ =~= rest.take(j - i + 1));
                }
                j += 1;
            }
            proof {
                let tail = rest.skip(j - i);
                if j < n {
                    assert(tail[0] == input@[j as int]);
                }
                assert(word_len(tail) == 0);
                assert(rest[0] == input@[i as int]);
                assert(rest.skip(j - i) =~= input@.skip(j as int));
            }
            parts.push(word);
            proof {
                assert(texts(parts@) =~= done + seq![rest.take(word_len(rest))]);
                assert(texts(parts@) + words(input@.skip(j as int)) =~= done + words(rest));
            }
            i = j;
        }
    }
    proof {
        assert(words(input@.skip(n as int)) =~= Seq::<Seq<char>>::empty());
        assert(texts(parts@) + Seq::<Seq<char>>::empty() =~= texts(parts@));
    }
    parts
}

/// The commands that are built in.
#[derive(Debug, Clone, Copy, PartialEq, Eq, Structural)]
pub enum Builtin {
    Help,
    Clear,
    Modules,
    Switch,
    Quit,
    Uptime,
    Tps,
    Echo,
}

/// The built-in command that a word names, by its name or by one of
/// its other names.
pub open spec fn builtin_named(word: Seq<char>) -> Option<Builtin> {
    if word == "help"@ || word == "?"@ {
        Some(Builtin::Help)
    } else if word == "clear"@ || word == "cls"@ {
        Some(Builtin::Clear)
    } else if word == "modules"@ || word == "mods"@ {
        Some(Builtin::Modules)
    } else if word == "switch"@ || word == "sw"@ {
        Some(Builtin::Switch)
    } else if word == "quit"@ || word == "exit"@ || word == "q"@ {
        Some(Builtin::Quit)
    } else if word == "uptime"@ {
        Some(Builtin::Uptime)
    } else if word == "tps"@ || word == "fps"@ {
        Some(Builtin::Tps)
    } else if word == "echo"@ {
        Some(Builtin::Echo)
    } else {
        None
    }
}

/// The built-in command that a word names.
pub fn lookup_builtin(word: &str) -> (found: Option<Builtin>)
    ensures
        found == builtin_named(word@),
{
    if same_text(word, "help") || same_text(word, "?") {
        Some(Builtin::Help)
    } else if same_text(word, "clear") || same_text(word, "cls") {
        Some(Builtin::Clear)
    } else if same_text(word, "modules") || same_text(word, "mods") {
        Some(Builtin::Modules)
    } else if same_text(word, "switch") || same_text(word, "sw") {
        Some(Builtin::Switch)
    } else if same_text(word, "quit") || same_text(word, "exit") || same_text(word, "q") {
        Some(Builtin::Quit)
    } else if same_text(word, "uptime") {
        Some(Builtin::Uptime)
    } else if same_text(word, "tps") || same_text(word, "fps") {
        Some(Builtin::Tps)
    } else if same_text(word, "echo") {
        Some(Builtin::Echo)
    } else {
        None
    }
}

/// One line of output.
pub fn one_line(line: String) -> (output: CommandOutput)
    ensures
        output matches CommandOutput::Lines(lines) && lines@ == seq![line],
{
    let mut lines: Vec<String> = Vec::new();
    lines.push(line);
    assert(lines@ =~= seq![line]);
    CommandOutput::Lines(lines)
}

/// What the console answers to a word that names no command.
pub fn unknown_command(name: &str) -> (output: CommandOutput)
    ensures
        output matches CommandOutput::Lines(lines) && lines@.len() == 1 && lines@[0]@
            == "unknown command: '"@ + name@ + "'. Type 'help' for available commands."@,
{
    one_line(concat3("unknown command: '", name, "'. Type 'help' for available commands."))
}

/// Lists the commands, or says where help is found.
#[derive(Debug, Clone, Copy, PartialEq, Eq, Default)]
pub struct HelpCommand;

/// Empties the log of the console.
#[derive(Debug, Clone, Copy, PartialEq, Eq, Default)]
pub struct ClearCommand;

/// Lists the modules of the host.
#[derive(Debug, Clone, Copy, PartialEq, Eq, Default)]
pub struct ModulesCommand;

/// Shows another module.
#[derive(Debug, Clone, Copy, PartialEq, Eq, Default)]
pub struct SwitchCommand;

/// Ends the host.
#[derive(Debug, Clone, Copy, PartialEq, Eq, Default)]
pub struct QuitCommand;

/// Says how long the host has run.
#[derive(Debug, Clone, Copy, PartialEq, Eq, Default)]
pub struct UptimeCommand;

/// Says how many ticks a second the host makes.
#[derive(Debug, Clone, Copy, PartialEq, Eq, Default)]
pub struct TpsCommand;

/// Says its arguments back.
#[derive(Debug, Clone, Copy, PartialEq, Eq, Default)]
pub struct EchoCommand;

impl HelpCommand {
    pub fn name(&self) -> (name: &'static str)
        ensures
            builtin_named(name@) == Some(Builtin::Help),
            name@ == "help"@,
    {
        "help"
    }

    /// What the command does, in a line.
    pub fn description(&self) -> (text: &'static str)
        ensures
            text@ == "List commands or show specific help"@,
    {
        "List commands or show specific help"
    }

    /// How the command is written.
    pub fn usage(&self) -> (text: &'static str)
        ensures
            text@ == "help [command]"@,
    {
        "help [command]"
    }

    /// With an argument it points to the list of commands for that
    /// command; without one it says how the list is had.
    pub fn execute(&self, args: &Vec<String>) -> (output: CommandOutput)
        ensures
            output matches CommandOutput::Lines(lines) && lines@.len() == 1 && lines@[0]@ == (
            if args@.len() > 0 {
                "help for '"@ + args@[0]@ + "' — use 'help' to list all commands"@
            } else {
                "Type 'help' to list all commands."@
            }),
    {
        if args.len() > 0 {
            one_line(
                concat3("help for '", args[0].as_str(), "' — use 'help' to list all commands"),
            )
        } else {
            one_line("Type 'help' to list all commands.".to_owned())
        }
    }
}

impl ClearCommand {
    pub fn name(&self) -> (name: &'static str)
        ensures
            name@ == "clear"@,
    {
        "clear"
    }

    /// What the command does, in a line.
    pub fn description(&self) -> (text: &'static str)
        ensures
            text@ == "Clear console log"@,
    {
        "Clear console log"
    }

    /// Empties the log of the console and says nothing.
    pub fn execute(&self, console: &mut Console) -> (output: CommandOutput)
        ensures
            final(console).same_but_log(old(console)),
            final(console).lines().len() == 0,
            final(console).scrolled() == 0,
            output matches CommandOutput::Lines(lines) && lines@.len() == 0,
    {
        console.clear_logs();
        CommandOutput::Lines(Vec::new())
    }
}

/// The line that lists a module: its identifier, its title, and a star
/// where it is the module that shows.
pub open spec fn module_line(id: Seq<char>, title: Seq<char>, active: bool) -> Seq<char> {
    "  "@ + id + " — "@ + title + if active {
        " *"@
    } else {
        ""@
    }
}

impl ModulesCommand {
    pub fn name(&self) -> (name: &'static str)
        ensures
            name@ == "modules"@,
    {
        "modules"
    }

    /// What the command does, in a line.
    pub fn description(&self) -> (text: &'static str)
        ensures
            text@ == "List registered modules"@,
    {
        "List registered modules"
    }

    /// Lists the modules, given as pairs of identifier and title, and
    /// marks the one that shows.
    pub fn execute(&self, modules: &Vec<(String, String)>, active_id: Option<&str>) -> (output:
        CommandOutput)
        ensures
            output matches CommandOutput::Lines(lines) && lines@.len() == modules@.len()
                && forall|i: int|
                0 <= i < modules@.len() ==> (#[trigger] lines@[i])@ == module_line(
                    modules@[i].0@,
                    modules@[i].1@,
                    active_id matches Some(a) && a@ == modules@[i].0@,
                ),
    {
        let mut lines: Vec<String> = Vec::new();
        let mut i: usize = 0;
        while i < modules.len()
            invariant
                i <= modules.len(),
                lines@.len() == i,
                forall|j: int|
                    0 <= j < i ==> (#[trigger] lines@[j])@ == module_line(
                        modules@[j].0@,
                        modules@[j].1@,
                        active_id matches Some(a) && a@ == modules@[j].0@,
                    ),
            decreases modules.len() - i,
        {
            let active: bool = match active_id {
                Some(a) => same_text(a, modules[i].0.as_str()),
                None => false,
            };
            let mut line = concat4("  ", modules[i].0.as_str(), " — ", modules[i].1.as_str());
            if active {
                line.append(" *");
            } else {
                line.append("");
            }
            lines.push(line);
            i += 1;
        }
        CommandOutput::Lines(lines)
    }
}

impl SwitchCommand {
    pub fn name(&self) -> (name: &'static str)
        ensures
            name@ == "switch"@,
    {
        "switch"
    }

    /// What the command does, in a line.
    pub fn description(&self) -> (text: &'static str)
        ensures
            text@ == "Switch active module"@,
    {
        "Switch active module"
    }

    /// How the command is written.
    pub fn usage(&self) -> (text: &'static str)
        ensures
            text@ == "switch <module_id>"@,
    {
        "switch <module_id>"
    }

    /// The module to show, or what the command answers where none is
    /// named.
    pub fn target<'a>(&self, args: &'a Vec<String>) -> (r: Result<&'a String, CommandOutput>)
        ensures
            match r {
                Ok(id) => args@.len() > 0 && *id == args@[0],
                Err(output) => args@.len() == 0 && (output matches CommandOutput::Lines(lines)
                    && lines@.len() == 1 && lines@[0]@ == "usage: switch <module_id>"@),
            },
    {
        if args.len() == 0 {
            Err(one_line("usage: switch <module_id>".to_owned()))
        } else {
            Ok(&args[0])
        }
    }

    /// What the command answers, given what came of showing the
    /// module: its title, or why it could not be shown.
    pub fn execute(&self, outcome: Result<&str, &str>) -> (output: CommandOutput)
        ensures
            output matches CommandOutput::Lines(lines) && lines@.len() == 1 && lines@[0]@
                == match outcome {
                Ok(title) => "Switched to: "@ + title@,
                Err(why) => "error: "@ + why@,
            },
    {
        match outcome {
            Ok(title) => one_line(concat2("Switched to: ", title)),
            Err(why) => one_line(concat2("error: ", why)),
        }
    }
}

impl QuitCommand {
    pub fn name(&self) -> (name: &'static str)
        ensures
            name@ == "quit"@,
    {
        "quit"
    }

    /// What the command does, in a line.
    pub fn description(&self) -> (text: &'static str)
        ensures
            text@ == "Exit SPUD"@,
    {
        "Exit SPUD"
    }

    /// Tells the host to quit.
    pub fn execute(&self) -> (output: CommandOutput)
        ensures
            output is Quit,
    {
        CommandOutput::Quit
    }
}

/// A number in at least two digits.
pub open spec fn two_digits(n: nat) -> Seq<char> {
    if n < 10 {
        "0"@ + decimal(n)
    } else {
        decimal(n)
    }
}

/// A length of time as hours, minutes and seconds.
pub open spec fn clock_text(secs: nat) -> Seq<char> {
    two_digits(secs / 3600) + ":"@ + two_digits((secs % 3600) / 60) + ":"@ + two_digits(secs % 60)
}

fn print_two_digits(n: u64) -> (text: String)
    ensures
        text@ == two_digits(n as nat),
{
    let digits = render_u64(n);
    if n < 10 {
        concat2("0", digits.as_str())
    } else {
        digits
    }
}

impl UptimeCommand {
    pub fn name(&self) -> (name: &'static str)
        ensures
            name@ == "uptime"@,
    {
        "uptime"
    }

    /// What the command does, in a line.
    pub fn description(&self) -> (text: &'static str)
        ensures
            text@ == "Show runtime uptime"@,
    {
        "Show runtime uptime"
    }

    /// Says how long the host has run, in whole seconds.
    pub fn execute(&self, elapsed: Span) -> (output: CommandOutput)
        ensures
            output matches CommandOutput::Lines(lines) && lines@.len() == 1 && lines@[0]@
                == "Uptime: "@ + clock_text((elapsed.nanos / 1_000_000_000) as nat),
    {
        let secs: u64 = elapsed.as_secs();
        let h = print_two_digits(secs / 3600);
        let m = print_two_digits((secs % 3600) / 60);
        let s = print_two_digits(secs % 60);
        let mut line = concat4("Uptime: ", h.as_str(), ":", m.as_str());
        line.append(":");
        line.append(s.as_str());
        one_line(line)
    }
}

impl TpsCommand {
    pub fn name(&self) -> (name: &'static str)
        ensures
            name@ == "tps"@,
    {
        "tps"
    }

    /// What the command does, in a line.
    pub fn description(&self) -> (text: &'static str)
        ensures
            text@ == "Show ticks-per-second"@,
    {
        "Show ticks-per-second"
    }
}

impl EchoCommand {
    pub fn name(&self) -> (name: &'static str)
        ensures
            name@ == "echo"@,
    {
        "echo"
    }

    /// What the command does, in a line.
    pub fn description(&self) -> (text: &'static str)
        ensures
            text@ == "Print message to console"@,
    {
        "Print message to console"
    }

    /// How the command is written.
    pub fn usage(&self) -> (text: &'static str)
        ensures
            text@ == "echo <message>"@,
    {
        "echo <message>"
    }

    /// Says the arguments back, with single spaces between them.
    pub fn execute(&self, args: &Vec<String>) -> (output: CommandOutput)
        ensures
            output matches CommandOutput::Lines(lines) && lines@.len() == 1 && lines@[0]@
                == joined(texts(args@), " "@),
    {
        one_line(join(args, " "))
    }
}

/// A command of the console. `C` is what a command may look at and
/// change while it runs.
pub trait Command<C> {
    /// The word that calls the command.
    fn name(&self) -> &'static str;

    /// Other words that call the command.
    fn aliases(&self) -> Vec<&'static str>;

    /// What the command does, in a line.
    fn description(&self) -> &'static str;

    /// How the command is written.
    fn usage(&self) -> &'static str;

    /// Runs the command with the words that followed its name.
    fn execute(&self, args: &Vec<String>, ctx: &mut C) -> CommandOutput;
}

/// The command that a word calls: the one that was registered last
/// under that word, among the first `upto` entries.
pub open spec fn resolved(lookup: Seq<(String, usize)>, word: Seq<char>, upto: int) -> Option<usize>
    decreases upto,
{
    if upto <= 0 || upto > lookup.len() {
        None
    } else if lookup[upto - 1].0@ == word {
        Some(lookup[upto - 1].1)
    } else {
        resolved(lookup, word, upto - 1)
    }
}

/// The commands of the console, and the words that call them.
pub struct CommandRegistry<C, T> {
    commands: Vec<T>,
    lookup: Vec<(String, usize)>,
    context: std::marker::PhantomData<C>,
}

impl<C, T> CommandRegistry<C, T> {
    #[verifier::type_invariant]
    spec fn words_name_commands(&self) -> bool {
        forall|i: int| 0 <= i < self.lookup@.len() ==> (#[trigger] self.lookup@[i]).1 < self.commands@.len()
    }

    /// The commands, in the order in which they were registered.
    pub closed spec fn commands_spec(&self) -> Seq<T> {
        self.commands@
    }

    /// The place of the command that a word calls.
    pub closed spec fn calls(&self, word: Seq<char>) -> Option<usize> {
        resolved(self.lookup@, word, self.lookup@.len() as int)
    }
}

impl<C, T: Command<C>> CommandRegistry<C, T> {
    /// A registry without commands.
    pub fn new() -> (registry: CommandRegistry<C, T>)
        ensures
            registry.commands_spec().len() == 0,
            forall|word: Seq<char>| registry.calls(word) is None,
    {
        CommandRegistry { commands: Vec::new(), lookup: Vec::new(), context: std::marker::PhantomData }
    }

    /// Registers a command under its name and its other names. A word
    /// that called another command calls this one from now on.
    pub fn register(&mut self, cmd: T)
        ensures
            final(self).commands_spec() == old(self).commands_spec().push(cmd),
    {
        proof {
            use_type_invariant(&*self);
        }
        let mut whole: CommandRegistry<C, T> = CommandRegistry::new();
        std::mem::swap(self, &mut whole);
        let CommandRegistry { mut commands, mut lookup, context } = whole;
        let idx: usize = commands.len();
        lookup.push((cmd.name().to_owned(), idx));
        let aliases: Vec<&'static str> = cmd.aliases();
        let mut i: usize = 0;
        while i < aliases.len()
            invariant
                i <= aliases.len(),
                idx == commands@.len(),
                forall|j: int| 0 <= j < lookup@.len() ==> (#[trigger] lookup@[j]).1 <= idx,
            decreases aliases.len() - i,
        {
            let alias: &'static str = aliases[i];
            lookup.push((alias.to_owned(), idx));
            i += 1;
        }
        commands.push(cmd);
        *self = CommandRegistry { commands, lookup, context: std::marker::PhantomData };
    }

    /// The place of the command that a word calls.
    pub fn find(&self, word: &str) -> (place: Option<usize>)
        ensures
            place == self.calls(word@),
            place matches Some(i) ==> i < self.commands_spec().len(),
    {
        proof {
            use_type_invariant(self);
        }
        let mut i: usize = self.lookup.len();
        while i > 0
            invariant
                i <= self.lookup.len(),
                resolved(self.lookup@, word@, self.lookup@.len() as int) == resolved(
                    self.lookup@,
                    word@,
                    i as int,
                ),
                forall|j: int|
                    0 <= j < self.lookup@.len() ==> (#[trigger] self.lookup@[j]).1
                        < self.commands@.len(),
            decreases i,
        {
            if same_text(self.lookup[i - 1].0.as_str(), word) {
                return Some(self.lookup[i - 1].1);
            }
            i -= 1;
        }
        None
    }

    /// Runs a line: the first word calls the command, the other words
    /// are its arguments. An empty line gives nothing; a word that
    /// calls no command gives the line that says so; and neither
    /// touches what the commands work on.
    pub fn execute(&self, input: &str, ctx: &mut C) -> (output: CommandOutput)
        ensures
            words(input@).len() == 0 ==> (output matches CommandOutput::Lines(lines) && lines@.len()
                == 0) && *final(ctx) == *old(ctx),
            words(input@).len() > 0 && self.calls(words(input@)[0]) is None ==> (
            output matches CommandOutput::Lines(lines) && lines@.len() == 1 && lines@[0]@
                == "unknown command: '"@ + words(input@)[0]
                + "'. Type 'help' for available commands."@) && *final(ctx) == *old(ctx),
    {
        let mut parts: Vec<String> = split_words(input);
        if parts.len() == 0 {
            return CommandOutput::Lines(Vec::new());
        }
        let name: String = parts.remove(0);
        match self.find(name.as_str()) {
            Some(idx) => self.commands[idx].execute(&parts, ctx),
            None => unknown_command(name.as_str()),
        }
    }

    /// The commands, in the order in which they were registered.
    pub fn commands(&self) -> (list: &Vec<T>)
        ensures
            list@ == self.commands_spec(),
    {
        &self.commands
    }
}

/// The line that runs a command for a plugin: the command and its
/// arguments with single spaces between them.
pub fn invoke_line(command: &str, args: &Vec<String>) -> (line: String)
    ensures
        line@ == if args@.len() == 0 {
            command@
        } else {
            command@ + " "@ + joined(texts(args@), " "@)
        },
{
    if args.len() == 0 {
        command.to_owned()
    } else {
        let rest: String = join(args, " ");
        concat3(command, " ", rest.as_str())
    }
}

/// What a plugin is told of a command it ran: the lines the command
/// gave, or, where the command ends the host, that this was asked for.
/// The second part says whether the host is to end.
pub fn invoke_lines(output: CommandOutput) -> (r: (Vec<String>, bool))
    ensures
        match output {
            CommandOutput::Lines(lines) => r.0 == lines && !r.1,
            CommandOutput::Quit => r.1 && r.0@.len() == 1 && r.0@[0]@ == "quit requested"@,
        },
{
    match output {
        CommandOutput::Lines(lines) => (lines, false),
        CommandOutput::Quit => {
            let mut lines: Vec<String> = Vec::new();
            lines.push("quit requested".to_owned());
            (lines, true)
        },
    }
}

} // verus!
