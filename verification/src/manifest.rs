//! The plugin manifest and the rules a manifest has to meet.

use vstd::prelude::*;
use crate::text::{
    blank, concat2, concat3, concat4, debug_text, is_blank, is_trimmed, quoted, same_text, texts,
    trimmed,
};
use crate::version::{
    admits, is_requirement, is_version, parses_as_requirement, parses_as_version,
    requirement_matches,
};

verus! {

/// How a plugin is started.
#[derive(Debug, Clone, PartialEq, Eq)]
pub struct PluginRuntime {
    /// Path of the program or script, relative to the manifest's directory.
    pub entrypoint: String,
    /// Interpreter that runs the entrypoint, if it does not run by itself.
    pub command: Option<String>,
    /// Arguments, in order.
    pub args: Vec<String>,
}

/// Which host API versions a plugin works with.
#[derive(Debug, Clone, PartialEq, Eq)]
pub struct PluginCompatibility {
    /// A version requirement such as `^1.0.0`.
    pub host_api: String,
}

/// What a plugin may ask of the host.
#[derive(Debug, Clone, PartialEq, Eq, Default)]
pub struct PluginPermissions {
    pub commands: Vec<String>,
    pub event_tags: Vec<String>,
    pub subscriptions: Vec<String>,
}

/// A plugin's manifest.
#[derive(Debug, Clone, PartialEq, Eq)]
pub struct PluginManifest {
    pub id: String,
    pub name: String,
    pub version: String,
    pub runtime: PluginRuntime,
    pub compatibility: PluginCompatibility,
    pub permissions: PluginPermissions,
}

/// What is wrong with a manifest, over plain texts.
pub enum ManifestFault {
    EmptyField(Seq<char>),
    EmptyRuntimeArg,
    UntrimmedRuntimeArg(Seq<char>),
    EmptyEntry(Seq<char>),
    UntrimmedEntry(Seq<char>, Seq<char>),
    DuplicateEntry(Seq<char>, Seq<char>),
    InvalidVersion(Seq<char>),
    InvalidHostApi(Seq<char>),
    InvalidHostVersion(Seq<char>),
    UnsupportedHost { required: Seq<char>, host: Seq<char> },
}

/// Why a manifest was rejected.
#[derive(Debug, Clone, PartialEq, Eq)]
pub enum ManifestError {
    /// The named field is empty or white space only.
    EmptyField(String),
    /// An entry of `runtime.args` is empty or white space only.
    EmptyRuntimeArg,
    /// An entry of `runtime.args` starts or ends with white space.
    UntrimmedRuntimeArg(String),
    /// An entry of the named allowlist is empty or white space only.
    EmptyEntry(String),
    /// An entry of the named allowlist starts or ends with white space.
    UntrimmedEntry(String, String),
    /// An entry of the named allowlist occurs a second time.
    DuplicateEntry(String, String),
    /// `version` is no semantic version.
    InvalidVersion(String),
    /// `compatibility.host_api` is no version requirement.
    InvalidHostApi(String),
    /// The host version a manifest was held against is no semantic version.
    InvalidHostVersion(String),
    /// The manifest's requirement does not admit the host version.
    UnsupportedHost { required: String, host: String },
}

impl View for ManifestError {
    type V = ManifestFault;

    open spec fn view(&self) -> ManifestFault {
        match self {
            ManifestError::EmptyField(f) => ManifestFault::EmptyField(f@),
            ManifestError::EmptyRuntimeArg => ManifestFault::EmptyRuntimeArg,
            ManifestError::UntrimmedRuntimeArg(a) => ManifestFault::UntrimmedRuntimeArg(a@),
            ManifestError::EmptyEntry(l) => ManifestFault::EmptyEntry(l@),
            ManifestError::UntrimmedEntry(l, e) => ManifestFault::UntrimmedEntry(l@, e@),
            ManifestError::DuplicateEntry(l, e) => ManifestFault::DuplicateEntry(l@, e@),
            ManifestError::InvalidVersion(v) => ManifestFault::InvalidVersion(v@),
            ManifestError::InvalidHostApi(r) => ManifestFault::InvalidHostApi(r@),
            ManifestError::InvalidHostVersion(v) => ManifestFault::InvalidHostVersion(v@),
            ManifestError::UnsupportedHost { required, host } => ManifestFault::UnsupportedHost {
                required: required@,
                host: host@,
            },
        }
    }
}

impl ManifestFault {
    /// The fault in words.
    pub open spec fn message(self) -> Seq<char> {
        match self {
            ManifestFault::EmptyField(f) => f + " must not be empty"@,
            ManifestFault::EmptyRuntimeArg => "runtime.args entries must not be empty"@,
            ManifestFault::UntrimmedRuntimeArg(a) => "runtime.args entry "@ + debug_text(a)
                + " has leading/trailing whitespace"@,
            ManifestFault::EmptyEntry(l) => l + " entries must not be empty"@,
            ManifestFault::UntrimmedEntry(l, e) => l + " entry "@ + debug_text(e)
                + " has leading/trailing whitespace"@,
            ManifestFault::DuplicateEntry(l, e) => l + " contains duplicate entry "@ + debug_text(
                e,
            ),
            ManifestFault::InvalidVersion(v) => "manifest version must be valid semver: "@ + v,
            ManifestFault::InvalidHostApi(r) =>
                "compatibility.host_api must be a valid semver requirement: "@ + r,
            ManifestFault::InvalidHostVersion(v) => "host API version must be valid semver: "@
                + v,
            ManifestFault::UnsupportedHost { required, host } => "plugin requires host_api "@
                + required + " but host is "@ + host,
        }
    }
}

impl ManifestError {
    /// The error in words.
    pub fn message(&self) -> (text: String)
        ensures
            text@ == self@.message(),
    {
        match self {
            ManifestError::EmptyField(f) => concat2(f.as_str(), " must not be empty"),
            ManifestError::EmptyRuntimeArg => "runtime.args entries must not be empty".to_owned(),
            ManifestError::UntrimmedRuntimeArg(a) => {
                let q = quoted(a.as_str());
                concat3("runtime.args entry ", q.as_str(), " has leading/trailing whitespace")
            },
            ManifestError::EmptyEntry(l) => concat2(l.as_str(), " entries must not be empty"),
            ManifestError::UntrimmedEntry(l, e) => {
                let q = quoted(e.as_str());
                concat4(l.as_str(), " entry ", q.as_str(), " has leading/trailing whitespace")
            },
            ManifestError::DuplicateEntry(l, e) => {
                let q = quoted(e.as_str());
                concat3(l.as_str(), " contains duplicate entry ", q.as_str())
            },
            ManifestError::InvalidVersion(v) => concat2(
                "manifest version must be valid semver: ",
                v.as_str(),
            ),
            ManifestError::InvalidHostApi(r) => concat2(
                "compatibility.host_api must be a valid semver requirement: ",
                r.as_str(),
            ),
            ManifestError::InvalidHostVersion(v) => concat2(
                "host API version must be valid semver: ",
                v.as_str(),
            ),
            ManifestError::UnsupportedHost { required, host } => concat4(
                "plugin requires host_api ",
                required.as_str(),
                " but host is ",
                host.as_str(),
            ),
        }
    }
}

/// Whether `wanted` is one of the first `upto` items.
pub fn listed_before(items: &Vec<String>, upto: usize, wanted: &str) -> (found: bool)
    requires
        upto <= items.len(),
    ensures
        found == texts(items@).take(upto as int).contains(wanted@),
{
    let mut i: usize = 0;
    while i < upto
        invariant
            i <= upto <= items.len(),
            !texts(items@).take(i as int).contains(wanted@),
        decreases upto - i,
    {
        if same_text(items[i].as_str(), wanted) {
            assert(texts(items@).take(upto as int)[i as int] == wanted@);
            return true;
        }
        assert(texts(items@).take(i as int + 1) =~= texts(items@).take(i as int).push(
            items@[i as int]@,
        ));
        i += 1;
    }
    false
}

/// Whether `wanted` is one of the items.
pub fn listed(items: &Vec<String>, wanted: &str) -> (found: bool)
    ensures
        found == texts(items@).contains(wanted@),
{
    assert(texts(items@).take(items.len() as int) =~= texts(items@));
    listed_before(items, items.len(), wanted)
}

impl PluginPermissions {
    /// Whether `command` is on the list of commands.
    pub fn allows_command(&self, command: &str) -> (allowed: bool)
        ensures
            allowed == texts(self.commands@).contains(command@),
    {
        listed(&self.commands, command)
    }

    /// Whether `tag` is on the list of event tags.
    pub fn allows_event_tag(&self, tag: &str) -> (allowed: bool)
        ensures
            allowed == texts(self.event_tags@).contains(tag@),
    {
        listed(&self.event_tags, tag)
    }

    /// Whether `category` is on the list of subscriptions.
    pub fn allows_subscription(&self, category: &str) -> (allowed: bool)
        ensures
            allowed == texts(self.subscriptions@).contains(category@),
    {
        listed(&self.subscriptions, category)
    }
}

/// A field that has to hold something is faulty where it is blank.
pub open spec fn field_fault(field: Seq<char>, value: Seq<char>) -> Option<ManifestFault> {
    if is_blank(value) {
        Some(ManifestFault::EmptyField(field))
    } else {
        None
    }
}

/// Rejects a value that is empty or white space only.
pub fn validate_nonempty(field: &str, value: &str) -> (r: Result<(), ManifestError>)
    ensures
        match r {
            Ok(()) => field_fault(field@, value@) is None,
            Err(e) => field_fault(field@, value@) == Some(e@),
        },
{
    if blank(value) {
        return Err(ManifestError::EmptyField(field.to_owned()));
    }
    Ok(())
}

/// What is wrong with one runtime argument.
pub open spec fn arg_fault(arg: Seq<char>) -> Option<ManifestFault> {
    if is_blank(arg) {
        Some(ManifestFault::EmptyRuntimeArg)
    } else if !is_trimmed(arg) {
        Some(ManifestFault::UntrimmedRuntimeArg(arg))
    } else {
        None
    }
}

/// The fault of the first faulty argument from position `from` on.
pub open spec fn args_fault_from(args: Seq<Seq<char>>, from: int) -> Option<ManifestFault>
    decreases args.len() - from,
{
    if from < 0 || from >= args.len() {
        None
    } else if arg_fault(args[from]) is Some {
        arg_fault(args[from])
    } else {
        args_fault_from(args, from + 1)
    }
}

/// The fault of the first faulty runtime argument. Arguments may repeat.
pub open spec fn args_fault(args: Seq<Seq<char>>) -> Option<ManifestFault> {
    args_fault_from(args, 0)
}

/// Rejects runtime arguments that are blank or not trimmed.
pub fn validate_runtime_args(args: &Vec<String>) -> (r: Result<(), ManifestError>)
    ensures
        match r {
            Ok(()) => args_fault(texts(args@)) is None,
            Err(e) => args_fault(texts(args@)) == Some(e@),
        },
{
    let mut i: usize = 0;
    while i < args.len()
        invariant
            i <= args.len(),
            args_fault(texts(args@)) == args_fault_from(texts(args@), i as int),
        decreases args.len() - i,
    {
        let arg: &String = &args[i];
        assert(texts(args@)[i as int] == arg@);
        if blank(arg.as_str()) {
            return Err(ManifestError::EmptyRuntimeArg);
        }
        if !trimmed(arg.as_str()) {
            return Err(ManifestError::UntrimmedRuntimeArg(arg.clone()));
        }
        i += 1;
    }
    Ok(())
}

/// What is wrong with entry `at` of an allowlist, given the entries
/// before it.
pub open spec fn entry_fault(list: Seq<char>, values: Seq<Seq<char>>, at: int) -> Option<
    ManifestFault,
> {
    if is_blank(values[at]) {
        Some(ManifestFault::EmptyEntry(list))
    } else if !is_trimmed(values[at]) {
        Some(ManifestFault::UntrimmedEntry(list, values[at]))
    } else if values.take(at).contains(values[at]) {
        Some(ManifestFault::DuplicateEntry(list, values[at]))
    } else {
        None
    }
}

/// The fault of the first faulty entry from position `from` on.
pub open spec fn allowlist_fault_from(list: Seq<char>, values: Seq<Seq<char>>, from: int) -> Option<
    ManifestFault,
>
    decreases values.len() - from,
{
    if from < 0 || from >= values.len() {
        None
    } else if entry_fault(list, values, from) is Some {
        entry_fault(list, values, from)
    } else {
        allowlist_fault_from(list, values, from + 1)
    }
}

/// The fault of the first faulty entry of an allowlist: an entry is
/// faulty where it is blank, not trimmed, or a repetition.
pub open spec fn allowlist_fault(list: Seq<char>, values: Seq<Seq<char>>) -> Option<
    ManifestFault,
> {
    allowlist_fault_from(list, values, 0)
}

/// Rejects an allowlist with a blank, untrimmed or repeated entry.
pub fn validate_allowlist(field: &str, values: &Vec<String>) -> (r: Result<(), ManifestError>)
    ensures
        match r {
            Ok(()) => allowlist_fault(field@, texts(values@)) is None,
            Err(e) => allowlist_fault(field@, texts(values@)) == Some(e@),
        },
{
    let mut i: usize = 0;
    while i < values.len()
        invariant
            i <= values.len(),
            allowlist_fault(field@, texts(values@)) == allowlist_fault_from(
                field@,
                texts(values@),
                i as int,
            ),
        decreases values.len() - i,
    {
        let value: &String = &values[i];
        assert(texts(values@)[i as int] == value@);
        if blank(value.as_str()) {
            return Err(ManifestError::EmptyEntry(field.to_owned()));
        }
        if !trimmed(value.as_str()) {
            return Err(ManifestError::UntrimmedEntry(field.to_owned(), value.clone()));
        }
        if listed_before(values, i, value.as_str()) {
            return Err(ManifestError::DuplicateEntry(field.to_owned(), value.clone()));
        }
        i += 1;
    }
    Ok(())
}

/// An allowlist without fault holds no entry twice.
pub proof fn lemma_valid_allowlist_has_no_duplicates(list: Seq<char>, values: Seq<Seq<char>>)
    requires
        allowlist_fault(list, values) is None,
    ensures
        values.no_duplicates(),
        forall|i: int|
            0 <= i < values.len() ==> !is_blank(#[trigger] values[i]) && is_trimmed(values[i]),
{
    lemma_no_fault_from(list, values, 0);
    assert forall|i: int| 0 <= i < values.len() implies !is_blank(#[trigger] values[i])
        && is_trimmed(values[i]) by {
        assert(entry_fault(list, values, i) is None);
    }
    assert forall|i: int, j: int| 0 <= i < j < values.len() implies values[i] != values[j] by {
        assert(entry_fault(list, values, j) is None);
        if values[i] == values[j] {
            assert(values.take(j)[i] == values[j]);
        }
    }
}

proof fn lemma_no_fault_from(list: Seq<char>, values: Seq<Seq<char>>, from: int)
    requires
        0 <= from,
        allowlist_fault_from(list, values, from) is None,
    ensures
        forall|i: int| from <= i < values.len() ==> entry_fault(list, values, i) is None,
    decreases values.len() - from,
{
    if from < values.len() {
        lemma_no_fault_from(list, values, from + 1);
    }
}

/// The first thing that is wrong with a manifest, in the order in which
/// its parts are checked: the required fields, the interpreter, the
/// arguments, the three allowlists, the version, the host requirement.
pub open spec fn manifest_fault(m: PluginManifest) -> Option<ManifestFault> {
    if field_fault("id"@, m.id@) is Some {
        field_fault("id"@, m.id@)
    } else if field_fault("name"@, m.name@) is Some {
        field_fault("name"@, m.name@)
    } else if field_fault("version"@, m.version@) is Some {
        field_fault("version"@, m.version@)
    } else if field_fault("runtime.entrypoint"@, m.runtime.entrypoint@) is Some {
        field_fault("runtime.entrypoint"@, m.runtime.entrypoint@)
    } else if field_fault("compatibility.host_api"@, m.compatibility.host_api@) is Some {
        field_fault("compatibility.host_api"@, m.compatibility.host_api@)
    } else if m.runtime.command is Some && field_fault(
        "runtime.command"@,
        m.runtime.command->0@,
    ) is Some {
        field_fault("runtime.command"@, m.runtime.command->0@)
    } else if args_fault(texts(m.runtime.args@)) is Some {
        args_fault(texts(m.runtime.args@))
    } else if allowlist_fault("permissions.commands"@, texts(m.permissions.commands@)) is Some {
        allowlist_fault("permissions.commands"@, texts(m.permissions.commands@))
    } else if allowlist_fault("permissions.event_tags"@, texts(m.permissions.event_tags@))
        is Some {
        allowlist_fault("permissions.event_tags"@, texts(m.permissions.event_tags@))
    } else if allowlist_fault("permissions.subscriptions"@, texts(m.permissions.subscriptions@))
        is Some {
        allowlist_fault("permissions.subscriptions"@, texts(m.permissions.subscriptions@))
    } else if !is_version(m.version@) {
        Some(ManifestFault::InvalidVersion(m.version@))
    } else if !is_requirement(m.compatibility.host_api@) {
        Some(ManifestFault::InvalidHostApi(m.compatibility.host_api@))
    } else {
        None
    }
}

/// What stands in the way of running the plugin on a host of the given
/// version.
pub open spec fn host_fault(m: PluginManifest, host: Seq<char>) -> Option<ManifestFault> {
    if !is_requirement(m.compatibility.host_api@) {
        Some(ManifestFault::InvalidHostApi(m.compatibility.host_api@))
    } else if !is_version(host) {
        Some(ManifestFault::InvalidHostVersion(host))
    } else if !admits(m.compatibility.host_api@, host) {
        Some(
            ManifestFault::UnsupportedHost {
                required: m.compatibility.host_api@,
                host,
            },
        )
    } else {
        None
    }
}

impl PluginManifest {
    /// A manifest that meets every rule.
    pub open spec fn is_valid(&self) -> bool {
        manifest_fault(*self) is None
    }

    /// Checks the manifest and reports the first rule it breaks.
    pub fn validate(&self) -> (r: Result<(), ManifestError>)
        ensures
            match r {
                Ok(()) => self.is_valid(),
                Err(e) => manifest_fault(*self) == Some(e@),
            },
    {
        validate_nonempty("id", self.id.as_str())?;
        validate_nonempty("name", self.name.as_str())?;
        validate_nonempty("version", self.version.as_str())?;
        validate_nonempty("runtime.entrypoint", self.runtime.entrypoint.as_str())?;
        validate_nonempty("compatibility.host_api", self.compatibility.host_api.as_str())?;
        match &self.runtime.command {
            Some(command) => {
                validate_nonempty("runtime.command", command.as_str())?;
            },
            None => {},
        }
        validate_runtime_args(&self.runtime.args)?;
        validate_allowlist("permissions.commands", &self.permissions.commands)?;
        validate_allowlist("permissions.event_tags", &self.permissions.event_tags)?;
        validate_allowlist("permissions.subscriptions", &self.permissions.subscriptions)?;
        if !parses_as_version(self.version.as_str()) {
            return Err(ManifestError::InvalidVersion(self.version.clone()));
        }
        if !parses_as_requirement(self.compatibility.host_api.as_str()) {
            return Err(ManifestError::InvalidHostApi(self.compatibility.host_api.clone()));
        }
        Ok(())
    }

    /// Checks that the plugin runs on a host of version `host_api_version`.
    pub fn supports_host_api(&self, host_api_version: &str) -> (r: Result<(), ManifestError>)
        ensures
            match r {
                Ok(()) => host_fault(*self, host_api_version@) is None,
                Err(e) => host_fault(*self, host_api_version@) == Some(e@),
            },
    {
        let required: &str = self.compatibility.host_api.as_str();
        if !parses_as_requirement(required) {
            return Err(ManifestError::InvalidHostApi(self.compatibility.host_api.clone()));
        }
        if !parses_as_version(host_api_version) {
            return Err(ManifestError::InvalidHostVersion(host_api_version.to_owned()));
        }
        if requirement_matches(required, host_api_version) {
            Ok(())
        } else {
            Err(
                ManifestError::UnsupportedHost {
                    required: self.compatibility.host_api.clone(),
                    host: host_api_version.to_owned(),
                },
            )
        }
    }
}

} // verus!
