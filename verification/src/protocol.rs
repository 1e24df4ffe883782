//! The wire protocol between host and plugin: message shapes, method
//! names, error codes, and the negotiation that opens a session.

use vstd::prelude::*;
use crate::text::{concat2, concat4, join, joined, same_text, texts};

pub mod contract;
pub mod error_code;
pub mod handshake;

pub use contract::{openrpc_method_names, validate_openrpc_spec, ContractError, OpenRpcDocument};
pub use handshake::{
    build_handshake_result, filter_host_capabilities, host_capabilities, negotiate_api_version,
};

verus! {

/// The protocol version every message carries.
pub const JSONRPC_VERSION: &'static str = "2.0";

/// The version of the contract document format.
pub const OPENRPC_VERSION: &'static str = "1.3.2";

/// The API version this host offers.
pub const HOST_API_VERSION: &'static str = "1.0.0";

/// The method that opens a session.
pub const HANDSHAKE_METHOD: &'static str = "spud.handshake";

/// The method that asks for a snapshot of the host's state.
pub const GET_SNAPSHOT_METHOD: &'static str = "spud.state.get_snapshot";

/// The method that subscribes to event categories.
pub const SUBSCRIBE_METHOD: &'static str = "spud.events.subscribe";

/// The method that gives subscriptions up.
pub const UNSUBSCRIBE_METHOD: &'static str = "spud.events.unsubscribe";

/// The method that runs a host command.
pub const INVOKE_COMMAND_METHOD: &'static str = "spud.host.invoke_command";

/// The method that publishes an event of the plugin's own.
pub const PUBLISH_EVENT_METHOD: &'static str = "spud.host.publish_event";

/// The method of the notifications by which the host delivers events.
pub const EVENT_NOTIFICATION_METHOD: &'static str = "spud.events.emit";

/// The six methods a host answers, in the order the contract lists them.
pub open spec fn required_method_names() -> Seq<Seq<char>> {
    seq![
        HANDSHAKE_METHOD@,
        GET_SNAPSHOT_METHOD@,
        SUBSCRIBE_METHOD@,
        UNSUBSCRIBE_METHOD@,
        INVOKE_COMMAND_METHOD@,
        PUBLISH_EVENT_METHOD@,
    ]
}

/// The six methods a host answers.
pub fn required_methods() -> (names: Vec<String>)
    ensures
        texts(names@) == required_method_names(),
{
    let mut names: Vec<String> = Vec::new();
    names.push(HANDSHAKE_METHOD.to_owned());
    names.push(GET_SNAPSHOT_METHOD.to_owned());
    names.push(SUBSCRIBE_METHOD.to_owned());
    names.push(UNSUBSCRIBE_METHOD.to_owned());
    names.push(INVOKE_COMMAND_METHOD.to_owned());
    names.push(PUBLISH_EVENT_METHOD.to_owned());
    assert(texts(names@) =~= required_method_names());
    names
}

/// The identifier of a request, which its response repeats.
#[derive(Debug, Clone, PartialEq, Eq)]
pub enum RequestId {
    String(String),
    Number(i64),
    Null,
}

/// A request identifier over plain values.
pub enum RequestIdModel {
    String(Seq<char>),
    Number(i64),
    Null,
}

impl View for RequestId {
    type V = RequestIdModel;

    open spec fn view(&self) -> RequestIdModel {
        match self {
            RequestId::String(s) => RequestIdModel::String(s@),
            RequestId::Number(n) => RequestIdModel::Number(*n),
            RequestId::Null => RequestIdModel::Null,
        }
    }
}

impl RequestId {
    /// A copy of the identifier.
    pub fn duplicate(&self) -> (copy: RequestId)
        ensures
            copy@ == self@,
    {
        match self {
            RequestId::String(s) => RequestId::String(s.clone()),
            RequestId::Number(n) => RequestId::Number(*n),
            RequestId::Null => RequestId::Null,
        }
    }
}

/// The error part of a response.
#[derive(Debug, Clone, PartialEq, Eq)]
pub struct JsonRpcError {
    pub code: i32,
    pub message: String,
    /// Further data as encoded text, where there is any.
    pub data: Option<String>,
}

/// An error payload over plain values.
pub struct JsonRpcErrorModel {
    pub code: i32,
    pub message: Seq<char>,
    pub data: Option<Seq<char>>,
}

impl View for JsonRpcError {
    type V = JsonRpcErrorModel;

    open spec fn view(&self) -> JsonRpcErrorModel {
        JsonRpcErrorModel {
            code: self.code,
            message: self.message@,
            data: match self.data {
                Some(d) => Some(d@),
                None => None,
            },
        }
    }
}

/// An error payload with the given code and message and no data.
pub open spec fn plain_error(code: i32, message: Seq<char>) -> JsonRpcErrorModel {
    JsonRpcErrorModel { code, message, data: None }
}

/// Why a handshake failed, over plain values.
pub enum HandshakeFault {
    InvalidVersionRequirement(Seq<char>),
    UnsupportedApiVersion { host: Seq<char>, supported: Seq<char> },
    UnsupportedRequestedCapabilities(Seq<Seq<char>>),
    HostApiVersionInvalid(Seq<char>),
    HostCapabilitiesUnavailable(Seq<char>),
}

/// Why a handshake failed.
#[derive(Debug, Clone, PartialEq, Eq)]
pub enum HandshakeError {
    /// The plugin's requirement is no version requirement.
    InvalidVersionRequirement(String),
    /// The plugin's requirement does not admit the host's version.
    UnsupportedApiVersion { host: String, supported: String },
    /// The plugin asked for capabilities of which the host has none.
    UnsupportedRequestedCapabilities(Vec<String>),
    /// The host's own version is no semantic version.
    HostApiVersionInvalid(String),
    /// The host could not say what it is capable of.
    HostCapabilitiesUnavailable(String),
}

impl View for HandshakeError {
    type V = HandshakeFault;

    open spec fn view(&self) -> HandshakeFault {
        match self {
            HandshakeError::InvalidVersionRequirement(r) =>
                HandshakeFault::InvalidVersionRequirement(r@),
            HandshakeError::UnsupportedApiVersion { host, supported } =>
                HandshakeFault::UnsupportedApiVersion { host: host@, supported: supported@ },
            HandshakeError::UnsupportedRequestedCapabilities(names) =>
                HandshakeFault::UnsupportedRequestedCapabilities(texts(names@)),
            HandshakeError::HostApiVersionInvalid(v) => HandshakeFault::HostApiVersionInvalid(v@),
            HandshakeError::HostCapabilitiesUnavailable(e) =>
                HandshakeFault::HostCapabilitiesUnavailable(e@),
        }
    }
}

impl HandshakeFault {
    /// The error code the fault is answered with.
    pub open spec fn code(self) -> i32 {
        match self {
            HandshakeFault::InvalidVersionRequirement(_) => error_code::INVALID_PARAMS,
            HandshakeFault::UnsupportedApiVersion { .. } => error_code::UNSUPPORTED_API_VERSION,
            HandshakeFault::UnsupportedRequestedCapabilities(_) => error_code::INVALID_PARAMS,
            HandshakeFault::HostApiVersionInvalid(_) => error_code::PLUGIN_UNAVAILABLE,
            HandshakeFault::HostCapabilitiesUnavailable(_) => error_code::PLUGIN_UNAVAILABLE,
        }
    }

    /// The fault in words.
    pub open spec fn message(self) -> Seq<char> {
        match self {
            HandshakeFault::InvalidVersionRequirement(r) =>
                "invalid supported_api_versions requirement: "@ + r,
            HandshakeFault::UnsupportedApiVersion { host, supported } => "host API version "@
                + host + " is not compatible with plugin requirement "@ + supported,
            HandshakeFault::UnsupportedRequestedCapabilities(names) =>
                "requested_capabilities contains no supported entries: "@ + joined(names, ", "@),
            HandshakeFault::HostApiVersionInvalid(v) =>
                "host API version constant is not valid semver: "@ + v,
            HandshakeFault::HostCapabilitiesUnavailable(e) => "host capabilities unavailable: "@
                + e,
        }
    }
}

impl HandshakeError {
    /// The error code the failure is answered with.
    pub fn code(&self) -> (code: i32)
        ensures
            code == self@.code(),
    {
        match self {
            HandshakeError::InvalidVersionRequirement(_) => error_code::INVALID_PARAMS,
            HandshakeError::UnsupportedApiVersion { .. } => error_code::UNSUPPORTED_API_VERSION,
            HandshakeError::UnsupportedRequestedCapabilities(_) => error_code::INVALID_PARAMS,
            HandshakeError::HostApiVersionInvalid(_) => error_code::PLUGIN_UNAVAILABLE,
            HandshakeError::HostCapabilitiesUnavailable(_) => error_code::PLUGIN_UNAVAILABLE,
        }
    }

    /// The failure in words.
    pub fn message(&self) -> (text: String)
        ensures
            text@ == self@.message(),
    {
        match self {
            HandshakeError::InvalidVersionRequirement(r) => concat2(
                "invalid supported_api_versions requirement: ",
                r.as_str(),
            ),
            HandshakeError::UnsupportedApiVersion { host, supported } => concat4(
                "host API version ",
                host.as_str(),
                " is not compatible with plugin requirement ",
                supported.as_str(),
            ),
            HandshakeError::UnsupportedRequestedCapabilities(names) => {
                let list = join(names, ", ");
                concat2("requested_capabilities contains no supported entries: ", list.as_str())
            },
            HandshakeError::HostApiVersionInvalid(v) => concat2(
                "host API version constant is not valid semver: ",
                v.as_str(),
            ),
            HandshakeError::HostCapabilitiesUnavailable(e) => concat2(
                "host capabilities unavailable: ",
                e.as_str(),
            ),
        }
    }

    /// The failure as the error part of a response.
    pub fn to_jsonrpc_error(&self) -> (error: JsonRpcError)
        ensures
            error@ == plain_error(self@.code(), self@.message()),
    {
        JsonRpcError { code: self.code(), message: self.message(), data: None }
    }
}

/// The kinds of host event a plugin can subscribe to.
#[derive(Debug, Clone, Copy, PartialEq, Eq, Hash, Structural)]
pub enum EventCategory {
    Tick,
    Resize,
    ModuleLifecycle,
    Telemetry,
    Custom,
}

/// The name a category has on the wire.
pub open spec fn category_name(category: EventCategory) -> Seq<char> {
    match category {
        EventCategory::Tick => "tick"@,
        EventCategory::Resize => "resize"@,
        EventCategory::ModuleLifecycle => "module_lifecycle"@,
        EventCategory::Telemetry => "telemetry"@,
        EventCategory::Custom => "custom"@,
    }
}

/// The five categories, in the order the host lists them.
pub open spec fn all_categories() -> Seq<EventCategory> {
    seq![
        EventCategory::Tick,
        EventCategory::Resize,
        EventCategory::ModuleLifecycle,
        EventCategory::Telemetry,
        EventCategory::Custom,
    ]
}

impl EventCategory {
    /// Every category the host has.
    pub const ALL: [EventCategory; 5] = [
        EventCategory::Tick,
        EventCategory::Resize,
        EventCategory::ModuleLifecycle,
        EventCategory::Telemetry,
        EventCategory::Custom,
    ];

    /// The name the category has on the wire.
    pub fn as_str(self) -> (name: &'static str)
        ensures
            name@ == category_name(self),
    {
        match self {
            EventCategory::Tick => "tick",
            EventCategory::Resize => "resize",
            EventCategory::ModuleLifecycle => "module_lifecycle",
            EventCategory::Telemetry => "telemetry",
            EventCategory::Custom => "custom",
        }
    }

    /// Every category the host has, as a list.
    pub fn all() -> (list: Vec<EventCategory>)
        ensures
            list@ == all_categories(),
    {
        let mut list: Vec<EventCategory> = Vec::new();
        list.push(EventCategory::Tick);
        list.push(EventCategory::Resize);
        list.push(EventCategory::ModuleLifecycle);
        list.push(EventCategory::Telemetry);
        list.push(EventCategory::Custom);
        assert(list@ =~= all_categories());
        list
    }
}

/// The five names differ from each other.
pub proof fn lemma_category_names_differ(a: EventCategory, b: EventCategory)
    ensures
        (category_name(a) == category_name(b)) == (a == b),
{
    reveal_strlit("tick");
    reveal_strlit("resize");
    reveal_strlit("module_lifecycle");
    reveal_strlit("telemetry");
    reveal_strlit("custom");
    if a != b {
        let x = category_name(a);
        let y = category_name(b);
        if x.len() == y.len() {
            assert(x[0] != y[0]);
        }
    }
}

/// The category with the given name, if it names one.
pub fn event_category_from_name(name: &str) -> (category: Option<EventCategory>)
    ensures
        match category {
            Some(c) => category_name(c) == name@,
            None => forall|c: EventCategory| category_name(c) != name@,
        },
{
    if same_text(name, "tick") {
        Some(EventCategory::Tick)
    } else if same_text(name, "resize") {
        Some(EventCategory::Resize)
    } else if same_text(name, "module_lifecycle") {
        Some(EventCategory::ModuleLifecycle)
    } else if same_text(name, "telemetry") {
        Some(EventCategory::Telemetry)
    } else if same_text(name, "custom") {
        Some(EventCategory::Custom)
    } else {
        None
    }
}

/// What a plugin sends with the handshake.
#[derive(Debug, Clone, PartialEq, Eq)]
pub struct HandshakeParams {
    pub plugin_id: String,
    pub plugin_version: String,
    /// The host API versions the plugin works with, as a requirement.
    pub supported_api_versions: String,
    /// The capabilities the plugin wants to hear of; empty for all.
    pub requested_capabilities: Vec<String>,
}

/// What the host is capable of.
#[derive(Debug, Clone, PartialEq, Eq)]
pub struct HostCapabilities {
    pub methods: Vec<String>,
    pub event_categories: Vec<EventCategory>,
}

/// Host capabilities over plain values.
pub struct HostCapabilitiesModel {
    pub methods: Seq<Seq<char>>,
    pub event_categories: Seq<EventCategory>,
}

impl View for HostCapabilities {
    type V = HostCapabilitiesModel;

    open spec fn view(&self) -> HostCapabilitiesModel {
        HostCapabilitiesModel {
            methods: texts(self.methods@),
            event_categories: self.event_categories@,
        }
    }
}

/// What the host answers to a handshake.
#[derive(Debug, Clone, PartialEq, Eq)]
pub struct HandshakeResult {
    pub selected_api_version: String,
    pub host_capabilities: HostCapabilities,
}

/// A handshake result over plain values.
pub struct HandshakeResultModel {
    pub selected_api_version: Seq<char>,
    pub host_capabilities: HostCapabilitiesModel,
}

impl View for HandshakeResult {
    type V = HandshakeResultModel;

    open spec fn view(&self) -> HandshakeResultModel {
        HandshakeResultModel {
            selected_api_version: self.selected_api_version@,
            host_capabilities: self.host_capabilities@,
        }
    }
}

/// A copy of a list of strings.
pub fn duplicate_texts(items: &Vec<String>) -> (copy: Vec<String>)
    ensures
        texts(copy@) == texts(items@),
{
    let copy = items.clone();
    assert(texts(copy@) =~= texts(items@));
    copy
}

impl HostCapabilities {
    /// A copy of the capabilities.
    pub fn duplicate(&self) -> (copy: HostCapabilities)
        ensures
            copy@ == self@,
    {
        HostCapabilities {
            methods: duplicate_texts(&self.methods),
            event_categories: self.event_categories.clone(),
        }
    }
}

impl HandshakeResult {
    /// A copy of the result.
    pub fn duplicate(&self) -> (copy: HandshakeResult)
        ensures
            copy@ == self@,
    {
        HandshakeResult {
            selected_api_version: self.selected_api_version.clone(),
            host_capabilities: self.host_capabilities.duplicate(),
        }
    }
}

/// What a plugin sends to ask for a snapshot: nothing.
#[derive(Debug, Default, Clone, PartialEq, Eq)]
pub struct GetSnapshotParams {
}

/// The module the host shows.
#[derive(Debug, Clone, PartialEq, Eq)]
pub struct ActiveModule {
    pub id: String,
    pub title: String,
}

/// One telemetry reading of a snapshot.
#[derive(Debug, Clone, PartialEq, Eq)]
pub struct TelemetryDatum {
    pub source: String,
    pub key: String,
    /// The reading as encoded text.
    pub value: String,
}

/// The host's state as a plugin may see it.
#[derive(Debug, Clone, PartialEq, Eq)]
pub struct StateSnapshot {
    pub active_module: Option<ActiveModule>,
    pub status_line: String,
    pub uptime_seconds: u64,
    /// Ticks per second: a floating-point number, as the 64 bits that
    /// stand for it.
    pub tps_bits: u64,
    pub telemetry: Vec<TelemetryDatum>,
}

/// The categories to subscribe to, or to give up.
#[derive(Debug, Clone, PartialEq, Eq)]
pub struct SubscribeParams {
    pub categories: Vec<EventCategory>,
}

/// The categories a session is subscribed to after a change.
#[derive(Debug, Clone, PartialEq, Eq)]
pub struct SubscriptionResult {
    pub subscribed: Vec<EventCategory>,
}

/// A host command and its arguments.
#[derive(Debug, Clone, PartialEq, Eq)]
pub struct InvokeCommandParams {
    pub command: String,
    pub args: Vec<String>,
}

/// What a host command printed.
#[derive(Debug, Clone, PartialEq, Eq)]
pub struct InvokeCommandResult {
    pub lines: Vec<String>,
}

/// An event of the plugin's own.
#[derive(Debug, Clone, PartialEq, Eq)]
pub struct PublishEventParams {
    pub tag: String,
    pub payload: String,
}

/// Whether the host took the event.
#[derive(Debug, Clone, PartialEq, Eq)]
pub struct PublishEventResult {
    pub accepted: bool,
}

} // verus!
