//! One running plugin as the host sees it: the requests it may send,
//! the answers it gets, and the state that decides between them.
//!
//! A session starts when the plugin's process has been started. Its
//! first request has to be the handshake; after that it may ask for a
//! snapshot, subscribe to events and give subscriptions up, run host
//! commands and publish events, each within what its manifest allows.
//! Reading requests from the process and writing answers to it is left
//! to the caller: the functions here take a request that was read and
//! give back the answer to write.

use vstd::prelude::*;
use crate::failure::{HandledRequest, RuntimeError, RuntimeFault};
use crate::permissions::{
    category_names, deduplicated, lemma_deduplicated_contains, AuthorizationFault,
    PermissionPolicy,
};
use crate::protocol::error_code;
use crate::protocol::handshake::{build_handshake_result, handshake_outcome};
use crate::protocol::{
    plain_error, EventCategory, GetSnapshotParams, HandshakeParams, HandshakeResult,
    HandshakeResultModel, InvokeCommandParams, InvokeCommandResult, JsonRpcError,
    JsonRpcErrorModel, PublishEventParams, PublishEventResult, RequestId, StateSnapshot,
    SubscribeParams, SubscriptionResult, EVENT_NOTIFICATION_METHOD, GET_SNAPSHOT_METHOD,
    HANDSHAKE_METHOD, INVOKE_COMMAND_METHOD, JSONRPC_VERSION, PUBLISH_EVENT_METHOD,
    SUBSCRIBE_METHOD, UNSUBSCRIBE_METHOD,
};
use crate::subscriptions::{in_name_order, SubscriptionSet};
use crate::text::{concat2, concat4, same_text, texts};

verus! {

/// The methods a plugin can call, and one more for every other name.
#[derive(Debug, Clone, Copy, PartialEq, Eq, Structural)]
pub enum Method {
    Handshake,
    GetSnapshot,
    Subscribe,
    Unsubscribe,
    InvokeCommand,
    PublishEvent,
    Unsupported,
}

/// The method a name stands for.
pub open spec fn method_kind(name: Seq<char>) -> Method {
    if name == HANDSHAKE_METHOD@ {
        Method::Handshake
    } else if name == GET_SNAPSHOT_METHOD@ {
        Method::GetSnapshot
    } else if name == SUBSCRIBE_METHOD@ {
        Method::Subscribe
    } else if name == UNSUBSCRIBE_METHOD@ {
        Method::Unsubscribe
    } else if name == INVOKE_COMMAND_METHOD@ {
        Method::InvokeCommand
    } else if name == PUBLISH_EVENT_METHOD@ {
        Method::PublishEvent
    } else {
        Method::Unsupported
    }
}

/// The method a name stands for.
pub fn method_of(name: &str) -> (method: Method)
    ensures
        method == method_kind(name@),
{
    if same_text(name, HANDSHAKE_METHOD) {
        Method::Handshake
    } else if same_text(name, GET_SNAPSHOT_METHOD) {
        Method::GetSnapshot
    } else if same_text(name, SUBSCRIBE_METHOD) {
        Method::Subscribe
    } else if same_text(name, UNSUBSCRIBE_METHOD) {
        Method::Unsubscribe
    } else if same_text(name, INVOKE_COMMAND_METHOD) {
        Method::InvokeCommand
    } else if same_text(name, PUBLISH_EVENT_METHOD) {
        Method::PublishEvent
    } else {
        Method::Unsupported
    }
}

/// The parameters of a request as they were read for its method.
#[derive(Debug, Clone, PartialEq, Eq)]
pub enum RequestParams {
    Handshake(HandshakeParams),
    GetSnapshot(GetSnapshotParams),
    /// The parameters of a subscription, or of giving one up.
    Subscription(SubscribeParams),
    InvokeCommand(InvokeCommandParams),
    PublishEvent(PublishEventParams),
    /// The parameters could not be read; the text says why.
    Invalid(String),
}

/// What is said of parameters that are those of another method.
pub const FOREIGN_PARAMS: &'static str = "parameters of another method";

/// Why the parameters cannot be taken as those of `method`, if they
/// cannot.
pub open spec fn params_fault(method: Method, params: RequestParams) -> Option<Seq<char>> {
    match params {
        RequestParams::Invalid(why) => Some(why@),
        RequestParams::Handshake(_) => if method == Method::Handshake {
            None
        } else {
            Some(FOREIGN_PARAMS@)
        },
        RequestParams::GetSnapshot(_) => if method == Method::GetSnapshot {
            None
        } else {
            Some(FOREIGN_PARAMS@)
        },
        RequestParams::Subscription(_) => if method == Method::Subscribe || method
            == Method::Unsubscribe {
            None
        } else {
            Some(FOREIGN_PARAMS@)
        },
        RequestParams::InvokeCommand(_) => if method == Method::InvokeCommand {
            None
        } else {
            Some(FOREIGN_PARAMS@)
        },
        RequestParams::PublishEvent(_) => if method == Method::PublishEvent {
            None
        } else {
            Some(FOREIGN_PARAMS@)
        },
    }
}

/// A request of a plugin.
#[derive(Debug, Clone, PartialEq, Eq)]
pub struct PluginRequest {
    pub jsonrpc: String,
    pub id: RequestId,
    pub method: String,
    pub params: RequestParams,
}

/// What a response carries: the result of the method, or an error.
#[derive(Debug, Clone, PartialEq, Eq)]
pub enum ResponseBody {
    Handshake(HandshakeResult),
    Snapshot(StateSnapshot),
    Subscription(SubscriptionResult),
    Command(InvokeCommandResult),
    Event(PublishEventResult),
    Error(JsonRpcError),
}

/// The response to a request: it repeats the request's identifier and
/// carries either a result or an error, never both.
#[derive(Debug, Clone, PartialEq, Eq)]
pub struct PluginResponse {
    pub jsonrpc: String,
    pub id: RequestId,
    pub body: ResponseBody,
}

impl PluginResponse {
    /// Whether the response is the given error.
    pub open spec fn is_error(&self, error: JsonRpcErrorModel) -> bool {
        self.body matches ResponseBody::Error(e) && e@ == error
    }

    /// The response answers `request` in the host's protocol version.
    pub open spec fn answers(&self, request: &PluginRequest) -> bool {
        self.jsonrpc@ == JSONRPC_VERSION@ && self.id@ == request.id@
    }
}

/// An event the host tells a plugin of. Nothing answers it.
#[derive(Debug, Clone, PartialEq, Eq)]
pub struct EventNotification {
    pub jsonrpc: String,
    pub method: String,
    pub category: EventCategory,
    pub tag: Option<String>,
    /// The event's payload as encoded text.
    pub payload: String,
}

/// What the host does for plugins. An implementation has to answer
/// promptly; nothing else is asked of it.
pub trait HostBridge {
    /// The host's state.
    fn state_snapshot(&mut self) -> Result<StateSnapshot, String>;

    /// Runs a host command.
    fn invoke_command(&mut self, params: InvokeCommandParams) -> Result<
        InvokeCommandResult,
        String,
    >;

    /// Publishes an event of a plugin.
    fn publish_event(&mut self, params: PublishEventParams) -> Result<PublishEventResult, String>;
}

/// The error a plugin gets where the host could not do what was asked.
pub open spec fn host_failure(why: Seq<char>) -> JsonRpcErrorModel {
    plain_error(error_code::PLUGIN_UNAVAILABLE, "host operation failed: "@ + why)
}

/// The error a plugin gets for parameters its method cannot take.
pub open spec fn invalid_params(method: Seq<char>, why: Seq<char>) -> JsonRpcErrorModel {
    plain_error(error_code::INVALID_PARAMS, "invalid params for "@ + method + ": "@ + why)
}

/// The error a plugin gets where the host could not do what was asked.
pub fn host_unavailable_error(why: &str) -> (error: JsonRpcError)
    ensures
        error@ == host_failure(why@),
{
    JsonRpcError {
        code: error_code::PLUGIN_UNAVAILABLE,
        message: concat2("host operation failed: ", why),
        data: None,
    }
}

/// The body that answers a request for a snapshot, given what the host
/// said.
pub fn snapshot_reply(answer: Result<StateSnapshot, String>) -> (body: ResponseBody)
    ensures
        match answer {
            Ok(snapshot) => body == ResponseBody::Snapshot(snapshot),
            Err(why) => body matches ResponseBody::Error(e) && e@ == host_failure(why@),
        },
{
    match answer {
        Ok(snapshot) => ResponseBody::Snapshot(snapshot),
        Err(why) => ResponseBody::Error(host_unavailable_error(why.as_str())),
    }
}

/// The body that answers a command, given what the host said.
pub fn command_reply(answer: Result<InvokeCommandResult, String>) -> (body: ResponseBody)
    ensures
        match answer {
            Ok(result) => body == ResponseBody::Command(result),
            Err(why) => body matches ResponseBody::Error(e) && e@ == host_failure(why@),
        },
{
    match answer {
        Ok(result) => ResponseBody::Command(result),
        Err(why) => ResponseBody::Error(host_unavailable_error(why.as_str())),
    }
}

/// The body that answers a published event, given what the host said.
pub fn event_reply(answer: Result<PublishEventResult, String>) -> (body: ResponseBody)
    ensures
        match answer {
            Ok(result) => body == ResponseBody::Event(result),
            Err(why) => body matches ResponseBody::Error(e) && e@ == host_failure(why@),
        },
{
    match answer {
        Ok(result) => ResponseBody::Event(result),
        Err(why) => ResponseBody::Error(host_unavailable_error(why.as_str())),
    }
}

/// A body that is a result of the host, or the error of a host that
/// failed.
pub open spec fn from_host(body: ResponseBody, kind: Method) -> bool {
    (body matches ResponseBody::Error(e) && exists|why: Seq<char>| e@ == host_failure(why)) || (
    match kind {
        Method::GetSnapshot => body is Snapshot,
        Method::InvokeCommand => body is Command,
        Method::PublishEvent => body is Event,
        _ => false,
    })
}

/// What the host is asked for a plugin.
#[derive(Debug, Clone, PartialEq, Eq)]
pub enum HostCall {
    /// The host's state.
    Snapshot,
    /// To run a command.
    InvokeCommand(InvokeCommandParams),
    /// To publish an event.
    PublishEvent(PublishEventParams),
}

impl HostCall {
    /// The method the call stands for.
    pub open spec fn kind(&self) -> Method {
        match self {
            HostCall::Snapshot => Method::GetSnapshot,
            HostCall::InvokeCommand(_) => Method::InvokeCommand,
            HostCall::PublishEvent(_) => Method::PublishEvent,
        }
    }
}

/// What a request leads to: an answer at once, or a question to the
/// host.
#[derive(Debug, Clone, PartialEq, Eq)]
pub enum Step {
    Reply(ResponseBody),
    Ask(HostCall),
}

/// The step that answers with an error.
pub fn refuse(error: JsonRpcError) -> (step: Step)
    ensures
        step == Step::Reply(ResponseBody::Error(error)),
{
    Step::Reply(ResponseBody::Error(error))
}

/// Asks the host and makes a response body of its answer: the answer
/// itself, or the error of a host that failed.
pub fn ask_host<H: HostBridge>(call: HostCall, host: &mut H) -> (body: ResponseBody)
    ensures
        from_host(body, call.kind()),
{
    match call {
        HostCall::Snapshot => {
            let answer = host.state_snapshot();
            let body = snapshot_reply(answer);
            proof {
                lemma_from_host(body, answer, Method::GetSnapshot);
            }
            body
        },
        HostCall::InvokeCommand(params) => {
            let answer = host.invoke_command(params);
            let body = command_reply(answer);
            proof {
                lemma_from_host(body, answer, Method::InvokeCommand);
            }
            body
        },
        HostCall::PublishEvent(params) => {
            let answer = host.publish_event(params);
            let body = event_reply(answer);
            proof {
                lemma_from_host(body, answer, Method::PublishEvent);
            }
            body
        },
    }
}

/// The outcome of one request: the response to write, and what the host
/// records of it.
#[derive(Debug, Clone, PartialEq, Eq)]
pub struct RequestTurn {
    pub response: PluginResponse,
    pub handled: HandledRequest,
}

/// The outcome of the handshake: the response to write, and the result
/// of the start.
#[derive(Debug, PartialEq, Eq)]
pub struct HandshakeTurn {
    pub response: PluginResponse,
    pub result: Result<HandshakeResult, RuntimeError>,
}

/// How a handshake ends.
pub enum HandshakeVerdict {
    /// The session is open, with this result.
    Accept(HandshakeResultModel),
    /// The plugin is told `error`, and the start fails as a protocol
    /// failure with the message `failure`.
    Reject { error: JsonRpcErrorModel, failure: Seq<char> },
}

/// How the handshake ends for a first request. The request has to
/// be the handshake, its parameters have to be readable, and they
/// have to name the plugin and the version of the manifest; then
/// the negotiation decides.
pub open spec fn first_request_verdict(
    id: Seq<char>,
    version: Seq<char>,
    request: &PluginRequest,
) -> HandshakeVerdict {
    if request.method@ != HANDSHAKE_METHOD@ {
        HandshakeVerdict::Reject {
            error: plain_error(
                error_code::INVALID_PARAMS,
                "first plugin request must be "@ + HANDSHAKE_METHOD@ + ", got "@
                    + request.method@,
            ),
            failure: "plugin "@ + id + " did not start with "@ + HANDSHAKE_METHOD@,
        }
    } else {
        match request.params {
            RequestParams::Handshake(params) => {
                if params.plugin_id@ != id {
                    HandshakeVerdict::Reject {
                        error: plain_error(
                            error_code::INVALID_PARAMS,
                            "handshake plugin_id mismatch: manifest="@ + id + " request="@
                                + params.plugin_id@,
                        ),
                        failure: "handshake plugin_id mismatch for "@ + id,
                    }
                } else if params.plugin_version@ != version {
                    HandshakeVerdict::Reject {
                        error: plain_error(
                            error_code::INVALID_PARAMS,
                            "handshake plugin_version mismatch: manifest="@
                                + version + " request="@
                                + params.plugin_version@,
                        ),
                        failure: "handshake plugin_version mismatch for "@ + id,
                    }
                } else {
                    match handshake_outcome(
                        params.supported_api_versions@,
                        texts(params.requested_capabilities@),
                    ) {
                        Ok(result) => HandshakeVerdict::Accept(result),
                        Err(fault) => HandshakeVerdict::Reject {
                            error: plain_error(fault.code(), fault.message()),
                            failure: "handshake negotiation failed for plugin "@ + id + ": "@
                                + fault.message(),
                        },
                    }
                }
            },
            _ => HandshakeVerdict::Reject {
                error: invalid_params(
                    request.method@,
                    params_fault(Method::Handshake, request.params)->0,
                ),
                failure: "invalid handshake params from plugin "@ + id,
            },
        }
    }
}

/// The state of one session.
pub struct SessionState {
    plugin_id: String,
    plugin_version: String,
    policy: PermissionPolicy,
    handshake_complete: bool,
    subscriptions: SubscriptionSet,
}

impl SessionState {
    #[verifier::type_invariant]
    spec fn subscribed_within_policy(&self) -> bool {
        forall|c: EventCategory| #[trigger]
            self.subscriptions@.contains(c) ==> self.policy.allows(c)
    }

    /// The identifier of the plugin.
    pub closed spec fn plugin_id(&self) -> Seq<char> {
        self.plugin_id@
    }

    /// The version of the plugin, as its manifest gives it.
    pub closed spec fn plugin_version(&self) -> Seq<char> {
        self.plugin_version@
    }

    /// What the plugin is allowed.
    pub closed spec fn policy(&self) -> PermissionPolicy {
        self.policy
    }

    /// Whether the handshake is done.
    pub closed spec fn handshake_complete(&self) -> bool {
        self.handshake_complete
    }

    /// The categories the plugin is subscribed to.
    pub closed spec fn subscriptions(&self) -> Set<EventCategory> {
        self.subscriptions@
    }

    /// Everything of the session but its subscriptions and the
    /// handshake flag.
    pub open spec fn same_plugin(&self, other: &SessionState) -> bool {
        &&& self.plugin_id() == other.plugin_id()
        &&& self.plugin_version() == other.plugin_version()
        &&& self.policy() == other.policy()
    }

    /// The session of a process that was just started: no handshake
    /// yet, no subscriptions.
    pub fn new(plugin_id: String, plugin_version: String, policy: PermissionPolicy) -> (session:
        SessionState)
        ensures
            session.plugin_id() == plugin_id@,
            session.plugin_version() == plugin_version@,
            session.policy() == policy,
            !session.handshake_complete(),
            session.subscriptions() == Set::<EventCategory>::empty(),
    {
        SessionState {
            plugin_id,
            plugin_version,
            policy,
            handshake_complete: false,
            subscriptions: SubscriptionSet::new(),
        }
    }

    /// Whether the handshake is done.
    pub fn is_ready(&self) -> (ready: bool)
        ensures
            ready == self.handshake_complete(),
    {
        self.handshake_complete
    }

    /// The categories the plugin is subscribed to, in the ascending
    /// order of their wire names.
    pub fn current_subscriptions(&self) -> (list: Vec<EventCategory>)
        ensures
            list@ == in_name_order(self.subscriptions()),
            forall|c: EventCategory| #[trigger]
                self.subscriptions().contains(c) ==> self.policy().allows(c),
    {
        proof {
            use_type_invariant(self);
        }
        self.subscriptions.to_vec()
    }

    // -----------------------------------------------------------------
    // The handshake
    // -----------------------------------------------------------------

    /// How the handshake ends for a first request of this session.
    pub open spec fn handshake_verdict(&self, request: &PluginRequest) -> HandshakeVerdict {
        first_request_verdict(self.plugin_id(), self.plugin_version(), request)
    }

    /// Handles the first request of a session. The response is always
    /// to be written. Where the verdict accepts, the session is ready
    /// afterwards and the result is returned; where it rejects, the
    /// session is as before and the start has failed.
    pub fn complete_handshake(&mut self, request: PluginRequest) -> (turn: HandshakeTurn)
        ensures
            final(self).same_plugin(old(self)),
            final(self).subscriptions() == old(self).subscriptions(),
            turn.response.answers(&request),
            match old(self).handshake_verdict(&request) {
                HandshakeVerdict::Accept(result) => {
                    &&& final(self).handshake_complete()
                    &&& turn.result matches Ok(r) && r@ == result
                    &&& turn.response.body matches ResponseBody::Handshake(r) && r@ == result
                },
                HandshakeVerdict::Reject { error, failure } => {
                    &&& final(self).handshake_complete() == old(self).handshake_complete()
                    &&& turn.result matches Err(e) && e@ == RuntimeFault::Protocol(failure)
                    &&& turn.response.is_error(error)
                },
            },
    {
        proof {
            use_type_invariant(&*self);
        }
        let id: RequestId = request.id.duplicate();
        if !same_text(request.method.as_str(), HANDSHAKE_METHOD) {
            let error = JsonRpcError {
                code: error_code::INVALID_PARAMS,
                message: concat4(
                    "first plugin request must be ",
                    HANDSHAKE_METHOD,
                    ", got ",
                    request.method.as_str(),
                ),
                data: None,
            };
            let failure = concat4(
                "plugin ",
                self.plugin_id.as_str(),
                " did not start with ",
                HANDSHAKE_METHOD,
            );
            return HandshakeTurn {
                response: error_response(id, error),
                result: Err(RuntimeError::Protocol(failure)),
            };
        }
        let params: &HandshakeParams = match &request.params {
            RequestParams::Handshake(params) => params,
            other => {
                let why = foreign_or_invalid(Method::Handshake, other);
                let error = invalid_params_error(request.method.as_str(), why.as_str());
                let failure = concat2("invalid handshake params from plugin ", self.plugin_id.as_str());
                return HandshakeTurn {
                    response: error_response(id, error),
                    result: Err(RuntimeError::Protocol(failure)),
                };
            },
        };
        if !same_text(params.plugin_id.as_str(), self.plugin_id.as_str()) {
            let error = JsonRpcError {
                code: error_code::INVALID_PARAMS,
                message: concat4(
                    "handshake plugin_id mismatch: manifest=",
                    self.plugin_id.as_str(),
                    " request=",
                    params.plugin_id.as_str(),
                ),
                data: None,
            };
            let failure = concat2("handshake plugin_id mismatch for ", self.plugin_id.as_str());
            return HandshakeTurn {
                response: error_response(id, error),
                result: Err(RuntimeError::Protocol(failure)),
            };
        }
        if !same_text(params.plugin_version.as_str(), self.plugin_version.as_str()) {
            let error = JsonRpcError {
                code: error_code::INVALID_PARAMS,
                message: concat4(
                    "handshake plugin_version mismatch: manifest=",
                    self.plugin_version.as_str(),
                    " request=",
                    params.plugin_version.as_str(),
                ),
                data: None,
            };
            let failure = concat2(
                "handshake plugin_version mismatch for ",
                self.plugin_id.as_str(),
            );
            return HandshakeTurn {
                response: error_response(id, error),
                result: Err(RuntimeError::Protocol(failure)),
            };
        }
        match build_handshake_result(params) {
            Ok(result) => {
                let sent = result.duplicate();
                self.handshake_complete = true;
                HandshakeTurn {
                    response: PluginResponse {
                        jsonrpc: JSONRPC_VERSION.to_owned(),
                        id,
                        body: ResponseBody::Handshake(sent),
                    },
                    result: Ok(result),
                }
            },
            Err(fault) => {
                let why = fault.message();
                let failure = concat4(
                    "handshake negotiation failed for plugin ",
                    self.plugin_id.as_str(),
                    ": ",
                    why.as_str(),
                );
                HandshakeTurn {
                    response: error_response(id, fault.to_jsonrpc_error()),
                    result: Err(RuntimeError::Protocol(failure)),
                }
            },
        }
    }
}

/// What holds of a request that was handled: of the session before
/// and after, of the response, of what the host records, and of the
/// host before and after.
///
/// A request that is refused is answered with the error of `refusal`;
/// the session and the host are then as before. A subscription that is
/// let through adds its categories, giving one up takes them away, and
/// the response lists the subscriptions that remain. Everything else
/// goes to the host, and the response carries what the host gave back,
/// or the error of a host that failed.
pub open spec fn request_answered<H>(
    before: &SessionState,
    after: &SessionState,
    request: &PluginRequest,
    turn: &RequestTurn,
    host_before: H,
    host_after: H,
) -> bool {
    &&& after.same_plugin(before)
    &&& after.handshake_complete() == before.handshake_complete()
    &&& turn.response.answers(request)
    &&& turn.handled.plugin_id@ == before.plugin_id()
    &&& turn.handled.method@ == request.method@
    &&& turn.handled.responded_with_error == (turn.response.body is Error)
    &&& match before.refusal(request) {
        Some(error) => {
            &&& turn.response.is_error(error)
            &&& after.subscriptions() == before.subscriptions()
            &&& host_after == host_before
        },
        None => {
            &&& after.subscriptions() == before.subscriptions_after(request)
            &&& match method_kind(request.method@) {
                Method::Subscribe | Method::Unsubscribe => {
                    &&& turn.response.body matches ResponseBody::Subscription(r) && r.subscribed@
                        == in_name_order(after.subscriptions())
                    &&& host_after == host_before
                },
                kind => from_host(turn.response.body, kind),
            }
        },
    }
}

/// The first request of a session has to be the handshake: any other
/// method is answered with an invalid-parameters error, and the start
/// fails.
pub proof fn lemma_first_request_must_be_handshake(
    id: Seq<char>,
    version: Seq<char>,
    request: &PluginRequest,
)
    requires
        request.method@ != HANDSHAKE_METHOD@,
    ensures
        first_request_verdict(id, version, request) matches HandshakeVerdict::Reject {
            error,
            failure,
        } && error.code == error_code::INVALID_PARAMS,
{
}

/// A handshake has to name the plugin and the version of the manifest:
/// one that names another is answered with an invalid-parameters error
/// and the start fails, whatever API versions it supports.
pub proof fn lemma_handshake_must_name_the_plugin(
    id: Seq<char>,
    version: Seq<char>,
    request: &PluginRequest,
)
    requires
        request.method@ == HANDSHAKE_METHOD@,
        request.params matches RequestParams::Handshake(p) && (p.plugin_id@ != id
            || p.plugin_version@ != version),
    ensures
        first_request_verdict(id, version, request) matches HandshakeVerdict::Reject {
            error,
            failure,
        } && error.code == error_code::INVALID_PARAMS,
{
}

/// Subscriptions are changed as a whole or not at all: a request to
/// subscribe, or to give subscriptions up, that names one category the
/// policy does not allow is answered with the unauthorized error, and
/// the session's subscriptions are as before.
pub proof fn lemma_subscriptions_all_or_nothing<H>(
    before: &SessionState,
    after: &SessionState,
    request: &PluginRequest,
    turn: &RequestTurn,
    host_before: H,
    host_after: H,
)
    requires
        request_answered(before, after, request, turn, host_before, host_after),
        request.params matches RequestParams::Subscription(p) && exists|i: int|
            0 <= i < p.categories@.len() && !before.policy().allows(#[trigger] p.categories@[i]),
    ensures
        after.subscriptions() == before.subscriptions(),
        turn.response.body is Error,
        turn.handled.responded_with_error,
        host_after == host_before,
        (request.jsonrpc@ == JSONRPC_VERSION@ && before.handshake_complete() && (method_kind(
            request.method@,
        ) == Method::Subscribe || method_kind(request.method@) == Method::Unsubscribe))
            ==> (turn.response.body matches ResponseBody::Error(e) && e.code
            == error_code::UNAUTHORIZED),
{
    let p = request.params->Subscription_0;
    crate::permissions::lemma_refused_iff_not_allowed(&before.policy(), p.categories@);
    assert(before.refusal(request) is Some);
}

/// A command that is not on the policy's list never reaches the host:
/// it is answered with the unauthorized error, and the host is as
/// before.
pub proof fn lemma_denied_command_never_reaches_host<H>(
    before: &SessionState,
    after: &SessionState,
    request: &PluginRequest,
    turn: &RequestTurn,
    host_before: H,
    host_after: H,
)
    requires
        request_answered(before, after, request, turn, host_before, host_after),
        request.jsonrpc@ == JSONRPC_VERSION@,
        before.handshake_complete(),
        method_kind(request.method@) == Method::InvokeCommand,
        request.params matches RequestParams::InvokeCommand(p) && !before.policy().commands().contains(
            p.command@,
        ),
    ensures
        host_after == host_before,
        turn.handled.responded_with_error,
        turn.response.body matches ResponseBody::Error(e) && e.code == error_code::UNAUTHORIZED,
{
}

/// The error a refused authorization is answered with.
pub open spec fn authorization_error(fault: AuthorizationFault) -> JsonRpcErrorModel {
    plain_error(fault.code(), fault.message())
}

impl SessionState {
    // -----------------------------------------------------------------
    // Requests after the handshake
    // -----------------------------------------------------------------

    /// The error a request is refused with before the host is asked, if
    /// it is refused. In this order: the protocol version has to be the
    /// host's; before the handshake only the handshake is let through,
    /// and after it the handshake is refused; the method has to be one
    /// of the five the host dispatches; its parameters have to be
    /// readable; and what is asked has to be allowed by the policy,
    /// where subscriptions are allowed only as a whole.
    pub open spec fn refusal(&self, request: &PluginRequest) -> Option<JsonRpcErrorModel> {
        let method = method_kind(request.method@);
        if request.jsonrpc@ != JSONRPC_VERSION@ {
            Some(
                plain_error(
                    error_code::INVALID_PARAMS,
                    "unsupported jsonrpc version: "@ + request.jsonrpc@,
                ),
            )
        } else if !self.handshake_complete() && method != Method::Handshake {
            Some(
                plain_error(
                    error_code::PLUGIN_UNAVAILABLE,
                    "plugin "@ + self.plugin_id() + " must complete "@ + HANDSHAKE_METHOD@
                        + " first"@,
                ),
            )
        } else if self.handshake_complete() && method == Method::Handshake {
            Some(
                plain_error(error_code::INVALID_PARAMS, HANDSHAKE_METHOD@ + " already completed"@),
            )
        } else if method == Method::Handshake || method == Method::Unsupported {
            Some(plain_error(error_code::INVALID_PARAMS, "unsupported method: "@ + request.method@))
        } else if params_fault(method, request.params) is Some {
            Some(invalid_params(request.method@, params_fault(method, request.params)->0))
        } else {
            match request.params {
                RequestParams::Subscription(p) => if self.policy().refused(p.categories@).len()
                    > 0 {
                    Some(
                        authorization_error(
                            AuthorizationFault::UnauthorizedSubscriptions(
                                category_names(self.policy().refused(p.categories@)),
                            ),
                        ),
                    )
                } else {
                    None
                },
                RequestParams::InvokeCommand(p) => if !self.policy().commands().contains(
                    p.command@,
                ) {
                    Some(authorization_error(AuthorizationFault::UnauthorizedCommand(p.command@)))
                } else {
                    None
                },
                RequestParams::PublishEvent(p) => if !self.policy().event_tags().contains(p.tag@) {
                    Some(authorization_error(AuthorizationFault::UnauthorizedEventTag(p.tag@)))
                } else {
                    None
                },
                _ => None,
            }
        }
    }

    /// The subscriptions after a request that was not refused.
    pub open spec fn subscriptions_after(&self, request: &PluginRequest) -> Set<EventCategory> {
        match request.params {
            RequestParams::Subscription(p) => if method_kind(request.method@)
                == Method::Subscribe {
                self.subscriptions().union(p.categories@.to_set())
            } else {
                self.subscriptions().difference(p.categories@.to_set())
            },
            _ => self.subscriptions(),
        }
    }

    /// What is asked of the host for a request that is let through:
    /// nothing for a subscription, and else what the method stands for,
    /// with the parameters of the request.
    pub open spec fn host_call(request: &PluginRequest) -> Option<HostCall> {
        match request.params {
            RequestParams::GetSnapshot(_) => if method_kind(request.method@)
                == Method::GetSnapshot {
                Some(HostCall::Snapshot)
            } else {
                None
            },
            RequestParams::InvokeCommand(p) => if method_kind(request.method@)
                == Method::InvokeCommand {
                Some(HostCall::InvokeCommand(p))
            } else {
                None
            },
            RequestParams::PublishEvent(p) => if method_kind(request.method@)
                == Method::PublishEvent {
                Some(HostCall::PublishEvent(p))
            } else {
                None
            },
            _ => None,
        }
    }

    /// Decides what a request leads to, before the host is asked
    /// anything. A request that is refused leads to the error of
    /// `refusal` and changes nothing. A subscription that is let
    /// through changes the subscriptions and leads to the list of those
    /// that remain. Every other request that is let through leads to a
    /// question to the host, which carries the parameters of the
    /// request as they came.
    pub fn decide(&mut self, request: PluginRequest) -> (step: Step)
        ensures
            final(self).same_plugin(old(self)),
            final(self).handshake_complete() == old(self).handshake_complete(),
            match old(self).refusal(&request) {
                Some(error) => {
                    &&& step matches Step::Reply(ResponseBody::Error(e)) && e@ == error
                    &&& final(self).subscriptions() == old(self).subscriptions()
                },
                None => {
                    &&& final(self).subscriptions() == old(self).subscriptions_after(&request)
                    &&& match method_kind(request.method@) {
                        Method::Subscribe | Method::Unsubscribe =>
                            step matches Step::Reply(ResponseBody::Subscription(r)) && r.subscribed@
                                == in_name_order(final(self).subscriptions()),
                        _ => SessionState::host_call(&request) matches Some(call) && step
                            == Step::Ask(call),
                    }
                },
            },
    {
        proof {
            use_type_invariant(&*self);
        }
        let method: Method = method_of(request.method.as_str());
        if !same_text(request.jsonrpc.as_str(), JSONRPC_VERSION) {
            return refuse(
                JsonRpcError {
                    code: error_code::INVALID_PARAMS,
                    message: concat2("unsupported jsonrpc version: ", request.jsonrpc.as_str()),
                    data: None,
                },
            );
        }
        if !self.handshake_complete && method != Method::Handshake {
            let mut message = concat4(
                "plugin ",
                self.plugin_id.as_str(),
                " must complete ",
                HANDSHAKE_METHOD,
            );
            message.append(" first");
            return refuse(
                JsonRpcError { code: error_code::PLUGIN_UNAVAILABLE, message, data: None },
            );
        }
        if self.handshake_complete && method == Method::Handshake {
            return refuse(
                JsonRpcError {
                    code: error_code::INVALID_PARAMS,
                    message: concat2(HANDSHAKE_METHOD, " already completed"),
                    data: None,
                },
            );
        }
        match (method, request.params) {
            (Method::Handshake, _) | (Method::Unsupported, _) => refuse(
                JsonRpcError {
                    code: error_code::INVALID_PARAMS,
                    message: concat2("unsupported method: ", request.method.as_str()),
                    data: None,
                },
            ),
            (Method::GetSnapshot, RequestParams::GetSnapshot(_)) => Step::Ask(HostCall::Snapshot),
            (Method::Subscribe, RequestParams::Subscription(params)) => {
                match self.policy.authorize_subscriptions(params.categories.as_slice()) {
                    Ok(authorized) => {
                        proof {
                            lemma_deduplicated_set(params.categories@);
                        }
                        let mut set: SubscriptionSet = self.subscriptions;
                        let mut i: usize = 0;
                        while i < authorized.len()
                            invariant
                                i <= authorized.len(),
                                set@ == self.subscriptions@.union(
                                    authorized@.take(i as int).to_set(),
                                ),
                            decreases authorized.len() - i,
                        {
                            set.insert(authorized[i]);
                            proof {
                                lemma_take_set_step(authorized@, i as int);
                                assert(set@ =~= self.subscriptions@.union(
                                    authorized@.take(i as int + 1).to_set(),
                                ));
                            }
                            i += 1;
                        }
                        proof {
                            assert(authorized@.take(authorized.len() as int) =~= authorized@);
                            assert forall|c: EventCategory| #[trigger]
                                set@.contains(c) implies self.policy.allows(c) by {
                                if !self.subscriptions@.contains(c) {
                                    lemma_deduplicated_contains(params.categories@, c);
                                    let j = choose|j: int|
                                        0 <= j < params.categories@.len()
                                            && params.categories@[j] == c;
                                    assert(self.policy.allows(params.categories@[j]));
                                }
                            }
                        }
                        self.subscriptions = set;
                        Step::Reply(
                            ResponseBody::Subscription(
                                SubscriptionResult { subscribed: set.to_vec() },
                            ),
                        )
                    },
                    Err(refused) => refuse(refused.to_jsonrpc_error()),
                }
            },
            (Method::Unsubscribe, RequestParams::Subscription(params)) => {
                match self.policy.authorize_subscriptions(params.categories.as_slice()) {
                    Ok(authorized) => {
                        proof {
                            lemma_deduplicated_set(params.categories@);
                        }
                        let mut set: SubscriptionSet = self.subscriptions;
                        let mut i: usize = 0;
                        while i < authorized.len()
                            invariant
                                i <= authorized.len(),
                                set@ == self.subscriptions@.difference(
                                    authorized@.take(i as int).to_set(),
                                ),
                            decreases authorized.len() - i,
                        {
                            set.remove(authorized[i]);
                            proof {
                                lemma_take_set_step(authorized@, i as int);
                                assert(set@ =~= self.subscriptions@.difference(
                                    authorized@.take(i as int + 1).to_set(),
                                ));
                            }
                            i += 1;
                        }
                        proof {
                            assert(authorized@.take(authorized.len() as int) =~= authorized@);
                        }
                        self.subscriptions = set;
                        Step::Reply(
                            ResponseBody::Subscription(
                                SubscriptionResult { subscribed: set.to_vec() },
                            ),
                        )
                    },
                    Err(refused) => refuse(refused.to_jsonrpc_error()),
                }
            },
            (Method::InvokeCommand, RequestParams::InvokeCommand(params)) => {
                match self.policy.authorize_invoke_command(&params) {
                    Ok(()) => Step::Ask(HostCall::InvokeCommand(params)),
                    Err(refused) => refuse(refused.to_jsonrpc_error()),
                }
            },
            (Method::PublishEvent, RequestParams::PublishEvent(params)) => {
                match self.policy.authorize_publish_event(&params) {
                    Ok(()) => Step::Ask(HostCall::PublishEvent(params)),
                    Err(refused) => refuse(refused.to_jsonrpc_error()),
                }
            },
            (_, other) => {
                let why = foreign_or_invalid(method, &other);
                refuse(invalid_params_error(request.method.as_str(), why.as_str()))
            },
        }
    }

    /// Handles one request and gives back the one response to write;
    /// `request_answered` says what holds of it. The host is asked only
    /// what `decide` leads to.
    pub fn handle_request<H: HostBridge>(&mut self, request: PluginRequest, host: &mut H) -> (turn:
        RequestTurn)
        ensures
            request_answered(old(self), final(self), &request, &turn, *old(host), *final(host)),
    {
        let id: RequestId = request.id.duplicate();
        let method: String = request.method.clone();
        let body: ResponseBody = match self.decide(request) {
            Step::Reply(body) => body,
            Step::Ask(call) => ask_host(call, host),
        };
        let responded_with_error: bool = match &body {
            ResponseBody::Error(_) => true,
            _ => false,
        };
        RequestTurn {
            response: PluginResponse { jsonrpc: JSONRPC_VERSION.to_owned(), id, body },
            handled: HandledRequest {
                plugin_id: self.plugin_id.clone(),
                method,
                responded_with_error,
            },
        }
    }

    // -----------------------------------------------------------------
    // Events
    // -----------------------------------------------------------------

    /// Whether an event of `category` is delivered to the plugin: the
    /// handshake has to be done and the category subscribed to.
    pub open spec fn takes(&self, category: EventCategory) -> bool {
        self.handshake_complete() && self.subscriptions().contains(category)
    }

    /// Whether an event of `category` is delivered to the plugin.
    pub fn accepts(&self, category: EventCategory) -> (taken: bool)
        ensures
            taken == self.takes(category),
    {
        self.handshake_complete && self.subscriptions.contains(category)
    }

    /// The notification that tells the plugin of an event, or nothing
    /// where the plugin does not take events of that category.
    pub fn dispatch_event(&self, category: EventCategory, tag: Option<&str>, payload: String) -> (r:
        Option<EventNotification>)
        ensures
            r is Some == self.takes(category),
            r matches Some(note) ==> {
                &&& note.jsonrpc@ == JSONRPC_VERSION@
                &&& note.method@ == EVENT_NOTIFICATION_METHOD@
                &&& note.category == category
                &&& note.payload == payload
                &&& match tag {
                    Some(t) => note.tag matches Some(n) && n@ == t@,
                    None => note.tag is None,
                }
            },
    {
        if !self.handshake_complete || !self.subscriptions.contains(category) {
            return None;
        }
        let tag: Option<String> = match tag {
            Some(t) => Some(t.to_owned()),
            None => None,
        };
        Some(
            EventNotification {
                jsonrpc: JSONRPC_VERSION.to_owned(),
                method: EVENT_NOTIFICATION_METHOD.to_owned(),
                category,
                tag,
                payload,
            },
        )
    }
}

/// A reply made of what the host said is a reply from the host.
proof fn lemma_from_host<T>(body: ResponseBody, answer: Result<T, String>, kind: Method)
    requires
        kind == Method::GetSnapshot || kind == Method::InvokeCommand || kind
            == Method::PublishEvent,
        match answer {
            Ok(_) => match kind {
                Method::GetSnapshot => body is Snapshot,
                Method::InvokeCommand => body is Command,
                _ => body is Event,
            },
            Err(why) => body matches ResponseBody::Error(e) && e@ == host_failure(why@),
        },
    ensures
        from_host(body, kind),
{
}

/// Dropping repetitions keeps the set.
pub proof fn lemma_deduplicated_set(s: Seq<EventCategory>)
    ensures
        deduplicated(s).to_set() == s.to_set(),
{
    assert forall|c: EventCategory| deduplicated(s).to_set().contains(c) == s.to_set().contains(
        c,
    ) by {
        lemma_deduplicated_contains(s, c);
    }
    assert(deduplicated(s).to_set() =~= s.to_set());
}

/// One more item of a list is one more member of its set.
proof fn lemma_take_set_step<T>(s: Seq<T>, i: int)
    requires
        0 <= i < s.len(),
    ensures
        s.take(i + 1).to_set() == s.take(i).to_set().insert(s[i]),
{
    let a = s.take(i + 1);
    let b = s.take(i);
    assert forall|x: T| a.to_set().contains(x) == b.to_set().insert(s[i]).contains(x) by {
        if a.contains(x) {
            let j = choose|j: int| 0 <= j < a.len() && a[j] == x;
            if j < i {
                assert(b[j] == x);
            }
        }
        if b.contains(x) {
            let j = choose|j: int| 0 <= j < b.len() && b[j] == x;
            assert(a[j] == x);
        }
        if x == s[i] {
            assert(a[i] == x);
        }
    }
    assert(a.to_set() =~= b.to_set().insert(s[i]));
}

/// The response that answers the request `id` with `error`.
pub fn error_response(id: RequestId, error: JsonRpcError) -> (response: PluginResponse)
    ensures
        response.jsonrpc@ == JSONRPC_VERSION@,
        response.id == id,
        response.body == ResponseBody::Error(error),
{
    PluginResponse { jsonrpc: JSONRPC_VERSION.to_owned(), id, body: ResponseBody::Error(error) }
}

/// The error for parameters the method cannot take.
pub fn invalid_params_error(method: &str, why: &str) -> (error: JsonRpcError)
    ensures
        error@ == invalid_params(method@, why@),
{
    JsonRpcError {
        code: error_code::INVALID_PARAMS,
        message: concat4("invalid params for ", method, ": ", why),
        data: None,
    }
}

/// Why parameters that are not those of `method` cannot be taken.
fn foreign_or_invalid(method: Method, params: &RequestParams) -> (why: String)
    requires
        params_fault(method, *params) is Some,
    ensures
        why@ == params_fault(method, *params)->0,
{
    match params {
        RequestParams::Invalid(why) => why.clone(),
        _ => FOREIGN_PARAMS.to_owned(),
    }
}

} // verus!
