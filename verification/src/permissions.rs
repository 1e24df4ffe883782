//! The permission policy of a plugin: what its manifest allows, held
//! as three sets, and the checks against them.

use vstd::prelude::*;
use crate::manifest::{listed, PluginManifest};
use crate::ordered::{sorted_distinct, strictly_sorted};
use crate::protocol::error_code;
use crate::protocol::{
    category_name, plain_error, EventCategory, InvokeCommandParams, JsonRpcError,
    PublishEventParams, HOST_API_VERSION,
};
use crate::text::{concat2, concat4, join, joined, texts};
use crate::version::{
    admits, is_requirement, is_version, parses_as_requirement, parses_as_version,
    requirement_matches,
};

verus! {

/// What a plugin is allowed, derived once from its manifest.
#[derive(Debug, Clone, PartialEq, Eq)]
pub struct PermissionPolicy {
    host_api_requirement: String,
    commands: Vec<String>,
    event_tags: Vec<String>,
    subscriptions: Vec<String>,
}

/// Why a request was not allowed, over plain values.
pub enum AuthorizationFault {
    InvalidHostApiRequirement(Seq<char>),
    InvalidHostApiVersion(Seq<char>),
    UnsupportedHostApi { required: Seq<char>, host: Seq<char> },
    UnauthorizedCommand(Seq<char>),
    UnauthorizedEventTag(Seq<char>),
    UnauthorizedSubscriptions(Seq<Seq<char>>),
}

/// Why a request was not allowed.
#[derive(Debug, Clone, PartialEq, Eq)]
pub enum AuthorizationError {
    /// The manifest's host requirement is no version requirement.
    InvalidHostApiRequirement(String),
    /// The host's own version is no semantic version.
    InvalidHostApiVersion(String),
    /// The manifest's host requirement does not admit the host's version.
    UnsupportedHostApi { required: String, host: String },
    /// The command is not on the manifest's list.
    UnauthorizedCommand(String),
    /// The event tag is not on the manifest's list.
    UnauthorizedEventTag(String),
    /// These categories are not on the manifest's list.
    UnauthorizedSubscriptions(Vec<String>),
}

impl View for AuthorizationError {
    type V = AuthorizationFault;

    open spec fn view(&self) -> AuthorizationFault {
        match self {
            AuthorizationError::InvalidHostApiRequirement(r) =>
                AuthorizationFault::InvalidHostApiRequirement(r@),
            AuthorizationError::InvalidHostApiVersion(v) =>
                AuthorizationFault::InvalidHostApiVersion(v@),
            AuthorizationError::UnsupportedHostApi { required, host } =>
                AuthorizationFault::UnsupportedHostApi { required: required@, host: host@ },
            AuthorizationError::UnauthorizedCommand(c) => AuthorizationFault::UnauthorizedCommand(
                c@,
            ),
            AuthorizationError::UnauthorizedEventTag(t) =>
                AuthorizationFault::UnauthorizedEventTag(t@),
            AuthorizationError::UnauthorizedSubscriptions(names) =>
                AuthorizationFault::UnauthorizedSubscriptions(texts(names@)),
        }
    }
}

impl AuthorizationFault {
    /// The error code the fault is answered with: one of invalid
    /// parameters, unsupported API version, unauthorized.
    pub open spec fn code(self) -> i32 {
        match self {
            AuthorizationFault::InvalidHostApiRequirement(_) => error_code::INVALID_PARAMS,
            AuthorizationFault::InvalidHostApiVersion(_) => error_code::INVALID_PARAMS,
            AuthorizationFault::UnsupportedHostApi { .. } => error_code::UNSUPPORTED_API_VERSION,
            AuthorizationFault::UnauthorizedCommand(_) => error_code::UNAUTHORIZED,
            AuthorizationFault::UnauthorizedEventTag(_) => error_code::UNAUTHORIZED,
            AuthorizationFault::UnauthorizedSubscriptions(_) => error_code::UNAUTHORIZED,
        }
    }

    /// The fault in words.
    pub open spec fn message(self) -> Seq<char> {
        match self {
            AuthorizationFault::InvalidHostApiRequirement(r) =>
                "invalid manifest compatibility.host_api requirement: "@ + r,
            AuthorizationFault::InvalidHostApiVersion(v) => "invalid host API version: "@ + v,
            AuthorizationFault::UnsupportedHostApi { required, host } =>
                "plugin requires host_api "@ + required + ", but host API is "@ + host,
            AuthorizationFault::UnauthorizedCommand(c) => "command is not allowlisted: "@ + c,
            AuthorizationFault::UnauthorizedEventTag(t) => "event tag is not allowlisted: "@ + t,
            AuthorizationFault::UnauthorizedSubscriptions(names) =>
                "subscription categories are not allowlisted: "@ + joined(names, ", "@),
        }
    }
}

impl AuthorizationError {
    /// The error code the failure is answered with.
    pub fn code(&self) -> (code: i32)
        ensures
            code == self@.code(),
    {
        match self {
            AuthorizationError::InvalidHostApiRequirement(_) => error_code::INVALID_PARAMS,
            AuthorizationError::InvalidHostApiVersion(_) => error_code::INVALID_PARAMS,
            AuthorizationError::UnsupportedHostApi { .. } => error_code::UNSUPPORTED_API_VERSION,
            AuthorizationError::UnauthorizedCommand(_) => error_code::UNAUTHORIZED,
            AuthorizationError::UnauthorizedEventTag(_) => error_code::UNAUTHORIZED,
            AuthorizationError::UnauthorizedSubscriptions(_) => error_code::UNAUTHORIZED,
        }
    }

    /// The failure in words.
    pub fn message(&self) -> (text: String)
        ensures
            text@ == self@.message(),
    {
        match self {
            AuthorizationError::InvalidHostApiRequirement(r) => concat2(
                "invalid manifest compatibility.host_api requirement: ",
                r.as_str(),
            ),
            AuthorizationError::InvalidHostApiVersion(v) => concat2(
                "invalid host API version: ",
                v.as_str(),
            ),
            AuthorizationError::UnsupportedHostApi { required, host } => concat4(
                "plugin requires host_api ",
                required.as_str(),
                ", but host API is ",
                host.as_str(),
            ),
            AuthorizationError::UnauthorizedCommand(c) => concat2(
                "command is not allowlisted: ",
                c.as_str(),
            ),
            AuthorizationError::UnauthorizedEventTag(t) => concat2(
                "event tag is not allowlisted: ",
                t.as_str(),
            ),
            AuthorizationError::UnauthorizedSubscriptions(names) => {
                let list = join(names, ", ");
                concat2("subscription categories are not allowlisted: ", list.as_str())
            },
        }
    }

    /// The failure as the error part of a response.
    pub fn to_jsonrpc_error(&self) -> (error: JsonRpcError)
        ensures
            error@ == plain_error(self@.code(), self@.message()),
    {
        JsonRpcError { code: self.code(), message: self.message(), data: None }
    }
}

/// What stands between a plugin with the host requirement `required`
/// and this host, if anything.
pub open spec fn host_compatibility_fault(required: Seq<char>) -> Option<AuthorizationFault> {
    if !is_requirement(required) {
        Some(AuthorizationFault::InvalidHostApiRequirement(required))
    } else if !is_version(HOST_API_VERSION@) {
        Some(AuthorizationFault::InvalidHostApiVersion(HOST_API_VERSION@))
    } else if !admits(required, HOST_API_VERSION@) {
        Some(
            AuthorizationFault::UnsupportedHostApi {
                required,
                host: HOST_API_VERSION@,
            },
        )
    } else {
        None
    }
}

/// A requirement that parses and admits the host's version.
pub open spec fn host_compatible(required: Seq<char>) -> bool {
    is_requirement(required) && is_version(HOST_API_VERSION@) && admits(
        required,
        HOST_API_VERSION@,
    )
}

/// A requirement that parses and does not admit the host's version.
pub open spec fn host_incompatible(required: Seq<char>) -> bool {
    is_requirement(required) && is_version(HOST_API_VERSION@) && !admits(
        required,
        HOST_API_VERSION@,
    )
}

/// The list without its repetitions: of equal items the first stays.
pub open spec fn deduplicated(s: Seq<EventCategory>) -> Seq<EventCategory>
    decreases s.len(),
{
    if s.len() == 0 {
        s
    } else if s.drop_last().contains(s.last()) {
        deduplicated(s.drop_last())
    } else {
        deduplicated(s.drop_last()).push(s.last())
    }
}

/// Dropping repetitions drops no category and adds none.
pub proof fn lemma_deduplicated_contains(s: Seq<EventCategory>, c: EventCategory)
    ensures
        deduplicated(s).contains(c) == s.contains(c),
    decreases s.len(),
{
    if s.len() > 0 {
        let init = s.drop_last();
        lemma_deduplicated_contains(init, c);
        lemma_deduplicated_contains(init, s.last());
        if s.contains(c) {
            let i = choose|i: int| 0 <= i < s.len() && s[i] == c;
            if i < s.len() - 1 {
                assert(init[i] == c);
            }
        }
        if init.contains(c) {
            let i = choose|i: int| 0 <= i < init.len() && init[i] == c;
            assert(s[i] == c);
        }
        let d = deduplicated(init);
        if !init.contains(s.last()) {
            if d.push(s.last()).contains(c) {
                let i = choose|i: int| 0 <= i < d.len() + 1 && d.push(s.last())[i] == c;
                if i < d.len() {
                    assert(d[i] == c);
                }
            }
            if d.contains(c) {
                let i = choose|i: int| 0 <= i < d.len() && d[i] == c;
                assert(d.push(s.last())[i] == c);
            }
            if c == s.last() {
                assert(d.push(s.last())[d.len() as int] == c);
                assert(s[s.len() - 1] == c);
            }
        }
    }
}

/// The wire names of a list of categories.
pub open spec fn category_names(categories: Seq<EventCategory>) -> Seq<Seq<char>> {
    Seq::new(categories.len(), |i: int| category_name(categories[i]))
}

/// A filter that every item passes keeps the list as it is.
pub proof fn lemma_filter_keeps_all<T>(s: Seq<T>, keep: spec_fn(T) -> bool)
    requires
        forall|i: int| 0 <= i < s.len() ==> keep(#[trigger] s[i]),
    ensures
        s.filter(keep) == s,
    decreases s.len(),
{
    reveal(Seq::filter);
    if s.len() > 0 {
        lemma_filter_keeps_all(s.drop_last(), keep);
        assert(s.drop_last().push(s.last()) =~= s);
    }
}

/// A request for categories is refused exactly where one of the
/// categories is not on the list; where all are, all come back.
pub proof fn lemma_refused_iff_not_allowed(
    policy: &PermissionPolicy,
    categories: Seq<EventCategory>,
)
    ensures
        policy.refused(categories).len() > 0 <==> exists|i: int|
            0 <= i < categories.len() && !policy.allows(#[trigger] categories[i]),
        policy.refused(categories).len() == 0 ==> policy.authorized(categories) == deduplicated(
            categories,
        ),
{
    let kept = deduplicated(categories);
    let denied = |c: EventCategory| !policy.allows(c);
    let allowed = |c: EventCategory| policy.allows(c);
    let refused = kept.filter(denied);
    if exists|i: int| 0 <= i < categories.len() && !policy.allows(#[trigger] categories[i]) {
        let i = choose|i: int| 0 <= i < categories.len() && !policy.allows(#[trigger] categories[i]);
        lemma_deduplicated_contains(categories, categories[i]);
        assert(categories.contains(categories[i]));
        let j = choose|j: int| 0 <= j < kept.len() && kept[j] == categories[i];
        kept.lemma_filter_contains(denied, j);
        assert(refused.contains(kept[j]));
    }
    if refused.len() > 0 {
        kept.lemma_filter_pred(denied, 0);
        assert(refused.contains(refused[0]));
        kept.lemma_filter_contains_rev(denied, refused[0]);
        lemma_deduplicated_contains(categories, refused[0]);
        let i = choose|i: int| 0 <= i < categories.len() && categories[i] == refused[0];
        assert(!policy.allows(categories[i]));
    } else {
        assert forall|n: int| 0 <= n < kept.len() implies allowed(#[trigger] kept[n]) by {
            if !policy.allows(kept[n]) {
                kept.lemma_filter_contains(denied, n);
            }
        }
        lemma_filter_keeps_all(kept, allowed);
    }
}

/// Whether `category` is one of the list.
pub fn includes(list: &Vec<EventCategory>, category: EventCategory) -> (found: bool)
    ensures
        found == list@.contains(category),
{
    let mut k: usize = 0;
    while k < list.len()
        invariant
            k <= list.len(),
            forall|j: int| 0 <= j < k ==> list@[j] != category,
        decreases list.len() - k,
    {
        if list[k] == category {
            return true;
        }
        k += 1;
    }
    false
}

impl PermissionPolicy {
    /// The host requirement of the manifest.
    pub closed spec fn host_api_requirement(&self) -> Seq<char> {
        self.host_api_requirement@
    }

    /// The commands the plugin may run.
    pub closed spec fn commands(&self) -> Set<Seq<char>> {
        texts(self.commands@).to_set()
    }

    /// The event tags the plugin may publish under.
    pub closed spec fn event_tags(&self) -> Set<Seq<char>> {
        texts(self.event_tags@).to_set()
    }

    /// The names of the categories the plugin may subscribe to.
    pub closed spec fn subscriptions(&self) -> Set<Seq<char>> {
        texts(self.subscriptions@).to_set()
    }

    /// Each of the three sets is held in ascending order, so that two
    /// policies with the same sets are written the same.
    pub closed spec fn wf(&self) -> bool {
        &&& strictly_sorted(texts(self.commands@))
        &&& strictly_sorted(texts(self.event_tags@))
        &&& strictly_sorted(texts(self.subscriptions@))
    }

    /// Two policies that allow the same.
    pub open spec fn same_as(&self, other: &PermissionPolicy) -> bool {
        &&& self.wf() == other.wf()
        &&& self.host_api_requirement() == other.host_api_requirement()
        &&& self.commands() == other.commands()
        &&& self.event_tags() == other.event_tags()
        &&& self.subscriptions() == other.subscriptions()
    }

    /// The policy is the one that `from_manifest` derives of `manifest`.
    pub open spec fn derived_from(&self, manifest: &PluginManifest) -> bool {
        &&& self.wf()
        &&& self.host_api_requirement() == manifest.compatibility.host_api@
        &&& self.commands() == texts(manifest.permissions.commands@).to_set()
        &&& self.event_tags() == texts(manifest.permissions.event_tags@).to_set()
        &&& self.subscriptions() == texts(manifest.permissions.subscriptions@).to_set()
    }

    /// Whether the plugin may subscribe to `category`.
    pub open spec fn allows(&self, category: EventCategory) -> bool {
        self.subscriptions().contains(category_name(category))
    }

    /// The categories of a request that the policy allows, each once, in
    /// the order of the request.
    pub open spec fn authorized(&self, categories: Seq<EventCategory>) -> Seq<EventCategory> {
        deduplicated(categories).filter(|c: EventCategory| self.allows(c))
    }

    /// The categories of a request that the policy does not allow, each
    /// once, in the order of the request.
    pub open spec fn refused(&self, categories: Seq<EventCategory>) -> Seq<EventCategory> {
        deduplicated(categories).filter(|c: EventCategory| !self.allows(c))
    }

    /// The policy of a manifest: its requirement and its three
    /// allowlists as sets.
    pub fn from_manifest(manifest: &PluginManifest) -> (policy: PermissionPolicy)
        ensures
            policy.derived_from(manifest),
    {
        PermissionPolicy {
            host_api_requirement: manifest.compatibility.host_api.clone(),
            commands: sorted_distinct(&manifest.permissions.commands),
            event_tags: sorted_distinct(&manifest.permissions.event_tags),
            subscriptions: sorted_distinct(&manifest.permissions.subscriptions),
        }
    }

    /// A copy of the policy.
    pub fn duplicate(&self) -> (copy: PermissionPolicy)
        ensures
            copy.same_as(self),
    {
        let commands = self.commands.clone();
        let event_tags = self.event_tags.clone();
        let subscriptions = self.subscriptions.clone();
        assert(texts(commands@) =~= texts(self.commands@));
        assert(texts(event_tags@) =~= texts(self.event_tags@));
        assert(texts(subscriptions@) =~= texts(self.subscriptions@));
        PermissionPolicy {
            host_api_requirement: self.host_api_requirement.clone(),
            commands,
            event_tags,
            subscriptions,
        }
    }

    /// Holds the manifest's host requirement against the host's version.
    /// It succeeds for every requirement that admits the host's version,
    /// and fails with `UnsupportedHostApi` for every one that does not.
    pub fn ensure_host_compatibility(&self) -> (r: Result<(), AuthorizationError>)
        ensures
            match r {
                Ok(()) => host_compatibility_fault(self.host_api_requirement()) is None,
                Err(e) => host_compatibility_fault(self.host_api_requirement()) == Some(e@),
            },
            host_compatible(self.host_api_requirement()) ==> r is Ok,
            host_incompatible(self.host_api_requirement()) ==> (r matches Err(e)
                && e is UnsupportedHostApi),
    {
        let required: &str = self.host_api_requirement.as_str();
        if !parses_as_requirement(required) {
            return Err(
                AuthorizationError::InvalidHostApiRequirement(self.host_api_requirement.clone()),
            );
        }
        if !parses_as_version(HOST_API_VERSION) {
            return Err(AuthorizationError::InvalidHostApiVersion(HOST_API_VERSION.to_owned()));
        }
        if requirement_matches(required, HOST_API_VERSION) {
            Ok(())
        } else {
            Err(
                AuthorizationError::UnsupportedHostApi {
                    required: self.host_api_requirement.clone(),
                    host: HOST_API_VERSION.to_owned(),
                },
            )
        }
    }

    /// Allows a command that is on the list and refuses any other.
    pub fn authorize_invoke_command(&self, params: &InvokeCommandParams) -> (r: Result<
        (),
        AuthorizationError,
    >)
        ensures
            match r {
                Ok(()) => self.commands().contains(params.command@),
                Err(e) => !self.commands().contains(params.command@) && e@
                    == AuthorizationFault::UnauthorizedCommand(params.command@),
            },
    {
        if listed(&self.commands, params.command.as_str()) {
            Ok(())
        } else {
            Err(AuthorizationError::UnauthorizedCommand(params.command.clone()))
        }
    }

    /// Allows an event tag that is on the list and refuses any other.
    pub fn authorize_publish_event(&self, params: &PublishEventParams) -> (r: Result<
        (),
        AuthorizationError,
    >)
        ensures
            match r {
                Ok(()) => self.event_tags().contains(params.tag@),
                Err(e) => !self.event_tags().contains(params.tag@) && e@
                    == AuthorizationFault::UnauthorizedEventTag(params.tag@),
            },
    {
        if listed(&self.event_tags, params.tag.as_str()) {
            Ok(())
        } else {
            Err(AuthorizationError::UnauthorizedEventTag(params.tag.clone()))
        }
    }

    /// Allows a request for categories only as a whole: where every
    /// category is on the list, the categories come back, each once, in
    /// the order of the request; where one is not, the request fails and
    /// the failure names exactly those that are not.
    pub fn authorize_subscriptions(&self, categories: &[EventCategory]) -> (r: Result<
        Vec<EventCategory>,
        AuthorizationError,
    >)
        ensures
            match r {
                Ok(authorized) => self.refused(categories@).len() == 0 && authorized@
                    == self.authorized(categories@),
                Err(e) => self.refused(categories@).len() > 0 && e@
                    == AuthorizationFault::UnauthorizedSubscriptions(
                    category_names(self.refused(categories@)),
                ),
            },
            r is Ok <==> forall|i: int|
                0 <= i < categories@.len() ==> self.allows(#[trigger] categories@[i]),
            r matches Ok(authorized) ==> authorized@ == deduplicated(categories@),
    {
        let ghost allowed = |c: EventCategory| self.allows(c);
        let ghost denied = |c: EventCategory| !self.allows(c);
        let mut seen: Vec<EventCategory> = Vec::new();
        let mut authorized: Vec<EventCategory> = Vec::new();
        let mut unauthorized: Vec<String> = Vec::new();
        let mut i: usize = 0;
        while i < categories.len()
            invariant
                i <= categories.len(),
                allowed == |c: EventCategory| self.allows(c),
                denied == |c: EventCategory| !self.allows(c),
                seen@ == deduplicated(categories@.take(i as int)),
                authorized@ == seen@.filter(allowed),
                texts(unauthorized@) == category_names(seen@.filter(denied)),
                forall|j: int| 0 <= j < i ==> (denied(#[trigger] categories@[j])
                    ==> seen@.filter(denied).len() > 0),
                seen@.filter(denied).len() > 0 ==> exists|j: int|
                    0 <= j < i && !self.allows(#[trigger] categories@[j]),
            decreases categories.len() - i,
        {
            let category: EventCategory = categories[i];
            let ghost prefix = categories@.take(i as int);
            let ghost next = categories@.take(i as int + 1);
            let ghost old_seen = seen@;
            proof {
                assert(next.drop_last() =~= prefix);
                assert(next.last() == category);
                lemma_deduplicated_contains(prefix, category);
            }
            let known: bool = includes(&seen, category);
            if !known {
                seen.push(category);
                proof {
                    assert(seen@.drop_last() =~= old_seen);
                    assert(seen@.last() == category);
                    reveal(Seq::filter);
                }
                if listed(&self.subscriptions, category.as_str()) {
                    authorized.push(category);
                } else {
                    let ghost old_names = texts(unauthorized@);
                    unauthorized.push(category.as_str().to_owned());
                    proof {
                        let kept = old_seen.filter(denied);
                        assert(seen@.filter(denied) == kept.push(category));
                        assert(texts(unauthorized@) =~= old_names.push(category_name(category)));
                        assert(category_names(kept.push(category)) =~= category_names(kept).push(
                            category_name(category),
                        ));
                        assert(texts(unauthorized@) =~= category_names(seen@.filter(denied)));
                    }
                }
            }
            i += 1;
        }
        proof {
            assert(categories@.take(categories.len() as int) =~= categories@);
            if unauthorized.len() == 0 {
                assert forall|n: int| 0 <= n < seen@.len() implies allowed(seen@[n]) by {
                    lemma_deduplicated_contains(categories@, seen@[n]);
                    let j = choose|j: int|
                        0 <= j < categories@.len() && categories@[j] == seen@[n];
                    assert(!denied(categories@[j]));
                }
                lemma_filter_keeps_all(seen@, allowed);
            }
        }
        if unauthorized.len() == 0 {
            Ok(authorized)
        } else {
            Err(AuthorizationError::UnauthorizedSubscriptions(unauthorized))
        }
    }
}

/// The policy of a manifest, provided the manifest's host requirement
/// admits this host.
pub fn policy_from_manifest(manifest: &PluginManifest) -> (r: Result<
    PermissionPolicy,
    AuthorizationError,
>)
    ensures
        match r {
            Ok(policy) => {
                &&& host_compatibility_fault(manifest.compatibility.host_api@) is None
                &&& policy.derived_from(manifest)
            },
            Err(e) => host_compatibility_fault(manifest.compatibility.host_api@) == Some(e@),
        },
        host_compatible(manifest.compatibility.host_api@) ==> r is Ok,
        host_incompatible(manifest.compatibility.host_api@) ==> (r matches Err(e)
            && e is UnsupportedHostApi),
{
    let policy = PermissionPolicy::from_manifest(manifest);
    match policy.ensure_host_compatibility() {
        Ok(()) => Ok(policy),
        Err(e) => Err(e),
    }
}

/// The name a category has on the wire.
pub fn event_category_name(category: EventCategory) -> (name: &'static str)
    ensures
        name@ == category_name(category),
{
    category.as_str()
}

} // verus!
