//! The registry of plugins: every plugin that was discovered, what it
//! is allowed, and the session of each one that runs.
//!
//! The registry decides; the caller acts. To start a plugin the caller
//! asks whether it may be started, starts the process, reads the first
//! request and hands it to `start`. To serve a plugin it asks whether
//! the plugin runs, reads a request and hands it to `pump_next`. What
//! comes back says what to write to the plugin, and what became of the
//! call.

use vstd::prelude::*;
use crate::discovery::{
    load_fault, loaded_before_failure, loaded_until_failure, LoadedManifest,
    discover_plugins, discovery_failure, first_repetition, ids_of, DiscoveredPlugin,
    DiscoveryFault,
};
use crate::failure::{HandledRequest, RuntimeError, RuntimeFault};
use crate::manifest::PluginManifest;
use crate::ordered::{ascending, strictly_sorted, OrderedMap};
use crate::permissions::{host_compatibility_fault, policy_from_manifest, PermissionPolicy};
use crate::protocol::{EventCategory, HandshakeResult};
use crate::session::{
    first_request_verdict, request_answered, EventNotification, HandshakeVerdict, HostBridge,
    PluginRequest, PluginResponse, RequestTurn, ResponseBody, SessionState,
};
use crate::text::{concat2, concat4, lex_lt, texts};

verus! {

/// A plugin of the registry.
pub struct RegisteredPlugin {
    /// The path the manifest was loaded from.
    pub manifest_path: String,
    pub manifest: PluginManifest,
    /// What the manifest allows.
    pub policy: PermissionPolicy,
    /// The session, while the plugin runs.
    pub session: Option<SessionState>,
}

impl RegisteredPlugin {
    /// The entry is the one of the plugin `id`: the policy is the one
    /// of the manifest, the manifest's host requirement admits this
    /// host, and the session, if there is one, is one of this plugin
    /// under this policy that has done its handshake.
    pub open spec fn sound(&self, id: Seq<char>) -> bool {
        &&& self.manifest.id@ == id
        &&& self.policy.derived_from(&self.manifest)
        &&& host_compatibility_fault(self.manifest.compatibility.host_api@) is None
        &&& self.session matches Some(s) ==> {
            &&& s.plugin_id() == id
            &&& s.plugin_version() == self.manifest.version@
            &&& s.policy().same_as(&self.policy)
            &&& s.handshake_complete()
        }
    }

    /// The same plugin with another session, or none.
    pub open spec fn with_session(self, session: Option<SessionState>) -> RegisteredPlugin {
        RegisteredPlugin {
            manifest_path: self.manifest_path,
            manifest: self.manifest,
            policy: self.policy,
            session,
        }
    }

    /// The entry of a plugin that was discovered and does not run.
    pub open spec fn registers(&self, item: &DiscoveredPlugin) -> bool {
        &&& self.manifest_path == item.manifest_path
        &&& self.manifest == item.manifest
        &&& self.session is None
    }
}

/// What is said of a plugin whose manifest does not admit this host.
pub open spec fn incompatible_plugin(plugin: &DiscoveredPlugin) -> Option<Seq<char>> {
    match host_compatibility_fault(plugin.manifest.compatibility.host_api@) {
        Some(fault) => Some(
            "plugin "@ + plugin.manifest.id@ + " failed compatibility/permission validation: "@
                + fault.message(),
        ),
        None => None,
    }
}

/// Why the plugin at place `at` cannot be registered after those before
/// it: its identifier is taken, or its manifest does not admit this
/// host.
pub open spec fn registration_fault_at(items: Seq<DiscoveredPlugin>, at: int) -> Option<
    Seq<char>,
> {
    let id = items[at].manifest.id@;
    if ids_of(items.take(at)).contains(id) {
        Some("duplicate plugin id in discovered set: "@ + id)
    } else {
        incompatible_plugin(&items[at])
    }
}

/// The fault of the first plugin from place `from` on that cannot be
/// registered.
pub open spec fn registration_fault_from(items: Seq<DiscoveredPlugin>, from: int) -> Option<
    Seq<char>,
>
    decreases items.len() - from,
{
    if from < 0 || from >= items.len() {
        None
    } else if registration_fault_at(items, from) is Some {
        registration_fault_at(items, from)
    } else {
        registration_fault_from(items, from + 1)
    }
}

/// Why a list of plugins cannot be registered: the fault of the first
/// plugin that cannot. One plugin that cannot be registered fails the
/// whole list.
pub open spec fn registration_fault(items: Seq<DiscoveredPlugin>) -> Option<Seq<char>> {
    registration_fault_from(items, 0)
}

/// The failure names the plugin at place `at`, which does not admit
/// this host and has the least identifier of those that do not.
pub open spec fn named_incompatible(found: Seq<DiscoveredPlugin>, failure: RuntimeFault, at: int) -> bool {
    &&& 0 <= at < found.len()
    &&& incompatible_plugin(&found[at]) is Some
    &&& failure == RuntimeFault::Discovery(incompatible_plugin(&found[at])->0)
    &&& forall|j: int|
        0 <= j < found.len() && incompatible_plugin(&#[trigger] found[j]) is Some ==> !lex_lt(
            found[j].manifest.id@,
            found[at].manifest.id@,
        )
}

/// The failure names the first two manifests, in the order in which
/// they were found, that give the same identifier, and both paths.
pub open spec fn named_duplicate(found: Seq<DiscoveredPlugin>, failure: RuntimeFault) -> bool {
    exists|first: int, second: int|
        #![trigger first_repetition(found, first, second)]
        first_repetition(found, first, second) && failure == discovery_failure(
            (DiscoveryFault::DuplicatePluginId {
                id: found[second].manifest.id@,
                first: found[first].manifest_path@,
                second: found[second].manifest_path@,
            }).message(),
        )
}

/// What comes of building a registry of the manifests that were found.
/// Two manifests with the same identifier fail it, with a failure that
/// names both paths. Else one manifest that does not admit this host
/// fails it, with a failure that names the plugin; of several it names
/// the one with the least identifier. Else the registry holds every
/// plugin that was found, none of them running.
pub open spec fn built_from(found: Seq<DiscoveredPlugin>, r: Result<PluginRuntime, RuntimeError>) -> bool {
    if !ids_of(found).no_duplicates() {
        r matches Err(e) && named_duplicate(found, e@)
    } else if exists|i: int| 0 <= i < found.len() && incompatible_plugin(&#[trigger] found[i]) is Some {
        r matches Err(e) && exists|at: int| #[trigger] named_incompatible(found, e@, at)
    } else {
        r matches Ok(runtime) && {
            &&& runtime.plugins().dom() == ids_of(found).to_set()
            &&& forall|i: int|
                0 <= i < found.len() ==> runtime.plugins()[#[trigger] found[i].manifest.id@].registers(
                &found[i])
            &&& forall|id: Seq<char>|
                #[trigger] runtime.is_registered(id) ==> runtime.plugins()[id].sound(id)
        }
    }
}

/// The outcome of starting a plugin: the response to write to it, if
/// there is one, and the result of the start.
#[derive(Debug, PartialEq, Eq)]
pub struct StartTurn {
    pub response: Option<PluginResponse>,
    pub result: Result<HandshakeResult, RuntimeError>,
}

/// The outcome of serving a plugin once: the response to write to it,
/// if there is one, and what the host records or what went wrong.
#[derive(Debug, PartialEq, Eq)]
pub struct PumpTurn {
    pub response: Option<PluginResponse>,
    pub result: Result<HandledRequest, RuntimeError>,
}

/// The registry of plugins and their sessions.
pub struct PluginRuntime {
    plugins: OrderedMap<RegisteredPlugin>,
}

impl PluginRuntime {
    #[verifier::type_invariant]
    spec fn entries_sound(&self) -> bool {
        &&& self.plugins.wf()
        &&& forall|id: Seq<char>| #[trigger]
            self.plugins@.dom().contains(id) ==> self.plugins@[id].sound(id)
    }

    /// The plugins by identifier.
    pub closed spec fn plugins(&self) -> Map<Seq<char>, RegisteredPlugin> {
        self.plugins@
    }

    /// The identifiers in ascending order.
    pub closed spec fn ids(&self) -> Seq<Seq<char>> {
        self.plugins.keys()
    }

    /// Whether a plugin of that identifier is registered.
    pub open spec fn is_registered(&self, id: Seq<char>) -> bool {
        self.plugins().dom().contains(id)
    }

    /// Whether the plugin of that identifier runs.
    pub open spec fn is_running(&self, id: Seq<char>) -> bool {
        self.is_registered(id) && self.plugins()[id].session is Some
    }

    /// The session of a plugin that runs.
    pub open spec fn session(&self, id: Seq<char>) -> SessionState {
        self.plugins()[id].session->0
    }

    /// No plugin but `id` differs between the two registries.
    pub open spec fn same_but(&self, other: &PluginRuntime, id: Seq<char>) -> bool {
        &&& self.ids() == other.ids()
        &&& self.plugins().dom() == other.plugins().dom()
        &&& forall|k: Seq<char>|
            k != id && #[trigger] self.plugins().dom().contains(k) ==> self.plugins()[k]
                == other.plugins()[k]
    }

    /// Only the session of `id` differs between the two registries.
    pub open spec fn same_but_session(&self, other: &PluginRuntime, id: Seq<char>) -> bool {
        &&& self.same_but(other, id)
        &&& self.is_registered(id) ==> self.plugins()[id] == other.plugins()[id].with_session(
            self.plugins()[id].session,
        )
    }

    /// Why a plugin cannot be started: it is not registered, or it runs.
    pub open spec fn start_fault(&self, id: Seq<char>) -> Option<RuntimeFault> {
        if !self.is_registered(id) {
            Some(RuntimeFault::UnknownPlugin(id))
        } else if self.is_running(id) {
            Some(RuntimeFault::AlreadyRunning(id))
        } else {
            None
        }
    }

    /// Why a plugin cannot be served: it is not registered, or it does
    /// not run.
    pub open spec fn running_fault(&self, id: Seq<char>) -> Option<RuntimeFault> {
        if !self.is_registered(id) {
            Some(RuntimeFault::UnknownPlugin(id))
        } else if !self.is_running(id) {
            Some(RuntimeFault::NotRunning(id))
        } else {
            None
        }
    }

    /// Registers the plugins of a list, in the order of the list. The
    /// registry holds every plugin of the list under its identifier,
    /// none of them running, or nothing is registered at all.
    pub fn register_discovered(discovered: Vec<DiscoveredPlugin>) -> (r: Result<
        PluginRuntime,
        RuntimeError,
    >)
        ensures
            match r {
                Ok(runtime) => {
                    &&& registration_fault(discovered@) is None
                    &&& runtime.ids() == ascending(ids_of(discovered@).to_set())
                    &&& strictly_sorted(runtime.ids())
                    &&& runtime.plugins().dom() == ids_of(discovered@).to_set()
                    &&& forall|i: int|
                        0 <= i < discovered@.len() ==> runtime.plugins()[#[trigger] discovered@[i].manifest.id@].registers(
                        &discovered@[i])
                    &&& forall|id: Seq<char>| #[trigger]
                        runtime.is_registered(id) ==> runtime.plugins()[id].sound(id)
                },
                Err(e) => registration_fault(discovered@) is Some && e@ == RuntimeFault::Discovery(
                    registration_fault(discovered@)->0,
                ),
            },
    {
        let ghost all = discovered@;
        let mut rest: Vec<DiscoveredPlugin> = discovered;
        let total: usize = rest.len();
        let mut plugins: OrderedMap<RegisteredPlugin> = OrderedMap::new();
        let mut i: usize = 0;
        while rest.len() > 0
            invariant
                all == discovered@,
                all.len() == total,
                plugins.wf(),
                0 <= i <= all.len(),
                i + rest@.len() == all.len(),
                rest@ == all.skip(i as int),
                registration_fault(all) == registration_fault_from(all, i as int),
                plugins@.dom() =~= ids_of(all.take(i as int)).to_set(),
                forall|q: int|
                    0 <= q < i ==> plugins@[#[trigger] all[q].manifest.id@].registers(&all[q]),
                forall|id: Seq<char>| #[trigger]
                    plugins@.dom().contains(id) ==> plugins@[id].sound(id),
            decreases rest.len(),
        {
            let item: DiscoveredPlugin = rest.remove(0);
            proof {
                assert(item == all[i as int]);
                assert(rest@ =~= all.skip(i as int + 1));
            }
            let ghost id = item.manifest.id@;
            let ghost prefix = ids_of(all.take(i as int));
            let ghost next = ids_of(all.take(i as int + 1));
            if plugins.contains_key(item.manifest.id.as_str()) {
                proof {
                    assert(prefix.to_set().contains(id));
                }
                return Err(
                    RuntimeError::Discovery(
                        concat2("duplicate plugin id in discovered set: ", item.manifest.id.as_str()),
                    ),
                );
            }
            proof {
                assert(!prefix.to_set().contains(id));
            }
            let policy = match policy_from_manifest(&item.manifest) {
                Ok(policy) => policy,
                Err(fault) => {
                    let why = fault.message();
                    return Err(
                        RuntimeError::Discovery(
                            concat4(
                                "plugin ",
                                item.manifest.id.as_str(),
                                " failed compatibility/permission validation: ",
                                why.as_str(),
                            ),
                        ),
                    );
                },
            };
            let key: String = item.manifest.id.clone();
            let entry = RegisteredPlugin {
                manifest_path: item.manifest_path,
                manifest: item.manifest,
                policy,
                session: None,
            };
            let ghost before = plugins@;
            plugins.insert(key, entry);
            proof {
                assert(next =~= prefix.push(id));
                assert forall|k: Seq<char>| plugins@.dom().contains(k) == next.to_set().contains(
                    k,
                ) by {
                    if prefix.contains(k) {
                        let j = choose|j: int| 0 <= j < prefix.len() && prefix[j] == k;
                        assert(next[j] == k);
                    }
                    if next.contains(k) {
                        let j = choose|j: int| 0 <= j < next.len() && next[j] == k;
                        if j < prefix.len() {
                            assert(prefix[j] == k);
                        }
                    }
                    if k == id {
                        assert(next[i as int] == k);
                    }
                }
                assert forall|q: int| 0 <= q < i + 1 implies plugins@[#[trigger] all[q].manifest.id@].registers(
                &all[q]) by {
                    if q < i {
                        assert(prefix[q] == all[q].manifest.id@);
                        assert(prefix.to_set().contains(all[q].manifest.id@));
                        assert(before[all[q].manifest.id@].registers(&all[q]));
                    }
                }
            }
            i += 1;
        }
        proof {
            assert(all.take(all.len() as int) =~= all);
            plugins.lemma_keys_are_domain();
        }
        Ok(PluginRuntime { plugins })
    }

    /// Builds the registry of the manifests that were found, which come
    /// in the order of their paths: it makes a set of plugins of them
    /// and registers them, as `built_from` says.
    pub fn from_manifests(found: Vec<DiscoveredPlugin>) -> (r: Result<PluginRuntime, RuntimeError>)
        ensures
            built_from(found@, r),
    {
        match discover_plugins(found) {
            Err(e) => Err(e.to_error()),
            Ok(plugins) => {
                let r = PluginRuntime::register_discovered(plugins);
                proof {
                    crate::ordered::lemma_sorted_no_duplicates(ids_of(plugins@));
                    lemma_same_items(found@, plugins@);
                    lemma_registration_fault(plugins@, 0);
                    if r is Err {
                        let p = choose|p: int|
                            0 <= p < plugins@.len() && incompatible_plugin(
                                &#[trigger] plugins@[p],
                            ) == registration_fault_from(plugins@, 0) && forall|k: int|
                                0 <= k < p ==> incompatible_plugin(&#[trigger] plugins@[k])
                                    is None;
                        assert(found@.contains(plugins@[p]));
                        let q = choose|q: int| 0 <= q < found@.len() && found@[q] == plugins@[p];
                        assert forall|j: int|
                            0 <= j < found@.len() && incompatible_plugin(
                                &#[trigger] found@[j],
                            ) is Some implies !lex_lt(
                            found@[j].manifest.id@,
                            found@[q].manifest.id@,
                        ) by {
                            assert(plugins@.contains(found@[j]));
                            let at = choose|at: int|
                                0 <= at < plugins@.len() && plugins@[at] == found@[j];
                            assert(at >= p);
                            if at > p {
                                assert(lex_lt(ids_of(plugins@)[p], ids_of(plugins@)[at]));
                            }
                            crate::text::lemma_lex_total(
                                found@[j].manifest.id@,
                                found@[q].manifest.id@,
                            );
                        }
                        assert(named_incompatible(found@, r->Err_0@, q));
                    } else {
                        let runtime = r->Ok_0;
                        assert forall|k: Seq<char>| ids_of(plugins@).to_set().contains(k)
                            == ids_of(found@).to_set().contains(k) by {
                            if ids_of(plugins@).contains(k) {
                                let p = choose|p: int|
                                    0 <= p < plugins@.len() && ids_of(plugins@)[p] == k;
                                assert(found@.contains(plugins@[p]));
                                let q = choose|q: int|
                                    0 <= q < found@.len() && found@[q] == plugins@[p];
                                assert(ids_of(found@)[q] == k);
                            }
                            if ids_of(found@).contains(k) {
                                let q = choose|q: int|
                                    0 <= q < found@.len() && ids_of(found@)[q] == k;
                                assert(plugins@.contains(found@[q]));
                                let p = choose|p: int|
                                    0 <= p < plugins@.len() && plugins@[p] == found@[q];
                                assert(ids_of(plugins@)[p] == k);
                            }
                        }
                        assert(ids_of(plugins@).to_set() =~= ids_of(found@).to_set());
                        assert forall|i: int| 0 <= i < found@.len() implies runtime.plugins()[#[trigger] found@[i].manifest.id@].registers(
                        &found@[i]) && incompatible_plugin(&found@[i]) is None by {
                            assert(plugins@.contains(found@[i]));
                            let p = choose|p: int|
                                0 <= p < plugins@.len() && plugins@[p] == found@[i];
                            assert(runtime.plugins()[plugins@[p].manifest.id@].registers(
                                &plugins@[p],
                            ));
                            assert(incompatible_plugin(&plugins@[p]) is None);
                        }
                    }
                }
                r
            },
        }
    }

    /// Builds the registry of what came of loading the manifests, which
    /// come in the order of their paths. The outcomes are gone through
    /// in that order and the first thing that is wrong decides: a
    /// manifest that gives an identifier a second time, or a manifest
    /// that could not be loaded. Where nothing is wrong with them, the
    /// registry is built of the manifests as `built_from` says.
    pub fn from_loaded(loaded: Vec<LoadedManifest>) -> (r: Result<PluginRuntime, RuntimeError>)
        ensures
            if !ids_of(loaded_before_failure(loaded@)).no_duplicates() {
                r matches Err(e) && named_duplicate(loaded_before_failure(loaded@), e@)
            } else if load_fault(loaded@) is Some {
                r matches Err(e) && e@ == discovery_failure(load_fault(loaded@)->0.message())
            } else {
                built_from(loaded_before_failure(loaded@), r)
            },
    {
        let (found, failure) = loaded_until_failure(loaded);
        match failure {
            None => PluginRuntime::from_manifests(found),
            Some(failed) => match discover_plugins(found) {
                Err(repeated) => Err(repeated.to_error()),
                Ok(_) => Err(failed.to_error()),
            },
        }
    }

    /// The identifiers of the registered plugins in ascending order.
    pub fn plugin_ids(&self) -> (ids: Vec<String>)
        ensures
            texts(ids@) == self.ids(),
            strictly_sorted(self.ids()),
            self.ids().to_set() == self.plugins().dom(),
    {
        proof {
            use_type_invariant(self);
            self.plugins.lemma_keys_are_domain();
        }
        let mut ids: Vec<String> = Vec::new();
        let n: usize = self.plugins.len();
        let mut i: usize = 0;
        while i < n
            invariant
                self.plugins.wf(),
                n == self.plugins.keys().len(),
                i <= n,
                texts(ids@) == self.plugins.keys().take(i as int),
            decreases n - i,
        {
            let key: String = self.plugins.key_at(i).clone();
            let ghost listed = texts(ids@);
            ids.push(key);
            assert(texts(ids@) =~= listed.push(key@));
            assert(texts(ids@) =~= self.plugins.keys().take(i as int + 1));
            i += 1;
        }
        assert(self.plugins.keys().take(n as int) =~= self.plugins.keys());
        ids
    }

    /// The entry of a plugin.
    pub fn plugin(&self, plugin_id: &str) -> (entry: Option<&RegisteredPlugin>)
        ensures
            match entry {
                Some(e) => self.is_registered(plugin_id@) && *e == self.plugins()[plugin_id@]
                    && e.sound(plugin_id@),
                None => !self.is_registered(plugin_id@),
            },
    {
        proof {
            use_type_invariant(self);
        }
        self.plugins.get(plugin_id)
    }

    /// Whether the plugin runs.
    pub fn runs(&self, plugin_id: &str) -> (running: bool)
        ensures
            running == self.is_running(plugin_id@),
    {
        match self.plugin(plugin_id) {
            Some(entry) => entry.session.is_some(),
            None => false,
        }
    }

    /// Says whether a plugin may be started: it has to be registered,
    /// and it must not run.
    pub fn ensure_startable(&self, plugin_id: &str) -> (r: Result<(), RuntimeError>)
        ensures
            match r {
                Ok(()) => self.start_fault(plugin_id@) is None,
                Err(e) => self.start_fault(plugin_id@) == Some(e@),
            },
    {
        match self.plugin(plugin_id) {
            None => Err(RuntimeError::UnknownPlugin(plugin_id.to_owned())),
            Some(entry) => if entry.session.is_some() {
                Err(RuntimeError::AlreadyRunning(plugin_id.to_owned()))
            } else {
                Ok(())
            },
        }
    }

    /// Says whether a plugin may be served: it has to be registered,
    /// and it has to run.
    pub fn ensure_running(&self, plugin_id: &str) -> (r: Result<(), RuntimeError>)
        ensures
            match r {
                Ok(()) => self.running_fault(plugin_id@) is None,
                Err(e) => self.running_fault(plugin_id@) == Some(e@),
            },
    {
        match self.plugin(plugin_id) {
            None => Err(RuntimeError::UnknownPlugin(plugin_id.to_owned())),
            Some(entry) => if entry.session.is_some() {
                Ok(())
            } else {
                Err(RuntimeError::NotRunning(plugin_id.to_owned()))
            },
        }
    }
}

/// Gives the entry at a place another session, or none, and hands back
/// the session it had.
fn swap_session(plugins: &mut OrderedMap<RegisteredPlugin>, i: usize, session: Option<SessionState>) -> (before:
    Option<SessionState>)
    requires
        old(plugins).wf(),
        i < old(plugins).keys().len(),
    ensures
        final(plugins).wf(),
        final(plugins).keys() == old(plugins).keys(),
        before == old(plugins).values()[i as int].session,
        final(plugins)@ == old(plugins)@.insert(
            old(plugins).keys()[i as int],
            old(plugins).values()[i as int].with_session(session),
        ),
{
    proof {
        old(plugins).lemma_keys_are_domain();
        old(plugins).lemma_entry(i as int);
    }
    let (key, entry) = plugins.remove_at(i);
    let RegisteredPlugin { manifest_path, manifest, policy, session: before } = entry;
    let ghost k = key@;
    plugins.insert(key, RegisteredPlugin { manifest_path, manifest, policy, session });
    proof {
        plugins.lemma_keys_are_domain();
        assert(plugins@.dom() =~= old(plugins)@.dom());
        assert(plugins@ =~= old(plugins)@.insert(
            k,
            old(plugins).values()[i as int].with_session(session),
        ));
    }
    before
}

impl PluginRuntime {
    /// Opens the session of a plugin whose process was started, given
    /// what came of waiting for its first request.
    ///
    /// A plugin that is not registered, or that runs, is not started.
    /// Where nothing came of the wait but a failure, the start fails
    /// with that failure. Where a request came, it has to be an
    /// accepted handshake: then the plugin runs, ready and without
    /// subscriptions; else the start fails and the plugin does not run.
    /// In both cases the response is to be written to the plugin.
    pub fn start(&mut self, plugin_id: &str, first: Result<PluginRequest, RuntimeError>) -> (turn:
        StartTurn)
        ensures
            final(self).same_but_session(old(self), plugin_id@),
            match old(self).start_fault(plugin_id@) {
                Some(fault) => {
                    &&& turn.response is None
                    &&& turn.result matches Err(e) && e@ == fault
                    &&& final(self).plugins() == old(self).plugins()
                },
                None => match first {
                    Err(failure) => {
                        &&& turn.response is None
                        &&& turn.result == Err::<HandshakeResult, RuntimeError>(failure)
                        &&& final(self).plugins() == old(self).plugins()
                    },
                    Ok(request) => {
                        &&& turn.response matches Some(response) && response.answers(&request)
                            && match first_request_verdict(
                            plugin_id@,
                            old(self).plugins()[plugin_id@].manifest.version@,
                            &request,
                        ) {
                            HandshakeVerdict::Accept(result) => {
                                &&& response.body matches ResponseBody::Handshake(h) && h@
                                    == result
                                &&& turn.result matches Ok(r) && r@ == result
                                &&& final(self).is_running(plugin_id@)
                                &&& final(self).session(plugin_id@).subscriptions()
                                    == Set::<EventCategory>::empty()
                            },
                            HandshakeVerdict::Reject { error, failure } => {
                                &&& response.is_error(error)
                                &&& turn.result matches Err(e) && e@ == RuntimeFault::Protocol(
                                    failure,
                                )
                                &&& final(self).plugins() == old(self).plugins()
                            },
                        }
                    },
                },
            },
    {
        proof {
            use_type_invariant(&*self);
        }
        let place: usize = match self.plugins.position(plugin_id) {
            Err(_) => {
                return StartTurn {
                    response: None,
                    result: Err(RuntimeError::UnknownPlugin(plugin_id.to_owned())),
                };
            },
            Ok(place) => place,
        };
        proof {
            self.plugins.lemma_entry(place as int);
        }
        let entry: &RegisteredPlugin = self.plugins.value_at(place);
        if entry.session.is_some() {
            return StartTurn {
                response: None,
                result: Err(RuntimeError::AlreadyRunning(plugin_id.to_owned())),
            };
        }
        let request: PluginRequest = match first {
            Err(failure) => {
                return StartTurn { response: None, result: Err(failure) };
            },
            Ok(request) => request,
        };
        let mut session = SessionState::new(
            entry.manifest.id.clone(),
            entry.manifest.version.clone(),
            entry.policy.duplicate(),
        );
        let turn = session.complete_handshake(request);
        if turn.result.is_ok() {
            let mut plugins: OrderedMap<RegisteredPlugin> = OrderedMap::new();
            std::mem::swap(&mut plugins, &mut self.plugins);
            let ghost before = plugins@;
            swap_session(&mut plugins, place, Some(session));
            proof {
                assert forall|id: Seq<char>| #[trigger]
                    plugins@.dom().contains(id) implies plugins@[id].sound(id) by {
                    if id != plugin_id@ {
                        assert(before.dom().contains(id));
                    }
                }
            }
            self.plugins = plugins;
        }
        StartTurn { response: Some(turn.response), result: turn.result }
    }

    /// Serves a plugin once, given what came of waiting for a request.
    ///
    /// A plugin that is not registered, or does not run, is not served.
    /// Where nothing came of the wait but a failure, that failure comes
    /// back. A failure that ends the session (the end of the process, a
    /// break of the protocol, a failure of a pipe) leaves the plugin
    /// not running; a wait that ran out of time leaves everything as it
    /// was. Where a request came, the session handles it as
    /// `request_answered` says, and the response is to be written to
    /// the plugin.
    pub fn pump_next<H: HostBridge>(
        &mut self,
        plugin_id: &str,
        inbound: Result<PluginRequest, RuntimeError>,
        host: &mut H,
    ) -> (turn: PumpTurn)
        ensures
            final(self).same_but_session(old(self), plugin_id@),
            match old(self).running_fault(plugin_id@) {
                Some(fault) => {
                    &&& turn.response is None
                    &&& turn.result matches Err(e) && e@ == fault
                    &&& final(self).plugins() == old(self).plugins()
                    &&& *final(host) == *old(host)
                },
                None => match inbound {
                    Err(failure) => {
                        &&& turn.response is None
                        &&& turn.result == Err::<HandledRequest, RuntimeError>(failure)
                        &&& *final(host) == *old(host)
                        &&& if failure@.ends_session() {
                            !final(self).is_running(plugin_id@) && final(self).running_fault(
                                plugin_id@,
                            ) == Some(RuntimeFault::NotRunning(plugin_id@))
                        } else {
                            final(self).plugins() == old(self).plugins()
                        }
                    },
                    Ok(request) => {
                        &&& final(self).is_running(plugin_id@)
                        &&& turn.response matches Some(response) && turn.result matches Ok(
                            handled,
                        ) && request_answered(
                            &old(self).session(plugin_id@),
                            &final(self).session(plugin_id@),
                            &request,
                            &(RequestTurn { response, handled }),
                            *old(host),
                            *final(host),
                        )
                    },
                },
            },
    {
        proof {
            use_type_invariant(&*self);
        }
        let place: usize = match self.plugins.position(plugin_id) {
            Err(_) => {
                return PumpTurn {
                    response: None,
                    result: Err(RuntimeError::UnknownPlugin(plugin_id.to_owned())),
                };
            },
            Ok(place) => place,
        };
        proof {
            self.plugins.lemma_entry(place as int);
        }
        if self.plugins.value_at(place).session.is_none() {
            return PumpTurn {
                response: None,
                result: Err(RuntimeError::NotRunning(plugin_id.to_owned())),
            };
        }
        let mut plugins: OrderedMap<RegisteredPlugin> = OrderedMap::new();
        std::mem::swap(&mut plugins, &mut self.plugins);
        let ghost before = plugins@;
        let turn = match inbound {
            Err(failure) => {
                if failure.ends_session() {
                    swap_session(&mut plugins, place, None);
                }
                PumpTurn { response: None, result: Err(failure) }
            },
            Ok(request) => {
                let held = swap_session(&mut plugins, place, None);
                let mut session: SessionState = held.unwrap();
                let answered = session.handle_request(request, host);
                proof {
                    plugins.lemma_entry(place as int);
                }
                swap_session(&mut plugins, place, Some(session));
                proof {
                    assert(plugins@ =~= before.insert(
                        plugin_id@,
                        before[plugin_id@].with_session(Some(session)),
                    ));
                }
                PumpTurn { response: Some(answered.response), result: Ok(answered.handled) }
            },
        };
        proof {
            assert forall|id: Seq<char>| #[trigger]
                plugins@.dom().contains(id) implies plugins@[id].sound(id) by {
                assert(before.dom().contains(id));
            }
        }
        self.plugins = plugins;
        turn
    }

    /// Takes note of a failure of a plugin: after one that ends the
    /// session the plugin does not run; after any other everything is
    /// as before.
    pub fn session_failed(&mut self, plugin_id: &str, failure: &RuntimeError)
        ensures
            final(self).same_but_session(old(self), plugin_id@),
            if failure@.ends_session() {
                !final(self).is_running(plugin_id@)
            } else {
                final(self).plugins() == old(self).plugins()
            },
    {
        if failure.ends_session() {
            let _ = self.shutdown_plugin(plugin_id);
        }
    }

    /// What a start comes to once its response has been written, or
    /// could not be: a write that failed takes the place of the result,
    /// and a start that failed, for either reason, leaves the plugin
    /// not running.
    pub fn settle_start(
        &mut self,
        plugin_id: &str,
        result: Result<HandshakeResult, RuntimeError>,
        written: Result<(), RuntimeError>,
    ) -> (r: Result<HandshakeResult, RuntimeError>)
        ensures
            final(self).same_but_session(old(self), plugin_id@),
            r == match written {
                Err(failure) => Err::<HandshakeResult, RuntimeError>(failure),
                Ok(()) => result,
            },
            if r is Err {
                !final(self).is_running(plugin_id@)
            } else {
                final(self).plugins() == old(self).plugins()
            },
    {
        let r: Result<HandshakeResult, RuntimeError> = match written {
            Err(failure) => Err(failure),
            Ok(()) => result,
        };
        if r.is_err() {
            let _ = self.shutdown_plugin(plugin_id);
        }
        r
    }

    /// What serving a plugin comes to once its response has been
    /// written, or could not be: a write that failed takes the place of
    /// the result and is taken note of as `session_failed` says.
    pub fn settle_pump(
        &mut self,
        plugin_id: &str,
        result: Result<HandledRequest, RuntimeError>,
        written: Result<(), RuntimeError>,
    ) -> (r: Result<HandledRequest, RuntimeError>)
        ensures
            final(self).same_but_session(old(self), plugin_id@),
            r == match written {
                Err(failure) => Err::<HandledRequest, RuntimeError>(failure),
                Ok(()) => result,
            },
            if written matches Err(failure) && failure@.ends_session() {
                !final(self).is_running(plugin_id@)
            } else {
                final(self).plugins() == old(self).plugins()
            },
    {
        match written {
            Err(failure) => {
                self.session_failed(plugin_id, &failure);
                Err(failure)
            },
            Ok(()) => result,
        }
    }

    /// Ends the session of a plugin. The plugin has to be registered;
    /// it does not run afterwards.
    pub fn shutdown_plugin(&mut self, plugin_id: &str) -> (r: Result<(), RuntimeError>)
        ensures
            final(self).same_but_session(old(self), plugin_id@),
            match r {
                Ok(()) => old(self).is_registered(plugin_id@) && !final(self).is_running(
                    plugin_id@,
                ),
                Err(e) => !old(self).is_registered(plugin_id@) && e@
                    == RuntimeFault::UnknownPlugin(plugin_id@) && final(self).plugins() == old(
                    self,
                ).plugins(),
            },
    {
        proof {
            use_type_invariant(&*self);
        }
        let place: usize = match self.plugins.position(plugin_id) {
            Err(_) => {
                return Err(RuntimeError::UnknownPlugin(plugin_id.to_owned()));
            },
            Ok(place) => place,
        };
        proof {
            self.plugins.lemma_entry(place as int);
        }
        let mut plugins: OrderedMap<RegisteredPlugin> = OrderedMap::new();
        std::mem::swap(&mut plugins, &mut self.plugins);
        let ghost before = plugins@;
        swap_session(&mut plugins, place, None);
        proof {
            assert forall|id: Seq<char>| #[trigger]
                plugins@.dom().contains(id) implies plugins@[id].sound(id) by {
                assert(before.dom().contains(id));
            }
        }
        self.plugins = plugins;
        Ok(())
    }

    /// Ends every session. No plugin runs afterwards.
    pub fn shutdown_all(&mut self)
        ensures
            final(self).ids() == old(self).ids(),
            final(self).plugins().dom() == old(self).plugins().dom(),
            forall|id: Seq<char>| #[trigger]
                final(self).is_registered(id) ==> final(self).plugins()[id] == old(
                    self,
                ).plugins()[id].with_session(None),
    {
        proof {
            use_type_invariant(&*self);
        }
        let mut plugins: OrderedMap<RegisteredPlugin> = OrderedMap::new();
        std::mem::swap(&mut plugins, &mut self.plugins);
        let ghost before = plugins@;
        let n: usize = plugins.len();
        let mut i: usize = 0;
        while i < n
            invariant
                plugins.wf(),
                i <= n,
                n == plugins.keys().len(),
                plugins.keys() == old(self).plugins.keys(),
                before == old(self).plugins@,
                old(self).plugins.wf(),
                plugins@.dom() == before.dom(),
                forall|j: int|
                    0 <= j < i ==> plugins@[#[trigger] plugins.keys()[j]] == before[plugins.keys()[j]].with_session(
                    None),
                forall|j: int|
                    i <= j < n ==> plugins@[#[trigger] plugins.keys()[j]]
                        == before[plugins.keys()[j]],
            decreases n - i,
        {
            proof {
                plugins.lemma_entry(i as int);
                crate::ordered::lemma_sorted_no_duplicates(plugins.keys());
            }
            swap_session(&mut plugins, i, None);
            proof {
                assert(plugins@.dom() =~= before.dom());
            }
            i += 1;
        }
        proof {
            assert forall|id: Seq<char>| #[trigger]
                plugins@.dom().contains(id) implies plugins@[id] == before[id].with_session(
                None) && plugins@[id].sound(id) by {
                plugins.lemma_keys_are_domain();
                assert(plugins.keys().contains(id));
                let j = plugins.keys().index_of(id);
                assert(plugins@[plugins.keys()[j]] == before[plugins.keys()[j]].with_session(
                    None));
                assert(before.dom().contains(id));
            }
        }
        self.plugins = plugins;
    }
}


/// What came of writing a notification to a plugin.
#[derive(Debug, Clone, PartialEq, Eq)]
pub enum Delivery {
    /// The notification was written.
    Delivered,
    /// The write failed.
    Failed(RuntimeError),
}

impl Delivery {
    /// Whether nothing more is written in this broadcast after this
    /// delivery: so it is after a write that failed for any reason but
    /// the end of the plugin's process.
    pub fn ends_broadcast(&self) -> (ends: bool)
        ensures
            ends == aborts(*self),
    {
        match self {
            Delivery::Delivered => false,
            Delivery::Failed(failure) => !failure.is_process_exit(),
        }
    }
}

/// A failed write that ends a broadcast: any failure but the end of the
/// plugin's process.
pub open spec fn aborts(delivery: Delivery) -> bool {
    delivery matches Delivery::Failed(e) && !(e@ is ProcessExited)
}

/// A failed write that shows the plugin's process to have ended.
pub open spec fn exits(delivery: Delivery) -> bool {
    delivery matches Delivery::Failed(e) && e@ is ProcessExited
}

/// The place of the first delivery from `from` on that ends the
/// broadcast.
pub open spec fn first_abort(outcomes: Seq<Delivery>, from: int) -> Option<int>
    decreases outcomes.len() - from,
{
    if from < 0 || from >= outcomes.len() {
        None
    } else if aborts(outcomes[from]) {
        Some(from)
    } else {
        first_abort(outcomes, from + 1)
    }
}

/// The number of notifications that were written.
pub open spec fn delivered_count(outcomes: Seq<Delivery>) -> nat
    decreases outcomes.len(),
{
    if outcomes.len() == 0 {
        0
    } else {
        delivered_count(outcomes.drop_last()) + if outcomes.last() is Delivered {
            1nat
        } else {
            0nat
        }
    }
}

/// The outcomes that count: one for each plugin that was to hear of the
/// event, as far as there are outcomes.
pub open spec fn attempted(targets: Seq<Seq<char>>, outcomes: Seq<Delivery>) -> Seq<Delivery> {
    if outcomes.len() <= targets.len() {
        outcomes
    } else {
        outcomes.take(targets.len() as int)
    }
}

/// Whether the write to the plugin `id` showed its process to have
/// ended.
pub open spec fn found_exited(targets: Seq<Seq<char>>, outcomes: Seq<Delivery>, id: Seq<char>) -> bool {
    exists|k: int|
        0 <= k < targets.len() && k < outcomes.len() && #[trigger] targets[k] == id && exits(
            outcomes[k],
        )
}

impl PluginRuntime {
    /// Whether the plugin hears of events of `category`: it runs, has
    /// done its handshake and is subscribed to the category.
    pub open spec fn hears(&self, id: Seq<char>, category: EventCategory) -> bool {
        self.is_running(id) && self.session(id).takes(category)
    }

    /// The plugins that hear of events of `category`, in the ascending
    /// order of their identifiers.
    pub open spec fn targets(&self, category: EventCategory) -> Seq<Seq<char>> {
        self.ids().filter(|id: Seq<char>| self.hears(id, category))
    }

    /// The plugins that hear of events of `category`, in the order in
    /// which a broadcast writes to them.
    pub fn broadcast_targets(&self, category: EventCategory) -> (ids: Vec<String>)
        ensures
            texts(ids@) == self.targets(category),
    {
        proof {
            use_type_invariant(self);
        }
        let ghost hears = |id: Seq<char>| self.hears(id, category);
        let mut ids: Vec<String> = Vec::new();
        let n: usize = self.plugins.len();
        let mut i: usize = 0;
        while i < n
            invariant
                self.plugins.wf(),
                n == self.plugins.keys().len(),
                i <= n,
                hears == |id: Seq<char>| self.hears(id, category),
                texts(ids@) == self.plugins.keys().take(i as int).filter(hears),
            decreases n - i,
        {
            proof {
                self.plugins.lemma_entry(i as int);
                let next = self.plugins.keys().take(i as int + 1);
                assert(next.drop_last() =~= self.plugins.keys().take(i as int));
                assert(next.last() == self.plugins.keys()[i as int]);
                reveal(Seq::filter);
            }
            let taken: bool = match &self.plugins.value_at(i).session {
                Some(session) => session.accepts(category),
                None => false,
            };
            if taken {
                let key: String = self.plugins.key_at(i).clone();
                let ghost listed = texts(ids@);
                ids.push(key);
                assert(texts(ids@) =~= listed.push(key@));
            }
            i += 1;
        }
        assert(self.plugins.keys().take(n as int) =~= self.plugins.keys());
        ids
    }

    /// The notification that tells a plugin of an event, or nothing
    /// where the plugin does not hear of events of that category.
    pub fn notification(
        &self,
        plugin_id: &str,
        category: EventCategory,
        tag: Option<&str>,
        payload: String,
    ) -> (r: Option<EventNotification>)
        ensures
            r is Some == self.hears(plugin_id@, category),
            r matches Some(note) ==> {
                &&& note.jsonrpc@ == crate::protocol::JSONRPC_VERSION@
                &&& note.method@ == crate::protocol::EVENT_NOTIFICATION_METHOD@
                &&& note.category == category
                &&& note.payload == payload
                &&& match tag {
                    Some(t) => note.tag matches Some(n) && n@ == t@,
                    None => note.tag is None,
                }
            },
    {
        match self.plugin(plugin_id) {
            Some(entry) => match &entry.session {
                Some(session) => session.dispatch_event(category, tag, payload),
                None => None,
            },
            None => None,
        }
    }

    /// Settles a broadcast of an event of `category`, given what came
    /// of writing to each plugin of `broadcast_targets`, in that order.
    ///
    /// The writes are gone through in order. A write that showed the
    /// plugin's process to have ended does not count and does not end
    /// the broadcast. Any other failed write ends it: that failure
    /// comes back, nothing after it counts, and the registry is as
    /// before, the plugins included whose processes were found to have
    /// ended. Where no write ends the broadcast, the number of
    /// notifications written comes back, and the plugins whose
    /// processes were found to have ended do not run afterwards.
    pub fn broadcast_event(&mut self, category: EventCategory, outcomes: Vec<Delivery>) -> (r:
        Result<usize, RuntimeError>)
        ensures
            final(self).ids() == old(self).ids(),
            final(self).plugins().dom() == old(self).plugins().dom(),
            match first_abort(attempted(old(self).targets(category), outcomes@), 0) {
                Some(k) => {
                    &&& r matches Err(e) && outcomes@[k] == Delivery::Failed(e)
                    &&& final(self).plugins() == old(self).plugins()
                },
                None => {
                    &&& r matches Ok(n) && n == delivered_count(
                        attempted(old(self).targets(category), outcomes@),
                    )
                    &&& forall|id: Seq<char>| #[trigger]
                        final(self).is_registered(id) ==> final(self).plugins()[id] == if found_exited(
                            old(self).targets(category),
                            outcomes@,
                            id,
                        ) {
                            old(self).plugins()[id].with_session(None)
                        } else {
                            old(self).plugins()[id]
                        }
                },
            },
    {
        proof {
            use_type_invariant(&*self);
        }
        let targets: Vec<String> = self.broadcast_targets(category);
        let ghost wanted = texts(targets@);
        let ghost all = outcomes@;
        let ghost tried = attempted(wanted, all);
        let mut rest: Vec<Delivery> = outcomes;
        let total: usize = rest.len();
        let mut delivered: usize = 0;
        let mut gone: Vec<String> = Vec::new();
        let mut k: usize = 0;
        while k < targets.len() && rest.len() > 0
            invariant
                *self == *old(self),
                all == outcomes@,
                wanted == texts(targets@),
                wanted == old(self).targets(category),
                tried == attempted(wanted, all),
                all.len() == total,
                k <= targets.len(),
                k + rest@.len() == total,
                rest@ == all.skip(k as int),
                k <= tried.len(),
                first_abort(tried, 0) == first_abort(tried, k as int),
                delivered == delivered_count(tried.take(k as int)),
                delivered <= k,
                forall|id: Seq<char>|
                    texts(gone@).contains(id) <==> exists|j: int|
                        0 <= j < k && #[trigger] wanted[j] == id && exits(all[j]),
            decreases rest.len(),
        {
            let outcome: Delivery = rest.remove(0);
            proof {
                assert(outcome == all[k as int]);
                assert(tried[k as int] == all[k as int]);
                assert(rest@ =~= all.skip(k as int + 1));
                assert(tried.take(k as int + 1).drop_last() =~= tried.take(k as int));
                assert(tried.take(k as int + 1).last() == outcome);
            }
            let ghost left = texts(gone@);
            match outcome {
                Delivery::Delivered => {
                    delivered += 1;
                },
                Delivery::Failed(failure) => {
                    if failure.is_process_exit() {
                        let id: String = targets[k].clone();
                        gone.push(id);
                        proof {
                            assert(texts(gone@) =~= left.push(wanted[k as int]));
                            assert(texts(gone@)[left.len() as int] == wanted[k as int]);
                        }
                    } else {
                        return Err(failure);
                    }
                },
            }
            proof {
                let now = texts(gone@);
                assert forall|id: Seq<char>| now.contains(id) <==> exists|j: int|
                    0 <= j < k + 1 && #[trigger] wanted[j] == id && exits(all[j]) by {
                    if now.contains(id) {
                        let m = choose|m: int| 0 <= m < now.len() && now[m] == id;
                        if m < left.len() {
                            assert(left[m] == id);
                            assert(left.contains(id));
                        } else {
                            assert(wanted[k as int] == id && exits(all[k as int]));
                        }
                    }
                    if exists|j: int| 0 <= j < k + 1 && #[trigger] wanted[j] == id && exits(all[j]) {
                        let j = choose|j: int|
                            0 <= j < k + 1 && #[trigger] wanted[j] == id && exits(all[j]);
                        if j < k {
                            assert(left.contains(id));
                            let m = choose|m: int| 0 <= m < left.len() && left[m] == id;
                            assert(now[m] == id);
                        } else {
                            assert(now[now.len() - 1] == id);
                        }
                    }
                }
            }
            k += 1;
        }
        proof {
            assert(k == tried.len());
            assert(tried.take(k as int) =~= tried);
            assert forall|id: Seq<char>| texts(gone@).contains(id) == found_exited(
                wanted,
                all,
                id,
            ) by {
                if found_exited(wanted, all, id) {
                    let j = choose|j: int|
                        0 <= j < wanted.len() && j < all.len() && #[trigger] wanted[j] == id
                            && exits(all[j]);
                    assert(j < k);
                }
            }
        }
        let mut plugins: OrderedMap<RegisteredPlugin> = OrderedMap::new();
        std::mem::swap(&mut plugins, &mut self.plugins);
        let ghost before = plugins@;
        let mut g: usize = 0;
        while g < gone.len()
            invariant
                g <= gone.len(),
                plugins.wf(),
                plugins.keys() == old(self).plugins.keys(),
                before == old(self).plugins@,
                plugins@.dom() == before.dom(),
                forall|id: Seq<char>| #[trigger]
                    before.dom().contains(id) ==> before[id].sound(id),
                forall|id: Seq<char>| #[trigger]
                    plugins@.dom().contains(id) ==> plugins@[id] == if texts(gone@).take(
                        g as int,
                    ).contains(id) {
                        before[id].with_session(None)
                    } else {
                        before[id]
                    },
            decreases gone.len() - g,
        {
            let ghost done = texts(gone@).take(g as int);
            let ghost next = texts(gone@).take(g as int + 1);
            let ghost id = gone@[g as int]@;
            let ghost held = plugins@;
            proof {
                assert(next =~= done.push(id));
            }
            match plugins.position(gone[g].as_str()) {
                Ok(place) => {
                    proof {
                        plugins.lemma_entry(place as int);
                    }
                    swap_session(&mut plugins, place, None);
                    proof {
                        assert(plugins@.dom() =~= before.dom());
                    }
                },
                Err(_) => {},
            }
            proof {
                assert forall|x: Seq<char>| #[trigger]
                    plugins@.dom().contains(x) implies plugins@[x] == if next.contains(x) {
                    before[x].with_session(None)
                } else {
                    before[x]
                } by {
                    assert(held.dom().contains(x));
                    if x == id {
                        assert(next[g as int] == x);
                    } else {
                        if next.contains(x) {
                            let m = choose|m: int| 0 <= m < next.len() && next[m] == x;
                            assert(done[m] == x);
                        }
                        if done.contains(x) {
                            let m = choose|m: int| 0 <= m < done.len() && done[m] == x;
                            assert(next[m] == x);
                        }
                    }
                }
            }
            g += 1;
        }
        proof {
            assert(texts(gone@).take(gone.len() as int) =~= texts(gone@));
            assert forall|id: Seq<char>| #[trigger]
                plugins@.dom().contains(id) implies plugins@[id].sound(id) by {
                assert(before.dom().contains(id));
            }
        }
        self.plugins = plugins;
        Ok(delivered)
    }
}

/// Where no two plugins of a list have the same identifier, the list
/// cannot be registered exactly where one of its plugins does not admit
/// this host, and the fault is what is said of the first such plugin.
proof fn lemma_registration_fault(items: Seq<DiscoveredPlugin>, from: int)
    requires
        ids_of(items).no_duplicates(),
        0 <= from <= items.len(),
    ensures
        match registration_fault_from(items, from) {
            None => forall|i: int|
                from <= i < items.len() ==> incompatible_plugin(&#[trigger] items[i]) is None,
            Some(_) => exists|i: int|
                from <= i < items.len() && incompatible_plugin(&#[trigger] items[i])
                    == registration_fault_from(items, from) && forall|k: int|
                    from <= k < i ==> incompatible_plugin(&#[trigger] items[k]) is None,
        },
    decreases items.len() - from,
{
    if from < items.len() {
        let id = items[from].manifest.id@;
        let before = ids_of(items.take(from));
        if before.contains(id) {
            let j = choose|j: int| 0 <= j < before.len() && before[j] == id;
            assert(ids_of(items)[j] == ids_of(items)[from]);
        }
        assert(registration_fault_at(items, from) == incompatible_plugin(&items[from]));
        lemma_registration_fault(items, from + 1);
        if registration_fault_at(items, from) is None {
            if registration_fault_from(items, from) is Some {
                let i = choose|i: int|
                    from + 1 <= i < items.len() && incompatible_plugin(&#[trigger] items[i])
                        == registration_fault_from(items, from + 1) && forall|k: int|
                        from + 1 <= k < i ==> incompatible_plugin(&#[trigger] items[k]) is None;
                assert(incompatible_plugin(&items[i]) == registration_fault_from(items, from));
                assert forall|k: int| from <= k < i implies incompatible_plugin(
                    &#[trigger] items[k],
                ) is None by {}
            }
        } else {
            assert(incompatible_plugin(&items[from]) == registration_fault_from(items, from));
        }
    }
}

/// A list that holds every item of another list of the same length,
/// whose identifiers all differ, holds nothing else.
proof fn lemma_same_items(found: Seq<DiscoveredPlugin>, plugins: Seq<DiscoveredPlugin>)
    requires
        plugins.len() == found.len(),
        strictly_sorted(ids_of(plugins)),
        forall|i: int| 0 <= i < found.len() ==> plugins.contains(#[trigger] found[i]),
        ids_of(found).no_duplicates(),
    ensures
        forall|p: int| 0 <= p < plugins.len() ==> found.contains(#[trigger] plugins[p]),
{
    crate::ordered::lemma_sorted_no_duplicates(ids_of(plugins));
    // the places of the found items in `plugins` are all different, so they are all places
    let place = |q: int| choose|p: int| 0 <= p < plugins.len() && plugins[p] == found[q];
    let places = Seq::new(found.len(), place);
    assert forall|a: int, b: int| 0 <= a < places.len() && 0 <= b < places.len() && a
        != b implies places[a] != places[b] by {
        assert(plugins.contains(found[a]));
        assert(plugins.contains(found[b]));
        if places[a] == places[b] {
            assert(found[a] == found[b]);
            assert(ids_of(found)[a] == ids_of(found)[b]);
        }
    }
    assert(places.no_duplicates());
    assert forall|p: int| 0 <= p < plugins.len() implies found.contains(
        #[trigger] plugins[p],
    ) by {
        lemma_pigeonhole(places, plugins.len() as int, p);
        let q = choose|q: int| 0 <= q < places.len() && places[q] == p;
        assert(plugins.contains(found[q]));
        assert(found[q] == plugins[p]);
    }
}

/// As many different numbers below `n` as there are numbers below `n`
/// leave none out.
proof fn lemma_pigeonhole(places: Seq<int>, n: int, wanted: int)
    requires
        places.len() == n,
        places.no_duplicates(),
        forall|i: int| 0 <= i < places.len() ==> 0 <= #[trigger] places[i] < n,
        0 <= wanted < n,
    ensures
        places.contains(wanted),
{
    if !places.contains(wanted) {
        let all = Set::new(|x: int| 0 <= x < n);
        let used = places.to_set();
        places.unique_seq_to_set();
        vstd::set_lib::lemma_int_range(0, n);
        assert(all =~= vstd::set_lib::set_int_range(0, n));
        assert(used.subset_of(all.remove(wanted))) by {
            assert forall|x: int| used.contains(x) implies all.remove(wanted).contains(x) by {
                let i = choose|i: int| 0 <= i < places.len() && places[i] == x;
                assert(0 <= places[i] < n);
            }
        }
        vstd::set_lib::lemma_len_subset(used, all.remove(wanted));
    }
}

} // verus!
