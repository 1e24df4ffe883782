//! Plugins as they are found on disk: which file is a manifest, and
//! what a set of manifests has to meet to be a set of plugins.

use vstd::prelude::*;
use crate::failure::{RuntimeError, RuntimeFault};
use crate::manifest::PluginManifest;
use crate::ordered::{strictly_sorted, OrderedMap};
use crate::text::{concat2, debug_text, quoted, same_text};

verus! {

/// The file name of a manifest.
pub const MANIFEST_FILE_NAME: &'static str = "plugin.toml";

/// Whether a file of this name is a manifest.
pub fn is_manifest_file(name: &str) -> (is: bool)
    ensures
        is == (name@ == MANIFEST_FILE_NAME@),
{
    same_text(name, MANIFEST_FILE_NAME)
}

/// A manifest and the path it was loaded from.
#[derive(Debug, Clone, PartialEq, Eq)]
pub struct DiscoveredPlugin {
    pub manifest_path: String,
    pub manifest: PluginManifest,
}

/// Why a set of manifests is no set of plugins, over plain values.
pub enum DiscoveryFault {
    DuplicatePluginId { id: Seq<char>, first: Seq<char>, second: Seq<char> },
    LoadFailed { path: Seq<char>, why: Seq<char> },
}

/// Why a set of manifests is no set of plugins.
#[derive(Debug, Clone, PartialEq, Eq)]
pub enum DiscoveryError {
    /// Two manifests give the same identifier; `first` and `second` are
    /// their paths, in the order in which they were found.
    DuplicatePluginId { id: String, first: String, second: String },
    /// The manifest at `path` could not be loaded; `why` says what was
    /// wrong with it.
    LoadFailed { path: String, why: String },
}

impl View for DiscoveryError {
    type V = DiscoveryFault;

    open spec fn view(&self) -> DiscoveryFault {
        match self {
            DiscoveryError::DuplicatePluginId { id, first, second } =>
                DiscoveryFault::DuplicatePluginId { id: id@, first: first@, second: second@ },
            DiscoveryError::LoadFailed { path, why } => DiscoveryFault::LoadFailed {
                path: path@,
                why: why@,
            },
        }
    }
}

impl DiscoveryFault {
    /// The fault in words. Of two manifests with one identifier it
    /// names both paths; of a manifest that could not be loaded it
    /// names the path.
    pub open spec fn message(self) -> Seq<char> {
        match self {
            DiscoveryFault::DuplicatePluginId { id, first, second } => "duplicate plugin id "@
                + debug_text(id) + " in manifests "@ + first + " and "@ + second,
            DiscoveryFault::LoadFailed { path, why } => "failed to load plugin manifest "@ + path,
        }
    }
}

/// The failure of a runtime that could not be built for the reason
/// `why`.
pub open spec fn discovery_failure(why: Seq<char>) -> RuntimeFault {
    RuntimeFault::Discovery("plugin discovery failed: "@ + why)
}

/// The failure of a runtime that could not be built for the reason
/// `why`.
pub fn discovery_failed(why: &str) -> (error: RuntimeError)
    ensures
        error@ == discovery_failure(why@),
{
    RuntimeError::Discovery(concat2("plugin discovery failed: ", why))
}

impl DiscoveryError {
    /// The error in words.
    pub fn message(&self) -> (text: String)
        ensures
            text@ == self@.message(),
    {
        match self {
            DiscoveryError::DuplicatePluginId { id, first, second } => {
                let q = quoted(id.as_str());
                let mut text = concat2("duplicate plugin id ", q.as_str());
                text.append(" in manifests ");
                text.append(first.as_str());
                text.append(" and ");
                text.append(second.as_str());
                text
            },
            DiscoveryError::LoadFailed { path, why } => concat2(
                "failed to load plugin manifest ",
                path.as_str(),
            ),
        }
    }

    /// The error as the failure of building a runtime.
    pub fn to_error(&self) -> (error: RuntimeError)
        ensures
            error@ == discovery_failure(self@.message()),
    {
        let why = self.message();
        discovery_failed(why.as_str())
    }
}

/// The identifiers of a list of plugins.
pub open spec fn ids_of(plugins: Seq<DiscoveredPlugin>) -> Seq<Seq<char>> {
    Seq::new(plugins.len(), |i: int| plugins[i].manifest.id@)
}

/// The manifests at `first` and `second` are the first two, in the
/// order of the list, that give the same identifier.
pub open spec fn first_repetition(plugins: Seq<DiscoveredPlugin>, first: int, second: int) -> bool {
    &&& 0 <= first < second < plugins.len()
    &&& plugins[first].manifest.id@ == plugins[second].manifest.id@
    &&& ids_of(plugins.take(second)).no_duplicates()
}

/// Makes a set of plugins of the manifests that were found, which come
/// in the order of their paths. No two may give the same identifier;
/// where two do, the error names the identifier and both paths. The
/// plugins come back in the ascending order of their identifiers.
pub fn discover_plugins(found: Vec<DiscoveredPlugin>) -> (r: Result<
    Vec<DiscoveredPlugin>,
    DiscoveryError,
>)
    ensures
        r is Ok <==> ids_of(found@).no_duplicates(),
        match r {
            Ok(plugins) => {
                &&& strictly_sorted(ids_of(plugins@))
                &&& plugins@.len() == found@.len()
                &&& forall|i: int| 0 <= i < found@.len() ==> plugins@.contains(#[trigger] found@[i])
            },
            Err(e) => exists|first: int, second: int|
                #![trigger first_repetition(found@, first, second)]
                first_repetition(found@, first, second) && e@
                    == (DiscoveryFault::DuplicatePluginId {
                    id: found@[second].manifest.id@,
                    first: found@[first].manifest_path@,
                    second: found@[second].manifest_path@,
                }),
        },
{
    let ghost all = found@;
    let mut rest: Vec<DiscoveredPlugin> = found;
    let total: usize = rest.len();
    let mut seen: OrderedMap<DiscoveredPlugin> = OrderedMap::new();
    let mut i: usize = 0;
    while rest.len() > 0
        invariant
            all == found@,
            all.len() == total,
            seen.wf(),
            0 <= i <= all.len(),
            i + rest@.len() == all.len(),
            rest@ == all.skip(i as int),
            seen.keys().len() == i,
            ids_of(all.take(i as int)).no_duplicates(),
            forall|q: int|
                0 <= q < i ==> seen@.dom().contains(#[trigger] all[q].manifest.id@) && seen@[all[q].manifest.id@]
                    == all[q],
            forall|k: Seq<char>| #[trigger]
                seen@.dom().contains(k) ==> exists|q: int|
                    0 <= q < i && #[trigger] all[q].manifest.id@ == k,
        decreases rest.len(),
    {
        let item: DiscoveredPlugin = rest.remove(0);
        proof {
            assert(item == all[i as int]);
            assert(rest@ =~= all.skip(i as int + 1));
        }
        let ghost id = item.manifest.id@;
        let ghost prefix = ids_of(all.take(i as int));
        let ghost next = ids_of(all.take(i as int + 1));
        match seen.get(item.manifest.id.as_str()) {
            Some(earlier) => {
                let error = DiscoveryError::DuplicatePluginId {
                    id: item.manifest.id.clone(),
                    first: earlier.manifest_path.clone(),
                    second: item.manifest_path,
                };
                proof {
                    let q = choose|q: int| 0 <= q < i && #[trigger] all[q].manifest.id@ == id;
                    assert(seen@[all[q].manifest.id@] == all[q]);
                    assert(first_repetition(all, q, i as int));
                    assert(ids_of(all)[q] == ids_of(all)[i as int]);
                }
                return Err(error);
            },
            None => {},
        }
        proof {
            assert forall|a: int, b: int| 0 <= a < b < next.len() implies next[a] != next[b] by {
                if b < i {
                    assert(prefix[a] != prefix[b]);
                } else {
                    assert(seen@.dom().contains(all[a].manifest.id@));
                }
            }
        }
        let key: String = item.manifest.id.clone();
        seen.insert(key, item);
        i += 1;
    }
    proof {
        assert(all.take(all.len() as int) =~= all);
    }
    let ghost keys = seen.keys();
    let ghost held = seen.values();
    let plugins = seen.into_values();
    proof {
        assert forall|p: int| 0 <= p < plugins@.len() implies ids_of(plugins@)[p] == keys[p] by {
            seen.lemma_entry(p);
            let q = choose|q: int| 0 <= q < i && #[trigger] all[q].manifest.id@ == keys[p];
            assert(seen@[all[q].manifest.id@] == all[q]);
        }
        assert(ids_of(plugins@) =~= keys);
        assert forall|q: int| 0 <= q < all.len() implies plugins@.contains(
            #[trigger] all[q],
        ) by {
            let k = all[q].manifest.id@;
            assert(seen@.dom().contains(k));
            let p = keys.index_of(k);
            assert(keys.contains(k));
            seen.lemma_entry(p);
            assert(plugins@[p] == all[q]);
        }
    }
    Ok(plugins)
}

/// What came of loading the manifest at a path: the manifest, or what
/// was wrong with it.
#[derive(Debug, PartialEq, Eq)]
pub struct LoadedManifest {
    pub manifest_path: String,
    pub manifest: Result<PluginManifest, String>,
}

/// The place of the first manifest from `from` on that could not be
/// loaded, or the length of the list where every one could.
pub open spec fn first_unloaded(loaded: Seq<LoadedManifest>, from: int) -> int
    decreases loaded.len() - from,
{
    if from < 0 || from >= loaded.len() {
        loaded.len() as int
    } else if loaded[from].manifest is Err {
        from
    } else {
        first_unloaded(loaded, from + 1)
    }
}

/// The first `upto` manifests as plugins; all of them have to be
/// loaded.
pub open spec fn loaded_plugins(loaded: Seq<LoadedManifest>, upto: int) -> Seq<DiscoveredPlugin> {
    Seq::new(
        upto as nat,
        |i: int|
            (DiscoveredPlugin {
                manifest_path: loaded[i].manifest_path,
                manifest: loaded[i].manifest->Ok_0,
            }),
    )
}

/// The manifests that were loaded before the first that could not be.
pub open spec fn loaded_before_failure(loaded: Seq<LoadedManifest>) -> Seq<DiscoveredPlugin> {
    loaded_plugins(loaded, first_unloaded(loaded, 0))
}

/// The first manifest that could not be loaded, as the fault it is.
pub open spec fn load_fault(loaded: Seq<LoadedManifest>) -> Option<DiscoveryFault> {
    let at = first_unloaded(loaded, 0);
    if at < loaded.len() {
        Some(
            DiscoveryFault::LoadFailed {
                path: loaded[at].manifest_path@,
                why: loaded[at].manifest->Err_0@,
            },
        )
    } else {
        None
    }
}

proof fn lemma_first_unloaded_bounds(loaded: Seq<LoadedManifest>, from: int)
    requires
        0 <= from <= loaded.len(),
    ensures
        from <= first_unloaded(loaded, from) <= loaded.len(),
    decreases loaded.len() - from,
{
    if from < loaded.len() && loaded[from].manifest is Ok {
        lemma_first_unloaded_bounds(loaded, from + 1);
    }
}

/// Parts the load outcomes, which come in the order of their paths, at
/// the first manifest that could not be loaded: the manifests before
/// it, and the failure, if there is one. What follows the failure is
/// not looked at.
pub fn loaded_until_failure(loaded: Vec<LoadedManifest>) -> (r: (
    Vec<DiscoveredPlugin>,
    Option<DiscoveryError>,
))
    ensures
        r.0@ == loaded_before_failure(loaded@),
        match r.1 {
            Some(e) => load_fault(loaded@) == Some(e@),
            None => load_fault(loaded@) is None,
        },
{
    let ghost all = loaded@;
    let mut rest: Vec<LoadedManifest> = loaded;
    let total: usize = rest.len();
    let mut found: Vec<DiscoveredPlugin> = Vec::new();
    let mut i: usize = 0;
    proof {
        assert(found@ =~= loaded_plugins(all, 0));
    }
    while rest.len() > 0
        invariant
            all == loaded@,
            all.len() == total,
            0 <= i <= all.len(),
            i + rest@.len() == all.len(),
            rest@ == all.skip(i as int),
            first_unloaded(all, 0) == first_unloaded(all, i as int),
            found@ == loaded_plugins(all, i as int),
        decreases rest.len(),
    {
        let item: LoadedManifest = rest.remove(0);
        proof {
            assert(item == all[i as int]);
            assert(rest@ =~= all.skip(i as int + 1));
        }
        match item.manifest {
            Ok(manifest) => {
                found.push(DiscoveredPlugin { manifest_path: item.manifest_path, manifest });
                proof {
                    assert(found@ =~= loaded_plugins(all, i as int + 1));
                }
            },
            Err(why) => {
                return (found, Some(DiscoveryError::LoadFailed { path: item.manifest_path, why }));
            },
        }
        i += 1;
    }
    (found, None)
}

/// Makes a set of plugins of the load outcomes, which come in the
/// order of their paths. The outcomes are gone through in that order,
/// and the first thing that is wrong decides: a manifest that gives an
/// identifier a second time, or a manifest that could not be loaded.
pub fn discover_loaded(loaded: Vec<LoadedManifest>) -> (r: Result<
    Vec<DiscoveredPlugin>,
    DiscoveryError,
>)
    ensures
        match r {
            Ok(plugins) => {
                &&& ids_of(loaded_before_failure(loaded@)).no_duplicates()
                &&& load_fault(loaded@) is None
                &&& strictly_sorted(ids_of(plugins@))
                &&& plugins@.len() == loaded@.len()
                &&& forall|i: int|
                    0 <= i < loaded@.len() ==> plugins@.contains(
                        #[trigger] loaded_before_failure(loaded@)[i],
                    )
            },
            Err(e) => if ids_of(loaded_before_failure(loaded@)).no_duplicates() {
                load_fault(loaded@) == Some(e@)
            } else {
                exists|first: int, second: int|
                    #![trigger first_repetition(loaded_before_failure(loaded@), first, second)]
                    first_repetition(loaded_before_failure(loaded@), first, second) && e@
                        == (DiscoveryFault::DuplicatePluginId {
                        id: loaded_before_failure(loaded@)[second].manifest.id@,
                        first: loaded_before_failure(loaded@)[first].manifest_path@,
                        second: loaded_before_failure(loaded@)[second].manifest_path@,
                    })
            },
        },
{
    proof {
        lemma_first_unloaded_bounds(loaded@, 0);
    }
    let (found, failure) = loaded_until_failure(loaded);
    let plugins = discover_plugins(found)?;
    match failure {
        Some(e) => Err(e),
        None => Ok(plugins),
    }
}

} // verus!
