//! The negotiation that opens a session: which API version is spoken,
//! and which of the host's capabilities the plugin hears of.

use vstd::prelude::*;
use crate::manifest::listed;
use crate::ordered::{ascending, sorted_distinct};
use crate::protocol::contract::openrpc_method_names;
use crate::protocol::{
    all_categories, category_name, required_method_names, EventCategory, HandshakeError,
    HandshakeFault, HandshakeParams, HandshakeResult, HandshakeResultModel, HostCapabilities,
    HostCapabilitiesModel, HOST_API_VERSION,
};
use crate::text::texts;
use crate::version::{
    admits, is_requirement, is_version, parses_as_requirement, parses_as_version,
    requirement_matches,
};

verus! {

/// Everything the host is capable of: the six methods and the five
/// event categories.
pub open spec fn full_capabilities() -> HostCapabilitiesModel {
    HostCapabilitiesModel { methods: required_method_names(), event_categories: all_categories() }
}

/// Everything the host is capable of.
pub fn host_capabilities() -> (capabilities: HostCapabilities)
    ensures
        capabilities@ == full_capabilities(),
{
    HostCapabilities { methods: openrpc_method_names(), event_categories: EventCategory::all() }
}

/// The outcome of holding a plugin's requirement against the host's
/// version: the host's version where the requirement admits it, and
/// else the reason.
pub open spec fn negotiated(supported: Seq<char>) -> Result<Seq<char>, HandshakeFault> {
    if !is_requirement(supported) {
        Err(HandshakeFault::InvalidVersionRequirement(supported))
    } else if !is_version(HOST_API_VERSION@) {
        Err(HandshakeFault::HostApiVersionInvalid(HOST_API_VERSION@))
    } else if admits(supported, HOST_API_VERSION@) {
        Ok(HOST_API_VERSION@)
    } else {
        Err(
            HandshakeFault::UnsupportedApiVersion { host: HOST_API_VERSION@, supported },
        )
    }
}

/// Selects the API version for a plugin that works with the versions
/// `supported_api_versions` admits.
pub fn negotiate_api_version(supported_api_versions: &str) -> (r: Result<String, HandshakeError>)
    ensures
        match r {
            Ok(selected) => negotiated(supported_api_versions@) == Ok::<
                Seq<char>,
                HandshakeFault,
            >(selected@),
            Err(e) => negotiated(supported_api_versions@) == Err::<Seq<char>, HandshakeFault>(e@),
        },
{
    if !parses_as_requirement(supported_api_versions) {
        return Err(HandshakeError::InvalidVersionRequirement(supported_api_versions.to_owned()));
    }
    if !parses_as_version(HOST_API_VERSION) {
        return Err(HandshakeError::HostApiVersionInvalid(HOST_API_VERSION.to_owned()));
    }
    let host: String = HOST_API_VERSION.to_owned();
    if requirement_matches(supported_api_versions, HOST_API_VERSION) {
        Ok(host)
    } else {
        Err(
            HandshakeError::UnsupportedApiVersion {
                host,
                supported: supported_api_versions.to_owned(),
            },
        )
    }
}

/// The part of `all` that `requested` names. With nothing requested it
/// is all of it; with something requested and nothing of it on offer,
/// the request is refused, and the refusal lists what was asked for in
/// ascending order, each name once.
pub open spec fn filtered(all: HostCapabilitiesModel, requested: Seq<Seq<char>>) -> Result<
    HostCapabilitiesModel,
    HandshakeFault,
> {
    if requested.len() == 0 {
        Ok(all)
    } else {
        let methods = all.methods.filter(|m: Seq<char>| requested.contains(m));
        let event_categories = all.event_categories.filter(
            |c: EventCategory| requested.contains(category_name(c)),
        );
        if methods.len() == 0 && event_categories.len() == 0 {
            Err(HandshakeFault::UnsupportedRequestedCapabilities(ascending(requested.to_set())))
        } else {
            Ok(HostCapabilitiesModel { methods, event_categories })
        }
    }
}

/// Narrows the host's capabilities to those a plugin asked for.
pub fn filter_host_capabilities(all: HostCapabilities, requested: &Vec<String>) -> (r: Result<
    HostCapabilities,
    HandshakeError,
>)
    ensures
        match r {
            Ok(kept) => filtered(all@, texts(requested@)) == Ok::<
                HostCapabilitiesModel,
                HandshakeFault,
            >(kept@),
            Err(e) => filtered(all@, texts(requested@)) == Err::<
                HostCapabilitiesModel,
                HandshakeFault,
            >(e@),
        },
{
    if requested.len() == 0 {
        return Ok(all);
    }
    let ghost wanted = texts(requested@);
    let ghost by_name = |m: Seq<char>| wanted.contains(m);
    let ghost by_category = |c: EventCategory| wanted.contains(category_name(c));

    let mut methods: Vec<String> = Vec::new();
    let mut i: usize = 0;
    while i < all.methods.len()
        invariant
            i <= all.methods.len(),
            wanted == texts(requested@),
            by_name == |m: Seq<char>| wanted.contains(m),
            texts(methods@) == texts(all.methods@).take(i as int).filter(by_name),
        decreases all.methods.len() - i,
    {
        let method: &String = &all.methods[i];
        proof {
            let next = texts(all.methods@).take(i as int + 1);
            assert(next.drop_last() =~= texts(all.methods@).take(i as int));
            assert(next.last() == method@);
            reveal(Seq::filter);
        }
        if listed(requested, method.as_str()) {
            methods.push(method.clone());
            assert(texts(methods@) =~= texts(all.methods@).take(i as int).filter(by_name).push(
                method@,
            ));
        }
        i += 1;
    }
    assert(texts(all.methods@).take(all.methods.len() as int) =~= texts(all.methods@));

    let mut event_categories: Vec<EventCategory> = Vec::new();
    let mut j: usize = 0;
    while j < all.event_categories.len()
        invariant
            j <= all.event_categories.len(),
            wanted == texts(requested@),
            by_category == |c: EventCategory| wanted.contains(category_name(c)),
            event_categories@ == all.event_categories@.take(j as int).filter(by_category),
        decreases all.event_categories.len() - j,
    {
        let category: EventCategory = all.event_categories[j];
        proof {
            let next = all.event_categories@.take(j as int + 1);
            assert(next.drop_last() =~= all.event_categories@.take(j as int));
            assert(next.last() == category);
            reveal(Seq::filter);
        }
        if listed(requested, category.as_str()) {
            event_categories.push(category);
        }
        j += 1;
    }
    assert(all.event_categories@.take(all.event_categories.len() as int)
        =~= all.event_categories@);

    if methods.len() == 0 && event_categories.len() == 0 {
        return Err(HandshakeError::UnsupportedRequestedCapabilities(sorted_distinct(requested)));
    }
    Ok(HostCapabilities { methods, event_categories })
}

/// The outcome of a handshake: the negotiation first, then the
/// capabilities the plugin asked for.
pub open spec fn handshake_outcome(supported: Seq<char>, requested: Seq<Seq<char>>) -> Result<
    HandshakeResultModel,
    HandshakeFault,
> {
    match negotiated(supported) {
        Err(fault) => Err(fault),
        Ok(selected) => match filtered(full_capabilities(), requested) {
            Err(fault) => Err(fault),
            Ok(capabilities) => Ok(
                HandshakeResultModel {
                    selected_api_version: selected,
                    host_capabilities: capabilities,
                },
            ),
        },
    }
}

/// Answers a handshake: selects the API version and lists the
/// capabilities the plugin asked for.
pub fn build_handshake_result(params: &HandshakeParams) -> (r: Result<
    HandshakeResult,
    HandshakeError,
>)
    ensures
        match r {
            Ok(result) => handshake_outcome(
                params.supported_api_versions@,
                texts(params.requested_capabilities@),
            ) == Ok::<HandshakeResultModel, HandshakeFault>(result@),
            Err(e) => handshake_outcome(
                params.supported_api_versions@,
                texts(params.requested_capabilities@),
            ) == Err::<HandshakeResultModel, HandshakeFault>(e@),
        },
{
    let selected = negotiate_api_version(params.supported_api_versions.as_str())?;
    let capabilities = filter_host_capabilities(
        host_capabilities(),
        &params.requested_capabilities,
    )?;
    Ok(HandshakeResult { selected_api_version: selected, host_capabilities: capabilities })
}

} // verus!
