//! Semantic versions and version requirements, as the `semver` crate
//! reads them.
//!
//! The library never looks inside a version: it asks whether a text is a
//! version or a requirement, and whether a requirement admits a version.
//! Each answer is a function of the texts alone and has a name here; what
//! the names mean is decided by `semver` and is not proved.
//!
//! A version is written as it is read: `semver` takes no number with a
//! leading zero and no white space, keeps what follows the numbers as it
//! stands, and prints all of it back unchanged. So where a version that
//! has been read is to be shown, the library shows the text it read.

use vstd::prelude::*;

verus! {

/// Whether `semver::Version::parse` accepts `text`.
pub uninterp spec fn is_version(text: Seq<char>) -> bool;

/// Whether `semver::VersionReq::parse` accepts `text`.
pub uninterp spec fn is_requirement(text: Seq<char>) -> bool;

/// Whether the requirement written as `requirement` matches the version
/// written as `version`, by `semver::VersionReq::matches`. It has a
/// meaning only where both texts parse.
pub uninterp spec fn admits(requirement: Seq<char>, version: Seq<char>) -> bool;

/// `semver::Version::parse`: tells whether `text` is a semantic version.
#[verifier::external_body]
pub(crate) fn parses_as_version(text: &str) -> (ok: bool)
    ensures
        ok == is_version(text@),
{
    semver::Version::parse(text).is_ok()
}

/// `semver::VersionReq::parse`: tells whether `text` is a version
/// requirement.
#[verifier::external_body]
pub(crate) fn parses_as_requirement(text: &str) -> (ok: bool)
    ensures
        ok == is_requirement(text@),
{
    semver::VersionReq::parse(text).is_ok()
}

/// `semver::VersionReq::matches`, on a requirement and a version that are
/// handed over as text and both parse.
#[verifier::external_body]
pub(crate) fn requirement_matches(requirement: &str, version: &str) -> (ok: bool)
    requires
        is_requirement(requirement@),
        is_version(version@),
    ensures
        ok == admits(requirement@, version@),
{
    let requirement = semver::VersionReq::parse(requirement).unwrap();
    let version = semver::Version::parse(version).unwrap();
    requirement.matches(&version)
}

} // verus!
