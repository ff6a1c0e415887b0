//! The grammar of versions and of requirements, and the rules by which a
//! requirement admits a version: those of the crate `semver`. This module
//! calls it and does not look into what it computes.

use vstd::prelude::*;

verus! {

#[verifier::external_type_specification]
#[verifier::external_body]
pub struct ExSemverVersion(semver::Version);

#[verifier::external_type_specification]
#[verifier::external_body]
pub struct ExSemverVersionReq(semver::VersionReq);

#[verifier::external_type_specification]
#[verifier::external_body]
pub struct ExSemverError(semver::Error);

/// What `semver::Version::parse` makes of a text.
pub uninterp spec fn parsed_version(text: Seq<char>) -> Result<semver::Version, semver::Error>;

/// What `semver::VersionReq::parse` makes of a text.
pub uninterp spec fn parsed_requirement(text: Seq<char>) -> Result<
    semver::VersionReq,
    semver::Error,
>;

/// Whether the requirement admits the version, as `semver::VersionReq::matches`
/// tells it.
pub uninterp spec fn requirement_admits(req: semver::VersionReq, version: semver::Version) -> bool;

/// `semver::Version::parse`: the version that the text writes, or the
/// error where the text is no version.
#[verifier::external_body]
pub(crate) fn parse_version(text: &str) -> (r: Result<semver::Version, semver::Error>)
    ensures
        r == parsed_version(text@),
{
    semver::Version::parse(text)
}

/// `semver::VersionReq::parse`: the requirement that the text writes, or
/// the error where the text is no requirement.
#[verifier::external_body]
pub(crate) fn parse_requirement(text: &str) -> (r: Result<semver::VersionReq, semver::Error>)
    ensures
        r == parsed_requirement(text@),
{
    semver::VersionReq::parse(text)
}

/// `semver::VersionReq::matches`: whether the version satisfies the
/// requirement.
#[verifier::external_body]
pub(crate) fn requirement_matches(req: &semver::VersionReq, version: &semver::Version) -> (r: bool)
    ensures
        r == requirement_admits(*req, *version),
{
    req.matches(version)
}

} // verus!
