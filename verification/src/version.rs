//! Semantic versions, parsed and ordered by the `semver` crate.

use vstd::prelude::*;

verus! {

/// `semver::Version`: carried from the parser to the comparison, never read here.
#[verifier::external_type_specification]
#[verifier::external_body]
pub struct ExSemver(semver::Version);

/// What `semver::Version::parse` reads from a text: the version, or the parser's message.
pub uninterp spec fn semver_parsing(text: Seq<char>) -> Result<semver::Version, Seq<char>>;

/// Whether `a <= b` in the order that `semver::Version` has.
pub uninterp spec fn semver_at_most(a: semver::Version, b: semver::Version) -> bool;

/// Whether the text is a semantic version.
pub open spec fn is_semver(text: Seq<char>) -> bool {
    semver_parsing(text) is Ok
}

/// Whether both texts are semantic versions and `to` is strictly the later one.
pub open spec fn version_increases(from: Seq<char>, to: Seq<char>) -> bool {
    &&& is_semver(from)
    &&& is_semver(to)
    &&& !semver_at_most(semver_parsing(to)->Ok_0, semver_parsing(from)->Ok_0)
}

/// Parses a semantic version with `semver::Version::parse`; an error comes back as
/// its message.
#[verifier::external_body]
pub(crate) fn parse_semver(text: &str) -> (r: Result<semver::Version, String>)
    ensures
        match r {
            Ok(v) => semver_parsing(text@) == Ok::<semver::Version, Seq<char>>(v),
            Err(e) => semver_parsing(text@) == Err::<semver::Version, Seq<char>>(e@),
        },
{
    semver::Version::parse(text).map_err(|e| e.to_string())
}

/// Compares two versions with `<=` of `semver::Version`.
#[verifier::external_body]
pub(crate) fn semver_le(a: &semver::Version, b: &semver::Version) -> (r: bool)
    ensures
        r == semver_at_most(*a, *b),
{
    a <= b
}

} // verus!
