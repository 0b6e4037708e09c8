//! Contract versions and their ordering.
//!
//! A version is the numeric triple of a semantic version together with its
//! pre-release identifiers. Parsing a version string and ordering two
//! versions are delegated to the `semver` crate: the migration guard
//! compares semantic-version precedence, under which a pre-release sorts
//! below its release and build metadata plays no role.

use vstd::prelude::*;

verus! {

/// A semantic version as the migration guard reads it: the numeric triple
/// and the pre-release identifiers (empty when the version is a release).
/// Build metadata has no bearing on precedence and is not retained.
#[derive(Debug, PartialEq, Eq)]
pub struct Version {
    pub major: u64,
    pub minor: u64,
    pub patch: u64,
    pub pre: String,
}

impl Clone for Version {
    fn clone(&self) -> (r: Self)
        ensures
            r == *self,
    {
        Version {
            major: self.major,
            minor: self.minor,
            patch: self.patch,
            pre: self.pre.clone(),
        }
    }
}

/// The version that `semver::Version::parse` extracts from `s`, or `None`
/// where `s` is not a well-formed semantic version. The result depends on
/// the characters of `s` alone.
pub uninterp spec fn parsed_version(s: Seq<char>) -> Option<Version>;

/// The message that the `semver` parser renders for a malformed version
/// string `s`. The result depends on the characters of `s` alone.
pub uninterp spec fn semver_error_message(s: Seq<char>) -> Seq<char>;

/// Relies on `semver::Version::parse`: it accepts exactly the semantic-version
/// grammar and returns the parsed version; on failure the error's rendering
/// (`semver::Error`'s display) is returned. Both outcomes are functions of
/// the input characters alone.
#[verifier::external_body]
pub(crate) fn parse_version(s: &str) -> (r: Result<Version, String>)
    ensures
        r is Ok <==> parsed_version(s@) is Some,
        r matches Ok(v) ==> parsed_version(s@) == Some(v),
        r matches Err(m) ==> m@ == semver_error_message(s@),
{
    match semver::Version::parse(s) {
        Ok(v) => Ok(Version {
            major: v.major,
            minor: v.minor,
            patch: v.patch,
            pre: v.pre.as_str().to_string(),
        }),
        Err(e) => Err(e.to_string()),
    }
}

/// `a` precedes `b` in semantic-version precedence, as
/// `semver::Version::cmp_precedence` orders them.
pub uninterp spec fn semver_precedes(a: Version, b: Version) -> bool;

/// `a` precedes `b` in the lexicographic order on the numeric triple alone:
/// what semantic-version precedence reduces to when neither side carries a
/// pre-release tag.
pub open spec fn version_lt(a: Version, b: Version) -> bool {
    ||| a.major < b.major
    ||| (a.major == b.major && a.minor < b.minor)
    ||| (a.major == b.major && a.minor == b.minor && a.patch < b.patch)
}

/// Relies on `semver::Version::cmp_precedence`: semantic-version precedence
/// over the triple and the pre-release identifiers. Equal versions never
/// precede one another, and between two releases (no pre-release tag)
/// precedence is exactly the triple's lexicographic order.
#[verifier::external_body]
pub(crate) fn precedes(a: &Version, b: &Version) -> (r: bool)
    ensures
        r == semver_precedes(*a, *b),
        *a == *b ==> r == false,
        a.pre@.len() == 0 && b.pre@.len() == 0 ==> r == version_lt(*a, *b),
{
    let pre_a = semver::Prerelease::new(&a.pre).unwrap_or_default();
    let pre_b = semver::Prerelease::new(&b.pre).unwrap_or_default();
    let build = semver::BuildMetadata::EMPTY;
    let sem_a = semver::Version { major: a.major, minor: a.minor, patch: a.patch, pre: pre_a, build: build.clone() };
    let sem_b = semver::Version { major: b.major, minor: b.minor, patch: b.patch, pre: pre_b, build };
    sem_a.cmp_precedence(&sem_b) == std::cmp::Ordering::Less
}

} // verus!
