use crate::text::{chars_of, string_of, strip_v, strip_v_chars};
use vstd::prelude::*;

verus! {

/// What semver's `Version::parse` makes of a text: `None` where it refuses the
/// text, else the major, minor and patch numbers and whether the prerelease and
/// the build metadata are empty.
pub uninterp spec fn semver_parse_of(s: Seq<char>) -> Option<(u64, u64, u64, bool, bool)>;

/// Relies on semver::Version::parse: the result depends on the text alone.
#[verifier::external_body]
fn semver_parse(s: &str) -> (r: Option<(u64, u64, u64, bool, bool)>)
    ensures
        r == semver_parse_of(s@),
{
    match semver::Version::parse(s) {
        Ok(v) => Some((v.major, v.minor, v.patch, v.pre.is_empty(), v.build.is_empty())),
        Err(_) => None,
    }
}

/// A parsed semantic version.
#[derive(Debug, Clone, Copy, PartialEq, Eq, Structural)]
pub struct Version {
    pub major: u64,
    pub minor: u64,
    pub patch: u64,
    pub stable: bool,
}

/// The error of a version that cannot be accepted.
#[derive(Debug, Clone, Copy, PartialEq, Eq, Structural)]
pub enum VersionError {
    InvalidVersion,
}

/// The version that a text denotes once one leading `v` is stripped.
pub open spec fn version_of(s: Seq<char>) -> Option<Version> {
    match semver_parse_of(strip_v(s)) {
        Some(t) => Some(Version { major: t.0, minor: t.1, patch: t.2, stable: t.3 && t.4 }),
        None => None,
    }
}

/// Parses a version, with an optional leading `v`.
pub fn parse_version(s: &str) -> (r: Result<Version, VersionError>)
    ensures
        version_of(s@) is None <==> r is Err,
        version_of(s@) matches Some(v) ==> r == Ok::<Version, VersionError>(v),
{
    let c = chars_of(s);
    let stripped = strip_v_chars(&c);
    let t = string_of(&stripped);
    match semver_parse(t.as_str()) {
        Some((major, minor, patch, pre_empty, build_empty)) => Ok(
            Version { major, minor, patch, stable: pre_empty && build_empty },
        ),
        None => Err(VersionError::InvalidVersion),
    }
}

/// Fails when the version carries a prerelease or build metadata.
pub fn require_stable(v: &Version) -> (r: Result<(), VersionError>)
    ensures
        r is Ok <==> v.stable,
{
    if v.stable {
        Ok(())
    } else {
        Err(VersionError::InvalidVersion)
    }
}

/// Accepts a bare `X.Y.Z` release version, with an optional leading `v`.
pub fn check_version(s: &str) -> (r: Result<Version, VersionError>)
    ensures
        r is Ok <==> (version_of(s@) matches Some(v) && v.stable),
        r matches Ok(v) ==> version_of(s@) == Some(v),
{
    let v = parse_version(s)?;
    require_stable(&v)?;
    Ok(v)
}

/// A text and the same text behind one leading `v` denote the same version.
pub proof fn lemma_leading_v(s: Seq<char>)
    requires
        s.len() == 0 || s[0] != 'v',
    ensures
        version_of(seq!['v'] + s) == version_of(s),
{
    assert((seq!['v'] + s).subrange(1, s.len() + 1int) =~= s);
}

/// A version that is not stable is refused by every stable-only check.
pub proof fn lemma_unstable_rejected(s: Seq<char>)
    requires
        version_of(s) matches Some(v) && !v.stable,
    ensures
        !(version_of(s) matches Some(v) && v.stable),
{
}

} // verus!
