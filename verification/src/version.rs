//! Version determination primitives.
//!
//! The release workflow treats version computation as an external
//! collaborator; this module holds the value types the rest of the crate
//! speaks in, the bump arithmetic, and a validated entry point for
//! user-supplied version strings.

use vstd::prelude::*;
use vstd::string::*;

use crate::git::GitError;
use crate::text::{strip_prefix_spec, strip_prefix_str};

verus! {

/// Errors from version operations.
#[derive(Debug, Clone)]
pub enum VersionError {
    /// Failed to parse a semver string; holds the parser's message.
    InvalidSemver(String),
    /// The conventional-commit tool failed.
    ToolFailed {
        /// Tool name (e.g., `"git-cliff"`).
        tool: String,
        /// Error details.
        message: String,
    },
    /// No version tag found in the repository.
    NoTags,
    /// A git operation failed.
    Git(GitError),
}

/// What `semver::Version::parse` makes of the string: nothing when it
/// rejects it, the numeric `[major, minor, patch]` triple when it accepts
/// it. The result depends on the string alone.
pub uninterp spec fn semver_parse_spec(s: Seq<char>) -> Option<Seq<int>>;

/// A plain semantic-version triple.
///
/// The workflow only ever needs the numeric components; pre-release and
/// build metadata stay inside the strings the external tools exchange.
#[derive(Debug, Clone, Copy, PartialEq, Eq, PartialOrd, Ord, Structural)]
pub struct Version {
    /// Major component.
    pub major: u64,
    /// Minor component.
    pub minor: u64,
    /// Patch component.
    pub patch: u64,
}

impl Version {
    /// Build a version triple.
    pub fn new(major: u64, minor: u64, patch: u64) -> (v: Version)
        ensures
            v == (Version { major, minor, patch }),
    {
        Version { major, minor, patch }
    }
}

/// Semver bump level.
#[derive(Debug, Clone, Copy, PartialEq, Eq, Structural)]
pub enum BumpLevel {
    /// Patch release (x.y.Z).
    Patch,
    /// Minor release (x.Y.0).
    Minor,
    /// Major release (X.0.0).
    Major,
}

impl BumpLevel {
    /// The lowercase name of the level.
    pub open spec fn str_spec(self) -> Seq<char> {
        match self {
            BumpLevel::Patch => "patch"@,
            BumpLevel::Minor => "minor"@,
            BumpLevel::Major => "major"@,
        }
    }

    /// Lowercase name, as shown to the user.
    pub fn as_str(self) -> (r: &'static str)
        ensures
            r@ == self.str_spec(),
    {
        match self {
            BumpLevel::Patch => "patch",
            BumpLevel::Minor => "minor",
            BumpLevel::Major => "major",
        }
    }
}

/// What `next_version` must return: bump one component, reset the lower ones.
pub open spec fn next_version_spec(current: Version, level: BumpLevel) -> Version {
    match level {
        BumpLevel::Patch => Version {
            major: current.major,
            minor: current.minor,
            patch: (current.patch + 1) as u64,
        },
        BumpLevel::Minor => Version { major: current.major, minor: (current.minor + 1) as u64, patch: 0 },
        BumpLevel::Major => Version { major: (current.major + 1) as u64, minor: 0, patch: 0 },
    }
}

/// Compute the next version by applying a bump level.
pub fn next_version(current: &Version, level: BumpLevel) -> (v: Version)
    requires
        current.major < u64::MAX,
        current.minor < u64::MAX,
        current.patch < u64::MAX,
    ensures
        v == next_version_spec(*current, level),
{
    match level {
        BumpLevel::Patch => Version { major: current.major, minor: current.minor, patch: current.patch + 1 },
        BumpLevel::Minor => Version { major: current.major, minor: current.minor + 1, patch: 0 },
        BumpLevel::Major => Version { major: current.major + 1, minor: 0, patch: 0 },
    }
}

/// The `major.minor.patch` rendering of a version triple.
pub open spec fn version_str_spec(v: Version) -> Seq<char> {
    crate::clock::dec_str_spec(v.major as int) + seq!['.'] + crate::clock::dec_str_spec(
        v.minor as int,
    ) + seq!['.'] + crate::clock::dec_str_spec(v.patch as int)
}

/// Render a version triple as `major.minor.patch`.
pub fn version_string(v: &Version) -> (r: String)
    ensures
        r@ == version_str_spec(*v),
{
    let a = crate::clock::u64_to_string(v.major);
    let b = crate::text::str_concat(a.as_str(), ".");
    let c = crate::text::str_concat(b.as_str(), crate::clock::u64_to_string(v.minor).as_str());
    let d = crate::text::str_concat(c.as_str(), ".");
    let r = crate::text::str_concat(d.as_str(), crate::clock::u64_to_string(v.patch).as_str());
    proof {
        reveal_strlit(".");
        assert(r@ =~= version_str_spec(*v));
    }
    r
}

/// Relies on `semver::Version::parse`: which strings are semantic versions
/// and the numeric triple of an accepted one. Pre-release and build
/// metadata are dropped; a rejection keeps the parser's message.
#[verifier::external_body]
fn parse_semver(s: &str) -> (r: Result<Version, String>)
    ensures
        (r is Ok) == (semver_parse_spec(s@) is Some),
        r matches Ok(v) ==> {
            semver_parse_spec(s@) matches Some(t) && t.len() == 3 && v.major as int == t[0]
                && v.minor as int == t[1] && v.patch as int == t[2]
        },
{
    match semver::Version::parse(s) {
        Ok(v) => Ok(Version { major: v.major, minor: v.minor, patch: v.patch }),
        Err(e) => Err(e.to_string()),
    }
}

/// The version text with one leading `v` removed, if present.
pub open spec fn strip_v_spec(s: Seq<char>) -> Seq<char> {
    match strip_prefix_spec(s, "v"@) {
        Some(t) => t,
        None => s,
    }
}

/// Parse a version string, stripping an optional `v` prefix.
pub fn parse_version(s: &str) -> (r: Result<Version, VersionError>)
    ensures
        (r is Ok) == (semver_parse_spec(strip_v_spec(s@)) is Some),
        r matches Ok(v) ==> {
            semver_parse_spec(strip_v_spec(s@)) matches Some(t) && t.len() == 3 && v.major as int
                == t[0] && v.minor as int == t[1] && v.patch as int == t[2]
        },
        r matches Err(e) ==> e is InvalidSemver,
{
    let stripped: String = match strip_prefix_str(s, "v") {
        Some(t) => t,
        None => s.to_owned(),
    };
    match parse_semver(stripped.as_str()) {
        Ok(v) => Ok(v),
        Err(e) => Err(VersionError::InvalidSemver(e)),
    }
}

/// Validate an explicitly supplied version string.
pub fn validate_explicit(version_str: &str) -> (r: Result<Version, VersionError>)
    ensures
        (r is Ok) == (semver_parse_spec(strip_v_spec(version_str@)) is Some),
        r matches Ok(v) ==> {
            semver_parse_spec(strip_v_spec(version_str@)) matches Some(t) && t.len() == 3
                && v.major as int == t[0] && v.minor as int == t[1] && v.patch as int == t[2]
        },
        r matches Err(e) ==> e is InvalidSemver,
{
    parse_version(version_str)
}

} // verus!
