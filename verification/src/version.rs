//! The version of the running tool, and the versions that a schema
//! document asks for.

use vstd::prelude::*;

verus! {

/// Whether `text` is a version of the semver syntax, such as `1.2.3` or
/// `1.0.0-rc.1`.
pub uninterp spec fn version_parses(text: Seq<char>) -> bool;

/// Whether `text` is a version requirement of the semver syntax, such as
/// `1.2`, `^0.3.1` or `>=1.2.3, <1.8`.
pub uninterp spec fn requirement_parses(text: Seq<char>) -> bool;

/// Whether the version that `version` spells satisfies the requirement
/// that `requirement` spells. Only meaningful where the one is a
/// requirement and the other a version.
pub uninterp spec fn requirement_admits(requirement: Seq<char>, version: Seq<char>) -> bool;

/// Asks `semver::Version::parse` whether `text` is a version. The answer
/// depends on the text alone and is given the name [`version_parses`];
/// nothing else is claimed about it.
#[verifier::external_body]
pub(crate) fn version_is_valid(text: &str) -> (valid: bool)
    ensures
        valid == version_parses(text@),
{
    semver::Version::parse(text).is_ok()
}

/// Parses `requirement` with `semver::VersionReq::parse` and, where that
/// succeeds, asks `semver::VersionReq::matches` whether the version that
/// `semver::Version::parse` reads from `version` satisfies it. `version`
/// has to be a version.
///
/// Both answers depend on the arguments alone. Whether parsing the
/// requirement succeeds is given the name [`requirement_parses`], what
/// `matches` says the name [`requirement_admits`]; nothing else is
/// claimed about either.
#[verifier::external_body]
pub(crate) fn check_requirement(requirement: &str, version: &str) -> (admits: Option<bool>)
    requires
        version_parses(version@),
    ensures
        admits is Some <==> requirement_parses(requirement@),
        admits is Some ==> admits->0 == requirement_admits(requirement@, version@),
{
    match semver::VersionReq::parse(requirement) {
        Ok(parsed) => Some(parsed.matches(&semver::Version::parse(version).unwrap())),
        Err(_) => None,
    }
}

/// The version of the running tool, as it is spelled. It is always a
/// version of the semver syntax.
#[derive(Debug, PartialEq, Eq, Hash)]
pub struct ToolVersion {
    text: String,
}

impl View for ToolVersion {
    type V = Seq<char>;

    closed spec fn view(&self) -> Seq<char> {
        self.text@
    }
}

impl Clone for ToolVersion {
    fn clone(&self) -> (copy: ToolVersion)
        ensures
            copy@ == self@,
    {
        proof {
            use_type_invariant(self);
        }
        let spelled = self.text.clone();
        ToolVersion { text: spelled }
    }
}

impl ToolVersion {
    #[verifier::type_invariant]
    spec fn is_version(self) -> bool {
        version_parses(self.text@)
    }

    /// The version that `text` spells, if it spells one.
    pub fn parse(text: &str) -> (version: Option<ToolVersion>)
        ensures
            version is Some <==> version_parses(text@),
            version is Some ==> version->0@ == text@,
    {
        if version_is_valid(text) {
            let spelled = text.to_owned();
            Some(ToolVersion { text: spelled })
        } else {
            None
        }
    }

    /// The version as it is spelled.
    pub fn as_str(&self) -> (text: &str)
        ensures
            text@ == self@,
            version_parses(self@),
    {
        proof {
            use_type_invariant(self);
        }
        self.text.as_str()
    }
}

} // verus!
