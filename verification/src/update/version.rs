//! Semantic versions.

use vstd::prelude::*;

verus! {

/// How one version stands to another in the order of semantic versions.
#[derive(Clone, Copy, Debug, PartialEq, Eq, Structural)]
pub enum Precedence {
    Lower,
    Same,
    Higher,
}

/// What parsing `text` as a semantic version gives: the version, written out again, or the
/// parser's complaint.
pub uninterp spec fn version_from_text(text: Seq<char>) -> Result<Seq<char>, Seq<char>>;

/// How the version written `left` stands to the version written `right`.
pub uninterp spec fn version_precedence(left: Seq<char>, right: Seq<char>) -> Precedence;

/// The text or the complaint of an attempt to parse a version.
pub open spec fn parsed_text(parsed: Result<String, String>) -> Result<Seq<char>, Seq<char>> {
    match parsed {
        Ok(text) => Ok(text@),
        Err(message) => Err(message@),
    }
}

/// Parses a version with `semver::Version::parse` and writes it out again with its `Display`.
/// What is accepted, what is written and which complaint is given depends on the text alone.
#[verifier::external_body]
pub(crate) fn parse_version(text: &str) -> (r: Result<String, String>)
    ensures
        parsed_text(r) == version_from_text(text@),
{
    match semver::Version::parse(text) {
        Ok(version) => Ok(version.to_string()),
        Err(error) => Err(error.to_string()),
    }
}

/// Orders two versions with `semver::Version`'s `Ord`, to which its `PartialEq` conforms. The
/// order depends on the two texts alone, and no version is lower or higher than itself.
#[verifier::external_body]
pub(crate) fn compare_versions(left: &str, right: &str) -> (r: Precedence)
    requires
        version_from_text(left@) is Ok,
        version_from_text(right@) is Ok,
    ensures
        r == version_precedence(left@, right@),
        left@ == right@ ==> r == Precedence::Same,
{
    let left = semver::Version::parse(left).unwrap();
    let right = semver::Version::parse(right).unwrap();
    match left.cmp(&right) {
        std::cmp::Ordering::Less => Precedence::Lower,
        std::cmp::Ordering::Equal => Precedence::Same,
        std::cmp::Ordering::Greater => Precedence::Higher,
    }
}

} // verus!
