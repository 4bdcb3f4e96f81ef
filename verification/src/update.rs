//! Telling whether a release is newer than the running program.

use crate::text::{ends_in, ends_with};
use semver::Version;
use vstd::prelude::*;
use vstd::string::StrSliceExecFns;

verus! {

/// `semver::Version`, taken as it is: a version that was read.
#[verifier::external_type_specification]
#[verifier::external_body]
pub struct ExVersion(Version);

/// The version that the semver crate reads from a text; `None` where it reads none.
pub uninterp spec fn version_read(text: Seq<char>) -> Option<Version>;

/// Whether one version is greater than another in the order of the semver crate.
pub uninterp spec fn exceeds(a: Version, b: Version) -> bool;

/// Whether the semver crate reads a text as a version.
pub open spec fn reads_as_version(text: Seq<char>) -> bool {
    version_read(text) is Some
}

/// Whether the version that one text names is greater than the version that another names.
/// It is not where either text names no version.
pub open spec fn is_newer(released: Seq<char>, current: Seq<char>) -> bool {
    match (version_read(released), version_read(current)) {
        (Some(a), Some(b)) => exceeds(a, b),
        _ => false,
    }
}

/// The version that a release's tag names: the tag without a leading `v`.
pub open spec fn version_of_tag(tag: Seq<char>) -> Seq<char> {
    if tag.len() > 0 && tag[0] == 'v' {
        tag.subrange(1, tag.len() as int)
    } else {
        tag
    }
}

/// The version that a release's tag names: the tag without a leading `v`.
pub fn release_version(tag: &str) -> (r: String)
    ensures
        r@ == version_of_tag(tag@),
{
    let n = tag.unicode_len();
    if n > 0 && tag.get_char(0) == 'v' {
        tag.substring_char(1, n).to_owned()
    } else {
        tag.to_owned()
    }
}

/// What the address of a release's installer ends in.
pub const INSTALLER_SUFFIX: &'static str = "-setup.exe";

/// Whether a download of a release is its installer, going by the address.
pub fn is_installer(address: &str) -> (r: bool)
    ensures
        r == ends_in(address@, INSTALLER_SUFFIX@),
{
    ends_with(address, INSTALLER_SUFFIX)
}

/// What is made of two versions once they were read and compared: there is an update where
/// both could be read and the released one is the greater.
pub fn update_verdict(current_reads: bool, released_reads: bool, released_is_greater: bool) -> (r:
    bool)
    ensures
        r == (current_reads && released_reads && released_is_greater),
{
    current_reads && released_reads && released_is_greater
}

/// Whether the release with the given tag is newer than the running version: both versions
/// can be read, and the released one is the greater. It is not where either version cannot
/// be read.
pub fn is_update_available(current: &str, tag: &str) -> (r: bool)
    ensures
        r == is_newer(version_of_tag(tag@), current@),
        r ==> reads_as_version(current@) && reads_as_version(version_of_tag(tag@)),
{
    let released = release_version(tag);
    let current_version = match parse_version(current) {
        Some(version) => version,
        None => {
            return update_verdict(false, false, false);
        },
    };
    match parse_version(released.as_str()) {
        Some(version) => update_verdict(true, true, is_greater(&version, &current_version)),
        None => update_verdict(true, false, false),
    }
}

/// `semver::Version::parse`. Claimed: whether a text is read as a version, and as which,
/// depends on the text alone.
#[verifier::external_body]
fn parse_version(text: &str) -> (r: Option<Version>)
    ensures
        r == version_read(text@),
{
    match Version::parse(text) {
        Ok(version) => Some(version),
        Err(_) => None,
    }
}

/// The order of `semver::Version`: whether `a` is greater than `b`. Claimed: the answer
/// depends on the two versions alone.
#[verifier::external_body]
fn is_greater(a: &Version, b: &Version) -> (r: bool)
    ensures
        r == exceeds(*a, *b),
{
    a > b
}

} // verus!
