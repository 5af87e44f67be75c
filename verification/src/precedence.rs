//! The order of versions: which of two is the later release.

use crate::version::{numbers_before, same_release, Version, VersionIncrement, VersionView};
use vstd::prelude::*;

verus! {

/// How one version stands to another.
#[derive(Debug, Clone, Copy, PartialEq, Eq, Structural)]
pub enum Precedence {
    Before,
    Same,
    After,
}

/// How the semver crate orders two pre-release tags: `None` where one of the texts is no
/// pre-release tag, else where the first stands to the second. The empty tag, which
/// marks a release, is a tag like any other here.
pub uninterp spec fn prerelease_order(a: Seq<char>, b: Seq<char>) -> Option<Precedence>;

/// Builds both tags with `semver::Prerelease::new` and compares them with the order that
/// the crate gives to `semver::Prerelease`.
///
/// Trusted: the outcome is `prerelease_order` of the two texts. Nothing is claimed about
/// which tag comes first.
#[verifier::external_body]
fn compare_prerelease(a: &str, b: &str) -> (r: Result<Precedence, semver::Error>)
    ensures
        match r {
            Ok(p) => prerelease_order(a@, b@) == Some(p),
            Err(_) => prerelease_order(a@, b@) is None,
        },
{
    let first = semver::Prerelease::new(a)?;
    let second = semver::Prerelease::new(b)?;
    Ok(
        match first.cmp(&second) {
            core::cmp::Ordering::Less => Precedence::Before,
            core::cmp::Ordering::Equal => Precedence::Same,
            core::cmp::Ordering::Greater => Precedence::After,
        },
    )
}

/// How the numbers of `a` stand to those of `b`: major decides, then minor, then patch.
pub open spec fn numbers_precedence(a: VersionView, b: VersionView) -> Precedence {
    if numbers_before(a, b) {
        Precedence::Before
    } else if numbers_before(b, a) {
        Precedence::After
    } else {
        Precedence::Same
    }
}

/// How `a` stands to `b`: the numbers decide; where they are equal, equal pre-release
/// tags make the versions the same release, and different ones are ordered as the semver
/// crate orders them. Build metadata is never looked at.
pub open spec fn precedence(a: VersionView, b: VersionView) -> Option<Precedence> {
    if numbers_precedence(a, b) != Precedence::Same {
        Some(numbers_precedence(a, b))
    } else if a.pre == b.pre {
        Some(Precedence::Same)
    } else {
        prerelease_order(a.pre, b.pre)
    }
}

/// Compares the numbers of two versions.
pub fn compare_numbers(a: &Version, b: &Version) -> (r: Precedence)
    ensures
        r == numbers_precedence(a@, b@),
{
    if a.major < b.major {
        Precedence::Before
    } else if a.major > b.major {
        Precedence::After
    } else if a.minor < b.minor {
        Precedence::Before
    } else if a.minor > b.minor {
        Precedence::After
    } else if a.patch < b.patch {
        Precedence::Before
    } else if a.patch > b.patch {
        Precedence::After
    } else {
        Precedence::Same
    }
}

/// Compares two versions. There is no answer only where the numbers are equal and a
/// pre-release tag is malformed.
pub fn compare(a: &Version, b: &Version) -> (r: Option<Precedence>)
    ensures
        r == precedence(a@, b@),
{
    match compare_numbers(a, b) {
        Precedence::Same => {
            if a.pre == b.pre {
                Some(Precedence::Same)
            } else {
                match compare_prerelease(a.pre.as_str(), b.pre.as_str()) {
                    Ok(p) => Some(p),
                    Err(_) => None,
                }
            }
        },
        p => Some(p),
    }
}

/// Equality and order ignore build metadata: versions of the same release compare as
/// the same, and changing the build metadata of either side changes no comparison.
pub proof fn law_build_ignored(a: VersionView, b: VersionView, x: Seq<char>, y: Seq<char>)
    ensures
        same_release(a, b) ==> precedence(a, b) == Some(Precedence::Same),
        precedence(VersionView { build: x, ..a }, VersionView { build: y, ..b }) == precedence(a, b),
        same_release(VersionView { build: x, ..a }, VersionView { build: y, ..b }) == same_release(
            a,
            b,
        ),
{
}

/// `Patch`, `Minor` and `Major` always give a later release than the current one, and
/// so does `Auto` on a release.
pub proof fn law_bump_is_later(strategy: VersionIncrement, current: VersionView)
    requires
        strategy is Patch || strategy is Minor || strategy is Major || (strategy is Auto
            && current.pre.len() == 0),
    ensures
        precedence(current, strategy.next(current)) == Some(Precedence::Before),
        precedence(strategy.next(current), current) == Some(Precedence::After),
{
}

} // verus!
