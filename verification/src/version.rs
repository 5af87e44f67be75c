//! Semantic versions and the strategies that compute the next one.

use crate::text::{folded, same_ignoring_case, same_letters, same_text};
use vstd::prelude::*;
use vstd::string::*;

verus! {

/// The mathematical value of a version.
pub struct VersionView {
    pub major: nat,
    pub minor: nat,
    pub patch: nat,
    pub pre: Seq<char>,
    pub build: Seq<char>,
}

/// A semantic version `MAJOR.MINOR.PATCH[-PRE][+BUILD]`.
///
/// An empty `pre` or `build` means that the version has no such tag.
#[derive(Debug)]
pub struct Version {
    pub major: u64,
    pub minor: u64,
    pub patch: u64,
    pub pre: String,
    pub build: String,
}

impl View for Version {
    type V = VersionView;

    open spec fn view(&self) -> VersionView {
        VersionView {
            major: self.major as nat,
            minor: self.minor as nat,
            patch: self.patch as nat,
            pre: self.pre@,
            build: self.build@,
        }
    }
}

impl Clone for Version {
    fn clone(&self) -> (r: Self)
        ensures
            r == *self,
    {
        Version {
            major: self.major,
            minor: self.minor,
            patch: self.patch,
            pre: self.pre.clone(),
            build: self.build.clone(),
        }
    }
}

impl PartialEq for Version {
    /// Versions are equal when they denote the same release: build metadata is not
    /// compared.
    fn eq(&self, other: &Self) -> (r: bool) {
        self.major == other.major && self.minor == other.minor && self.patch == other.patch
            && self.pre == other.pre
    }
}

impl Eq for Version {

}

impl vstd::std_specs::cmp::PartialEqSpecImpl for Version {
    open spec fn obeys_eq_spec() -> bool {
        true
    }

    open spec fn eq_spec(&self, other: &Self) -> bool {
        same_release(self@, other@)
    }
}

/// Two version values denote the same release when they agree on everything
/// but the build metadata.
pub open spec fn same_release(a: VersionView, b: VersionView) -> bool {
    &&& a.major == b.major
    &&& a.minor == b.minor
    &&& a.patch == b.patch
    &&& a.pre == b.pre
}

/// The character that writes the decimal digit `d`.
pub open spec fn digit(d: nat) -> char {
    if d == 0 {
        '0'
    } else if d == 1 {
        '1'
    } else if d == 2 {
        '2'
    } else if d == 3 {
        '3'
    } else if d == 4 {
        '4'
    } else if d == 5 {
        '5'
    } else if d == 6 {
        '6'
    } else if d == 7 {
        '7'
    } else if d == 8 {
        '8'
    } else {
        '9'
    }
}

/// The decimal numeral of `n`, without leading zeros.
pub open spec fn decimal(n: nat) -> Seq<char>
    decreases n,
{
    if n < 10 {
        seq![digit(n)]
    } else {
        decimal(n / 10).push(digit(n % 10))
    }
}

/// A tag with the character that introduces it, or nothing for an empty tag.
pub open spec fn suffix(lead: char, tag: Seq<char>) -> Seq<char> {
    if tag.len() == 0 {
        Seq::<char>::empty()
    } else {
        seq![lead] + tag
    }
}

/// The text of a version: `MAJOR.MINOR.PATCH`, then `-PRE` and `+BUILD` where present.
pub open spec fn rendered(v: VersionView) -> Seq<char> {
    decimal(v.major) + seq!['.'] + decimal(v.minor) + seq!['.'] + decimal(v.patch) + suffix(
        '-',
        v.pre,
    ) + suffix('+', v.build)
}

/// The pre-release tag that the `Prerelease` strategy sets.
pub open spec fn prerelease_marker() -> Seq<char> {
    seq!['p', 'r', 'e']
}

fn digit_text(d: u64) -> (r: &'static str)
    requires
        d < 10,
    ensures
        r@ == seq![digit(d as nat)],
{
    proof {
        reveal_strlit("0");
        reveal_strlit("1");
        reveal_strlit("2");
        reveal_strlit("3");
        reveal_strlit("4");
        reveal_strlit("5");
        reveal_strlit("6");
        reveal_strlit("7");
        reveal_strlit("8");
        reveal_strlit("9");
    }
    let r = if d == 0 {
        "0"
    } else if d == 1 {
        "1"
    } else if d == 2 {
        "2"
    } else if d == 3 {
        "3"
    } else if d == 4 {
        "4"
    } else if d == 5 {
        "5"
    } else if d == 6 {
        "6"
    } else if d == 7 {
        "7"
    } else if d == 8 {
        "8"
    } else {
        "9"
    };
    assert(r@ =~= seq![digit(d as nat)]);
    r
}

/// Writes `n` in decimal.
pub fn decimal_text(n: u64) -> (r: String)
    ensures
        r@ == decimal(n as nat),
    decreases n,
{
    if n < 10 {
        String::from_str(digit_text(n))
    } else {
        let head = decimal_text(n / 10);
        let r = head.concat(digit_text(n % 10));
        assert(r@ =~= decimal(n as nat));
        r
    }
}

impl Version {
    /// A version without pre-release tag and build metadata.
    pub fn new(major: u64, minor: u64, patch: u64) -> (r: Version)
        ensures
            r@ == (VersionView {
                major: major as nat,
                minor: minor as nat,
                patch: patch as nat,
                pre: Seq::<char>::empty(),
                build: Seq::<char>::empty(),
            }),
    {
        Version { major, minor, patch, pre: String::new(), build: String::new() }
    }

    /// Whether the version carries a pre-release tag.
    pub fn is_prerelease(&self) -> (r: bool)
        ensures
            r == (self@.pre.len() > 0),
    {
        !self.pre.as_str().is_empty()
    }

    /// Whether the version carries build metadata.
    pub fn has_build(&self) -> (r: bool)
        ensures
            r == (self@.build.len() > 0),
    {
        !self.build.as_str().is_empty()
    }

    /// Whether `self` and `other` denote the same release: build metadata is not compared.
    pub fn same_release(&self, other: &Version) -> (r: bool)
        ensures
            r == same_release(self@, other@),
    {
        self == other
    }

    /// Whether `self` and `other` agree in every part, build metadata too.
    pub fn identical(&self, other: &Version) -> (r: bool)
        ensures
            r == (self@ == other@),
    {
        self.major == other.major && self.minor == other.minor && self.patch == other.patch
            && self.pre == other.pre && self.build == other.build
    }

    /// The same version with the pre-release tag cleared.
    pub fn without_prerelease(&self) -> (r: Version)
        ensures
            r@ == (VersionView { pre: Seq::<char>::empty(), ..self@ }),
    {
        Version {
            major: self.major,
            minor: self.minor,
            patch: self.patch,
            pre: String::new(),
            build: self.build.clone(),
        }
    }

    /// The text of the version.
    pub fn render(&self) -> (r: String)
        ensures
            r@ == rendered(self@),
    {
        let mut out = decimal_text(self.major);
        out.append(".");
        out.append(decimal_text(self.minor).as_str());
        out.append(".");
        out.append(decimal_text(self.patch).as_str());
        proof {
            reveal_strlit(".");
            reveal_strlit("-");
            reveal_strlit("+");
            assert("."@ =~= seq!['.']);
            assert("-"@ =~= seq!['-']);
            assert("+"@ =~= seq!['+']);
        }
        if !self.pre.as_str().is_empty() {
            out.append("-");
            out.append(self.pre.as_str());
        }
        assert(out@ =~= decimal(self@.major) + seq!['.'] + decimal(self@.minor) + seq!['.']
            + decimal(self@.patch) + suffix('-', self@.pre));
        if !self.build.as_str().is_empty() {
            out.append("+");
            out.append(self.build.as_str());
        }
        assert(out@ =~= rendered(self@));
        out
    }
}

/// What `semver::Version::parse` makes of a text: the parsed value, or `None`
/// where it rejects the text.
pub uninterp spec fn semver_parse(text: Seq<char>) -> Option<VersionView>;

#[verifier::external_type_specification]
#[verifier::external_body]
pub struct ExSemverError(semver::Error);

/// Calls `semver::Version::parse` and copies the fields of what it returns.
///
/// Trusted: the outcome is `semver_parse` of the text, so equal texts parse alike.
/// Nothing is claimed about which texts are accepted.
#[verifier::external_body]
fn parse_semver(text: &str) -> (r: Result<Version, semver::Error>)
    ensures
        match r {
            Ok(v) => semver_parse(text@) == Some(v@),
            Err(_) => semver_parse(text@) is None,
        },
{
    match semver::Version::parse(text) {
        Ok(v) => Ok(
            Version {
                major: v.major,
                minor: v.minor,
                patch: v.patch,
                pre: v.pre.as_str().to_owned(),
                build: v.build.as_str().to_owned(),
            },
        ),
        Err(e) => Err(e),
    }
}

/// A text that is no semantic version.
#[derive(Debug, Clone, Copy, PartialEq, Eq, Structural)]
pub struct ParseError;

/// The version that a text states: what the semver crate reads out of it, provided
/// that this is a version whose text is the very text that was read.
pub open spec fn parsed(text: Seq<char>) -> Option<VersionView> {
    match semver_parse(text) {
        Some(v) => if rendered(v) == text {
            Some(v)
        } else {
            None
        },
        None => None,
    }
}

/// Whether a version is one that its own text states: parsing the text gives the version
/// back. Every version that `parse` gives is such a version; one that is put together by
/// hand need not be.
pub open spec fn is_canonical(v: VersionView) -> bool {
    parsed(rendered(v)) == Some(v)
}

impl Version {
    /// Tells whether the version is one that its own text states.
    pub fn is_valid(&self) -> (r: bool)
        ensures
            r == is_canonical(self@),
    {
        match Version::parse(self.render().as_str()) {
            Ok(v) => v.identical(self),
            Err(_) => false,
        }
    }

    /// Accepts a version that was read out of a text if its own text is the text that was
    /// read, letter for letter.
    pub fn confirm(text: &str, candidate: Version) -> (r: Result<Version, ParseError>)
        ensures
            rendered(candidate@) == text@ ==> r == Ok::<_, ParseError>(candidate),
            rendered(candidate@) != text@ ==> r is Err,
    {
        if same_text(candidate.render().as_str(), text) {
            Ok(candidate)
        } else {
            Err(ParseError)
        }
    }

    /// Parses `MAJOR.MINOR.PATCH[-PRE][+BUILD]`, strictly: a text is a version only if
    /// writing the version out gives the text back.
    pub fn parse(text: &str) -> (r: Result<Version, ParseError>)
        ensures
            match parsed(text@) {
                Some(v) => r is Ok && r->Ok_0@ == v,
                None => r is Err,
            },
            r matches Ok(v) ==> rendered(v@) == text@ && is_canonical(v@),
    {
        match parse_semver(text) {
            Ok(v) => Version::confirm(text, v),
            Err(_) => Err(ParseError),
        }
    }
}

/// The rule by which the next version is computed from the current one.
#[derive(Debug, PartialEq, Eq)]
pub enum VersionIncrement {
    /// `Patch` for a release, `StripPrerelease` for a pre-release.
    Auto,
    Patch,
    Minor,
    Major,
    StripPrerelease,
    Prerelease,
    /// The given version, whatever the current one is.
    Exact(Version),
}

impl Clone for VersionIncrement {
    fn clone(&self) -> (r: Self)
        ensures
            r == *self,
    {
        match self {
            VersionIncrement::Auto => VersionIncrement::Auto,
            VersionIncrement::Patch => VersionIncrement::Patch,
            VersionIncrement::Minor => VersionIncrement::Minor,
            VersionIncrement::Major => VersionIncrement::Major,
            VersionIncrement::StripPrerelease => VersionIncrement::StripPrerelease,
            VersionIncrement::Prerelease => VersionIncrement::Prerelease,
            VersionIncrement::Exact(v) => VersionIncrement::Exact(v.clone()),
        }
    }
}

/// A release `major.minor.patch`, with no tags.
pub open spec fn release(major: nat, minor: nat, patch: nat) -> VersionView {
    VersionView { major, minor, patch, pre: Seq::<char>::empty(), build: Seq::<char>::empty() }
}

impl VersionIncrement {
    /// Whether the strategy is one that names no version.
    pub open spec fn is_keyword(&self) -> bool {
        !(self is Exact)
    }

    /// Whether the number that the strategy raises can be raised in 64 bits.
    pub open spec fn fits(&self, current: VersionView) -> bool {
        match self {
            VersionIncrement::Auto => current.pre.len() > 0 || current.patch < u64::MAX,
            VersionIncrement::Patch => current.patch < u64::MAX,
            VersionIncrement::Minor => current.minor < u64::MAX,
            VersionIncrement::Major => current.major < u64::MAX,
            _ => true,
        }
    }

    /// The version that the strategy computes from `current`.
    ///
    /// `Patch`, `Minor` and `Major` build a plain release: both tags are dropped.
    /// `StripPrerelease` and `Prerelease` change the pre-release tag alone.
    pub open spec fn next(&self, current: VersionView) -> VersionView {
        match self {
            VersionIncrement::Auto => if current.pre.len() == 0 {
                release(current.major, current.minor, current.patch + 1)
            } else {
                VersionView { pre: Seq::<char>::empty(), ..current }
            },
            VersionIncrement::Patch => release(current.major, current.minor, current.patch + 1),
            VersionIncrement::Minor => release(current.major, current.minor + 1, 0),
            VersionIncrement::Major => release(current.major + 1, 0, 0),
            VersionIncrement::StripPrerelease => VersionView {
                pre: Seq::<char>::empty(),
                ..current
            },
            VersionIncrement::Prerelease => VersionView { pre: prerelease_marker(), ..current },
            VersionIncrement::Exact(v) => v@,
        }
    }

    /// Tells whether `increment` can be called on `current`.
    pub fn can_increment(&self, current: &Version) -> (r: bool)
        ensures
            r == self.fits(current@),
    {
        match self {
            VersionIncrement::Auto => current.is_prerelease() || current.patch < u64::MAX,
            VersionIncrement::Patch => current.patch < u64::MAX,
            VersionIncrement::Minor => current.minor < u64::MAX,
            VersionIncrement::Major => current.major < u64::MAX,
            _ => true,
        }
    }

    /// Computes the next version; `current` is left as it is.
    pub fn increment(&self, current: &Version) -> (r: Version)
        requires
            self.fits(current@),
        ensures
            r@ == self.next(current@),
    {
        match self {
            VersionIncrement::Auto => {
                if current.is_prerelease() {
                    current.without_prerelease()
                } else {
                    Version::new(current.major, current.minor, current.patch + 1)
                }
            },
            VersionIncrement::Patch => Version::new(current.major, current.minor, current.patch + 1),
            VersionIncrement::Minor => Version::new(current.major, current.minor + 1, 0),
            VersionIncrement::Major => Version::new(current.major + 1, 0, 0),
            VersionIncrement::StripPrerelease => current.without_prerelease(),
            VersionIncrement::Prerelease => {
                proof {
                    reveal_strlit("pre");
                    assert("pre"@ =~= prerelease_marker());
                }
                Version {
                    major: current.major,
                    minor: current.minor,
                    patch: current.patch,
                    pre: String::from_str("pre"),
                    build: current.build.clone(),
                }
            },
            VersionIncrement::Exact(version) => version.clone(),
        }
    }

    /// The strategy that a word names, if it names one. The case of the letters does not
    /// count.
    pub fn keyword(word: &str) -> (r: Option<VersionIncrement>)
        ensures
            r == keyword_of(word@),
    {
        if same_ignoring_case(word, "auto") {
            Some(VersionIncrement::Auto)
        } else if same_ignoring_case(word, "patch") {
            Some(VersionIncrement::Patch)
        } else if same_ignoring_case(word, "minor") {
            Some(VersionIncrement::Minor)
        } else if same_ignoring_case(word, "major") {
            Some(VersionIncrement::Major)
        } else if same_ignoring_case(word, "strip") {
            Some(VersionIncrement::StripPrerelease)
        } else if same_ignoring_case(word, "pre") {
            Some(VersionIncrement::Prerelease)
        } else {
            None
        }
    }

    /// Reads a strategy from a word of the command line: one of `auto`, `patch`, `minor`,
    /// `major`, `strip`, `pre` in any letter case, or else an exact version.
    pub fn from_str(word: &str) -> (r: Result<VersionIncrement, ParseError>)
        ensures
            match keyword_of(word@) {
                Some(k) => r == Ok::<_, ParseError>(k),
                None => match parsed(word@) {
                    Some(v) => r matches Ok(VersionIncrement::Exact(e)) && e@ == v,
                    None => r is Err,
                },
            },
    {
        match VersionIncrement::keyword(word) {
            Some(k) => Ok(k),
            None => match Version::parse(word) {
                Ok(v) => Ok(VersionIncrement::Exact(v)),
                Err(e) => Err(e),
            },
        }
    }
}

/// The strategy that a word names: the first of the six keywords that the word is, but
/// for the case of its letters.
pub open spec fn keyword_of(word: Seq<char>) -> Option<VersionIncrement> {
    if same_letters(word, "auto"@) {
        Some(VersionIncrement::Auto)
    } else if same_letters(word, "patch"@) {
        Some(VersionIncrement::Patch)
    } else if same_letters(word, "minor"@) {
        Some(VersionIncrement::Minor)
    } else if same_letters(word, "major"@) {
        Some(VersionIncrement::Major)
    } else if same_letters(word, "strip"@) {
        Some(VersionIncrement::StripPrerelease)
    } else if same_letters(word, "pre"@) {
        Some(VersionIncrement::Prerelease)
    } else {
        None
    }
}

/// The text of a version begins with a digit.
pub proof fn law_text_begins_with_digit(v: VersionView)
    ensures
        rendered(v).len() > 0,
        48 <= (rendered(v)[0] as u32) <= 57,
{
    lemma_decimal_begins_with_digit(v.major);
}

proof fn lemma_decimal_begins_with_digit(n: nat)
    ensures
        decimal(n).len() > 0,
        48 <= (decimal(n)[0] as u32) <= 57,
    decreases n,
{
    if n >= 10 {
        lemma_decimal_begins_with_digit(n / 10);
    }
}

/// The text of a version names no strategy, so a version that its own text states is
/// read back from its text as the exact version.
pub proof fn law_exact_round_trip(v: VersionView)
    ensures
        keyword_of(rendered(v)) is None,
        is_canonical(v) ==> parsed(rendered(v)) == Some(v),
{
    law_text_begins_with_digit(v);
    reveal_strlit("auto");
    reveal_strlit("patch");
    reveal_strlit("minor");
    reveal_strlit("major");
    reveal_strlit("strip");
    reveal_strlit("pre");
    let first = rendered(v)[0];
    assert("auto"@[0] == 'a' && "patch"@[0] == 'p' && "minor"@[0] == 'm');
    assert("major"@[0] == 'm' && "strip"@[0] == 's' && "pre"@[0] == 'p');
    assert(folded(first) == first as u32);
    assert(folded('a') == 97 && folded('p') == 112 && folded('m') == 109 && folded('s') == 115);
}

/// A text that parses is the text of the version that it parses to.
pub proof fn law_parse_round_trip(text: Seq<char>)
    requires
        parsed(text) is Some,
    ensures
        rendered(parsed(text)->Some_0) == text,
{
}

/// `Patch` keeps major and minor, raises patch by one and drops both tags, whether or
/// not the current version is a pre-release.
pub proof fn law_patch(current: VersionView)
    ensures
        VersionIncrement::Patch.next(current) == release(
            current.major,
            current.minor,
            current.patch + 1,
        ),
{
}

/// `Minor` raises minor and resets patch; `Major` raises major and resets minor and patch.
pub proof fn law_minor_major(current: VersionView)
    ensures
        VersionIncrement::Minor.next(current) == release(current.major, current.minor + 1, 0),
        VersionIncrement::Major.next(current) == release(current.major + 1, 0, 0),
{
}

/// `Auto` is `Patch` on a release and `StripPrerelease` on a pre-release.
pub proof fn law_auto(current: VersionView)
    ensures
        current.pre.len() == 0 ==> VersionIncrement::Auto.next(current)
            == VersionIncrement::Patch.next(current),
        current.pre.len() > 0 ==> VersionIncrement::Auto.next(current)
            == VersionIncrement::StripPrerelease.next(current),
        VersionIncrement::Auto.fits(current) == if current.pre.len() == 0 {
            VersionIncrement::Patch.fits(current)
        } else {
            VersionIncrement::StripPrerelease.fits(current)
        },
{
}

/// `StripPrerelease` keeps the three numbers and clears the pre-release tag, so that a
/// version without build metadata becomes the plain release; applying it twice is
/// applying it once.
pub proof fn law_strip(current: VersionView)
    ensures
        current.build.len() == 0 ==> VersionIncrement::StripPrerelease.next(current) == release(
            current.major,
            current.minor,
            current.patch,
        ),
        same_release(
            VersionIncrement::StripPrerelease.next(current),
            release(current.major, current.minor, current.patch),
        ),
        VersionIncrement::StripPrerelease.next(current).build == current.build,
        VersionIncrement::StripPrerelease.next(VersionIncrement::StripPrerelease.next(current))
            == VersionIncrement::StripPrerelease.next(current),
{
    if current.build.len() == 0 {
        assert(current.build =~= Seq::<char>::empty());
    }
}

/// Whether the numbers of `a` come before those of `b`: major first, then minor, then patch.
pub open spec fn numbers_before(a: VersionView, b: VersionView) -> bool {
    ||| a.major < b.major
    ||| a.major == b.major && a.minor < b.minor
    ||| a.major == b.major && a.minor == b.minor && a.patch < b.patch
}

/// No strategy lowers the numbers of a version: `Patch`, `Minor` and `Major` raise them,
/// and every other strategy but `Exact` keeps them.
pub proof fn law_never_lower(strategy: VersionIncrement, current: VersionView)
    requires
        strategy.is_keyword(),
    ensures
        (strategy is Patch || strategy is Minor || strategy is Major) ==> numbers_before(
            current,
            strategy.next(current),
        ),
        !numbers_before(strategy.next(current), current),
{
}

} // verus!
