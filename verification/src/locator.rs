//! Finding the one version that the project currently has.

use crate::pattern::{
    assigned, assignment_pattern, assignment_pattern_text, find_group_spans, group_spans,
    is_assigned, utf8_string, Span,
};
use crate::text::{append_bytes, is_trim_of, trim};
use crate::version::{parsed, rendered, same_release, Version, VersionView};
use vstd::prelude::*;
use vstd::string::*;
use vstd::utf8::{decode_utf8, encode_utf8, valid_utf8};

verus! {

/// Why no current version could be settled on.
#[derive(Debug, Clone, Copy, PartialEq, Eq, Structural)]
pub enum DiscoveryError {
    /// None of the well-known files holds a version.
    NoVersionFound,
    /// Two of the well-known files hold versions that differ as texts.
    InconsistentVersion,
    /// The text that the files agree on is no semantic version.
    InvalidVersion,
    /// The version carries build metadata, which is never rewritten.
    UnsupportedBuildMetadata,
    /// The version is a release and differs from the most recent tag.
    TagMismatch,
}

/// The character that a tag may begin with.
pub open spec fn tag_marker() -> char {
    'v'
}

/// Whether a tag begins with the marker.
pub open spec fn is_marked(tag: Seq<char>) -> bool {
    tag.len() > 0 && tag[0] == tag_marker()
}

/// A tag without its marker, if it has one.
pub open spec fn unmarked(tag: Seq<char>) -> Seq<char> {
    if is_marked(tag) {
        tag.subrange(1, tag.len() as int)
    } else {
        tag
    }
}

/// The texts that a list of strings holds.
pub open spec fn texts(found: Seq<String>) -> Seq<Seq<char>> {
    Seq::new(found.len(), |i: int| found[i]@)
}

/// Whether all texts of a list are the same; an empty list has no such text.
pub open spec fn agreeing(found: Seq<Seq<char>>) -> bool {
    found.len() > 0 && forall|i: int| 0 <= i < found.len() ==> #[trigger] found[i] == found[0]
}

/// Whether the stretch of `text` from `start` to `end` is the value of an assignment
/// `version = "..."`, and a value that is not empty and holds no double quote.
pub open spec fn is_value(text: Seq<u8>, start: int, end: int) -> bool {
    &&& start < end
    &&& assigned(text, start, end)
    &&& forall|k: int| start <= k < end ==> #[trigger] text[k] != 34
}

/// The bytes that the first match captured, where the search reports a first match
/// whose span is the value of an assignment.
pub open spec fn first_capture(text: Seq<u8>, spans: Seq<Option<Span>>) -> Option<Seq<u8>> {
    if spans.len() > 0 {
        match spans[0] {
            Some((start, end)) => if is_value(text, start as int, end as int) {
                Some(text.subrange(start as int, end as int))
            } else {
                None
            },
            None => None,
        }
    } else {
        None
    }
}

/// The version text that the first match captured, where it is valid UTF-8.
pub open spec fn captured_text(text: Seq<u8>, spans: Seq<Option<Span>>) -> Option<Seq<char>> {
    match first_capture(text, spans) {
        Some(bytes) => if valid_utf8(bytes) {
            Some(decode_utf8(bytes))
        } else {
            None
        },
        None => None,
    }
}

/// The version text that a file holds: the value of its first assignment
/// `version = "..."`, if it has one.
pub open spec fn extracted(text: Seq<u8>) -> Option<Seq<char>> {
    match group_spans(assignment_pattern(), text) {
        Some(spans) => captured_text(text, spans),
        None => None,
    }
}

/// The version texts that a list of files holds, in the order of the files; a file
/// without a version adds nothing.
pub open spec fn versions_in(files: Seq<Vec<u8>>) -> Seq<Seq<char>>
    decreases files.len(),
{
    if files.len() == 0 {
        Seq::<Seq<char>>::empty()
    } else {
        match extracted(files.last()@) {
            Some(v) => versions_in(files.drop_last()).push(v),
            None => versions_in(files.drop_last()),
        }
    }
}

/// What the most recent tag says about the version, once it has been read: `None` where
/// the project has no tag, `Some(None)` for a tag that is no version once its marker is
/// taken off, else the version that the tag names. A tag that is nothing but the marker
/// is a tag that is no version.
pub open spec fn tag_reading(last_tag: Option<Seq<char>>) -> Option<Option<VersionView>> {
    match last_tag {
        Some(tag) => Some(parsed(unmarked(tag))),
        None => None,
    }
}

/// The verdict on a parsed version and a read tag.
///
/// A text that is no version is refused, then a version with build metadata. Where the
/// project has a tag, a release must be the release that the tag names, so a tag that is
/// no version matches no release; a pre-release is not compared, for it has no tag yet.
pub open spec fn judged(parsed: Option<VersionView>, tag: Option<Option<VersionView>>) -> Result<
    VersionView,
    DiscoveryError,
> {
    match parsed {
        None => Err(DiscoveryError::InvalidVersion),
        Some(v) => if v.build.len() > 0 {
            Err(DiscoveryError::UnsupportedBuildMetadata)
        } else if v.pre.len() == 0 && tag is Some && !(tag->Some_0 matches Some(t) && same_release(
            v,
            t,
        )) {
            Err(DiscoveryError::TagMismatch)
        } else {
            Ok(v)
        },
    }
}

/// The current version of a project whose well-known files hold the texts `found` and
/// whose most recent tag is `last_tag`.
pub open spec fn located(found: Seq<Seq<char>>, last_tag: Option<Seq<char>>) -> Result<
    VersionView,
    DiscoveryError,
> {
    if found.len() == 0 {
        Err(DiscoveryError::NoVersionFound)
    } else if !agreeing(found) {
        Err(DiscoveryError::InconsistentVersion)
    } else {
        judged(parsed(found[0]), tag_reading(last_tag))
    }
}

/// The name of the tag for a new version. A project whose most recent tag has no marker
/// goes on without one; any other project, one without tags too, gets the marker.
pub open spec fn tag_named(last_tag: Option<Seq<char>>, target: VersionView) -> Seq<char> {
    if last_tag is Some && !is_marked(last_tag->Some_0) {
        rendered(target)
    } else {
        seq![tag_marker()] + rendered(target)
    }
}

/// Tells whether all texts of a list are the same. An empty list has no such text.
pub fn all_equal(v: &[String]) -> (r: bool)
    ensures
        r == agreeing(texts(v@)),
{
    if v.len() == 0 {
        return false;
    }
    assert(texts(v@)[0] == v@[0]@);
    let mut i: usize = 1;
    while i < v.len()
        invariant
            1 <= i <= v.len(),
            forall|k: int| 0 <= k < i ==> (#[trigger] v@[k])@ == v@[0]@,
        decreases v.len() - i,
    {
        if v[i] != v[0] {
            assert(texts(v@)[i as int] == v@[i as int]@);
            return false;
        }
        i += 1;
    }
    assert forall|k: int| 0 <= k < texts(v@).len() implies #[trigger] texts(v@)[k] == texts(v@)[0] by {
        assert(texts(v@)[k] == v@[k]@);
    }
    true
}

/// The names of the files in which the current version is looked for, in order.
pub fn well_known_files() -> (r: Vec<String>)
    ensures
        r.len() == 2,
        r[0]@ == "Cargo.toml"@,
        r[1]@ == ".env"@,
{
    let mut r: Vec<String> = Vec::new();
    r.push(String::from_str("Cargo.toml"));
    r.push(String::from_str(".env"));
    r
}

/// Tells whether a stretch of `text` is the value of an assignment `version = "..."`,
/// not empty and without a double quote in it.
pub fn has_value(text: &[u8], start: usize, end: usize) -> (r: bool)
    ensures
        r == is_value(text@, start as int, end as int),
{
    if !(start < end && is_assigned(text, start, end)) {
        return false;
    }
    let mut k: usize = start;
    while k < end
        invariant
            start <= k <= end < text.len(),
            forall|j: int| start <= j < k ==> #[trigger] text@[j] != 34,
        decreases end - k,
    {
        if text[k] == 34 {
            return false;
        }
        k += 1;
    }
    true
}

/// Reads the version text out of a file, given what the search for an assignment found.
/// Whatever the search reported, nothing is read but the value of an assignment.
pub fn version_at(text: &[u8], spans: &Vec<Option<Span>>) -> (r: Option<String>)
    ensures
        match captured_text(text@, spans@) {
            Some(v) => r is Some && r->Some_0@ == v,
            None => r is None,
        },
{
    if spans.len() == 0 {
        return None;
    }
    let first: Option<Span> = spans[0];
    match first {
        None => None,
        Some((start, end)) => {
            if !has_value(text, start, end) {
                return None;
            }
            let mut bytes: Vec<u8> = Vec::new();
            append_bytes(&mut bytes, &text[start..end]);
            assert(bytes@ =~= text@.subrange(start as int, end as int));
            match utf8_string(bytes) {
                Some(s) => {
                    proof {
                        vstd::utf8::encode_utf8_decode_utf8(s@);
                    }
                    Some(s)
                },
                None => None,
            }
        },
    }
}

/// Reads the version text out of a file: the value of its first assignment
/// `version = "..."`.
pub fn extract_version(text: &[u8]) -> (r: Option<String>)
    ensures
        match extracted(text@) {
            Some(v) => r is Some && r->Some_0@ == v,
            None => r is None,
        },
{
    match find_group_spans(assignment_pattern_text(), text) {
        Ok(spans) => version_at(text, &spans),
        Err(_) => None,
    }
}

/// Reads the version texts out of the well-known files that exist, in their order.
pub fn collect_versions(files: &Vec<Vec<u8>>) -> (r: Vec<String>)
    ensures
        texts(r@) == versions_in(files@),
{
    let mut r: Vec<String> = Vec::new();
    let mut i: usize = 0;
    assert(files@.subrange(0, 0) =~= Seq::<Vec<u8>>::empty());
    while i < files.len()
        invariant
            i <= files.len(),
            r.len() == versions_in(files@.subrange(0, i as int)).len(),
            forall|k: int|
                0 <= k < r.len() ==> (#[trigger] r[k])@ == versions_in(
                    files@.subrange(0, i as int),
                )[k],
        decreases files.len() - i,
    {
        let ghost upto = files@.subrange(0, i + 1);
        assert(upto.drop_last() =~= files@.subrange(0, i as int));
        assert(upto.last() == files@[i as int]);
        match extract_version(files[i].as_slice()) {
            Some(v) => {
                r.push(v);
            },
            None => {},
        }
        i += 1;
    }
    assert(files@.subrange(0, i as int) =~= files@);
    assert(texts(r@) =~= versions_in(files@));
    r
}

/// Reads the most recent tag out of what the query for it printed: there is a tag where
/// the query succeeded, and it is what was printed without the whitespace around it.
pub fn tag_of_output(succeeded: bool, output: &str) -> (r: Option<String>)
    ensures
        succeeded ==> r is Some && is_trim_of(r->Some_0@, output@),
        !succeeded ==> r is None,
{
    if succeeded {
        Some(String::from_str(trim(output)))
    } else {
        None
    }
}

/// Takes the marker off a tag that has one.
pub fn strip_marker(tag: &str) -> (r: &str)
    ensures
        r@ == unmarked(tag@),
{
    let n = tag.unicode_len();
    if n > 0 && tag.get_char(0) == 'v' {
        tag.substring_char(1, n)
    } else {
        tag
    }
}

/// Tells whether a tag begins with the marker.
pub fn has_marker(tag: &str) -> (r: bool)
    ensures
        r == is_marked(tag@),
{
    tag.unicode_len() > 0 && tag.get_char(0) == 'v'
}

/// Gives the verdict on a parsed version and a read tag.
pub fn judge(parsed: Option<Version>, tag: &Option<Option<Version>>) -> (r: Result<
    Version,
    DiscoveryError,
>)
    ensures
        match judged(option_view(parsed), reading_view(*tag)) {
            Ok(_) => r is Ok && parsed == Some(r->Ok_0),
            Err(e) => r == Err::<Version, _>(e),
        },
{
    match parsed {
        None => Err(DiscoveryError::InvalidVersion),
        Some(v) => {
            if v.has_build() {
                return Err(DiscoveryError::UnsupportedBuildMetadata);
            }
            if !v.is_prerelease() {
                match tag {
                    Some(Some(t)) => {
                        if !v.same_release(t) {
                            return Err(DiscoveryError::TagMismatch);
                        }
                    },
                    Some(None) => {
                        return Err(DiscoveryError::TagMismatch);
                    },
                    None => {},
                }
            }
            Ok(v)
        },
    }
}

/// The value of a version that may be missing.
pub open spec fn option_view(v: Option<Version>) -> Option<VersionView> {
    match v {
        Some(v) => Some(v@),
        None => None,
    }
}

/// The value of a read tag.
pub open spec fn reading_view(tag: Option<Option<Version>>) -> Option<Option<VersionView>> {
    match tag {
        Some(t) => Some(option_view(t)),
        None => None,
    }
}

/// Reads the most recent tag: its marker is taken off, and what is left is parsed.
pub fn read_tag(last_tag: &Option<String>) -> (r: Option<Option<Version>>)
    ensures
        reading_view(r) == tag_reading(text_view(*last_tag)),
{
    match last_tag {
        None => None,
        Some(tag) => match Version::parse(strip_marker(tag.as_str())) {
            Ok(v) => Some(Some(v)),
            Err(_) => Some(None),
        },
    }
}

/// The value of a text that may be missing.
pub open spec fn text_view(s: Option<String>) -> Option<Seq<char>> {
    match s {
        Some(s) => Some(s@),
        None => None,
    }
}

/// Settles the current version from the texts found in the well-known files and the
/// most recent tag.
pub fn locate(found: &Vec<String>, last_tag: &Option<String>) -> (r: Result<
    Version,
    DiscoveryError,
>)
    ensures
        match located(texts(found@), text_view(*last_tag)) {
            Ok(v) => r is Ok && r->Ok_0@ == v,
            Err(e) => r == Err::<Version, _>(e),
        },
{
    if found.len() == 0 {
        return Err(DiscoveryError::NoVersionFound);
    }
    assert(texts(found@)[0] == found@[0]@);
    if !all_equal(found.as_slice()) {
        return Err(DiscoveryError::InconsistentVersion);
    }
    let parsed = match Version::parse(found[0].as_str()) {
        Ok(v) => Some(v),
        Err(_) => None,
    };
    let tag = read_tag(last_tag);
    judge(parsed, &tag)
}

/// Settles the current version of a project from what its well-known files hold, in
/// their order, and from its most recent tag.
pub fn discover(files: &Vec<Vec<u8>>, last_tag: &Option<String>) -> (r: Result<
    Version,
    DiscoveryError,
>)
    ensures
        match located(versions_in(files@), text_view(*last_tag)) {
            Ok(v) => r is Ok && r->Ok_0@ == v,
            Err(e) => r == Err::<Version, _>(e),
        },
{
    let found = collect_versions(files);
    locate(&found, last_tag)
}

/// Names the tag for a new version.
pub fn tag_name(last_tag: &Option<String>, target: &Version) -> (r: String)
    ensures
        r@ == tag_named(text_view(*last_tag), target@),
{
    let bare = match last_tag {
        Some(tag) => !has_marker(tag.as_str()),
        None => false,
    };
    if bare {
        target.render()
    } else {
        proof {
            reveal_strlit("v");
            assert("v"@ =~= seq![tag_marker()]);
        }
        let mut r = String::from_str("v");
        r.append(target.render().as_str());
        r
    }
}

/// A version that is settled on is one that every well-known file states in the same
/// words, which are the text of the version; it carries no build metadata, and, where
/// it is a release and the project has a tag, it is the release that the tag names once
/// its marker is taken off.
pub proof fn law_located_is_agreed(found: Seq<Seq<char>>, last_tag: Option<Seq<char>>)
    requires
        located(found, last_tag) is Ok,
    ensures
        agreeing(found),
        parsed(found[0]) == Some(located(found, last_tag)->Ok_0),
        rendered(located(found, last_tag)->Ok_0) == found[0],
        located(found, last_tag)->Ok_0.build.len() == 0,
        located(found, last_tag)->Ok_0.pre.len() == 0 && last_tag is Some ==> (parsed(
            unmarked(last_tag->Some_0),
        ) matches Some(t) && same_release(located(found, last_tag)->Ok_0, t)),
{
}

/// The rule of the tag: where the files agree on a version without build metadata and
/// the project has a tag, the version is refused for the tag exactly when it is a
/// release and the tag, without its marker, does not name that release. A pre-release
/// is never refused for the tag.
pub proof fn law_tag_rule(found: Seq<Seq<char>>, tag: Seq<char>, v: VersionView)
    requires
        agreeing(found),
        parsed(found[0]) == Some(v),
        v.build.len() == 0,
    ensures
        located(found, Some(tag)) == Err::<VersionView, _>(DiscoveryError::TagMismatch) <==> v.pre.len()
            == 0 && !(parsed(unmarked(tag)) matches Some(t) && same_release(v, t)),
        located(found, Some(tag)) != Err::<VersionView, _>(DiscoveryError::TagMismatch)
            ==> located(found, Some(tag)) == Ok::<_, DiscoveryError>(v),
        located(found, None) == Ok::<_, DiscoveryError>(v),
{
}

/// A tag that is nothing but the marker, or nothing at all, names no release: a release
/// is refused for it.
pub proof fn law_bare_marker_refuses(found: Seq<Seq<char>>, tag: Seq<char>, v: VersionView)
    requires
        agreeing(found),
        parsed(found[0]) == Some(v),
        v.build.len() == 0,
        v.pre.len() == 0,
        unmarked(tag).len() == 0,
    ensures
        located(found, Some(tag)) == Err::<VersionView, _>(DiscoveryError::TagMismatch),
{
    if parsed(unmarked(tag)) is Some {
        let t = parsed(unmarked(tag))->Some_0;
        crate::version::law_text_begins_with_digit(t);
    }
}

/// Versions that differ as texts are never settled on, whatever the tag.
pub proof fn law_differing_texts_refused(
    found: Seq<Seq<char>>,
    last_tag: Option<Seq<char>>,
    i: int,
)
    requires
        0 <= i < found.len(),
        found[i] != found[0],
    ensures
        located(found, last_tag) == Err::<VersionView, _>(DiscoveryError::InconsistentVersion),
{
}

} // verus!
