//! The search patterns that find a version in a file, and the search itself.

use vstd::prelude::*;
use vstd::string::*;

verus! {

/// The byte span of one capture: where it starts and where it ends.
pub type Span = (usize, usize);

/// What the regex crate finds when `pattern` is searched for in `text`: `None` where the
/// pattern does not compile; else one entry for each successive match, in the order of
/// the matches, giving the byte span of the first capture group, or `None` where that
/// group took no part in the match.
pub uninterp spec fn group_spans(pattern: Seq<char>, text: Seq<u8>) -> Option<Seq<Option<Span>>>;

/// Whether a character is one of the eighteen that mean something in a pattern.
pub open spec fn is_meta(c: char) -> bool {
    ||| c == '\\'
    ||| c == '.'
    ||| c == '+'
    ||| c == '*'
    ||| c == '?'
    ||| c == '('
    ||| c == ')'
    ||| c == '|'
    ||| c == '['
    ||| c == ']'
    ||| c == '{'
    ||| c == '}'
    ||| c == '^'
    ||| c == '$'
    ||| c == '#'
    ||| c == '&'
    ||| c == '-'
    ||| c == '~'
}

/// A text as a pattern that matches it literally: every character stays, with a
/// backslash in front of each that means something in a pattern.
pub open spec fn escaped(text: Seq<char>) -> Seq<char>
    decreases text.len(),
{
    if text.len() == 0 {
        Seq::<char>::empty()
    } else if is_meta(text.last()) {
        escaped(text.drop_last()).push('\\').push(text.last())
    } else {
        escaped(text.drop_last()).push(text.last())
    }
}

#[verifier::external_type_specification]
#[verifier::external_body]
pub struct ExRegexError(regex::Error);

/// Compiles `pattern` with `regex::bytes::Regex::new`, walks `text` with
/// `Regex::captures_iter` and reads the span of group 1 of each match with
/// `Captures::get`, `Match::start` and `Match::end`.
///
/// Trusted: the outcome is `group_spans` of the pattern and the text. Nothing is claimed
/// about where the spans lie; callers check that themselves.
#[verifier::external_body]
pub(crate) fn find_group_spans(pattern: &str, text: &[u8]) -> (r: Result<
    Vec<Option<Span>>,
    regex::Error,
>)
    ensures
        match r {
            Ok(spans) => group_spans(pattern@, text@) == Some(spans@),
            Err(_) => group_spans(pattern@, text@) is None,
        },
{
    match regex::bytes::Regex::new(pattern) {
        Ok(re) => Ok(
            re.captures_iter(text).map(|c| c.get(1).map(|m| (m.start(), m.end()))).collect(),
        ),
        Err(e) => Err(e),
    }
}

/// Calls `regex::escape`.
///
/// Trusted: the outcome is `escaped` of the text, which is what the crate's source does:
/// it copies the text and puts a backslash in front of each of its eighteen meta
/// characters.
#[verifier::external_body]
pub(crate) fn escape(text: &str) -> (r: String)
    ensures
        r@ == escaped(text@),
{
    regex::escape(text)
}

/// Calls `String::from_utf8`.
///
/// Trusted: it succeeds exactly on valid UTF-8, and the string it gives is made of the
/// bytes it was given.
#[verifier::external_body]
pub(crate) fn utf8_string(bytes: Vec<u8>) -> (r: Option<String>)
    ensures
        r is Some <==> vstd::utf8::valid_utf8(bytes@),
        r matches Some(s) ==> vstd::utf8::encode_utf8(s@) == bytes@,
{
    String::from_utf8(bytes).ok()
}

/// A text without meta characters is its own pattern.
pub proof fn law_plain_text_unescaped(text: Seq<char>)
    requires
        forall|i: int| 0 <= i < text.len() ==> !is_meta(#[trigger] text[i]),
    ensures
        escaped(text) == text,
    decreases text.len(),
{
    if text.len() > 0 {
        law_plain_text_unescaped(text.drop_last());
        assert(text.drop_last().push(text.last()) =~= text);
    }
}

/// Escaping loses nothing: taking out the backslashes that escaping put in gives the
/// text back, so two texts with the same pattern are the same text.
pub proof fn law_escaping_is_faithful(a: Seq<char>, b: Seq<char>)
    requires
        escaped(a) == escaped(b),
    ensures
        a == b,
    decreases a.len(),
{
    if a.len() == 0 {
        if b.len() > 0 {
            assert(escaped(b).len() > 0);
        }
        assert(a =~= b);
    } else {
        assert(escaped(a).len() > 0);
        assert(b.len() > 0);
        assert(escaped(a).last() == a.last());
        assert(escaped(b).last() == b.last());
        let ea = escaped(a.drop_last());
        let eb = escaped(b.drop_last());
        if is_meta(a.last()) {
            assert(escaped(a).drop_last().drop_last() =~= ea);
            assert(escaped(b).drop_last().drop_last() =~= eb);
        } else {
            assert(escaped(a).drop_last() =~= ea);
            assert(escaped(b).drop_last() =~= eb);
        }
        law_escaping_is_faithful(a.drop_last(), b.drop_last());
        assert(a =~= a.drop_last().push(a.last()));
        assert(b =~= b.drop_last().push(b.last()));
    }
}

/// An ASCII capital letter as a small one; any other byte as it is.
pub open spec fn lowered(b: u8) -> u8 {
    if 65 <= b <= 90 {
        (b + 32) as u8
    } else {
        b
    }
}

/// Whether the key `version`, in any letter case, ends just in front of position `k`.
pub open spec fn key_ends_at(text: Seq<u8>, k: int) -> bool {
    &&& 7 <= k <= text.len()
    &&& lowered(text[k - 7]) == 118
    &&& lowered(text[k - 6]) == 101
    &&& lowered(text[k - 5]) == 114
    &&& lowered(text[k - 4]) == 115
    &&& lowered(text[k - 3]) == 105
    &&& lowered(text[k - 2]) == 111
    &&& lowered(text[k - 1]) == 110
}

/// Whether the stretch of `text` from `start` to `end` stands between two double quotes.
pub open spec fn quoted(text: Seq<u8>, start: int, end: int) -> bool {
    0 < start <= end < text.len() && text[start - 1] == 34 && text[end] == 34
}

/// Whether `=` stands just in front of position `k`, after the key `version` and at most
/// one blank.
pub open spec fn key_assigned_at(text: Seq<u8>, k: int) -> bool {
    &&& 1 <= k <= text.len()
    &&& text[k - 1] == 61
    &&& (key_ends_at(text, k - 1) || (k >= 2 && text[k - 2] == 32 && key_ends_at(text, k - 2)))
}

/// Whether the stretch of `text` from `start` to `end` is the value of an assignment
/// `version = "..."`: it stands between double quotes, and in front of the opening quote
/// stand the key in any letter case and `=`, with at most one blank on either side of
/// `=`.
pub open spec fn assigned(text: Seq<u8>, start: int, end: int) -> bool {
    &&& quoted(text, start, end)
    &&& (key_assigned_at(text, start - 1) || (start >= 2 && text[start - 2] == 32
        && key_assigned_at(text, start - 2)))
}

/// Tells whether the key `version` ends just in front of position `k`.
pub fn key_ends(text: &[u8], k: usize) -> (r: bool)
    ensures
        r == key_ends_at(text@, k as int),
{
    7 <= k && k <= text.len() && lower(text[k - 7]) == 118 && lower(text[k - 6]) == 101 && lower(
        text[k - 5],
    ) == 114 && lower(text[k - 4]) == 115 && lower(text[k - 3]) == 105 && lower(text[k - 2]) == 111
        && lower(text[k - 1]) == 110
}

/// Writes an ASCII capital letter as a small one.
pub fn lower(b: u8) -> (r: u8)
    ensures
        r == lowered(b),
{
    if 65 <= b && b <= 90 {
        b + 32
    } else {
        b
    }
}

/// Tells whether `=` stands just in front of position `k`, after the key and at most one
/// blank.
pub fn key_assigned(text: &[u8], k: usize) -> (r: bool)
    ensures
        r == key_assigned_at(text@, k as int),
{
    1 <= k && k <= text.len() && text[k - 1] == 61 && (key_ends(text, k - 1) || (k >= 2 && text[k
        - 2] == 32 && key_ends(text, k - 2)))
}

/// Tells whether a stretch of `text` is the value of an assignment `version = "..."`.
pub fn is_assigned(text: &[u8], start: usize, end: usize) -> (r: bool)
    ensures
        r == assigned(text@, start as int, end as int),
{
    0 < start && start <= end && end < text.len() && text[start - 1] == 34 && text[end] == 34 && (
    key_assigned(text, start - 1) || (start >= 2 && text[start - 2] == 32 && key_assigned(
        text,
        start - 2,
    )))
}

/// The pattern of an assignment `version = "..."` with any value: the key in any letter
/// case, at most one blank on either side of `=`, the value captured.
pub open spec fn assignment_pattern() -> Seq<char> {
    "(?i-u:version) ?= ?\"([^\"]+)\""@
}

/// The pattern of an assignment `version = "VERSION"` of the given version, which is
/// taken literally and captured.
pub open spec fn precise_pattern(version: Seq<char>) -> Seq<char> {
    "(?i-u:version) ?= ?\"("@ + escaped(version) + ")\""@
}

/// The pattern of the given version as a whole word, taken literally and captured.
pub open spec fn loose_pattern(version: Seq<char>) -> Seq<char> {
    "\\b("@ + escaped(version) + ")\\b"@
}

/// Builds `assignment_pattern`.
pub fn assignment_pattern_text() -> (r: &'static str)
    ensures
        r@ == assignment_pattern(),
{
    "(?i-u:version) ?= ?\"([^\"]+)\""
}

/// Builds `precise_pattern` for a version.
pub fn precise_pattern_text(version: &str) -> (r: String)
    ensures
        r@ == precise_pattern(version@),
{
    let mut r = String::from_str("(?i-u:version) ?= ?\"(");
    r.append(escape(version).as_str());
    r.append(")\"");
    r
}

/// Builds `loose_pattern` for a version.
pub fn loose_pattern_text(version: &str) -> (r: String)
    ensures
        r@ == loose_pattern(version@),
{
    let mut r = String::from_str("\\b(");
    r.append(escape(version).as_str());
    r.append(")\\b");
    r
}

} // verus!
