//! Finding the files that mention the current version, and replacing it in them.

use crate::pattern::{
    assigned, find_group_spans, group_spans, is_assigned, loose_pattern, loose_pattern_text,
    precise_pattern, precise_pattern_text, Span,
};
use crate::text::{append_bytes, same_bytes, same_text};
use vstd::prelude::*;
use vstd::string::*;
use vstd::utf8::encode_utf8;

verus! {

/// How a file is searched, decided by its name alone.
#[derive(Debug, Clone, Copy, PartialEq, Eq, Structural)]
pub enum FileClassification {
    /// The manifest: only an assignment `version = "..."` counts.
    Precise,
    /// Any other file: every whole-word occurrence of the version counts.
    Loose,
    /// The lock file, which a build tool writes: never searched.
    Skip,
}

/// Why a file was not rewritten.
#[derive(Debug, Clone, Copy, PartialEq, Eq, Structural)]
pub enum RewriteError {
    /// The file is one that is never searched.
    Skipped,
    /// The pattern for the current version could not be compiled.
    Pattern,
    /// A reported span lies outside the text, overlaps the one before it, does not hold
    /// the current version, or holds it where it is no assigned value or no whole word.
    Spans,
    /// The plan names a file that is not there.
    Missing,
}

/// A file of the project: its name without directories, and what it holds.
#[derive(Debug)]
pub struct SourceFile {
    pub name: String,
    pub contents: Vec<u8>,
}

/// The class of a file name.
pub open spec fn classification(name: Seq<char>) -> FileClassification {
    if name == "Cargo.toml"@ {
        FileClassification::Precise
    } else if name == "Cargo.lock"@ {
        FileClassification::Skip
    } else {
        FileClassification::Loose
    }
}

/// The pattern by which a file of a class is searched for a version.
pub open spec fn pattern_of(class: FileClassification, version: Seq<char>) -> Seq<char> {
    if class == FileClassification::Precise {
        precise_pattern(version)
    } else {
        loose_pattern(version)
    }
}

/// Whether a file of the given class and text mentions the version: it is searched at
/// all, its pattern matches at least once, and what matched can be replaced.
pub open spec fn references(class: FileClassification, version: Seq<char>, text: Seq<u8>) -> bool {
    class != FileClassification::Skip && match group_spans(pattern_of(class, version), text) {
        Some(spans) => spans.len() > 0 && spans_fit(class, text, spans, 0, encode_utf8(version)),
        None => false,
    }
}

/// Whether a byte is an ASCII letter, an ASCII digit or an underscore.
pub open spec fn is_word_byte(b: u8) -> bool {
    ||| 48 <= b <= 57
    ||| 65 <= b <= 90
    ||| 97 <= b <= 122
    ||| b == 95
}

/// Whether the stretch of `text` from `start` to `end` stands as a word of its own: where
/// it begins with a word byte, no word byte stands in front of it, and where it ends with
/// one, none follows it.
pub open spec fn whole_word(text: Seq<u8>, start: int, end: int) -> bool {
    start < end ==> {
        &&& !(is_word_byte(text[start]) && start > 0 && is_word_byte(text[start - 1]))
        &&& !(is_word_byte(text[end - 1]) && end < text.len() && is_word_byte(text[end]))
    }
}

/// Whether a span of `text` is one that may be replaced in a file of the given class: it
/// holds exactly `expected`, and it is the value of an assignment to `version` in the
/// manifest and a whole word anywhere else.
pub open spec fn span_sound(
    class: FileClassification,
    text: Seq<u8>,
    start: int,
    end: int,
    expected: Seq<u8>,
) -> bool {
    &&& 0 <= start <= end <= text.len()
    &&& text.subrange(start, end) == expected
    &&& if class == FileClassification::Precise {
        assigned(text, start, end)
    } else {
        whole_word(text, start, end)
    }
}

/// Whether the spans can be replaced from left to right, starting at `from`: no span
/// that is present starts before the one before it ends, and each is sound.
pub open spec fn spans_fit(
    class: FileClassification,
    text: Seq<u8>,
    spans: Seq<Option<Span>>,
    from: int,
    expected: Seq<u8>,
) -> bool
    decreases spans.len(),
{
    if spans.len() == 0 {
        true
    } else {
        match spans[0] {
            None => spans_fit(class, text, spans.drop_first(), from, expected),
            Some((start, end)) => {
                &&& from <= start
                &&& span_sound(class, text, start as int, end as int, expected)
                &&& spans_fit(class, text, spans.drop_first(), end as int, expected)
            },
        }
    }
}

/// The text from `from` on, with every span that is present replaced by `replacement`
/// and every byte outside the spans kept.
pub open spec fn spliced(
    text: Seq<u8>,
    spans: Seq<Option<Span>>,
    from: int,
    replacement: Seq<u8>,
) -> Seq<u8>
    decreases spans.len(),
{
    if spans.len() == 0 {
        text.subrange(from, text.len() as int)
    } else {
        match spans[0] {
            None => spliced(text, spans.drop_first(), from, replacement),
            Some((start, end)) => text.subrange(from, start as int) + replacement + spliced(
                text,
                spans.drop_first(),
                end as int,
                replacement,
            ),
        }
    }
}

/// What rewriting a file gives: the new text, or the reason why there is none.
pub open spec fn rewritten(
    class: FileClassification,
    current: Seq<char>,
    target: Seq<char>,
    text: Seq<u8>,
) -> Result<Seq<u8>, RewriteError> {
    if class == FileClassification::Skip {
        Err(RewriteError::Skipped)
    } else {
        match group_spans(pattern_of(class, current), text) {
            None => Err(RewriteError::Pattern),
            Some(spans) => if spans_fit(class, text, spans, 0, encode_utf8(current)) {
                Ok(spliced(text, spans, 0, encode_utf8(target)))
            } else {
                Err(RewriteError::Spans)
            },
        }
    }
}

/// Whether `list` is the list of the files that mention the version: it names only such
/// files, in increasing order, and leaves none out.
pub open spec fn listing(files: Seq<SourceFile>, version: Seq<char>, list: Seq<usize>) -> bool {
    &&& forall|k: int|
        #![trigger list[k]]
        0 <= k < list.len() ==> list[k] < files.len() && references(
            classification(files[list[k] as int].name@),
            version,
            files[list[k] as int].contents@,
        )
    &&& forall|j: int, k: int| 0 <= j < k < list.len() ==> list[j] < list[k]
    &&& forall|i: int|
        0 <= i < files.len() && references(
            classification(#[trigger] files[i].name@),
            version,
            files[i].contents@,
        ) ==> list.contains(i as usize)
}

/// What rewriting the file at a position gives.
pub open spec fn outcome_at(
    files: Seq<SourceFile>,
    index: usize,
    current: Seq<char>,
    target: Seq<char>,
) -> Result<Seq<u8>, RewriteError> {
    if index < files.len() {
        rewritten(
            classification(files[index as int].name@),
            current,
            target,
            files[index as int].contents@,
        )
    } else {
        Err(RewriteError::Missing)
    }
}

/// Classifies a file by its name.
pub fn classify(name: &str) -> (r: FileClassification)
    ensures
        r == classification(name@),
{
    if same_text(name, "Cargo.toml") {
        FileClassification::Precise
    } else if same_text(name, "Cargo.lock") {
        FileClassification::Skip
    } else {
        FileClassification::Loose
    }
}

/// Builds the pattern by which a file of a class is searched for a version.
pub fn pattern_text(class: FileClassification, version: &str) -> (r: String)
    ensures
        r@ == pattern_of(class, version@),
{
    match class {
        FileClassification::Precise => precise_pattern_text(version),
        _ => loose_pattern_text(version),
    }
}

/// Tells whether a byte is an ASCII letter, an ASCII digit or an underscore.
pub fn word_byte(b: u8) -> (r: bool)
    ensures
        r == is_word_byte(b),
{
    (48 <= b && b <= 57) || (65 <= b && b <= 90) || (97 <= b && b <= 122) || b == 95
}

/// Tells whether a span of `text` may be replaced in a file of the given class.
pub fn sound_span(
    class: FileClassification,
    text: &[u8],
    start: usize,
    end: usize,
    expected: &[u8],
) -> (r: bool)
    ensures
        r == span_sound(class, text@, start as int, end as int, expected@),
{
    if !(start <= end && end <= text.len()) {
        return false;
    }
    if !same_bytes(&text[start..end], expected) {
        return false;
    }
    match class {
        FileClassification::Precise => is_assigned(text, start, end),
        _ => {
            if start == end {
                true
            } else {
                let joined_left = word_byte(text[start]) && start > 0 && word_byte(text[start - 1]);
                let joined_right = word_byte(text[end - 1]) && end < text.len() && word_byte(
                    text[end],
                );
                !joined_left && !joined_right
            }
        },
    }
}

/// Tells whether the spans fit the text: whether `substitute` would replace them.
pub fn fit(class: FileClassification, text: &[u8], spans: &Vec<Option<Span>>, expected: &[u8]) -> (r:
    bool)
    ensures
        r == spans_fit(class, text@, spans@, 0, expected@),
{
    let mut pos: usize = 0;
    let mut i: usize = 0;
    let n: usize = spans.len();
    assert(spans@.subrange(0, n as int) =~= spans@);
    while i < n
        invariant
            n == spans.len(),
            i <= n,
            spans_fit(class, text@, spans@, 0, expected@) == spans_fit(
                class,
                text@,
                spans@.subrange(i as int, n as int),
                pos as int,
                expected@,
            ),
        decreases n - i,
    {
        let ghost rest = spans@.subrange(i as int, n as int);
        assert(rest.drop_first() =~= spans@.subrange(i + 1, n as int));
        assert(rest[0] == spans@[i as int]);
        let entry: Option<Span> = spans[i];
        match entry {
            None => {},
            Some((start, end)) => {
                if !(pos <= start && sound_span(class, text, start, end, expected)) {
                    return false;
                }
                pos = end;
            },
        }
        i += 1;
    }
    true
}

/// Replaces the spans of `text` by `replacement`, from left to right, keeping every byte
/// outside them. There is a result exactly when the spans fit the text: whatever the
/// search reported, nothing is replaced but sound spans.
pub fn substitute(
    class: FileClassification,
    text: &[u8],
    spans: &Vec<Option<Span>>,
    expected: &[u8],
    replacement: &[u8],
) -> (r: Option<Vec<u8>>)
    ensures
        r is Some <==> spans_fit(class, text@, spans@, 0, expected@),
        r matches Some(out) ==> out@ == spliced(text@, spans@, 0, replacement@),
{
    let mut out: Vec<u8> = Vec::new();
    let mut pos: usize = 0;
    let mut i: usize = 0;
    let n: usize = spans.len();
    assert(spans@.subrange(0, n as int) =~= spans@);
    while i < n
        invariant
            n == spans.len(),
            i <= n,
            pos <= text.len(),
            spans_fit(class, text@, spans@, 0, expected@) == spans_fit(
                class,
                text@,
                spans@.subrange(i as int, n as int),
                pos as int,
                expected@,
            ),
            spliced(text@, spans@, 0, replacement@) == out@ + spliced(
                text@,
                spans@.subrange(i as int, n as int),
                pos as int,
                replacement@,
            ),
        decreases n - i,
    {
        let ghost rest = spans@.subrange(i as int, n as int);
        assert(rest.drop_first() =~= spans@.subrange(i + 1, n as int));
        assert(rest[0] == spans@[i as int]);
        let entry: Option<Span> = spans[i];
        match entry {
            None => {},
            Some((start, end)) => {
                if !(pos <= start && sound_span(class, text, start, end, expected)) {
                    return None;
                }
                let ghost before = out@;
                append_bytes(&mut out, &text[pos..start]);
                append_bytes(&mut out, replacement);
                assert(before + (text@.subrange(pos as int, start as int) + replacement@ + spliced(
                    text@,
                    rest.drop_first(),
                    end as int,
                    replacement@,
                )) =~= out@ + spliced(text@, rest.drop_first(), end as int, replacement@));
                pos = end;
            },
        }
        i += 1;
    }
    append_bytes(&mut out, &text[pos..text.len()]);
    Some(out)
}

/// Tells whether a file of the given class and text mentions the version.
pub fn mentions(class: FileClassification, version: &str, text: &[u8]) -> (r: bool)
    ensures
        r == references(class, version@, text@),
{
    match class {
        FileClassification::Skip => false,
        _ => {
            let pattern = pattern_text(class, version);
            match find_group_spans(pattern.as_str(), text) {
                Ok(spans) => spans.len() > 0 && fit(class, text, &spans, version.as_bytes()),
                Err(_) => false,
            }
        },
    }
}

/// Rewrites the text of a file of the given class: every mention of `current` becomes
/// `target`, and nothing else changes.
pub fn rewrite(class: FileClassification, current: &str, target: &str, text: &[u8]) -> (r: Result<
    Vec<u8>,
    RewriteError,
>)
    ensures
        match rewritten(class, current@, target@, text@) {
            Ok(out) => r matches Ok(v) && v@ == out,
            Err(e) => r == Err::<Vec<u8>, _>(e),
        },
{
    match class {
        FileClassification::Skip => Err(RewriteError::Skipped),
        _ => {
            let pattern = pattern_text(class, current);
            match find_group_spans(pattern.as_str(), text) {
                Err(_) => Err(RewriteError::Pattern),
                Ok(spans) => match substitute(
                    class,
                    text,
                    &spans,
                    current.as_bytes(),
                    target.as_bytes(),
                ) {
                    Some(out) => Ok(out),
                    None => Err(RewriteError::Spans),
                },
            }
        },
    }
}

/// Lists, in increasing order, the positions of the files that mention the version.
/// Nothing is changed: this is the plan that is shown before anything is written.
pub fn plan(files: &Vec<SourceFile>, version: &str) -> (r: Vec<usize>)
    ensures
        listing(files@, version@, r@),
{
    let mut r: Vec<usize> = Vec::new();
    let mut i: usize = 0;
    while i < files.len()
        invariant
            i <= files.len(),
            forall|k: int|
                #![trigger r[k]]
                0 <= k < r.len() ==> r[k] < i && references(
                    classification(files[r[k] as int].name@),
                    version@,
                    files[r[k] as int].contents@,
                ),
            forall|j: int, k: int| 0 <= j < k < r.len() ==> r[j] < r[k],
            forall|m: int|
                0 <= m < i && references(
                    classification(#[trigger] files[m].name@),
                    version@,
                    files[m].contents@,
                ) ==> r@.contains(m as usize),
        decreases files.len() - i,
    {
        let class = classify(files[i].name.as_str());
        if mentions(class, version, files[i].contents.as_slice()) {
            let ghost before = r@;
            r.push(i);
            assert(r@[r.len() - 1] == i);
            assert forall|m: int|
                0 <= m < i + 1 && references(
                    classification(#[trigger] files[m].name@),
                    version@,
                    files[m].contents@,
                ) implies r@.contains(m as usize) by {
                if m < i {
                    let w = choose|w: int| 0 <= w < before.len() && before[w] == m as usize;
                    assert(r@[w] == m as usize);
                } else {
                    assert(r@[r.len() - 1] == m as usize);
                }
            }
        }
        i += 1;
    }
    r
}

/// Computes the new text of every listed file, in the order of the list, without
/// writing anything. The first file that cannot be rewritten ends the work with its error.
pub fn rewrite_all(files: &Vec<SourceFile>, listed: &Vec<usize>, current: &str, target: &str) -> (r:
    Result<Vec<Vec<u8>>, RewriteError>)
    ensures
        match r {
            Ok(out) => {
                &&& out.len() == listed.len()
                &&& forall|k: int|
                    0 <= k < listed.len() ==> outcome_at(
                        files@,
                        #[trigger] listed[k],
                        current@,
                        target@,
                    ) == Ok::<_, RewriteError>(out[k]@)
            },
            Err(e) => exists|k: int|
                {
                    &&& 0 <= k < listed.len()
                    &&& outcome_at(files@, #[trigger] listed[k], current@, target@) == Err::<
                        Seq<u8>,
                        _,
                    >(e)
                    &&& forall|j: int|
                        0 <= j < k ==> outcome_at(files@, #[trigger] listed[j], current@, target@) is Ok
                },
        },
{
    let mut out: Vec<Vec<u8>> = Vec::new();
    let mut k: usize = 0;
    while k < listed.len()
        invariant
            k <= listed.len(),
            out.len() == k,
            forall|j: int|
                0 <= j < k ==> outcome_at(files@, #[trigger] listed[j], current@, target@) == Ok::<
                    _,
                    RewriteError,
                >(out[j]@),
        decreases listed.len() - k,
    {
        let index: usize = listed[k];
        if index >= files.len() {
            assert(outcome_at(files@, listed[k as int], current@, target@) == Err::<Seq<u8>, _>(
                RewriteError::Missing,
            ));
            return Err(RewriteError::Missing);
        }
        let file = &files[index];
        match rewrite(classify(file.name.as_str()), current, target, file.contents.as_slice()) {
            Ok(text) => {
                out.push(text);
            },
            Err(e) => {
                assert(outcome_at(files@, listed[k as int], current@, target@) == Err::<Seq<u8>, _>(
                    e,
                ));
                return Err(e);
            },
        }
        k += 1;
    }
    Ok(out)
}

/// Replacing every mention of a version by the same version changes nothing.
pub proof fn law_same_target(
    class: FileClassification,
    text: Seq<u8>,
    spans: Seq<Option<Span>>,
    from: int,
    version: Seq<u8>,
)
    requires
        0 <= from <= text.len(),
        spans_fit(class, text, spans, from, version),
    ensures
        spliced(text, spans, from, version) == text.subrange(from, text.len() as int),
    decreases spans.len(),
{
    if spans.len() > 0 {
        match spans[0] {
            None => {
                law_same_target(class, text, spans.drop_first(), from, version);
            },
            Some((start, end)) => {
                law_same_target(class, text, spans.drop_first(), end as int, version);
                assert(text.subrange(from, start as int) + text.subrange(start as int, end as int)
                    + text.subrange(end as int, text.len() as int) =~= text.subrange(
                    from,
                    text.len() as int,
                ));
            },
        }
    }
}

/// Rewriting keeps everything in front of the first mention: the new text begins with
/// the bytes that the old text has there.
pub proof fn law_prefix_kept(
    class: FileClassification,
    text: Seq<u8>,
    spans: Seq<Option<Span>>,
    from: int,
    expected: Seq<u8>,
    replacement: Seq<u8>,
    start: int,
)
    requires
        0 <= from <= start <= text.len(),
        spans_fit(class, text, spans, from, expected),
        forall|i: int| 0 <= i < spans.len() ==> (#[trigger] spans[i] matches Some(s) ==> start <= s.0),
    ensures
        spliced(text, spans, from, replacement).len() >= start - from,
        spliced(text, spans, from, replacement).subrange(0, start - from) == text.subrange(
            from,
            start,
        ),
    decreases spans.len(),
{
    if spans.len() > 0 {
        let rest = spans.drop_first();
        assert forall|i: int| 0 <= i < rest.len() implies (#[trigger] rest[i] matches Some(s)
            ==> start <= s.0) by {
            assert(rest[i] == spans[i + 1]);
        }
        match spans[0] {
            None => {
                law_prefix_kept(class, text, rest, from, expected, replacement, start);
            },
            Some((s, e)) => {
                assert(spliced(text, spans, from, replacement).subrange(0, start - from)
                    =~= text.subrange(from, start));
            },
        }
    } else {
        assert(spliced(text, spans, from, replacement).subrange(0, start - from) =~= text.subrange(
            from,
            start,
        ));
    }
}

/// A text with one mention is rewritten to what stands in front of the mention, the new
/// version, and what stands behind the mention: nothing else changes.
pub proof fn law_single_mention(
    class: FileClassification,
    text: Seq<u8>,
    start: usize,
    end: usize,
    expected: Seq<u8>,
    replacement: Seq<u8>,
)
    requires
        spans_fit(class, text, seq![Some((start, end))], 0, expected),
    ensures
        spliced(text, seq![Some((start, end))], 0, replacement) == text.subrange(0, start as int)
            + replacement + text.subrange(end as int, text.len() as int),
        text == text.subrange(0, start as int) + expected + text.subrange(
            end as int,
            text.len() as int,
        ),
{
    let spans = seq![Some((start, end))];
    assert(spans.drop_first().len() == 0);
    assert(spliced(text, spans.drop_first(), end as int, replacement) == text.subrange(
        end as int,
        text.len() as int,
    ));
    assert(text =~= text.subrange(0, start as int) + text.subrange(start as int, end as int)
        + text.subrange(end as int, text.len() as int));
}

/// Every file that is listed can be rewritten, to any version: the write never meets a
/// file that the plan should not have named.
pub proof fn law_listed_files_rewrite(
    files: Seq<SourceFile>,
    current: Seq<char>,
    target: Seq<char>,
    list: Seq<usize>,
    k: int,
)
    requires
        listing(files, current, list),
        0 <= k < list.len(),
    ensures
        outcome_at(files, list[k], current, target) is Ok,
{
}

/// Only sound spans are replaced: in the manifest every replaced span is the value of
/// an assignment to `version` and holds the current version, and in any other file it
/// is a whole word that holds it, whatever the search reported.
pub proof fn law_replaced_spans_sound(
    class: FileClassification,
    text: Seq<u8>,
    spans: Seq<Option<Span>>,
    from: int,
    expected: Seq<u8>,
    i: int,
)
    requires
        spans_fit(class, text, spans, from, expected),
        0 <= i < spans.len(),
        spans[i] is Some,
    ensures
        from <= spans[i]->Some_0.0,
        span_sound(
            class,
            text,
            spans[i]->Some_0.0 as int,
            spans[i]->Some_0.1 as int,
            expected,
        ),
    decreases spans.len(),
{
    if i > 0 {
        let rest = spans.drop_first();
        assert(rest[i - 1] == spans[i]);
        match spans[0] {
            None => {
                law_replaced_spans_sound(class, text, rest, from, expected, i - 1);
            },
            Some((start, end)) => {
                law_replaced_spans_sound(class, text, rest, end as int, expected, i - 1);
            },
        }
    }
}

/// Whether the version stands in `text` only as a part of longer words: wherever its
/// bytes occur, a letter, a digit or an underscore is joined to them.
pub open spec fn occurs_only_inside_words(text: Seq<u8>, version: Seq<u8>) -> bool {
    forall|start: int, end: int|
        0 <= start <= end <= text.len() && #[trigger] text.subrange(start, end) == version
            ==> !whole_word(text, start, end)
}

/// A file other than the manifest in which the version stands only inside longer words,
/// as `1.0.0` does in `11.0.0` and in `1.0.00`, is never changed, whatever the search
/// reported.
pub proof fn law_inside_longer_word_unchanged(
    text: Seq<u8>,
    spans: Seq<Option<Span>>,
    from: int,
    version: Seq<u8>,
    replacement: Seq<u8>,
)
    requires
        0 <= from <= text.len(),
        occurs_only_inside_words(text, version),
        spans_fit(FileClassification::Loose, text, spans, from, version),
    ensures
        spliced(text, spans, from, replacement) == text.subrange(from, text.len() as int),
    decreases spans.len(),
{
    if spans.len() > 0 {
        match spans[0] {
            None => {
                law_inside_longer_word_unchanged(
                    text,
                    spans.drop_first(),
                    from,
                    version,
                    replacement,
                );
            },
            Some((start, end)) => {
                assert(text.subrange(start as int, end as int) == version);
                assert(!whole_word(text, start as int, end as int));
            },
        }
    }
}

} // verus!
