//! Small tools for texts and byte strings.

use vstd::prelude::*;
use vstd::string::*;

verus! {

/// Compares two texts.
pub fn same_text(a: &str, b: &str) -> (r: bool)
    ensures
        r == (a@ == b@),
{
    proof {
        vstd::utf8::encode_utf8_decode_utf8(a@);
        vstd::utf8::encode_utf8_decode_utf8(b@);
    }
    same_bytes(a.as_bytes(), b.as_bytes())
}

/// Compares two byte strings.
pub fn same_bytes(a: &[u8], b: &[u8]) -> (r: bool)
    ensures
        r == (a@ == b@),
{
    if a.len() != b.len() {
        return false;
    }
    let mut i: usize = 0;
    while i < a.len()
        invariant
            a.len() == b.len(),
            i <= a.len(),
            forall|k: int| 0 <= k < i ==> a@[k] == b@[k],
        decreases a.len() - i,
    {
        if a[i] != b[i] {
            return false;
        }
        i += 1;
    }
    assert(a@ =~= b@);
    true
}

/// Appends a byte string to a buffer.
pub fn append_bytes(out: &mut Vec<u8>, piece: &[u8])
    ensures
        final(out)@ == old(out)@ + piece@,
{
    let mut i: usize = 0;
    while i < piece.len()
        invariant
            i <= piece.len(),
            out@ == old(out)@ + piece@.subrange(0, i as int),
        decreases piece.len() - i,
    {
        out.push(piece[i]);
        i += 1;
        assert(out@ =~= old(out)@ + piece@.subrange(0, i as int));
    }
    assert(piece@.subrange(0, i as int) =~= piece@);
}

/// The code of a character, with the code of the small letter for an ASCII capital.
pub open spec fn folded(c: char) -> u32 {
    if 65 <= (c as u32) <= 90 {
        ((c as u32) + 32) as u32
    } else {
        c as u32
    }
}

/// Whether two texts are the same but for the case of their ASCII letters.
pub open spec fn same_letters(a: Seq<char>, b: Seq<char>) -> bool {
    a.len() == b.len() && forall|i: int| 0 <= i < a.len() ==> folded(#[trigger] a[i]) == folded(b[i])
}

/// Gives the code of a character, and for an ASCII capital the code of the small letter.
pub fn fold(c: char) -> (r: u32)
    ensures
        r == folded(c),
{
    let code: u32 = c as u32;
    if 65 <= code && code <= 90 {
        code + 32
    } else {
        code
    }
}

/// Compares two texts without regard to the case of their ASCII letters.
pub fn same_ignoring_case(a: &str, b: &str) -> (r: bool)
    ensures
        r == same_letters(a@, b@),
{
    let n: usize = a.unicode_len();
    if n != b.unicode_len() {
        return false;
    }
    let mut i: usize = 0;
    while i < n
        invariant
            i <= n,
            n == a@.len(),
            n == b@.len(),
            forall|k: int| 0 <= k < i ==> folded(#[trigger] a@[k]) == folded(b@[k]),
        decreases n - i,
    {
        if fold(a.get_char(i)) != fold(b.get_char(i)) {
            return false;
        }
        i += 1;
    }
    true
}

/// What `char::is_whitespace` says of a character.
pub uninterp spec fn whitespace(c: char) -> bool;

/// Calls `char::is_whitespace`.
///
/// Trusted: the outcome is `whitespace` of the character.
#[verifier::external_body]
fn is_whitespace(c: char) -> (r: bool)
    ensures
        r == whitespace(c),
{
    c.is_whitespace()
}

/// Whether `inner` is `text` without the whitespace at its two ends: it is a stretch of
/// `text` with nothing but whitespace on either side of it, and it neither begins nor
/// ends with whitespace.
pub open spec fn is_trim_of(inner: Seq<char>, text: Seq<char>) -> bool {
    exists|i: int, j: int|
        {
            &&& 0 <= i <= j <= text.len()
            &&& inner == #[trigger] text.subrange(i, j)
            &&& forall|k: int| 0 <= k < i ==> whitespace(#[trigger] text[k])
            &&& forall|k: int| j <= k < text.len() ==> whitespace(#[trigger] text[k])
            &&& i < j ==> !whitespace(text[i]) && !whitespace(text[j - 1])
        }
}

/// Takes the whitespace off both ends of a text.
pub fn trim(text: &str) -> (r: &str)
    ensures
        is_trim_of(r@, text@),
{
    let n: usize = text.unicode_len();
    let mut i: usize = 0;
    while i < n && is_whitespace(text.get_char(i))
        invariant
            i <= n,
            n == text@.len(),
            forall|k: int| 0 <= k < i ==> whitespace(#[trigger] text@[k]),
        decreases n - i,
    {
        i += 1;
    }
    let mut j: usize = n;
    while j > i && is_whitespace(text.get_char(j - 1))
        invariant
            i <= j <= n,
            n == text@.len(),
            forall|k: int| j <= k < n ==> whitespace(#[trigger] text@[k]),
        decreases j,
    {
        j -= 1;
    }
    let r = text.substring_char(i, j);
    assert(r@ == text@.subrange(i as int, j as int));
    r
}

} // verus!
