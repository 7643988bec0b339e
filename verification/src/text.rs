//! Substring search and trimming over the characters of a string.

use vstd::prelude::*;
use vstd::string::StrSliceExecFns;

verus! {

/// `pattern` stands in `text` at offset `at`.
pub open spec fn occurs_at(text: Seq<char>, pattern: Seq<char>, at: int) -> bool {
    &&& 0 <= at
    &&& at + pattern.len() <= text.len()
    &&& text.subrange(at, at + pattern.len()) == pattern
}

/// `pattern` stands somewhere in `text`.
pub open spec fn contains(text: Seq<char>, pattern: Seq<char>) -> bool {
    exists|at: int| occurs_at(text, pattern, at)
}

/// Every character of a pattern that stands in a text occurs in the text.
pub proof fn lemma_pattern_chars_occur(text: Seq<char>, pattern: Seq<char>, k: int)
    requires
        contains(text, pattern),
        0 <= k < pattern.len(),
    ensures
        exists|j: int| 0 <= j < text.len() && text[j] == pattern[k],
{
    let at = choose|at: int| occurs_at(text, pattern, at);
    assert(text.subrange(at, at + pattern.len())[k] == text[at + k]);
}

/// A text that contains a pattern contains whatever the pattern contains.
pub proof fn lemma_contains_transitive(text: Seq<char>, pattern: Seq<char>, inner: Seq<char>)
    requires
        contains(text, pattern),
        contains(pattern, inner),
    ensures
        contains(text, inner),
{
    let at = choose|at: int| occurs_at(text, pattern, at);
    let off = choose|off: int| occurs_at(pattern, inner, off);
    let found = text.subrange(at + off, at + off + inner.len());
    assert forall|i: int| 0 <= i < inner.len() implies #[trigger] found[i] == inner[i] by {
        assert(text.subrange(at, at + pattern.len())[off + i] == text[at + off + i]);
        assert(pattern.subrange(off, off + inner.len())[i] == pattern[off + i]);
    }
    assert(found =~= inner);
    assert(occurs_at(text, inner, at + off));
}

/// The characters of `s`, in order.
pub fn chars_of(s: &str) -> (chars: Vec<char>)
    ensures
        chars@ == s@,
{
    let mut chars: Vec<char> = Vec::new();
    for c in it: s.chars()
        invariant
            chars@ == it.seq().take(it.index()),
            it.seq() == s@,
    {
        chars.push(c);
    }
    chars
}

/// Whether `pattern` stands in `text` at offset `at`.
fn matches_at(text: &Vec<char>, pattern: &Vec<char>, at: usize) -> (found: bool)
    requires
        at + pattern.len() <= text.len(),
    ensures
        found == occurs_at(text@, pattern@, at as int),
{
    let mut k: usize = 0;
    while k < pattern.len()
        invariant
            k <= pattern.len(),
            at + pattern.len() <= text.len(),
            forall|j: int| 0 <= j < k ==> text@[at + j] == pattern@[j],
        decreases pattern.len() - k,
    {
        if text[at + k] != pattern[k] {
            assert(text@.subrange(at as int, at + pattern.len())[k as int] == text@[at + k]);
            return false;
        }
        k += 1;
    }
    assert(text@.subrange(at as int, at + pattern.len()) =~= pattern@);
    true
}

/// Whether `pattern` stands somewhere in `text`, tried at each offset from
/// the left.
pub fn chars_contain(text: &Vec<char>, pattern: &Vec<char>) -> (found: bool)
    ensures
        found == contains(text@, pattern@),
{
    if pattern.len() > text.len() {
        return false;
    }
    let last: usize = text.len() - pattern.len();
    let mut at: usize = 0;
    while at < last
        invariant
            at <= last,
            last == text.len() - pattern.len(),
            forall|i: int| 0 <= i < at ==> !occurs_at(text@, pattern@, i),
        decreases last - at,
    {
        if matches_at(text, pattern, at) {
            return true;
        }
        at += 1;
    }
    matches_at(text, pattern, last)
}

/// Whether `text` and `other` hold the same characters.
pub fn chars_equal(text: &Vec<char>, other: &Vec<char>) -> (same: bool)
    ensures
        same == (text@ == other@),
{
    if text.len() != other.len() {
        return false;
    }
    let same = matches_at(text, other, 0);
    assert(text@.subrange(0, text@.len() as int) =~= text@);
    same
}

/// Whether the string `pattern` stands somewhere in the string `text`.
pub fn str_contains(text: &str, pattern: &str) -> (found: bool)
    ensures
        found == contains(text@, pattern@),
{
    let text_chars = chars_of(text);
    let pattern_chars = chars_of(pattern);
    chars_contain(&text_chars, &pattern_chars)
}

/// Whether two strings hold the same characters.
pub fn str_equals(text: &str, other: &str) -> (same: bool)
    ensures
        same == (text@ == other@),
{
    let text_chars = chars_of(text);
    let other_chars = chars_of(other);
    chars_equal(&text_chars, &other_chars)
}

/// Whether a character is white space, as Unicode defines it.
pub uninterp spec fn is_white_space(c: char) -> bool;

/// `char::is_whitespace` of the standard library, which tells whether a
/// character has the Unicode property `White_Space`. The answer depends on
/// the character alone, and is taken here as what `is_white_space` means.
#[verifier::external_body]
fn char_is_white_space(c: char) -> (white: bool)
    ensures
        white == is_white_space(c),
{
    c.is_whitespace()
}

/// `text` without the white space it begins with.
pub open spec fn trim_start(text: Seq<char>) -> Seq<char>
    decreases text.len(),
{
    if text.len() > 0 && is_white_space(text.first()) {
        trim_start(text.drop_first())
    } else {
        text
    }
}

/// `text` without the white space it ends with.
pub open spec fn trim_end(text: Seq<char>) -> Seq<char>
    decreases text.len(),
{
    if text.len() > 0 && is_white_space(text.last()) {
        trim_end(text.drop_last())
    } else {
        text
    }
}

/// `text` without the white space at either end.
pub open spec fn trimmed(text: Seq<char>) -> Seq<char> {
    trim_end(trim_start(text))
}

/// `text` without the white space at either end.
pub fn str_trimmed(text: &str) -> (middle: String)
    ensures
        middle@ == trimmed(text@),
{
    let chars = chars_of(text);
    let len: usize = chars.len();
    let mut from: usize = 0;
    assert(chars@.subrange(0, len as int) =~= chars@);
    while from < len && char_is_white_space(chars[from])
        invariant
            from <= len,
            len == chars.len(),
            trim_start(chars@) == trim_start(chars@.subrange(from as int, len as int)),
        decreases len - from,
    {
        assert(chars@.subrange(from as int, len as int).drop_first() =~= chars@.subrange(
            from + 1,
            len as int,
        ));
        from += 1;
    }
    assert(trim_start(chars@) == chars@.subrange(from as int, len as int));
    let mut to: usize = len;
    while to > from && char_is_white_space(chars[to - 1])
        invariant
            from <= to <= len,
            len == chars.len(),
            trimmed(chars@) == trim_end(chars@.subrange(from as int, to as int)),
        decreases to - from,
    {
        assert(chars@.subrange(from as int, to as int).drop_last() =~= chars@.subrange(
            from as int,
            to - 1,
        ));
        to -= 1;
    }
    assert(trimmed(chars@) == chars@.subrange(from as int, to as int));
    text.substring_char(from, to).to_owned()
}

/// Where the white space at the start of `text` ends: all before `from` is
/// white space, and the character at `from`, if there is one, is not.
pub proof fn lemma_trim_start(text: Seq<char>) -> (from: int)
    ensures
        0 <= from <= text.len(),
        trim_start(text) == text.subrange(from, text.len() as int),
        forall|i: int| 0 <= i < from ==> is_white_space(#[trigger] text[i]),
        from < text.len() ==> !is_white_space(text[from]),
    decreases text.len(),
{
    if text.len() > 0 && is_white_space(text.first()) {
        let rest = text.drop_first();
        let inner = lemma_trim_start(rest);
        assert(rest.subrange(inner, rest.len() as int) =~= text.subrange(
            inner + 1,
            text.len() as int,
        ));
        assert forall|i: int| 0 <= i < inner + 1 implies is_white_space(#[trigger] text[i]) by {
            if i > 0 {
                assert(text[i] == rest[i - 1]);
            }
        }
        inner + 1
    } else {
        assert(text.subrange(0, text.len() as int) =~= text);
        0
    }
}

/// Where the white space at the end of `text` begins: all from `to` on is
/// white space, and the character before `to`, if there is one, is not.
pub proof fn lemma_trim_end(text: Seq<char>) -> (to: int)
    ensures
        0 <= to <= text.len(),
        trim_end(text) == text.subrange(0, to),
        forall|i: int| to <= i < text.len() ==> is_white_space(#[trigger] text[i]),
        0 < to ==> !is_white_space(text[to - 1]),
    decreases text.len(),
{
    if text.len() > 0 && is_white_space(text.last()) {
        let rest = text.drop_last();
        let inner = lemma_trim_end(rest);
        assert(rest.subrange(0, inner) =~= text.subrange(0, inner));
        assert forall|i: int| inner <= i < text.len() implies is_white_space(
            #[trigger] text[i],
        ) by {
            if i < rest.len() {
                assert(text[i] == rest[i]);
            }
        }
        inner
    } else {
        assert(text.subrange(0, text.len() as int) =~= text);
        text.len() as int
    }
}

/// Trimming keeps the stretch of `text` between two bounds: all outside it
/// is white space, and it neither begins nor ends with white space.
pub proof fn lemma_trimmed_is_the_middle(text: Seq<char>) -> (bounds: (int, int))
    ensures
        0 <= bounds.0 <= bounds.1 <= text.len(),
        trimmed(text) == text.subrange(bounds.0, bounds.1),
        forall|i: int|
            0 <= i < bounds.0 || bounds.1 <= i < text.len() ==> is_white_space(
                #[trigger] text[i],
            ),
        bounds.0 < bounds.1 ==> !is_white_space(text[bounds.0]) && !is_white_space(
            text[bounds.1 - 1],
        ),
{
    let from = lemma_trim_start(text);
    let tail = text.subrange(from, text.len() as int);
    let kept = lemma_trim_end(tail);
    let to = from + kept;
    assert(tail.subrange(0, kept) =~= text.subrange(from, to));
    assert forall|i: int| 0 <= i < from || to <= i < text.len() implies is_white_space(
        #[trigger] text[i],
    ) by {
        if to <= i {
            assert(text[i] == tail[i - from]);
        }
    }
    if from < to {
        assert(text[to - 1] == tail[kept - 1]);
    }
    (from, to)
}

} // verus!
