//! Character-level building blocks: conversions between strings and
//! character vectors, literal substitution and removal of spaces.

use vstd::prelude::*;
use vstd::std_specs::iter::IteratorSpec;

verus! {

/// `String::push` appends one character to the end of the string and leaves
/// the characters before it as they were.
pub assume_specification[ String::push ](s: &mut String, ch: char)
    ensures
        final(s)@ == old(s)@.push(ch),
;

/// The result of replacing, from left to right, every non-overlapping
/// occurrence of `pattern` in `text` by `replacement`.
///
/// The scan never looks again at characters it has produced. An empty
/// pattern occurs nowhere.
pub open spec fn replaced(text: Seq<char>, pattern: Seq<char>, replacement: Seq<char>) -> Seq<char>
    decreases text.len(),
{
    if text.len() == 0 || pattern.len() == 0 {
        text
    } else if pattern.is_prefix_of(text) {
        replacement + replaced(text.skip(pattern.len() as int), pattern, replacement)
    } else {
        text.take(1) + replaced(text.skip(1), pattern, replacement)
    }
}

/// The characters of `text` without the plain spaces (U+0020).
pub open spec fn stripped(text: Seq<char>) -> Seq<char> {
    text.filter(|c: char| c != ' ')
}

/// Whether `pattern` stands somewhere in `text`.
pub open spec fn occurs_in(pattern: Seq<char>, text: Seq<char>) -> bool {
    exists|at: int| 0 <= at <= text.len() && #[trigger] pattern.is_prefix_of(text.skip(at))
}

/// Replacing leaves a text in which the pattern does not occur as it is.
pub proof fn lemma_replaced_without_occurrence(
    text: Seq<char>,
    pattern: Seq<char>,
    replacement: Seq<char>,
)
    requires
        !occurs_in(pattern, text),
    ensures
        replaced(text, pattern, replacement) == text,
    decreases text.len(),
{
    if text.len() > 0 && pattern.len() > 0 {
        assert(text.skip(0) == text);
        assert(!pattern.is_prefix_of(text.skip(0)));
        let rest = text.skip(1);
        assert forall|at: int| 0 <= at <= rest.len() implies !pattern.is_prefix_of(
            #[trigger] rest.skip(at),
        ) by {
            assert(rest.skip(at) == text.skip(at + 1));
            assert(!pattern.is_prefix_of(text.skip(at + 1)));
        }
        lemma_replaced_without_occurrence(rest, pattern, replacement);
        assert(text.take(1) + rest == text);
    }
}

/// A text in which the first character of the pattern does not occur holds
/// no occurrence of the pattern, and replacing leaves it as it is.
pub proof fn lemma_replaced_unchanged(
    text: Seq<char>,
    pattern: Seq<char>,
    replacement: Seq<char>,
)
    requires
        pattern.len() > 0,
        !text.contains(pattern[0]),
    ensures
        !occurs_in(pattern, text),
        replaced(text, pattern, replacement) == text,
{
    assert forall|at: int| 0 <= at <= text.len() implies !pattern.is_prefix_of(
        #[trigger] text.skip(at),
    ) by {
        if pattern.is_prefix_of(text.skip(at)) {
            assert(text.skip(at).subrange(0, pattern.len() as int)[0] == pattern[0]);
            assert(text.contains(text[at]));
        }
    }
    lemma_replaced_without_occurrence(text, pattern, replacement);
}

/// No plain space is left in a stripped text.
pub proof fn lemma_stripped_has_no_space(text: Seq<char>)
    ensures
        !stripped(text).contains(' '),
{
    let kept = |c: char| c != ' ';
    assert forall|i: int| 0 <= i < stripped(text).len() implies stripped(text)[i] != ' ' by {
        text.lemma_filter_pred(kept, i);
    }
}

/// Stripping a text that holds no plain space leaves it as it is.
pub proof fn lemma_stripped_unchanged(text: Seq<char>)
    requires
        !text.contains(' '),
    ensures
        stripped(text) == text,
    decreases text.len(),
{
    reveal(Seq::filter);
    if text.len() > 0 {
        let front = text.drop_last();
        assert(text.contains(text.last()));
        assert forall|i: int| 0 <= i < front.len() implies front[i] != ' ' by {
            assert(text.contains(text[i]));
        }
        lemma_stripped_unchanged(front);
        assert(front.push(text.last()) == text);
    }
}

/// Stripping is idempotent: stripping twice gives what stripping once
/// gives.
pub proof fn lemma_strip_idempotent(text: Seq<char>)
    ensures
        stripped(stripped(text)) == stripped(text),
{
    lemma_stripped_has_no_space(text);
    lemma_stripped_unchanged(stripped(text));
}

/// Collects the characters of `s` into a vector.
pub fn to_chars(s: &str) -> (out: Vec<char>)
    ensures
        out@ == s@,
{
    let mut out: Vec<char> = Vec::new();
    for c in it: s.chars()
        invariant
            it.seq() == s@,
            out@ == s@.take(it.index()),
    {
        out.push(c);
    }
    out
}

/// Builds a string from a slice of characters.
pub fn to_text(chars: &[char]) -> (s: String)
    ensures
        s@ == chars@,
{
    let mut s = String::new();
    let mut i: usize = 0;
    while i < chars.len()
        invariant
            i <= chars.len(),
            s@ == chars@.take(i as int),
        decreases chars.len() - i,
    {
        s.push(chars[i]);
        i += 1;
    }
    s
}

/// Whether two strings hold the same characters.
pub fn same_text(a: &str, b: &str) -> (same: bool)
    ensures
        same == (a@ == b@),
{
    let mut rest_a = a.chars();
    let mut rest_b = b.chars();
    let ghost mut seen: Seq<char> = Seq::empty();
    loop
        invariant
            rest_a.obeys_prophetic_iter_laws(),
            rest_b.obeys_prophetic_iter_laws(),
            a@ == seen + rest_a.remaining(),
            b@ == seen + rest_b.remaining(),
            rest_a.decrease() is Some,
        decreases rest_a.decrease()->0,
    {
        let ghost ahead_a = rest_a.remaining();
        let ghost ahead_b = rest_b.remaining();
        match (rest_a.next(), rest_b.next()) {
            (Some(p), Some(q)) => {
                if p != q {
                    assert(a@[seen.len() as int] == ahead_a[0]);
                    assert(b@[seen.len() as int] == ahead_b[0]);
                    return false;
                }
                proof {
                    seen = seen.push(p);
                }
            },
            (None, None) => {
                return true;
            },
            _ => {
                return false;
            },
        }
    }
}

/// Whether `pattern` stands in `text` at position `at`.
fn occurs_at(text: &[char], at: usize, pattern: &[char]) -> (found: bool)
    requires
        at <= text.len(),
    ensures
        found == pattern@.is_prefix_of(text@.skip(at as int)),
{
    if pattern.len() > text.len() - at {
        return false;
    }
    let mut k: usize = 0;
    while k < pattern.len()
        invariant
            at + pattern.len() <= text.len(),
            k <= pattern.len(),
            forall|j: int| 0 <= j < k ==> text@[at + j] == pattern@[j],
        decreases pattern.len() - k,
    {
        if text[at + k] != pattern[k] {
            assert(text@.skip(at as int).subrange(0, pattern@.len() as int)[k as int]
                != pattern@[k as int]);
            return false;
        }
        k += 1;
    }
    assert(pattern@ =~= text@.skip(at as int).subrange(0, pattern@.len() as int));
    true
}

/// Replaces every occurrence of `pattern` in `text` by `replacement`,
/// scanning once from left to right.
pub fn replace_all(text: &[char], pattern: &[char], replacement: &[char]) -> (out: Vec<char>)
    ensures
        out@ == replaced(text@, pattern@, replacement@),
{
    let mut out: Vec<char> = Vec::new();
    if pattern.len() == 0 {
        out.extend_from_slice(text);
        return out;
    }
    let mut i: usize = 0;
    assert(text@.skip(0) == text@);
    assert(out@ + text@ == text@);
    while i < text.len()
        invariant
            i <= text.len(),
            pattern.len() > 0,
            replaced(text@, pattern@, replacement@) == out@ + replaced(
                text@.skip(i as int),
                pattern@,
                replacement@,
            ),
        decreases text.len() - i,
    {
        let ghost rest = text@.skip(i as int);
        if occurs_at(text, i, pattern) {
            assert(rest.skip(pattern@.len() as int) == text@.skip(i + pattern@.len()));
            out.extend_from_slice(replacement);
            i += pattern.len();
        } else {
            assert(rest.take(1) == seq![text@[i as int]]);
            assert(rest.skip(1) == text@.skip(i + 1));
            out.push(text[i]);
            i += 1;
        }
    }
    out
}

/// Removes every plain space from `text`; tabs, newlines and all other
/// characters stay.
pub fn strip_spaces(text: &[char]) -> (out: Vec<char>)
    ensures
        out@ == stripped(text@),
{
    let mut out: Vec<char> = Vec::new();
    let mut i: usize = 0;
    proof {
        reveal(Seq::filter);
    }
    while i < text.len()
        invariant
            i <= text.len(),
            out@ == stripped(text@.take(i as int)),
        decreases text.len() - i,
    {
        proof {
            let pred = |c: char| c != ' ';
            assert(text@.take(i + 1) == text@.take(i as int).push(text@[i as int]));
            text@.take(i as int).lemma_filter_push(text@[i as int], pred);
        }
        if text[i] != ' ' {
            out.push(text[i]);
        }
        i += 1;
    }
    assert(text@.take(text@.len() as int) == text@);
    out
}

} // verus!
