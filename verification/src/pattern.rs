//! Whether a text holds a pattern.

use vstd::prelude::*;
use vstd::std_specs::iter::IteratorSpec;

verus! {

/// The pattern stands in the text at offset `k`.
pub open spec fn occurs_at(text: Seq<char>, pattern: Seq<char>, k: int) -> bool {
    &&& 0 <= k
    &&& k + pattern.len() <= text.len()
    &&& text.subrange(k, k + pattern.len()) == pattern
}

/// The pattern stands somewhere in the text.
pub open spec fn has_pattern(text: Seq<char>, pattern: Seq<char>) -> bool {
    exists|k: int| occurs_at(text, pattern, k)
}

/// The characters of a text.
pub fn chars_of(text: &str) -> (chars: Vec<char>)
    ensures
        chars@ == text@,
{
    let mut chars: Vec<char> = Vec::new();
    let all = text.chars();
    for c in it: all
        invariant
            it.seq() == text@,
            chars@ == it.seq().take(it.index() as int),
    {
        chars.push(c);
    }
    chars
}

/// Whether the pattern stands in the text at offset `k`.
pub fn occurs_here(text: &Vec<char>, pattern: &Vec<char>, k: usize) -> (found: bool)
    requires
        k + pattern.len() <= text.len(),
    ensures
        found == occurs_at(text@, pattern@, k as int),
{
    let mut j: usize = 0;
    while j < pattern.len()
        invariant
            j <= pattern.len(),
            k + pattern.len() <= text.len(),
            forall|i: int| 0 <= i < j ==> text@[k + i] == pattern@[i],
        decreases pattern.len() - j,
    {
        if text[k + j] != pattern[j] {
            assert(text@.subrange(k as int, k + pattern.len())[j as int] != pattern@[j as int]);
            return false;
        }
        j += 1;
    }
    assert(text@.subrange(k as int, k + pattern.len()) =~= pattern@);
    true
}

/// Whether the pattern stands somewhere in the text. The empty pattern
/// stands in every text.
pub fn contains_pattern(text: &str, pattern: &str) -> (found: bool)
    ensures
        found == has_pattern(text@, pattern@),
{
    let hay = chars_of(text);
    let needle = chars_of(pattern);
    if needle.len() > hay.len() {
        return false;
    }
    let last: usize = hay.len() - needle.len();
    let mut k: usize = 0;
    while k < last
        invariant
            k <= last,
            last + needle.len() == hay.len(),
            hay@ == text@,
            needle@ == pattern@,
            forall|i: int| 0 <= i < k ==> !occurs_at(text@, pattern@, i),
        decreases last - k,
    {
        if occurs_here(&hay, &needle, k) {
            return true;
        }
        k += 1;
    }
    occurs_here(&hay, &needle, last)
}

} // verus!
