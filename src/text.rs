//! Substring search over the characters of a string.
use vstd::prelude::*;

verus! {

/// `pattern` occurs in `text` as a contiguous run of characters.
pub open spec fn has_infix(text: Seq<char>, pattern: Seq<char>) -> bool {
    exists|i: int|
        0 <= i && i + pattern.len() <= text.len() && #[trigger] text.subrange(i, i + pattern.len())
            == pattern
}

/// Whether the characters of `pattern` start at character `start` of `text`.
fn occurs_at(text: &str, pattern: &str, start: usize, m: usize) -> (r: bool)
    requires
        m == pattern@.len(),
        start + m <= text@.len() <= usize::MAX,
    ensures
        r == (text@.subrange(start as int, start + m) == pattern@),
{
    let mut k: usize = 0;
    while k < m
        invariant
            m == pattern@.len(),
            start + m <= text@.len() <= usize::MAX,
            0 <= k <= m,
            forall|t: int| 0 <= t < k ==> text@[start + t] == pattern@[t],
        decreases m - k,
    {
        if text.get_char(start + k) != pattern.get_char(k) {
            assert(text@.subrange(start as int, start + m)[k as int] != pattern@[k as int]);
            return false;
        }
        k = k + 1;
    }
    assert(text@.subrange(start as int, start + m) =~= pattern@);
    true
}

/// Whether `pattern` occurs anywhere in `text`.
pub fn contains_text(text: &str, pattern: &str) -> (r: bool)
    ensures
        r == has_infix(text@, pattern@),
{
    let n = text.unicode_len();
    let m = pattern.unicode_len();
    if m > n {
        return false;
    }
    if m == 0 {
        assert(text@.subrange(0, 0 + pattern@.len() as int) =~= pattern@);
        return true;
    }
    let mut i: usize = 0;
    while i <= n - m
        invariant
            n == text@.len(),
            m == pattern@.len(),
            0 < m <= n,
            0 <= i <= n - m + 1,
            forall|j: int| 0 <= j < i ==> #[trigger] text@.subrange(j, j + m) != pattern@,
        decreases n - m + 1 - i,
    {
        if occurs_at(text, pattern, i, m) {
            return true;
        }
        i = i + 1;
    }
    false
}

} // verus!
