//! Small text utilities with exact contracts: string equality, substring
//! search and word counting over the character view of a string.

use vstd::prelude::*;

verus! {

/// `sub` occurs in `s` starting at position `i`.
pub open spec fn substring_at(s: Seq<char>, sub: Seq<char>, i: int) -> bool {
    0 <= i && i + sub.len() <= s.len() && s.subrange(i, i + sub.len()) == sub
}

/// `sub` occurs somewhere in `s`.
pub open spec fn has_substring(s: Seq<char>, sub: Seq<char>) -> bool {
    exists|i: int| substring_at(s, sub, i)
}

/// Character-for-character equality of two string slices.
pub fn str_eq(a: &str, b: &str) -> (r: bool)
    ensures
        r == (a@ == b@),
{
    let alen = a.unicode_len();
    let blen = b.unicode_len();
    if alen != blen {
        return false;
    }
    let mut i: usize = 0;
    while i < alen
        invariant
            i <= alen,
            alen == a@.len(),
            alen == b@.len(),
            forall|j: int| 0 <= j < i ==> a@[j] == b@[j],
        decreases alen - i,
    {
        if a.get_char(i) != b.get_char(i) {
            return false;
        }
        i = i + 1;
    }
    proof {
        assert(a@ =~= b@);
    }
    true
}

/// Whether `sub` occurs in `s` starting exactly at position `i`.
fn matches_at(s: &str, sub: &str, i: usize) -> (r: bool)
    requires
        i + sub@.len() <= s@.len(),
        s@.len() <= usize::MAX,
    ensures
        r == substring_at(s@, sub@, i as int),
{
    let m = sub.unicode_len();
    let mut j: usize = 0;
    while j < m
        invariant
            j <= m,
            m == sub@.len(),
            i + m <= s@.len(),
            s@.len() <= usize::MAX,
            forall|k: int| 0 <= k < j ==> s@[i + k] == sub@[k],
        decreases m - j,
    {
        if s.get_char(i + j) != sub.get_char(j) {
            proof {
                assert(s@.subrange(i as int, i + sub@.len()) != sub@) by {
                    assert(s@.subrange(i as int, i + sub@.len())[j as int] == s@[i + j]);
                }
            }
            return false;
        }
        j = j + 1;
    }
    proof {
        assert(s@.subrange(i as int, i + sub@.len()) =~= sub@);
    }
    true
}

/// Substring search: whether `sub` occurs anywhere in `s`.
pub fn str_contains(s: &str, sub: &str) -> (r: bool)
    ensures
        r == has_substring(s@, sub@),
{
    let n = s.unicode_len();
    let m = sub.unicode_len();
    if m > n {
        proof {
            assert(forall|i: int| !substring_at(s@, sub@, i));
        }
        return false;
    }
    let limit = n - m;
    let mut i: usize = 0;
    while i <= limit
        invariant
            m <= n,
            n == s@.len(),
            m == sub@.len(),
            limit == n - m,
            i <= limit,
            forall|j: int| 0 <= j < i ==> !substring_at(s@, sub@, j),
        decreases limit - i,
    {
        if matches_at(s, sub, i) {
            return true;
        }
        if i == limit {
            proof {
                assert forall|j: int| !substring_at(s@, sub@, j) by {
                    if substring_at(s@, sub@, j) {
                        assert(0 <= j && j + m <= n);
                    }
                }
            }
            return false;
        }
        i = i + 1;
    }
    false
}

/// The characters treated as word separators when counting words: ASCII
/// whitespace.
pub open spec fn is_space_char(c: char) -> bool {
    c == ' ' || c == '\t' || c == '\n' || c == '\r' || c == '\u{b}' || c == '\u{c}'
}

/// The number of maximal runs of non-whitespace characters in `s` from
/// position `i` on, given whether position `i` is already inside such a run.
pub open spec fn word_count_from(s: Seq<char>, i: int, in_word: bool) -> int
    decreases s.len() - i,
{
    if i < 0 || i >= s.len() {
        0
    } else {
        let c = s[i];
        let starts_word = !is_space_char(c) && !in_word;
        (if starts_word {
            1int
        } else {
            0int
        }) + word_count_from(s, i + 1, !is_space_char(c))
    }
}

/// The number of whitespace-separated words in `s`.
pub open spec fn word_count(s: Seq<char>) -> int {
    word_count_from(s, 0, false)
}

/// Decide whether a character separates words.
fn is_space(c: char) -> (r: bool)
    ensures
        r == is_space_char(c),
{
    c == ' ' || c == '\t' || c == '\n' || c == '\r' || c == '\u{b}' || c == '\u{c}'
}

/// Count the whitespace-separated words in `s`.
pub fn count_words(s: &str) -> (r: usize)
    ensures
        r == word_count(s@),
{
    let n = s.unicode_len();
    let mut count: usize = 0;
    let mut in_word = false;
    let mut i: usize = 0;
    while i < n
        invariant
            i <= n,
            n == s@.len(),
            count <= i,
            count + word_count_from(s@, i as int, in_word) == word_count(s@),
        decreases n - i,
    {
        let c = s.get_char(i);
        if !is_space(c) && !in_word {
            count = count + 1;
        }
        in_word = !is_space(c);
        i = i + 1;
    }
    count
}

} // verus!
