//! Text utilities: substring search, used to detect the ownership marker
//! that rendered scripts embed.

use vstd::prelude::*;

verus! {

/// `p` occurs in `s` starting at index `i`.
pub open spec fn is_match_at(s: Seq<char>, p: Seq<char>, i: int) -> bool {
    0 <= i && i + p.len() <= s.len() && s.subrange(i, i + p.len() as int) == p
}

/// `p` occurs somewhere in `s`.
pub open spec fn has_substring(s: Seq<char>, p: Seq<char>) -> bool {
    exists|i: int| is_match_at(s, p, i)
}

/// Whether `p` occurs in `s` starting at index `at`.
fn matches_at(s: &str, p: &str, at: usize, s_len: usize, p_len: usize) -> (r: bool)
    requires
        s_len == s@.len(),
        p_len == p@.len(),
        at + p_len <= s_len,
    ensures
        r == is_match_at(s@, p@, at as int),
{
    let mut j: usize = 0;
    while j < p_len
        invariant
            s_len == s@.len(),
            p_len == p@.len(),
            at + p_len <= s_len,
            j <= p_len,
            forall|l: int| 0 <= l < j ==> s@[at + l] == p@[l],
        decreases p_len - j,
    {
        if s.get_char(at + j) != p.get_char(j) {
            assert(s@.subrange(at as int, at + p_len as int)[j as int] != p@[j as int]);
            return false;
        }
        j = j + 1;
    }
    assert(s@.subrange(at as int, at + p_len as int) =~= p@);
    true
}

/// The views of a sequence of strings.
pub open spec fn string_views(s: Seq<String>) -> Seq<Seq<char>> {
    Seq::new(s.len(), |i: int| s[i]@)
}

/// Whether two strings hold the same characters.
pub fn str_eq(a: &str, b: &str) -> (r: bool)
    ensures
        r == (a@ == b@),
{
    let a_len: usize = a.unicode_len();
    let b_len: usize = b.unicode_len();
    if a_len != b_len {
        return false;
    }
    let r = matches_at(a, b, 0, a_len, b_len);
    proof {
        assert(a@.subrange(0, a_len as int) =~= a@);
        if is_match_at(a@, b@, 0) {
            assert(a@ == b@);
        }
    }
    r
}

/// `p` is a prefix of `s`.
pub open spec fn is_prefix_of(p: Seq<char>, s: Seq<char>) -> bool {
    p.len() <= s.len() && s.subrange(0, p.len() as int) == p
}

/// Whether the string `s` starts with `p`.
pub fn starts_with_str(s: &str, p: &str) -> (r: bool)
    ensures
        r == is_prefix_of(p@, s@),
{
    let s_len: usize = s.unicode_len();
    let p_len: usize = p.unicode_len();
    if p_len > s_len {
        return false;
    }
    matches_at(s, p, 0, s_len, p_len)
}

/// Whether the string `s` contains `p` as a contiguous substring.
pub fn contains_str(s: &str, p: &str) -> (r: bool)
    ensures
        r == has_substring(s@, p@),
{
    let s_len: usize = s.unicode_len();
    let p_len: usize = p.unicode_len();
    if p_len == 0 {
        assert(s@.subrange(0, 0) =~= p@);
        assert(is_match_at(s@, p@, 0));
        return true;
    }
    if p_len > s_len {
        assert(forall|i: int| !is_match_at(s@, p@, i));
        return false;
    }
    let mut i: usize = 0;
    while i <= s_len - p_len
        invariant
            s_len == s@.len(),
            p_len == p@.len(),
            1 <= p_len <= s_len,
            i <= s_len - p_len + 1,
            forall|k: int| 0 <= k < i ==> !is_match_at(s@, p@, k),
        decreases s_len - i,
    {
        if matches_at(s, p, i, s_len, p_len) {
            assert(has_substring(s@, p@));
            return true;
        }
        i = i + 1;
    }
    assert(forall|k: int| !is_match_at(s@, p@, k));
    false
}

} // verus!
