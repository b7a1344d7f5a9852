//! Verified substring searching over character sequences.
//!
//! The portal's login page and HTML fragments are cut apart by literal
//! markers; these helpers find the first or last occurrence of such a
//! marker, with contracts that pin the occurrence down exactly.

use vstd::prelude::*;
use vstd::string::StrSliceExecFns;

verus! {

/// `pat` occurs in `s` at position `i`.
pub open spec fn matches_at(s: Seq<char>, pat: Seq<char>, i: int) -> bool {
    &&& 0 <= i
    &&& i + pat.len() <= s.len()
    &&& forall|k: int| 0 <= k < pat.len() ==> s[i + k] == pat[k]
}

/// `pat` occurs somewhere in `s`.
pub open spec fn has_sub(s: Seq<char>, pat: Seq<char>) -> bool {
    exists|i: int| matches_at(s, pat, i)
}

/// `i` is the first occurrence of `pat` in `s`.
pub open spec fn first_match_at(s: Seq<char>, pat: Seq<char>, i: int) -> bool {
    &&& matches_at(s, pat, i)
    &&& forall|j: int| 0 <= j < i ==> !matches_at(s, pat, j)
}

/// `i` is the last occurrence of `pat` that lies wholly before `end` in `s`.
pub open spec fn last_match_before(s: Seq<char>, pat: Seq<char>, end: int, i: int) -> bool {
    &&& matches_at(s, pat, i)
    &&& i + pat.len() <= end
    &&& forall|j: int| i < j && j + pat.len() <= end ==> !matches_at(s, pat, j)
}

/// `j` is the first position at or after `from` where character `c` stands.
pub open spec fn first_char_from(s: Seq<char>, c: char, from: int, j: int) -> bool {
    &&& from <= j < s.len()
    &&& s[j] == c
    &&& forall|k: int| from <= k < j ==> s[k] != c
}

/// Whether `pat` occurs in `s` at position `i`.
fn check_match(s: &str, pat: &str, i: usize) -> (r: bool)
    requires
        i + pat@.len() <= s@.len(),
        s@.len() <= usize::MAX,
    ensures
        r == matches_at(s@, pat@, i as int),
{
    let pat_len = pat.unicode_len();
    let mut k: usize = 0;
    while k < pat_len
        invariant
            0 <= k <= pat_len,
            pat_len == pat@.len(),
            i + pat@.len() <= s@.len(),
            s@.len() <= usize::MAX,
            forall|m: int| 0 <= m < k ==> s@[i + m] == pat@[m],
        decreases pat_len - k,
    {
        if s.get_char(i + k) != pat.get_char(k) {
            return false;
        }
        k += 1;
    }
    true
}

/// The first occurrence of `pat` in `s`, as a character index.
pub fn find_sub(s: &str, pat: &str) -> (r: Option<usize>)
    ensures
        match r {
            Some(i) => first_match_at(s@, pat@, i as int),
            None => !has_sub(s@, pat@),
        },
{
    let s_len = s.unicode_len();
    let pat_len = pat.unicode_len();
    if pat_len > s_len {
        assert(forall|i: int| !(#[trigger] matches_at(s@, pat@, i)));
        return None;
    }
    let last: usize = s_len - pat_len;
    let mut i: usize = 0;
    while i <= last
        invariant
            0 <= i <= last + 1,
            last == s@.len() - pat@.len(),
            s_len == s@.len(),
            pat_len == pat@.len(),
            forall|j: int| 0 <= j < i ==> !matches_at(s@, pat@, j),
        decreases last + 1 - i,
    {
        if check_match(s, pat, i) {
            return Some(i);
        }
        i += 1;
    }
    None
}

/// The last occurrence of `pat` lying wholly before character index `end`.
pub fn rfind_sub_before(s: &str, pat: &str, end: usize) -> (r: Option<usize>)
    requires
        end <= s@.len(),
    ensures
        match r {
            Some(i) => last_match_before(s@, pat@, end as int, i as int),
            None => forall|j: int| j + pat@.len() <= end ==> !matches_at(s@, pat@, j),
        },
{
    let s_len = s.unicode_len();
    let pat_len = pat.unicode_len();
    if pat_len > end {
        return None;
    }
    let mut i: usize = end - pat_len;
    loop
        invariant
            0 <= i <= end - pat@.len(),
            end <= s@.len(),
            s_len == s@.len(),
            pat_len == pat@.len(),
            pat_len <= end,
            forall|j: int| i < j && j + pat@.len() <= end ==> !matches_at(s@, pat@, j),
        decreases i,
    {
        if check_match(s, pat, i) {
            return Some(i);
        }
        if i == 0 {
            return None;
        }
        i -= 1;
    }
}

/// Whether `pat` occurs anywhere in `s`.
pub fn contains_sub(s: &str, pat: &str) -> (r: bool)
    ensures
        r == has_sub(s@, pat@),
{
    find_sub(s, pat).is_some()
}

/// The first position at or after `from` where character `c` stands.
pub fn find_char_from(s: &str, c: char, from: usize) -> (r: Option<usize>)
    requires
        from <= s@.len(),
    ensures
        match r {
            Some(j) => first_char_from(s@, c, from as int, j as int),
            None => forall|k: int| from <= k < s@.len() ==> s@[k] != c,
        },
{
    let s_len = s.unicode_len();
    let mut j: usize = from;
    while j < s_len
        invariant
            from <= j <= s_len,
            s_len == s@.len(),
            forall|k: int| from <= k < j ==> s@[k] != c,
        decreases s_len - j,
    {
        if s.get_char(j) == c {
            return Some(j);
        }
        j += 1;
    }
    None
}

/// Whether two pieces of text hold the same characters.
pub fn str_eq(a: &str, b: &str) -> (r: bool)
    ensures
        r == (a@ == b@),
{
    let a_len = a.unicode_len();
    let b_len = b.unicode_len();
    if a_len != b_len {
        return false;
    }
    let mut k: usize = 0;
    while k < a_len
        invariant
            0 <= k <= a_len,
            a_len == a@.len(),
            a@.len() == b@.len(),
            forall|m: int| 0 <= m < k ==> a@[m] == b@[m],
        decreases a_len - k,
    {
        if a.get_char(k) != b.get_char(k) {
            return false;
        }
        k += 1;
    }
    proof {
        assert(a@ =~= b@);
    }
    true
}

/// A copy of the characters of `s` from `from` (inclusive) to `to`
/// (exclusive).
pub fn copy_range(s: &str, from: usize, to: usize) -> (r: String)
    requires
        from <= to <= s@.len(),
    ensures
        r@ == s@.subrange(from as int, to as int),
{
    let piece = s.substring_char(from, to);
    piece.to_owned()
}

/// The first occurrence of a pattern is unique.
pub proof fn lemma_first_match_unique(s: Seq<char>, pat: Seq<char>, i: int)
    requires
        first_match_at(s, pat, i),
    ensures
        forall|j: int| first_match_at(s, pat, j) ==> j == i,
{
    assert forall|j: int| first_match_at(s, pat, j) implies j == i by {
        if j < i {
            assert(matches_at(s, pat, j));
        } else if j > i {
            assert(matches_at(s, pat, i));
        }
    }
}

} // verus!
