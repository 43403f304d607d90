//! Verified helpers for searching and comparing text.
//!
//! All executable functions here work on `&str` values whose views are
//! `Seq<char>`, so the contracts of the rest of the crate can be stated over
//! character sequences.

use vstd::prelude::*;
use vstd::string::*;

verus! {

/// The pattern `pat` occurs in `hay` starting at character position `i`.
pub open spec fn matches_at(hay: Seq<char>, pat: Seq<char>, i: int) -> bool {
    &&& 0 <= i
    &&& i + pat.len() <= hay.len()
    &&& forall|j: int| 0 <= j < pat.len() ==> hay[i + j] == pat[j]
}

/// The pattern `pat` occurs somewhere in `hay`.
pub open spec fn contains_seq(hay: Seq<char>, pat: Seq<char>) -> bool {
    exists|i: int| matches_at(hay, pat, i)
}

/// Position of the first occurrence of `pat` in `hay` at or after `from`,
/// or `None` if there is none.
pub open spec fn first_occurrence_from(hay: Seq<char>, pat: Seq<char>, from: int) -> Option<int>
    decreases hay.len() - from,
{
    if from < 0 || from + pat.len() > hay.len() {
        None
    } else if matches_at(hay, pat, from) {
        Some(from)
    } else {
        first_occurrence_from(hay, pat, from + 1)
    }
}

/// `pre` is a prefix of `s`.
pub open spec fn is_prefix_of(s: Seq<char>, pre: Seq<char>) -> bool {
    pre.len() <= s.len() && forall|j: int| 0 <= j < pre.len() ==> s[j] == pre[j]
}

/// `suf` is a suffix of `s`.
pub open spec fn is_suffix_of(s: Seq<char>, suf: Seq<char>) -> bool {
    suf.len() <= s.len() && forall|j: int| 0 <= j < suf.len() ==> s[s.len() - suf.len() + j]
        == suf[j]
}

/// A successful occurrence bounds the search, so a search that ran past it
/// would have found one: used to relate the loop below to
/// `first_occurrence_from`.
proof fn lemma_first_occurrence_step(hay: Seq<char>, pat: Seq<char>, from: int)
    requires
        0 <= from,
        from + pat.len() <= hay.len(),
        !matches_at(hay, pat, from),
    ensures
        first_occurrence_from(hay, pat, from) == first_occurrence_from(hay, pat, from + 1),
{
}

/// Character-by-character equality of two string slices.
pub fn eq_str(a: &str, b: &str) -> (r: bool)
    ensures
        r == (a@ == b@),
{
    let n = a.unicode_len();
    if n != b.unicode_len() {
        return false;
    }
    let mut i: usize = 0;
    while i < n
        invariant
            n == a@.len(),
            n == b@.len(),
            i <= n,
            forall|j: int| 0 <= j < i ==> a@[j] == b@[j],
        decreases n - i,
    {
        if a.get_char(i) != b.get_char(i) {
            return false;
        }
        i = i + 1;
    }
    proof {
        assert(a@ =~= b@);
    }
    true
}

/// Whether `pat` occurs in `hay` starting exactly at character position `at`.
fn matches_here(hay: &str, pat: &str, at: usize) -> (r: bool)
    requires
        at + pat@.len() <= hay@.len(),
        hay@.len() <= usize::MAX,
    ensures
        r == matches_at(hay@, pat@, at as int),
{
    let m = pat.unicode_len();
    let mut j: usize = 0;
    while j < m
        invariant
            m == pat@.len(),
            at + m <= hay@.len(),
            hay@.len() <= usize::MAX,
            j <= m,
            forall|t: int| 0 <= t < j ==> hay@[at + t] == pat@[t],
        decreases m - j,
    {
        if hay.get_char(at + j) != pat.get_char(j) {
            return false;
        }
        j = j + 1;
    }
    true
}

/// Position of the first occurrence of `pat` in `hay` at or after `from`.
pub fn find_sub_from(hay: &str, pat: &str, from: usize) -> (r: Option<usize>)
    ensures
        match r {
            Some(i) => {
                &&& first_occurrence_from(hay@, pat@, from as int) == Some(i as int)
                &&& from <= i
                &&& matches_at(hay@, pat@, i as int)
                &&& forall|k: int| from <= k < i ==> !matches_at(hay@, pat@, k)
            },
            None => {
                &&& first_occurrence_from(hay@, pat@, from as int) is None
                &&& forall|k: int| from <= k ==> !matches_at(hay@, pat@, k)
            },
        },
{
    proof {
        lemma_first_occurrence_characterizes(hay@, pat@, from as int);
    }
    let n = hay.unicode_len();
    let m = pat.unicode_len();
    if from > n || m > n - from {
        return None;
    }
    let mut i: usize = from;
    while i <= n - m
        invariant
            n == hay@.len(),
            m == pat@.len(),
            m <= n,
            from <= i,
            i <= n - m + 1,
            first_occurrence_from(hay@, pat@, from as int) == first_occurrence_from(
                hay@,
                pat@,
                i as int,
            ),
        decreases n - i,
    {
        if matches_here(hay, pat, i) {
            proof {
                assert(first_occurrence_from(hay@, pat@, i as int) == Some(i as int));
                lemma_first_occurrence_characterizes(hay@, pat@, from as int);
            }
            return Some(i);
        }
        proof {
            lemma_first_occurrence_step(hay@, pat@, i as int);
        }
        i = i + 1;
    }
    None
}

/// Whether `pat` occurs anywhere in `hay`.
pub fn contains_sub(hay: &str, pat: &str) -> (r: bool)
    ensures
        r == contains_seq(hay@, pat@),
{
    let r = find_sub_from(hay, pat, 0);
    proof {
        lemma_first_occurrence_characterizes(hay@, pat@, 0);
    }
    match r {
        Some(_) => true,
        None => false,
    }
}

/// `first_occurrence_from` finds an occurrence exactly when one exists at or
/// after `from`, and the one it finds is the earliest.
pub proof fn lemma_first_occurrence_characterizes(hay: Seq<char>, pat: Seq<char>, from: int)
    requires
        0 <= from,
    ensures
        match first_occurrence_from(hay, pat, from) {
            Some(i) => {
                &&& from <= i
                &&& matches_at(hay, pat, i)
                &&& forall|k: int| from <= k < i ==> !matches_at(hay, pat, k)
            },
            None => forall|k: int| from <= k ==> !matches_at(hay, pat, k),
        },
    decreases hay.len() - from,
{
    if from + pat.len() > hay.len() {
        assert forall|k: int| from <= k implies !matches_at(hay, pat, k) by {
            assert(k + pat.len() > hay.len());
        }
    } else if matches_at(hay, pat, from) {
    } else {
        lemma_first_occurrence_characterizes(hay, pat, from + 1);
    }
}

/// Whether `pre` is a prefix of `s`.
pub fn starts_with_str(s: &str, pre: &str) -> (r: bool)
    ensures
        r == is_prefix_of(s@, pre@),
{
    let m = pre.unicode_len();
    if m > s.unicode_len() {
        return false;
    }
    matches_here(s, pre, 0)
}

/// Whether `suf` is a suffix of `s`.
pub fn ends_with_str(s: &str, suf: &str) -> (r: bool)
    ensures
        r == is_suffix_of(s@, suf@),
{
    let n = s.unicode_len();
    let m = suf.unicode_len();
    if m > n {
        return false;
    }
    let r = matches_here(s, suf, n - m);
    proof {
        if matches_at(s@, suf@, n - m) {
            assert(is_suffix_of(s@, suf@));
        } else {
            if is_suffix_of(s@, suf@) {
                assert(matches_at(s@, suf@, n - m));
            }
        }
    }
    r
}

/// Position of the first occurrence of the character `c` in `s` at or after
/// `from`, or `s.len()` if there is none.
pub open spec fn first_char_from(s: Seq<char>, c: char, from: int) -> int
    decreases s.len() - from,
{
    if from < 0 || from >= s.len() {
        s.len() as int
    } else if s[from] == c {
        from
    } else {
        first_char_from(s, c, from + 1)
    }
}

/// Finds the first occurrence of `c` in `s` at or after `from`, returning
/// `s`'s length when there is none.
pub fn find_char_from(s: &str, c: char, from: usize) -> (r: usize)
    ensures
        r == first_char_from(s@, c, from as int),
        r <= s@.len(),
        r < s@.len() ==> s@[r as int] == c,
{
    let n = s.unicode_len();
    if from >= n {
        return n;
    }
    let mut i: usize = from;
    while i < n
        invariant
            n == s@.len(),
            from <= i <= n,
            first_char_from(s@, c, from as int) == first_char_from(s@, c, i as int),
        decreases n - i,
    {
        if s.get_char(i) == c {
            return i;
        }
        i = i + 1;
    }
    n
}

/// What `str::to_lowercase` returns: a function of the characters alone.
pub uninterp spec fn lower_of(s: Seq<char>) -> Seq<char>;

/// Relies on `str::to_lowercase`: the lowercase equivalent of the slice,
/// which depends only on its characters.
#[verifier::external_body]
pub(crate) fn lowercase(s: &str) -> (r: String)
    ensures
        r@ == lower_of(s@),
        s@.len() == 0 ==> r@.len() == 0,
{
    s.to_lowercase()
}

} // verus!
