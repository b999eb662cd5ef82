//! Character-level text helpers: scanning for a character, comparing two
//! strings, and the one case-folding operation the format selectors need.

use vstd::prelude::*;

verus! {

/// Index of the first occurrence of `c` in `s`, or `s.len()` if `c` does not
/// occur.
pub open spec fn spec_first_index(s: Seq<char>, c: char) -> int
    decreases s.len(),
{
    if s.len() == 0 {
        0
    } else if s[0] == c {
        0
    } else {
        1 + spec_first_index(s.drop_first(), c)
    }
}

/// One past the last occurrence of `c` in `s`, or `0` if `c` does not occur.
pub open spec fn spec_cut_end(s: Seq<char>, c: char) -> int
    decreases s.len(),
{
    if s.len() == 0 {
        0
    } else if s[s.len() - 1] == c {
        s.len() as int
    } else {
        spec_cut_end(s.drop_last(), c)
    }
}

/// A scan that saw no `c` before `i` and sees `c` at `i` (or ran off the end)
/// has found `spec_first_index`.
pub proof fn lemma_first_index(s: Seq<char>, c: char, i: int)
    requires
        0 <= i <= s.len(),
        forall|j: int| 0 <= j < i ==> s[j] != c,
        i < s.len() ==> s[i] == c,
    ensures
        spec_first_index(s, c) == i,
    decreases s.len(),
{
    if s.len() == 0 {
    } else if s[0] == c {
        assert(i == 0);
    } else {
        assert(i >= 1);
        lemma_first_index(s.drop_first(), c, i - 1);
    }
}

/// A backward scan that saw no `c` at or after `e` and sees `c` at `e - 1`
/// (or reached the front) has found `spec_cut_end`.
pub proof fn lemma_cut_end(s: Seq<char>, c: char, e: int)
    requires
        0 <= e <= s.len(),
        forall|j: int| e <= j < s.len() ==> s[j] != c,
        e > 0 ==> s[e - 1] == c,
    ensures
        spec_cut_end(s, c) == e,
    decreases s.len(),
{
    if s.len() == 0 {
    } else if s[s.len() - 1] == c {
        assert(e == s.len());
    } else {
        assert(e < s.len());
        lemma_cut_end(s.drop_last(), c, e);
    }
}

/// Index of the first occurrence of `c` in `s`, or the character length of
/// `s` if `c` does not occur.
pub fn find_first(s: &str, c: char) -> (i: usize)
    ensures
        i as int == spec_first_index(s@, c),
        i <= s@.len(),
{
    let n = s.unicode_len();
    let mut i: usize = 0;
    while i < n && s.get_char(i) != c
        invariant
            i <= n,
            n == s@.len(),
            forall|j: int| 0 <= j < i ==> s@[j] != c,
        decreases n - i,
    {
        i = i + 1;
    }
    proof {
        lemma_first_index(s@, c, i as int);
    }
    i
}

/// One past the last occurrence of `c` among the first `upto` characters of
/// `s`, or `0` if `c` does not occur there.
pub fn cut_end(s: &str, c: char, upto: usize) -> (e: usize)
    requires
        upto <= s@.len(),
    ensures
        e as int == spec_cut_end(s@.take(upto as int), c),
        e <= upto,
{
    let mut e: usize = upto;
    while e > 0 && s.get_char(e - 1) != c
        invariant
            e <= upto <= s@.len(),
            forall|j: int| e <= j < upto ==> s@[j] != c,
        decreases e,
    {
        e = e - 1;
    }
    proof {
        let t = s@.take(upto as int);
        assert(forall|j: int| e <= j < t.len() ==> t[j] != c);
        lemma_cut_end(t, c, e as int);
    }
    e
}

/// Whether two strings hold the same characters.
pub fn str_eq(a: &str, b: &str) -> (r: bool)
    ensures
        r == (a@ == b@),
{
    let na = a.unicode_len();
    let nb = b.unicode_len();
    if na != nb {
        return false;
    }
    let mut i: usize = 0;
    while i < na
        invariant
            i <= na,
            na == a@.len(),
            na == b@.len(),
            forall|j: int| 0 <= j < i ==> a@[j] == b@[j],
        decreases na - i,
    {
        if a.get_char(i) != b.get_char(i) {
            return false;
        }
        i = i + 1;
    }
    proof {
        assert(a@ =~= b@);
    }
    true
}

/// What `str::to_lowercase` from std returns: a folding of the characters
/// that depends on the input characters alone.
pub uninterp spec fn lower_of(s: Seq<char>) -> Seq<char>;

/// Relies on `str::to_lowercase` from std: the result is a function of the
/// input characters alone, and an empty string stays empty.
#[verifier::external_body]
pub(crate) fn lowercase(s: &str) -> (r: String)
    ensures
        r@ == lower_of(s@),
        s@.len() == 0 ==> r@.len() == 0,
{
    s.to_lowercase()
}

} // verus!
