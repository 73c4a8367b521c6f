//! Small string utilities: equality, substring search, trimming.
//!
//! Everything here is specified over the character sequence view of the
//! strings involved, so the parsing code can state exactly which slice
//! of the input each step works on.

use vstd::prelude::*;

verus! {

/// ASCII whitespace, the characters stripped from around a number
/// before it is parsed.
pub open spec fn is_space(c: char) -> bool {
    c == ' ' || c == '\t' || c == '\n' || c == '\r'
}

/// Character-wise equality of two string slices.
pub fn str_eq(a: &str, b: &str) -> (r: bool)
    ensures
        r == (a@ == b@),
{
    let sa = a.to_owned();
    let sb = b.to_owned();
    sa == sb
}

/// The sequence with its leading whitespace removed.
pub open spec fn trim_front(s: Seq<char>) -> Seq<char>
    decreases s.len(),
{
    if s.len() > 0 && is_space(s[0]) {
        trim_front(s.subrange(1, s.len() as int))
    } else {
        s
    }
}

/// The sequence with its trailing whitespace removed.
pub open spec fn trim_back(s: Seq<char>) -> Seq<char>
    decreases s.len(),
{
    if s.len() > 0 && is_space(s.last()) {
        trim_back(s.drop_last())
    } else {
        s
    }
}

/// The sequence with whitespace removed from both ends.
pub open spec fn trim_spec(s: Seq<char>) -> Seq<char> {
    trim_back(trim_front(s))
}

proof fn lemma_trim_front_at(s: Seq<char>, a: int)
    requires
        0 <= a <= s.len(),
        forall|i: int| 0 <= i < a ==> is_space(#[trigger] s[i]),
        a < s.len() ==> !is_space(s[a]),
    ensures
        trim_front(s) == s.subrange(a, s.len() as int),
    decreases a,
{
    if a == 0 {
        assert(s.subrange(0, s.len() as int) =~= s);
    } else {
        let s1 = s.subrange(1, s.len() as int);
        lemma_trim_front_at(s1, a - 1);
        assert(s1.subrange(a - 1, s1.len() as int) =~= s.subrange(a, s.len() as int));
    }
}

proof fn lemma_trim_back_at(s: Seq<char>, b: int)
    requires
        0 <= b <= s.len(),
        forall|i: int| b <= i < s.len() ==> is_space(#[trigger] s[i]),
        b > 0 ==> !is_space(s[b - 1]),
    ensures
        trim_back(s) == s.subrange(0, b),
    decreases s.len(),
{
    if b == s.len() {
        if s.len() > 0 && is_space(s.last()) {
            assert(false);
        }
        assert(s.subrange(0, b) =~= s);
    } else {
        let s1 = s.drop_last();
        assert(s1 =~= s.subrange(0, s.len() - 1));
        lemma_trim_back_at(s1, b);
        assert(s1.subrange(0, b) =~= s.subrange(0, b));
    }
}

/// Remove leading and trailing whitespace.
pub fn trim(s: &str) -> (r: &str)
    ensures
        r@ == trim_spec(s@),
{
    let n = s.unicode_len();
    let mut a: usize = 0;
    while a < n && is_space_char(s.get_char(a))
        invariant
            0 <= a <= n,
            n == s@.len(),
            forall|i: int| 0 <= i < a ==> is_space(#[trigger] s@[i]),
        decreases n - a,
    {
        a = a + 1;
    }
    let mut b: usize = n;
    while b > a && is_space_char(s.get_char(b - 1))
        invariant
            a <= b <= n,
            n == s@.len(),
            forall|i: int| b <= i < n ==> is_space(#[trigger] s@[i]),
        decreases b,
    {
        b = b - 1;
    }
    proof {
        lemma_trim_front_at(s@, a as int);
        let t = s@.subrange(a as int, n as int);
        lemma_trim_back_at(t, b - a);
        assert(t.subrange(0, b - a) =~= s@.subrange(a as int, b as int));
    }
    s.substring_char(a, b)
}

fn is_space_char(c: char) -> (r: bool)
    ensures
        r == is_space(c),
{
    c == ' ' || c == '\t' || c == '\n' || c == '\r'
}

/// The pattern occurs in `s` starting at position `i`.
pub open spec fn match_at(s: Seq<char>, pat: Seq<char>, i: int) -> bool {
    0 <= i && i + pat.len() <= s.len() && s.subrange(i, i + pat.len()) == pat
}

/// The position of the first occurrence of `pat` in `s`, if any.
pub open spec fn first_match(s: Seq<char>, pat: Seq<char>) -> Option<int>
    decreases s.len(),
{
    if s.len() < pat.len() {
        None
    } else if s.subrange(0, pat.len() as int) =~= pat {
        Some(0)
    } else {
        match first_match(s.subrange(1, s.len() as int), pat) {
            Some(i) => Some(i + 1),
            None => None,
        }
    }
}

/// `first_match` returns the least position at which the pattern
/// occurs, and `None` exactly when it occurs nowhere.
pub proof fn lemma_first_match(s: Seq<char>, pat: Seq<char>)
    ensures
        match first_match(s, pat) {
            Some(i) => match_at(s, pat, i) && forall|j: int| 0 <= j < i ==> !match_at(s, pat, j),
            None => forall|j: int| !match_at(s, pat, j),
        },
    decreases s.len(),
{
    if s.len() < pat.len() {
        assert(forall|j: int| !match_at(s, pat, j));
    } else if s.subrange(0, pat.len() as int) =~= pat {
    } else {
        assert(s.len() >= 1) by {
            if s.len() == 0 {
                assert(s.subrange(0, pat.len() as int) =~= pat);
            }
        }
        let s1 = s.subrange(1, s.len() as int);
        lemma_first_match(s1, pat);
        assert forall|j: int| 0 <= j && j + pat.len() <= s1.len() implies
            (match_at(s1, pat, j) == match_at(s, pat, j + 1)) by {
            assert(s1.subrange(j, j + pat.len() as int) =~= s.subrange(j + 1, j + 1 + pat.len()));
            if s1.subrange(j, j + pat.len() as int) == pat {
                assert(s.subrange(j + 1, j + 1 + pat.len()) == pat);
            }
            if s.subrange(j + 1, j + 1 + pat.len()) == pat {
                assert(s1.subrange(j, j + pat.len() as int) == pat);
            }
        }
        match first_match(s1, pat) {
            Some(i) => {
                assert(match_at(s, pat, i + 1));
                assert forall|j: int| 0 <= j < i + 1 implies !match_at(s, pat, j) by {
                    if j == 0 {
                        assert(!(s.subrange(0, pat.len() as int) =~= pat));
                    } else {
                        assert(!match_at(s1, pat, j - 1));
                    }
                }
            },
            None => {
                assert forall|j: int| true implies !match_at(s, pat, j) by {
                    if j == 0 {
                        if match_at(s, pat, 0) {
                            assert(s.subrange(0, pat.len() as int) =~= pat);
                        }
                    } else if j >= 1 && j + pat.len() <= s.len() {
                        assert(!match_at(s1, pat, j - 1));
                    }
                }
            },
        }
    }
}

/// Find the first occurrence of `pat` in `s`.
pub fn find_sub(s: &str, pat: &str) -> (r: Option<usize>)
    ensures
        match r {
            Some(i) => first_match(s@, pat@) == Some(i as int),
            None => first_match(s@, pat@) is None,
        },
{
    let n = s.unicode_len();
    let m = pat.unicode_len();
    proof {
        lemma_first_match(s@, pat@);
    }
    if m > n {
        return None;
    }
    if m == 0 {
        proof {
            assert(s@.subrange(0, 0) =~= pat@);
            assert(match_at(s@, pat@, 0));
        }
        return Some(0);
    }
    let mut i: usize = 0;
    while i <= n - m
        invariant
            0 <= i <= n - m + 1,
            0 < m <= n,
            n == s@.len(),
            m == pat@.len(),
            forall|j: int| 0 <= j < i ==> !match_at(s@, pat@, j),
        decreases n - i,
    {
        let piece = s.substring_char(i, i + m);
        if str_eq(piece, pat) {
            proof {
                lemma_first_match(s@, pat@);
                assert(match_at(s@, pat@, i as int));
            }
            return Some(i);
        }
        i = i + 1;
    }
    proof {
        lemma_first_match(s@, pat@);
    }
    None
}

/// The position of the first occurrence of `c1` or `c2` in `s`, if any.
pub open spec fn first_index_of2(s: Seq<char>, c1: char, c2: char) -> Option<int>
    decreases s.len(),
{
    if s.len() == 0 {
        None
    } else if s[0] == c1 || s[0] == c2 {
        Some(0)
    } else {
        match first_index_of2(s.subrange(1, s.len() as int), c1, c2) {
            Some(i) => Some(i + 1),
            None => None,
        }
    }
}

/// `first_index_of2` returns the least position holding one of the two
/// characters, and `None` exactly when neither occurs.
pub proof fn lemma_first_index_of2(s: Seq<char>, c1: char, c2: char)
    ensures
        match first_index_of2(s, c1, c2) {
            Some(i) => 0 <= i < s.len() && (s[i] == c1 || s[i] == c2) && forall|j: int|
                0 <= j < i ==> #[trigger] s[j] != c1 && s[j] != c2,
            None => forall|j: int| 0 <= j < s.len() ==> #[trigger] s[j] != c1 && s[j] != c2,
        },
    decreases s.len(),
{
    if s.len() == 0 {
    } else if s[0] == c1 || s[0] == c2 {
    } else {
        let s1 = s.subrange(1, s.len() as int);
        lemma_first_index_of2(s1, c1, c2);
        assert(forall|j: int| 1 <= j < s.len() ==> #[trigger] s[j] == s1[j - 1]);
        match first_index_of2(s1, c1, c2) {
            Some(i) => {
                assert(s[i + 1] == s1[i]);
                assert forall|j: int| 0 <= j < i + 1 implies #[trigger] s[j] != c1 && s[j] != c2 by {
                    if j > 0 {
                        assert(s1[j - 1] != c1 && s1[j - 1] != c2);
                    }
                }
            },
            None => {
                assert forall|j: int| 0 <= j < s.len() implies #[trigger] s[j] != c1 && s[j] != c2 by {
                    if j > 0 {
                        assert(s1[j - 1] != c1 && s1[j - 1] != c2);
                    }
                }
            },
        }
    }
}

/// Find the first occurrence of `c1` or `c2` in `s`.
pub fn find_char2(s: &str, c1: char, c2: char) -> (r: Option<usize>)
    ensures
        match r {
            Some(i) => first_index_of2(s@, c1, c2) == Some(i as int),
            None => first_index_of2(s@, c1, c2) is None,
        },
{
    let n = s.unicode_len();
    let mut i: usize = 0;
    while i < n
        invariant
            0 <= i <= n,
            n == s@.len(),
            forall|j: int| 0 <= j < i ==> #[trigger] s@[j] != c1 && s@[j] != c2,
        decreases n - i,
    {
        let c = s.get_char(i);
        if c == c1 || c == c2 {
            proof {
                lemma_first_index_of2(s@, c1, c2);
            }
            return Some(i);
        }
        i = i + 1;
    }
    proof {
        lemma_first_index_of2(s@, c1, c2);
    }
    None
}

/// Whether `pat` is a prefix of `s`.
pub fn has_prefix(s: &str, pat: &str) -> (r: bool)
    ensures
        r == (s@.len() >= pat@.len() && s@.subrange(0, pat@.len() as int) == pat@),
{
    let n = s.unicode_len();
    let m = pat.unicode_len();
    if m > n {
        return false;
    }
    let piece = s.substring_char(0, m);
    str_eq(piece, pat)
}

} // verus!
