//! Small verified operations on text, stated over the character sequence
//! that a string denotes.
use vstd::prelude::*;

verus! {

/// Index of the first `c` at or after `from`, or the length when there is none.
pub open spec fn find_char_from(s: Seq<char>, c: char, from: int) -> int
    decreases s.len() - from,
{
    if from >= s.len() {
        s.len() as int
    } else if s[from] == c {
        from
    } else {
        find_char_from(s, c, from + 1)
    }
}

/// `find_char_from` lands in `[from, len]` on `c` or at the end, with no `c` before it.
pub proof fn lemma_find_char_from(s: Seq<char>, c: char, from: int)
    requires
        0 <= from <= s.len(),
    ensures
        from <= find_char_from(s, c, from) <= s.len(),
        find_char_from(s, c, from) < s.len() ==> s[find_char_from(s, c, from)] == c,
        forall|j: int| from <= j < find_char_from(s, c, from) ==> s[j] != c,
    decreases s.len() - from,
{
    if from < s.len() && s[from] != c {
        lemma_find_char_from(s, c, from + 1);
    }
}

/// Searching a suffix is searching the whole text from the suffix's start.
pub proof fn lemma_find_char_in_suffix(s: Seq<char>, c: char, start: int, from: int)
    requires
        0 <= start <= s.len(),
        0 <= from <= s.len() - start,
    ensures
        find_char_from(s.subrange(start, s.len() as int), c, from) + start
            == find_char_from(s, c, start + from),
    decreases s.len() - start - from,
{
    if from < s.len() - start {
        assert(s.subrange(start, s.len() as int)[from] == s[start + from]);
        if s[start + from] != c {
            lemma_find_char_in_suffix(s, c, start, from + 1);
        }
    }
}

/// Searching a prefix that contains the first `c` finds the same place.
pub proof fn lemma_find_char_in_prefix(s: Seq<char>, c: char, end: int, from: int)
    requires
        0 <= from <= end <= s.len(),
        find_char_from(s, c, from) < end,
    ensures
        find_char_from(s.subrange(0, end), c, from) == find_char_from(s, c, from),
    decreases end - from,
{
    lemma_find_char_from(s, c, from);
    assert(s.subrange(0, end)[from] == s[from]);
    if s[from] != c {
        lemma_find_char_in_prefix(s, c, end, from + 1);
    }
}

/// First position at or after `from` holding `c`, or the number of characters.
pub fn find_char(s: &str, c: char, from: usize) -> (k: usize)
    requires
        from <= s@.len(),
    ensures
        k == find_char_from(s@, c, from as int),
{
    let n = s.unicode_len();
    let mut i = from;
    proof {
        lemma_find_char_from(s@, c, from as int);
    }
    while i < n
        invariant
            n == s@.len(),
            from <= i <= n,
            forall|j: int| from <= j < i ==> s@[j] != c,
        decreases n - i,
    {
        if s.get_char(i) == c {
            proof {
                lemma_find_char_first(s@, c, from as int, i as int);
            }
            return i;
        }
        i += 1;
    }
    proof {
        lemma_find_char_first(s@, c, from as int, n as int);
    }
    n
}

/// When no `c` occurs in `[from, k)` and `k` is the end or holds `c`, the search yields `k`.
pub proof fn lemma_find_char_first(s: Seq<char>, c: char, from: int, k: int)
    requires
        0 <= from <= k <= s.len(),
        forall|j: int| from <= j < k ==> s[j] != c,
        k == s.len() || s[k] == c,
    ensures
        find_char_from(s, c, from) == k,
    decreases k - from,
{
    if from < k {
        lemma_find_char_first(s, c, from + 1, k);
    }
}

/// Whether two texts are the same character sequence.
pub fn same_text(a: &str, b: &str) -> (same: bool)
    ensures
        same == (a@ == b@),
{
    let n = a.unicode_len();
    let m = b.unicode_len();
    if n != m {
        return false;
    }
    let mut i: usize = 0;
    while i < n
        invariant
            n == a@.len(),
            m == b@.len(),
            n == m,
            0 <= i <= n,
            forall|j: int| 0 <= j < i ==> a@[j] == b@[j],
        decreases n - i,
    {
        if a.get_char(i) != b.get_char(i) {
            return false;
        }
        i += 1;
    }
    assert(a@ =~= b@);
    true
}

/// Whether `s` begins with `prefix`.
pub fn starts_with_text(s: &str, prefix: &str) -> (yes: bool)
    ensures
        yes == prefix@.is_prefix_of(s@),
{
    let n = s.unicode_len();
    let m = prefix.unicode_len();
    if m > n {
        return false;
    }
    let mut i: usize = 0;
    while i < m
        invariant
            n == s@.len(),
            m == prefix@.len(),
            m <= n,
            0 <= i <= m,
            forall|j: int| 0 <= j < i ==> prefix@[j] == s@[j],
        decreases m - i,
    {
        if s.get_char(i) != prefix.get_char(i) {
            return false;
        }
        i += 1;
    }
    true
}

/// The text with every trailing `'/'` removed.
pub open spec fn trim_trailing_slashes(s: Seq<char>) -> Seq<char>
    decreases s.len(),
{
    if s.len() > 0 && s.last() == '/' {
        trim_trailing_slashes(s.drop_last())
    } else {
        s
    }
}

/// The prefix of `s` without its trailing `'/'` characters.
pub fn trim_end_slashes(s: &str) -> (t: &str)
    ensures
        t@ == trim_trailing_slashes(s@),
{
    let n = s.unicode_len();
    let mut end = n;
    assert(s@.subrange(0, n as int) =~= s@);
    while end > 0 && s.get_char(end - 1) == '/'
        invariant
            n == s@.len(),
            0 <= end <= n,
            trim_trailing_slashes(s@.subrange(0, end as int)) == trim_trailing_slashes(s@),
        decreases end,
    {
        assert(s@.subrange(0, end as int).drop_last() =~= s@.subrange(0, end - 1));
        end -= 1;
    }
    let t = s.substring_char(0, end);
    proof {
        if end > 0 {
            assert(s@.subrange(0, end as int).last() == s@[end - 1]);
        }
    }
    t
}

} // verus!
