//! Verified text scanning: line splitting, trimming, and tokenizing, as the
//! feed parsers need them. Everything is stated over character sequences.

use vstd::prelude::*;

verus! {

/// ASCII whitespace, as it occurs in feed files.
pub open spec fn is_space(c: char) -> bool {
    c == ' ' || c == '\t' || c == '\r' || c == '\n' || c == '\u{b}' || c == '\u{c}'
}

/// The first position at or after `i` holding `c`, or the end.
pub open spec fn find_from(s: Seq<char>, i: int, c: char) -> int
    decreases s.len() - i,
{
    if i < 0 {
        0
    } else if i >= s.len() {
        s.len() as int
    } else if s[i] == c {
        i
    } else {
        find_from(s, i + 1, c)
    }
}

/// The first position at or after `i` holding something other than space.
pub open spec fn skip_spaces_from(s: Seq<char>, i: int) -> int
    decreases s.len() - i,
{
    if i < 0 {
        0
    } else if i >= s.len() {
        s.len() as int
    } else if !is_space(s[i]) {
        i
    } else {
        skip_spaces_from(s, i + 1)
    }
}

/// The first position at or after `i` holding a space.
pub open spec fn find_space_from(s: Seq<char>, i: int) -> int
    decreases s.len() - i,
{
    if i < 0 {
        0
    } else if i >= s.len() {
        s.len() as int
    } else if is_space(s[i]) {
        i
    } else {
        find_space_from(s, i + 1)
    }
}

/// The end of the text once trailing spaces are dropped.
pub open spec fn trim_end_at(s: Seq<char>) -> int
    decreases s.len(),
{
    if s.len() == 0 {
        0
    } else if is_space(s.last()) {
        trim_end_at(s.drop_last())
    } else {
        s.len() as int
    }
}

/// The text with leading and trailing spaces removed.
pub open spec fn trim_of(s: Seq<char>) -> Seq<char> {
    let hi = trim_end_at(s);
    let lo = skip_spaces_from(s, 0);
    if lo >= hi {
        Seq::empty()
    } else {
        s.subrange(lo, hi)
    }
}

/// Whether `s` starts with `p`.
pub open spec fn starts_with(s: Seq<char>, p: Seq<char>) -> bool {
    s.len() >= p.len() && s.take(p.len() as int) == p
}

/// The second whitespace-separated token of the text, if there is one.
pub open spec fn second_token(s: Seq<char>) -> Option<Seq<char>> {
    let a1 = skip_spaces_from(s, 0);
    let b1 = find_space_from(s, a1);
    let a2 = skip_spaces_from(s, b1);
    let b2 = find_space_from(s, a2);
    if a2 < s.len() {
        Some(s.subrange(a2, b2))
    } else {
        None
    }
}

/// Positions searched from never lie before the start.
pub proof fn lemma_scan_bounds(s: Seq<char>, i: int, c: char)
    requires
        0 <= i <= s.len(),
    ensures
        i <= find_from(s, i, c) <= s.len(),
        i <= skip_spaces_from(s, i) <= s.len(),
        i <= find_space_from(s, i) <= s.len(),
    decreases s.len() - i,
{
    if i < s.len() {
        lemma_scan_bounds(s, i + 1, c);
    }
}

/// Finds the first occurrence of `c` at or after `from`.
pub fn find_char(s: &str, from: usize, c: char) -> (r: usize)
    requires
        from <= s@.len(),
    ensures
        r == find_from(s@, from as int, c),
        from <= r <= s@.len(),
{
    let n = s.unicode_len();
    let mut i = from;
    while i < n
        invariant
            from <= i <= n,
            n == s@.len(),
            find_from(s@, from as int, c) == find_from(s@, i as int, c),
        decreases n - i,
    {
        if s.get_char(i) == c {
            proof {
                lemma_scan_bounds(s@, i as int, c);
            }
            return i;
        }
        i += 1;
    }
    i
}

/// Finds the first non-space position at or after `from`.
pub fn skip_spaces(s: &str, from: usize) -> (r: usize)
    requires
        from <= s@.len(),
    ensures
        r == skip_spaces_from(s@, from as int),
        from <= r <= s@.len(),
{
    let n = s.unicode_len();
    let mut i = from;
    while i < n
        invariant
            from <= i <= n,
            n == s@.len(),
            skip_spaces_from(s@, from as int) == skip_spaces_from(s@, i as int),
        decreases n - i,
    {
        let ch = s.get_char(i);
        if !(ch == ' ' || ch == '\t' || ch == '\r' || ch == '\n' || ch == '\u{b}' || ch == '\u{c}')
         {
            proof {
                lemma_scan_bounds(s@, i as int, ' ');
            }
            return i;
        }
        i += 1;
    }
    i
}

/// Finds the first space position at or after `from`.
pub fn find_space(s: &str, from: usize) -> (r: usize)
    requires
        from <= s@.len(),
    ensures
        r == find_space_from(s@, from as int),
        from <= r <= s@.len(),
{
    let n = s.unicode_len();
    let mut i = from;
    while i < n
        invariant
            from <= i <= n,
            n == s@.len(),
            find_space_from(s@, from as int) == find_space_from(s@, i as int),
        decreases n - i,
    {
        let ch = s.get_char(i);
        if ch == ' ' || ch == '\t' || ch == '\r' || ch == '\n' || ch == '\u{b}' || ch == '\u{c}' {
            proof {
                lemma_scan_bounds(s@, i as int, ' ');
            }
            return i;
        }
        i += 1;
    }
    i
}

/// The text with leading and trailing spaces removed.
pub fn trim_str<'a>(s: &'a str) -> (r: &'a str)
    ensures
        r@ == trim_of(s@),
{
    let n = s.unicode_len();
    let mut hi = n;
    proof {
        assert(s@.take(n as int) =~= s@);
    }
    while hi > 0
        invariant_except_break
            hi <= n,
            n == s@.len(),
            trim_end_at(s@) == trim_end_at(s@.take(hi as int)),
        ensures
            hi <= n,
            n == s@.len(),
            trim_end_at(s@) == hi as int,
        decreases hi,
    {
        let ch = s.get_char(hi - 1);
        proof {
            assert(s@.take(hi as int).last() == s@[hi - 1]);
            assert(s@.take(hi as int).drop_last() =~= s@.take(hi - 1));
        }
        if ch == ' ' || ch == '\t' || ch == '\r' || ch == '\n' || ch == '\u{b}' || ch == '\u{c}' {
            hi -= 1;
        } else {
            proof {
                assert(!is_space(s@.take(hi as int).last()));
                assert(trim_end_at(s@.take(hi as int)) == hi as int);
            }
            break ;
        }
    }
    let lo = skip_spaces(s, 0);
    if lo >= hi {
        let empty = s.substring_char(0, 0);
        proof {
            assert(empty@ =~= trim_of(s@));
        }
        empty
    } else {
        let t = s.substring_char(lo, hi);
        proof {
            assert(t@ =~= trim_of(s@));
        }
        t
    }
}

/// Whether `s` starts with the prefix `p`.
pub fn str_starts_with(s: &str, p: &str) -> (r: bool)
    ensures
        r == starts_with(s@, p@),
{
    let n = s.unicode_len();
    let m = p.unicode_len();
    if n < m {
        return false;
    }
    let mut i: usize = 0;
    while i < m
        invariant
            0 <= i <= m,
            m <= n,
            n == s@.len(),
            m == p@.len(),
            forall|j: int| 0 <= j < i ==> s@[j] == p@[j],
        decreases m - i,
    {
        if s.get_char(i) != p.get_char(i) {
            proof {
                assert(s@.take(p@.len() as int)[i as int] != p@[i as int]);
            }
            return false;
        }
        i += 1;
    }
    proof {
        assert(s@.take(p@.len() as int) =~= p@);
    }
    true
}

/// The second whitespace-separated token of the text, if there is one.
pub fn second_token_str<'a>(s: &'a str) -> (r: Option<&'a str>)
    ensures
        (r is Some) == (second_token(s@) is Some),
        r matches Some(t) ==> second_token(s@) == Some(t@),
{
    let a1 = skip_spaces(s, 0);
    let b1 = find_space(s, a1);
    let a2 = skip_spaces(s, b1);
    let b2 = find_space(s, a2);
    if a2 < s.unicode_len() {
        Some(s.substring_char(a2, b2))
    } else {
        None
    }
}

} // verus!
