//! Verified character-level helpers for comparing and slicing names.
use vstd::prelude::*;

verus! {

/// Whether `p` is a prefix of `s`.
pub open spec fn is_prefix(p: Seq<char>, s: Seq<char>) -> bool {
    p.len() <= s.len() && s.subrange(0, p.len() as int) == p
}

/// Whether the text holds an ASCII capital letter.
pub open spec fn contains_upper(s: Seq<char>) -> bool {
    exists|i: int| 0 <= i < s.len() && 'A' <= #[trigger] s[i] <= 'Z'
}

/// Character-for-character string equality.
pub fn str_eq(a: &str, b: &str) -> (r: bool)
    ensures
        r == (a@ == b@),
{
    let n = a.unicode_len();
    let m = b.unicode_len();
    if n != m {
        return false;
    }
    for i in 0..n
        invariant
            n == a@.len(),
            n == b@.len(),
            forall|j: int| 0 <= j < i ==> a@[j] == b@[j],
    {
        if a.get_char(i) != b.get_char(i) {
            return false;
        }
    }
    proof {
        assert(a@ =~= b@);
    }
    true
}

/// Whether `prefix` begins `s`, character for character.
pub fn str_starts_with(s: &str, prefix: &str) -> (r: bool)
    ensures
        r == is_prefix(prefix@, s@),
{
    let n = s.unicode_len();
    let m = prefix.unicode_len();
    if m > n {
        return false;
    }
    for i in 0..m
        invariant
            m <= n,
            n == s@.len(),
            m == prefix@.len(),
            forall|j: int| 0 <= j < i ==> s@[j] == prefix@[j],
    {
        if s.get_char(i) != prefix.get_char(i) {
            return false;
        }
    }
    proof {
        assert(s@.subrange(0, prefix@.len() as int) =~= prefix@);
    }
    true
}

/// Whether the text holds an ASCII capital letter.
pub fn has_uppercase(s: &str) -> (r: bool)
    ensures
        r == contains_upper(s@),
{
    let n = s.unicode_len();
    for i in 0..n
        invariant
            n == s@.len(),
            forall|j: int| 0 <= j < i ==> !('A' <= #[trigger] s@[j] <= 'Z'),
    {
        let c = s.get_char(i);
        if 'A' <= c && c <= 'Z' {
            return true;
        }
    }
    false
}


/// No ASCII capital letter among the first `n` characters, checked one
/// position at a time so that short names unfold by fuel.
pub open spec fn no_upper_upto(s: Seq<char>, n: int) -> bool
    decreases n,
{
    n <= 0 || (no_upper_upto(s, n - 1) && !('A' <= s[n - 1] <= 'Z'))
}

/// A text whose every position passes the stepwise check holds no capital.
pub proof fn lemma_no_upper(s: Seq<char>, n: int)
    requires
        n == s.len(),
        no_upper_upto(s, n),
    ensures
        !contains_upper(s),
{
    assert forall|i: int| 0 <= i < s.len() implies !('A' <= #[trigger] s[i] <= 'Z') by {
        lemma_no_upper_at(s, n, i);
    }
}

/// Unwinds the stepwise check down to one position.
proof fn lemma_no_upper_at(s: Seq<char>, n: int, i: int)
    requires
        no_upper_upto(s, n),
        0 <= i < n,
    ensures
        !('A' <= s[i] <= 'Z'),
    decreases n,
{
    if i < n - 1 {
        lemma_no_upper_at(s, n - 1, i);
    }
}

/// Relies on the standard library's `String::push`: appends one character.
pub assume_specification[ String::push ](s: &mut String, c: char)
    ensures
        final(s)@ == old(s)@.push(c),
;

} // verus!
