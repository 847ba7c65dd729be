use vstd::prelude::*;
use vstd::string::StringExecFns;

verus! {

/// Appends the characters of `t` to `s`.
pub(crate) fn append(s: &mut String, t: &str)
    ensures
        final(s)@ == old(s)@ + t@,
{
    s.append(t);
}

/// An owned copy of `s`.
pub(crate) fn owned(s: &str) -> (r: String)
    ensures
        r@ == s@,
{
    s.to_owned()
}

/// The concatenation of `a` and `b`.
pub(crate) fn concat2(a: &str, b: &str) -> (r: String)
    ensures
        r@ == a@ + b@,
{
    let mut r = owned(a);
    append(&mut r, b);
    r
}

/// The concatenation of `a`, `b` and `c`.
pub(crate) fn concat3(a: &str, b: &str, c: &str) -> (r: String)
    ensures
        r@ == a@ + b@ + c@,
{
    let mut r = owned(a);
    append(&mut r, b);
    append(&mut r, c);
    r
}

/// Whether `s` begins with `p`.
pub open spec fn has_prefix(s: Seq<char>, p: Seq<char>) -> bool {
    p.len() <= s.len() && s.subrange(0, p.len() as int) == p
}

/// Whether `m` occurs in `s` starting at index `i`.
pub open spec fn occurs_at(s: Seq<char>, m: Seq<char>, i: int) -> bool {
    0 <= i && i + m.len() <= s.len() && s.subrange(i, i + m.len()) == m
}

/// Whether `c` is an ASCII letter or digit.
pub open spec fn is_ascii_alnum(c: char) -> bool {
    ('a' <= c && c <= 'z') || ('A' <= c && c <= 'Z') || ('0' <= c && c <= '9')
}

/// Whether `c` is an ASCII digit.
pub open spec fn is_ascii_digit(c: char) -> bool {
    '0' <= c && c <= '9'
}

pub(crate) fn ascii_alnum(c: char) -> (r: bool)
    ensures
        r == is_ascii_alnum(c),
{
    ('a' <= c && c <= 'z') || ('A' <= c && c <= 'Z') || ('0' <= c && c <= '9')
}

/// Whether the two texts are equal.
pub(crate) fn same_text(a: &str, b: &str) -> (r: bool)
    ensures
        r == (a@ == b@),
{
    let n = a.unicode_len();
    let m = b.unicode_len();
    if n != m {
        return false;
    }
    let mut i: usize = 0;
    while i < n
        invariant
            n == a@.len(),
            m == b@.len(),
            n == m,
            i <= n,
            forall|j: int| 0 <= j < i ==> a@[j] == b@[j],
        decreases n - i,
    {
        if a.get_char(i) != b.get_char(i) {
            return false;
        }
        i += 1;
    }
    assert(a@ =~= b@);
    true
}

/// Whether `s` begins with `p`.
pub(crate) fn starts_with(s: &str, p: &str) -> (r: bool)
    ensures
        r == has_prefix(s@, p@),
{
    let n = s.unicode_len();
    let m = p.unicode_len();
    if m > n {
        return false;
    }
    let mut i: usize = 0;
    while i < m
        invariant
            n == s@.len(),
            m == p@.len(),
            m <= n,
            i <= m,
            forall|j: int| 0 <= j < i ==> s@[j] == p@[j],
        decreases m - i,
    {
        if s.get_char(i) != p.get_char(i) {
            assert(s@.subrange(0, m as int)[i as int] != p@[i as int]);
            return false;
        }
        i += 1;
    }
    assert(s@.subrange(0, m as int) =~= p@);
    true
}

} // verus!

verus! {

/// Whether `m` occurs somewhere in `s`.
pub open spec fn contains_seq(s: Seq<char>, m: Seq<char>) -> bool {
    exists|i: int| occurs_at(s, m, i)
}

/// Whether `m` occurs in `s`.
pub(crate) fn contains_text(s: &str, m: &str) -> (r: bool)
    ensures
        r == contains_seq(s@, m@),
{
    let n = s.unicode_len();
    let k = m.unicode_len();
    if k > n {
        assert forall|i: int| !occurs_at(s@, m@, i) by {}
        return false;
    }
    let mut i: usize = 0;
    while i <= n - k
        invariant
            n == s@.len(),
            k == m@.len(),
            k <= n,
            i <= n - k + 1,
            forall|p: int| 0 <= p < i ==> !occurs_at(s@, m@, p),
        decreases n - k + 1 - i,
    {
        let mut j: usize = 0;
        let mut matched = true;
        while j < k
            invariant
                n == s@.len(),
                k == m@.len(),
                i + k <= n,
                j <= k,
                matched ==> forall|q: int| 0 <= q < j ==> s@[i + q] == m@[q],
                !matched ==> !occurs_at(s@, m@, i as int),
            decreases k - j,
        {
            if matched && s.get_char(i + j) != m.get_char(j) {
                assert(s@.subrange(i as int, i + k)[j as int] != m@[j as int]);
                matched = false;
            }
            j += 1;
        }
        if matched {
            assert(s@.subrange(i as int, i + k) =~= m@);
            assert(occurs_at(s@, m@, i as int));
            return true;
        }
        if i == n - k {
            assert forall|p: int| !occurs_at(s@, m@, p) by {
                if 0 <= p <= i {
                }
            }
            return false;
        }
        i += 1;
    }
    assert forall|p: int| !occurs_at(s@, m@, p) by {
        if 0 <= p < i {
        }
    }
    false
}

} // verus!
