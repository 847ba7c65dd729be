//! Format check of an OpenSSH public key before it is embedded in the bootstrap script.
use vstd::prelude::*;

use crate::error::{Ec2CliError, Result};
use crate::text::{has_prefix, is_ascii_alnum, owned, starts_with};

verus! {

/// A Unicode `White_Space` character, as `char::is_whitespace` defines it.
pub open spec fn is_white(c: char) -> bool {
    ('\u{9}' <= c && c <= '\u{d}') || c == ' ' || c == '\u{85}' || c == '\u{a0}' || c == '\u{1680}'
        || ('\u{2000}' <= c && c <= '\u{200a}') || c == '\u{2028}' || c == '\u{2029}'
        || c == '\u{202f}' || c == '\u{205f}' || c == '\u{3000}'
}

fn white(c: char) -> (r: bool)
    ensures
        r == is_white(c),
{
    ('\u{9}' <= c && c <= '\u{d}') || c == ' ' || c == '\u{85}' || c == '\u{a0}' || c == '\u{1680}'
        || ('\u{2000}' <= c && c <= '\u{200a}') || c == '\u{2028}' || c == '\u{2029}'
        || c == '\u{202f}' || c == '\u{205f}' || c == '\u{3000}'
}

/// The first index at or after `i` whose character is white space (`s.len()` if none).
pub open spec fn next_white(s: Seq<char>, i: int) -> int
    decreases s.len() - i,
{
    if i >= s.len() {
        s.len() as int
    } else if is_white(s[i]) {
        i
    } else {
        next_white(s, i + 1)
    }
}

/// The first index at or after `i` whose character is not white space (`s.len()` if none).
pub open spec fn next_non_white(s: Seq<char>, i: int) -> int
    decreases s.len() - i,
{
    if i >= s.len() {
        s.len() as int
    } else if !is_white(s[i]) {
        i
    } else {
        next_non_white(s, i + 1)
    }
}

/// One past the last character before index `j` that is not white space (0 if none).
pub open spec fn trim_end(s: Seq<char>, j: int) -> int
    decreases j,
{
    if j <= 0 {
        0
    } else if is_white(s[j - 1]) {
        trim_end(s, j - 1)
    } else {
        j
    }
}

/// `s` without leading and trailing white space.
pub open spec fn trimmed(s: Seq<char>) -> Seq<char> {
    let lo = next_non_white(s, 0);
    let hi = trim_end(s, s.len() as int);
    if lo >= hi {
        Seq::empty()
    } else {
        s.subrange(lo, hi)
    }
}

/// The second white-space-separated word of `t`, which starts with a word.
pub open spec fn second_word(t: Seq<char>) -> Seq<char> {
    let a = next_white(t, 0);
    let b = next_non_white(t, a);
    t.subrange(b, next_white(t, b))
}

pub open spec fn is_base64_char(c: char) -> bool {
    is_ascii_alnum(c) || c == '+' || c == '/' || c == '='
}

pub const MIN_KEY_MATERIAL_LEN: usize = 50;

/// A single-line OpenSSH public key: a known type, then key material of at
/// least 50 base64 characters, then an optional comment.
pub open spec fn is_ssh_public_key(s: Seq<char>) -> bool {
    let t = trimmed(s);
    let m = second_word(t);
    &&& t.len() > 0
    &&& !t.contains('\n') && !t.contains('\r')
    &&& (has_prefix(t, "ssh-rsa "@) || has_prefix(t, "ssh-ed25519 "@) || has_prefix(
        t,
        "ecdsa-sha2-nistp"@,
    ))
    &&& m.len() > 0
    &&& (forall|i: int| 0 <= i < m.len() ==> is_base64_char(#[trigger] m[i]))
    &&& m.len() >= MIN_KEY_MATERIAL_LEN
}

proof fn lemma_next_white(s: Seq<char>, from: int, i: int)
    requires
        0 <= from <= i <= s.len(),
        forall|j: int| from <= j < i ==> !is_white(s[j]),
        i == s.len() || is_white(s[i]),
    ensures
        next_white(s, from) == i,
    decreases i - from,
{
    if from < i {
        lemma_next_white(s, from + 1, i);
    }
}

proof fn lemma_next_non_white(s: Seq<char>, from: int, i: int)
    requires
        0 <= from <= i <= s.len(),
        forall|j: int| from <= j < i ==> is_white(s[j]),
        i == s.len() || !is_white(s[i]),
    ensures
        next_non_white(s, from) == i,
    decreases i - from,
{
    if from < i {
        lemma_next_non_white(s, from + 1, i);
    }
}

proof fn lemma_next_non_white_bound(s: Seq<char>, from: int, k: int)
    requires
        0 <= from <= k < s.len(),
        !is_white(s[k]),
    ensures
        next_non_white(s, from) <= k,
    decreases k - from,
{
    if from < k && is_white(s[from]) {
        lemma_next_non_white_bound(s, from + 1, k);
    }
}

proof fn lemma_trim_end(s: Seq<char>, hi: int, j: int)
    requires
        0 <= hi <= j <= s.len(),
        forall|k: int| hi <= k < j ==> is_white(s[k]),
        hi == 0 || !is_white(s[hi - 1]),
    ensures
        trim_end(s, j) == hi,
    decreases j,
{
    if j > hi {
        lemma_trim_end(s, hi, j - 1);
    }
}

pub(crate) fn find_white(s: &str, from: usize, n: usize) -> (r: usize)
    requires
        n == s@.len(),
        from <= n,
    ensures
        r == next_white(s@, from as int),
        from <= r <= n,
{
    let mut i = from;
    while i < n
        invariant
            n == s@.len(),
            from <= i <= n,
            forall|j: int| from <= j < i ==> !is_white(s@[j]),
        decreases n - i,
    {
        if white(s.get_char(i)) {
            proof {
                lemma_next_white(s@, from as int, i as int);
            }
            return i;
        }
        i += 1;
    }
    proof {
        lemma_next_white(s@, from as int, i as int);
    }
    i
}

fn find_non_white(s: &str, from: usize, n: usize) -> (r: usize)
    requires
        n == s@.len(),
        from <= n,
    ensures
        r == next_non_white(s@, from as int),
        from <= r <= n,
{
    let mut i = from;
    while i < n
        invariant
            n == s@.len(),
            from <= i <= n,
            forall|j: int| from <= j < i ==> is_white(s@[j]),
        decreases n - i,
    {
        if !white(s.get_char(i)) {
            proof {
                lemma_next_non_white(s@, from as int, i as int);
            }
            return i;
        }
        i += 1;
    }
    proof {
        lemma_next_non_white(s@, from as int, i as int);
    }
    i
}

/// `s` without leading and trailing white space.
pub fn trim_text(s: &str) -> (r: &str)
    ensures
        r@ == trimmed(s@),
{
    let n = s.unicode_len();
    let lo = find_non_white(s, 0, n);
    let mut hi = n;
    while hi > 0
        invariant
            n == s@.len(),
            hi <= n,
            lo == next_non_white(s@, 0),
            lo <= n,
            forall|k: int| hi <= k < n ==> is_white(s@[k]),
        decreases hi,
    {
        if !white(s.get_char(hi - 1)) {
            proof {
                lemma_trim_end(s@, hi as int, n as int);
                lemma_next_non_white_bound(s@, 0, hi - 1);
            }
            return s.substring_char(lo, hi);
        }
        hi -= 1;
    }
    proof {
        lemma_trim_end(s@, 0, n as int);
        reveal_strlit("");
    }
    ""
}

pub(crate) fn has_line_break(s: &str) -> (r: bool)
    ensures
        r == (s@.contains('\n') || s@.contains('\r')),
{
    let n = s.unicode_len();
    let mut i: usize = 0;
    while i < n
        invariant
            n == s@.len(),
            i <= n,
            forall|j: int| 0 <= j < i ==> s@[j] != '\n' && s@[j] != '\r',
        decreases n - i,
    {
        let c = s.get_char(i);
        if c == '\n' || c == '\r' {
            assert(s@[i as int] == c);
            return true;
        }
        i += 1;
    }
    false
}

fn key_error(m: &str) -> (r: Ec2CliError)
    ensures
        r is SshKeyInvalid,
{
    Ec2CliError::SshKeyInvalid(owned(m))
}

/// Checks that `key` is a single-line OpenSSH public key.
pub fn validate_ssh_key_format(key: &str) -> (r: Result<()>)
    ensures
        r is Ok <==> is_ssh_public_key(key@),
        r is Err ==> r->Err_0 is SshKeyInvalid,
{
    let t = trim_text(key);
    proof {
        reveal_strlit("");
    }
    let n = t.unicode_len();
    if n == 0 {
        return Err(key_error("SSH key is empty"));
    }
    if has_line_break(t) {
        return Err(key_error("SSH key contains multiple lines. Only single-line keys are supported."));
    }
    if !(starts_with(t, "ssh-rsa ") || starts_with(t, "ssh-ed25519 ") || starts_with(t, "ecdsa-sha2-nistp")) {
        return Err(key_error("Invalid SSH public key format. Must start with 'ssh-rsa', 'ssh-ed25519', or 'ecdsa-sha2-nistp*'."));
    }
    let a = find_white(t, 0, n);
    let b = find_non_white(t, a, n);
    let c = find_white(t, b, n);
    if b == c {
        return Err(key_error("SSH key appears malformed (missing key data)"));
    }
    let ghost m = t@.subrange(b as int, c as int);
    let mut i = b;
    while i < c
        invariant
            n == t@.len(),
            b <= i <= c <= n,
            m == t@.subrange(b as int, c as int),
            t@ == trimmed(key@),
            a == next_white(t@, 0),
            b == next_non_white(t@, a as int),
            c == next_white(t@, b as int),
            forall|j: int| b <= j < i ==> is_base64_char(#[trigger] t@[j]),
        decreases c - i,
    {
        let ch = t.get_char(i);
        if !(('a' <= ch && ch <= 'z') || ('A' <= ch && ch <= 'Z') || ('0' <= ch && ch <= '9')
            || ch == '+' || ch == '/' || ch == '=') {
            assert(m[i - b] == ch);
            return Err(key_error("SSH key material contains invalid characters (expected base64)"));
        }
        i += 1;
    }
    assert forall|j: int| 0 <= j < m.len() implies is_base64_char(#[trigger] m[j]) by {
        assert(m[j] == t@[b + j]);
    }
    if c - b < MIN_KEY_MATERIAL_LEN {
        return Err(key_error("SSH key material too short (expected at least 50 characters)"));
    }
    Ok(())
}

} // verus!
