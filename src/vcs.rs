//! Version-control command arguments and the reading of their output.
use vstd::prelude::*;

use crate::ssh_key::{find_white, next_white, trim_text, trimmed};
use crate::text::{concat3, owned, same_text};

verus! {

/// Options of a push.
#[derive(Debug, Clone, Default)]
pub struct PushOptions {
    /// Branch or bookmark to push; the current one when `None`.
    pub branch: Option<String>,
    /// Set upstream tracking.
    pub set_upstream: bool,
    /// The SSH command to reach the remote through.
    pub ssh_command: Option<String>,
}

/// Options of a pull or fetch.
#[derive(Debug, Clone, Default)]
pub struct PullOptions {
    /// Branch to pull; ignored by Jujutsu, which fetches every ref.
    pub branch: Option<String>,
    /// The SSH command to reach the remote through.
    pub ssh_command: Option<String>,
}

/// The views of a list of arguments.
pub open spec fn arg_views(v: Seq<String>) -> Seq<Seq<char>> {
    v.map_values(|s: String| s@)
}

/// The arguments of `git push`: an explicit `branch:branch` refspec, so that a
/// branch without upstream can be pushed.
pub open spec fn git_push_argv(remote: Seq<char>, branch: Option<Seq<char>>, set_upstream: bool) -> Seq<Seq<char>> {
    seq!["push"@] + (if set_upstream { seq!["-u"@] } else { Seq::empty() }) + seq![remote] + match branch {
        Some(b) => seq![b + ":"@ + b],
        None => Seq::empty(),
    }
}

/// The arguments of `git pull`.
pub open spec fn git_pull_argv(remote: Seq<char>, branch: Option<Seq<char>>) -> Seq<Seq<char>> {
    seq!["pull"@, remote] + match branch {
        Some(b) => seq![b],
        None => Seq::empty(),
    }
}

/// The arguments of `jj git push`.
pub open spec fn jj_push_argv(remote: Seq<char>, bookmark: Option<Seq<char>>) -> Seq<Seq<char>> {
    seq!["git"@, "push"@, "--ignore-working-copy"@, "--allow-new"@, "--remote"@, remote] + match bookmark {
        Some(b) => seq!["--bookmark"@, b],
        None => Seq::empty(),
    }
}

/// The arguments of `jj git fetch`.
pub open spec fn jj_fetch_argv(remote: Seq<char>) -> Seq<Seq<char>> {
    seq!["git"@, "fetch"@, "--ignore-working-copy"@, "--remote"@, remote]
}

pub open spec fn opt_view(o: Option<String>) -> Option<Seq<char>> {
    match o {
        Some(s) => Some(s@),
        None => None,
    }
}

/// The arguments of `git push` to `remote`.
pub fn git_push_args(remote: &str, options: &PushOptions) -> (r: Vec<String>)
    ensures
        arg_views(r@) == git_push_argv(remote@, opt_view(options.branch), options.set_upstream),
{
    let mut r = vec![owned("push")];
    if options.set_upstream {
        r.push(owned("-u"));
    }
    r.push(owned(remote));
    if let Some(b) = &options.branch {
        r.push(concat3(b.as_str(), ":", b.as_str()));
    }
    assert(arg_views(r@) =~= git_push_argv(remote@, opt_view(options.branch), options.set_upstream));
    r
}

/// The arguments of `git pull` from `remote`.
pub fn git_pull_args(remote: &str, options: &PullOptions) -> (r: Vec<String>)
    ensures
        arg_views(r@) == git_pull_argv(remote@, opt_view(options.branch)),
{
    let mut r = vec![owned("pull"), owned(remote)];
    if let Some(b) = &options.branch {
        r.push(b.clone());
    }
    assert(arg_views(r@) =~= git_pull_argv(remote@, opt_view(options.branch)));
    r
}

/// The arguments of `jj git push` to `remote`.
pub fn jj_push_args(remote: &str, options: &PushOptions) -> (r: Vec<String>)
    ensures
        arg_views(r@) == jj_push_argv(remote@, opt_view(options.branch)),
{
    let mut r = vec![
        owned("git"),
        owned("push"),
        owned("--ignore-working-copy"),
        owned("--allow-new"),
        owned("--remote"),
        owned(remote),
    ];
    if let Some(b) = &options.branch {
        r.push(owned("--bookmark"));
        r.push(b.clone());
    }
    assert(arg_views(r@) =~= jj_push_argv(remote@, opt_view(options.branch)));
    r
}

/// The arguments of `jj git fetch` from `remote`.
pub fn jj_fetch_args(remote: &str) -> (r: Vec<String>)
    ensures
        arg_views(r@) == jj_fetch_argv(remote@),
{
    let r = vec![owned("git"), owned("fetch"), owned("--ignore-working-copy"), owned("--remote"), owned(remote)];
    assert(arg_views(r@) =~= jj_fetch_argv(remote@));
    r
}

/// The current git branch from the output of `git rev-parse --abbrev-ref HEAD`:
/// `None` when empty or detached (`HEAD`).
pub open spec fn git_branch_of(output: Seq<char>) -> Option<Seq<char>> {
    let t = trimmed(output);
    if t.len() == 0 || t == "HEAD"@ {
        None
    } else {
        Some(t)
    }
}

/// Reads the current git branch from `git rev-parse --abbrev-ref HEAD` output.
pub fn parse_git_branch(output: &str) -> (r: Option<String>)
    ensures
        opt_view(r) == git_branch_of(output@),
{
    let t = trim_text(output);
    if t.unicode_len() == 0 || same_text(t, "HEAD") {
        None
    } else {
        Some(owned(t))
    }
}

/// The index of the first `@` in `w` (its length if none).
pub open spec fn first_at(w: Seq<char>, i: int) -> int
    decreases w.len() - i,
{
    if i >= w.len() {
        w.len() as int
    } else if w[i] == '@' {
        i
    } else {
        first_at(w, i + 1)
    }
}

/// The current bookmark from `jj log -T bookmarks` output: the first listed
/// bookmark without its `@remote` suffix; `None` when there is none.
pub open spec fn jj_bookmark_of(output: Seq<char>) -> Option<Seq<char>> {
    let t = trimmed(output);
    let w = t.subrange(0, next_white(t, 0));
    let b = w.subrange(0, first_at(w, 0));
    if b.len() == 0 {
        None
    } else {
        Some(b)
    }
}

proof fn lemma_first_at(w: Seq<char>, from: int, i: int)
    requires
        0 <= from <= i <= w.len(),
        forall|j: int| from <= j < i ==> w[j] != '@',
        i == w.len() || w[i] == '@',
    ensures
        first_at(w, from) == i,
    decreases i - from,
{
    if from < i {
        lemma_first_at(w, from + 1, i);
    }
}

fn find_at(w: &str) -> (r: usize)
    ensures
        r == first_at(w@, 0),
        r <= w@.len(),
{
    let m = w.unicode_len();
    let mut i: usize = 0;
    while i < m
        invariant
            m == w@.len(),
            i <= m,
            forall|j: int| 0 <= j < i ==> w@[j] != '@',
        decreases m - i,
    {
        if w.get_char(i) == '@' {
            proof {
                lemma_first_at(w@, 0, i as int);
            }
            return i;
        }
        i += 1;
    }
    proof {
        lemma_first_at(w@, 0, i as int);
    }
    i
}

/// Reads the current bookmark from `jj log -r @- --no-graph -T bookmarks` output.
pub fn parse_jj_bookmark(output: &str) -> (r: Option<String>)
    ensures
        opt_view(r) == jj_bookmark_of(output@),
{
    let t = trim_text(output);
    let n = t.unicode_len();
    let end = find_white(t, 0, n);
    let word = t.substring_char(0, end);
    let at = find_at(word);
    if at == 0 {
        None
    } else {
        let b = word.substring_char(0, at);
        Some(owned(b))
    }
}

/// The first index at or after `i` holding a line feed (`s.len()` if none).
pub open spec fn line_end(s: Seq<char>, i: int) -> int
    decreases s.len() - i,
{
    if i >= s.len() {
        s.len() as int
    } else if s[i] == '\n' {
        i
    } else {
        line_end(s, i + 1)
    }
}

/// The first white-space-separated word of `line` (empty if none).
pub open spec fn first_word(line: Seq<char>) -> Seq<char> {
    let t = trimmed(line);
    t.subrange(0, next_white(t, 0))
}

/// The remote names listed from index `i` on: the first word of each line, for
/// the lines that have one.
pub open spec fn remote_names_from(s: Seq<char>, i: int) -> Seq<Seq<char>>
    decreases s.len() - i,
{
    if i < 0 || i >= s.len() {
        Seq::empty()
    } else {
        let e = line_end(s, i);
        let w = if i <= e <= s.len() {
            first_word(s.subrange(i, e))
        } else {
            Seq::empty()
        };
        let rest = if i <= e < s.len() {
            remote_names_from(s, e + 1)
        } else {
            Seq::empty()
        };
        if w.len() == 0 {
            rest
        } else {
            seq![w] + rest
        }
    }
}

proof fn lemma_line_end(s: Seq<char>, from: int, i: int)
    requires
        0 <= from <= i <= s.len(),
        forall|j: int| from <= j < i ==> s[j] != '\n',
        i == s.len() || s[i] == '\n',
    ensures
        line_end(s, from) == i,
    decreases i - from,
{
    if from < i {
        lemma_line_end(s, from + 1, i);
    }
}

fn find_line_end(s: &str, from: usize, n: usize) -> (r: usize)
    requires
        n == s@.len(),
        from <= n,
    ensures
        r == line_end(s@, from as int),
        from <= r <= n,
{
    let mut i = from;
    while i < n
        invariant
            n == s@.len(),
            from <= i <= n,
            forall|j: int| from <= j < i ==> s@[j] != '\n',
        decreases n - i,
    {
        if s.get_char(i) == '\n' {
            proof {
                lemma_line_end(s@, from as int, i as int);
            }
            return i;
        }
        i += 1;
    }
    proof {
        lemma_line_end(s@, from as int, i as int);
    }
    i
}

/// The remote names in the output of `git remote` or `jj git remote list`: the
/// first word of each non-blank line.
pub fn parse_remote_names(output: &str) -> (r: Vec<String>)
    ensures
        arg_views(r@) == remote_names_from(output@, 0),
{
    let n = output.unicode_len();
    let mut r: Vec<String> = Vec::new();
    let mut i: usize = 0;
    while i < n
        invariant
            n == output@.len(),
            i <= n,
            arg_views(r@) + remote_names_from(output@, i as int) == remote_names_from(output@, 0),
        decreases n - i,
    {
        let e = find_line_end(output, i, n);
        let line = output.substring_char(i, e);
        let t = trim_text(line);
        let tn = t.unicode_len();
        let w_end = find_white(t, 0, tn);
        let ghost before = arg_views(r@);
        let ghost rest = remote_names_from(output@, e + 1);
        if w_end > 0 {
            let w = t.substring_char(0, w_end);
            r.push(owned(w));
            assert(arg_views(r@) =~= before.push(w@));
            assert(before.push(w@) + rest =~= before + (seq![w@] + rest));
        }
        if e >= n {
            i = n;
        } else {
            i = e + 1;
        }
    }
    assert(arg_views(r@) + Seq::<Seq<char>>::empty() =~= arg_views(r@));
    r
}

} // verus!
